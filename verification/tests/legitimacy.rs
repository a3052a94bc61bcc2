use omapak::json::{Json, JsonNumber};
use omapak::legitimacy::{
    legitimacy_report, legitimacy_user_prompt, parse_json_object, web_model, LegitimacyFinding,
};
use omapak::{Metadata, Severity, SourceAccess};

fn metadata(homepage: Option<&str>) -> Metadata {
    Metadata {
        submitter: "jon".into(),
        source_repo: "https://example.com/releases".into(),
        summary: "A test".into(),
        source_access: SourceAccess::Proprietary,
        license: None,
        homepage: homepage.map(String::from),
        description: None,
        tags: vec![],
    }
}

fn obj(fields: Vec<(&str, Json)>) -> Json {
    Json::Object(fields.into_iter().map(|(k, v)| (k.to_string(), v)).collect())
}

fn text(s: &str) -> Json {
    Json::Str(s.to_string())
}

#[test]
fn web_model_defaults_to_the_online_variant() {
    assert_eq!(web_model(None, "vendor/model"), "vendor/model:online");
    assert_eq!(web_model(Some("other".into()), "vendor/model"), "other");
}

#[test]
fn legitimacy_prompt_names_the_app_and_its_channel() {
    let p = legitimacy_user_prompt("com.example.App", &metadata(None));
    assert_eq!(
        p,
        "App ID: com.example.App\nSummary: A test\nHomepage: (none declared)\n\
Declared source/release channel: https://example.com/releases\nSubmitter: jon\n\n\
Research this app's legitimacy and answer in JSON."
    );
    let p = legitimacy_user_prompt("com.example.App", &metadata(Some("https://example.com")));
    assert!(p.contains("Homepage: https://example.com\n"));
}

#[test]
fn legitimacy_reply_becomes_a_report() {
    let reply = obj(vec![
        ("summary", text("Known vendor.")),
        ("confidence", Json::Number(JsonNumber::PosInt(250))),
        (
            "findings",
            Json::Array(vec![
                obj(vec![
                    ("severity", text("critical")),
                    ("detail", text("malware report")),
                    ("source", text("https://x")),
                ]),
                obj(vec![("severity", text("warning")), ("detail", text("odd channel")), ("source", text(""))]),
                obj(vec![("severity", text("other")), ("detail", text("exists"))]),
                obj(vec![("detail", text("no severity"))]),
                text("not an object"),
            ]),
        ),
    ]);
    let r = legitimacy_report("m:online".into(), &reply);
    assert_eq!(r.model, "m:online");
    assert_eq!(r.summary, "Known vendor.");
    assert_eq!(r.confidence, 100);
    assert_eq!(
        r.findings,
        vec![
            LegitimacyFinding {
                severity: Severity::Critical,
                detail: "malware report".into(),
                source: Some("https://x".into()),
            },
            LegitimacyFinding { severity: Severity::Warning, detail: "odd channel".into(), source: None },
            LegitimacyFinding { severity: Severity::Info, detail: "exists".into(), source: None },
        ]
    );
}

#[test]
fn legitimacy_reply_without_fields_is_empty_and_unsure() {
    let r = legitimacy_report("m".into(), &obj(vec![("confidence", Json::Number(JsonNumber::NegInt(-3)))]));
    assert_eq!(r.summary, "no summary returned");
    assert_eq!(r.confidence, 0);
    assert!(r.findings.is_empty());
    let r = legitimacy_report("m".into(), &obj(vec![("confidence", Json::Number(JsonNumber::PosInt(42)))]));
    assert_eq!(r.confidence, 42);
}

#[test]
fn legitimacy_reply_is_read_through_fences() {
    let parsed = parse_json_object("```json\n{\"summary\": \"ok\", \"confidence\": 7}\n```").unwrap();
    let r = legitimacy_report("m".into(), &parsed);
    assert_eq!(r.summary, "ok");
    assert_eq!(r.confidence, 7);
    assert_eq!(parse_json_object("no object").err().unwrap(), "no JSON object in legitimacy response");
    assert!(parse_json_object("{ not json }").is_err());
}

//! Web legitimacy check, proprietary submissions only. The one real risk of
//! shipping closed-source binaries is fronting for something hostile, so the
//! pipeline asks a web-enabled model the questions a careful human would:
//! does this app exist publicly, does the release channel match, is anything
//! known-bad. Findings are published with sources.
use vstd::prelude::*;

use crate::json::{json_text_value, parse_json_text, parsed_view, Json, JsonNumber};
use crate::judge::{braces_in_order, json_object_text, object_text};
use crate::metadata::Metadata;
use crate::schema::Severity;
use crate::text::{opt_view, str_eq};

verus! {

pub const LEGITIMACY_SYSTEM_PROMPT: &'static str = r#"You are the omapak legitimacy checker for closed-source (proprietary) Flatpak submissions. You have web search. Research the app and answer like a careful human doing due diligence:

1. Does the app exist publicly (project page, vendor, store listings, social presence, real users)?
2. Does the release channel in the manifest (source URLs) belong to the actual author/vendor?
3. Any public reports of malware, scams, data harvesting, or hostile behavior attributed to this app or vendor?
4. Does the app-id's domain segment match the vendor's real domain (or a credible namespace)?

Output STRICT JSON only, no prose, no markdown fences:
{
  "summary": "2-4 sentences: what you found and how confident you are",
  "confidence": 0-100,
  "findings": [
    { "severity": "info"|"warning"|"critical", "detail": "what you found", "source": "URL or empty string" }
  ]
}

Severity guidance: "critical" is reserved for documented malware/scam/fraud (you found a credible report saying so). "warning" for mismatches you could not resolve (release channel doesn't clearly belong to the vendor, no public footprint found). "info" for positive confirmations worth recording. Absence of evidence is not a finding; do not invent. Empty findings with low confidence and a summary saying so is a valid answer."#;

/// One thing the legitimacy check found, with where it found it.
#[derive(Debug, Clone, PartialEq)]
pub struct LegitimacyFinding {
    pub severity: Severity,
    pub detail: String,
    /// A URL; `None` when the model gave none.
    pub source: Option<String>,
}

/// What the legitimacy check concluded.
#[derive(Debug, Clone, PartialEq)]
pub struct LegitimacyReport {
    /// The web-enabled model that answered.
    pub model: String,
    pub summary: String,
    /// 0 to 100.
    pub confidence: u8,
    pub findings: Vec<LegitimacyFinding>,
}

/// The web model: `OMAPAK_LLM_WEB_MODEL` when set, else the judge's model
/// with `:online` appended.
pub open spec fn web_model_of(env: Option<Seq<char>>, model: Seq<char>) -> Seq<char> {
    match env {
        Some(m) => m,
        None => model + ":online"@,
    }
}

pub fn web_model(env: Option<String>, model: &str) -> (r: String)
    ensures
        r@ == web_model_of(opt_view(env), model@),
{
    match env {
        Some(m) => m,
        None => {
            let mut r = String::from_str(model);
            r.append(":online");
            r
        },
    }
}

/// The question put to the web model.
pub open spec fn legitimacy_prompt_of(app_id: Seq<char>, m: Metadata) -> Seq<char> {
    "App ID: "@ + app_id + "\nSummary: "@ + m.summary@ + "\nHomepage: "@ + (match m.homepage {
        Some(h) => h@,
        None => "(none declared)"@,
    }) + "\nDeclared source/release channel: "@ + m.source_repo@ + "\nSubmitter: "@ + m.submitter@
        + "\n\nResearch this app's legitimacy and answer in JSON."@
}

pub fn legitimacy_user_prompt(app_id: &str, metadata: &Metadata) -> (r: String)
    ensures
        r@ == legitimacy_prompt_of(app_id@, *metadata),
{
    let mut p = String::from_str("App ID: ");
    p.append(app_id);
    p.append("\nSummary: ");
    p.append(metadata.summary.as_str());
    p.append("\nHomepage: ");
    match &metadata.homepage {
        Some(h) => p.append(h.as_str()),
        None => p.append("(none declared)"),
    }
    p.append("\nDeclared source/release channel: ");
    p.append(metadata.source_repo.as_str());
    p.append("\nSubmitter: ");
    p.append(metadata.submitter.as_str());
    p.append("\n\nResearch this app's legitimacy and answer in JSON.");
    p
}

pub open spec fn no_object_message() -> Seq<char> {
    "no JSON object in legitimacy response"@
}

/// The JSON object in the web model's reply, fences and stray prose
/// tolerated as for the judge's reply.
pub fn parse_json_object(content: &str) -> (r: Result<Json, String>)
    requires
        braces_in_order(content@),
    ensures
        match object_text(content@) {
            None => r matches Err(m) && m@ == no_object_message(),
            Some(t) => parsed_view(r) == json_text_value(t),
        },
{
    match json_object_text(content) {
        None => Err(String::from_str("no JSON object in legitimacy response")),
        Some(t) => parse_json_text(t.as_str()),
    }
}

/// The severity a finding names; anything unknown is informational.
pub open spec fn severity_named(s: Seq<char>) -> Severity {
    if s == "critical"@ {
        Severity::Critical
    } else if s == "warning"@ {
        Severity::Warning
    } else {
        Severity::Info
    }
}

/// A finding by its plain values: severity, detail, source.
pub open spec fn finding_view(f: LegitimacyFinding) -> (Severity, Seq<char>, Option<Seq<char>>) {
    (f.severity, f.detail@, opt_view(f.source))
}

pub open spec fn findings_view(v: Seq<LegitimacyFinding>) -> Seq<(Severity, Seq<char>, Option<Seq<char>>)> {
    v.map_values(|f: LegitimacyFinding| finding_view(f))
}

/// A finding as the reply states it; `None` (the entry is dropped) unless it
/// has a string severity and a string detail. An empty source is no source.
pub open spec fn finding_of(f: Json) -> Option<(Severity, Seq<char>, Option<Seq<char>>)> {
    match (f.str_at("severity"@), f.str_at("detail"@)) {
        (Some(sev), Some(d)) => Some(
            (
                severity_named(sev),
                d,
                match f.str_at("source"@) {
                    Some(s) => if s.len() > 0 {
                        Some(s)
                    } else {
                        None
                    },
                    None => None,
                },
            ),
        ),
        _ => None,
    }
}

/// The findings among `items`, in order.
pub open spec fn findings_of(items: Seq<Json>) -> Seq<(Severity, Seq<char>, Option<Seq<char>>)>
    decreases items.len(),
{
    if items.len() == 0 {
        seq![]
    } else {
        let rest = findings_of(items.drop_last());
        match finding_of(items.last()) {
            Some(f) => rest.push(f),
            None => rest,
        }
    }
}

/// The findings of a reply: those of its `findings` array, none without one.
pub open spec fn findings_in(v: Json) -> Seq<(Severity, Seq<char>, Option<Seq<char>>)> {
    match v.array_at("findings"@) {
        Some(items) => findings_of(items),
        None => seq![],
    }
}

pub open spec fn summary_of(v: Json) -> Seq<char> {
    match v.str_at("summary"@) {
        Some(s) => s,
        None => "no summary returned"@,
    }
}

/// `confidence` when it is a non-negative integer, capped at 100; 0 otherwise.
pub open spec fn confidence_of(v: Json) -> u8 {
    match v.get("confidence"@) {
        Some(Json::Number(JsonNumber::PosInt(n))) => if n < 100 {
            n as u8
        } else {
            100
        },
        _ => 0,
    }
}

fn severity_from(s: &str) -> (r: Severity)
    ensures
        r == severity_named(s@),
{
    proof {
        reveal_strlit("critical");
        reveal_strlit("warning");
    }
    if str_eq(s, "critical") {
        Severity::Critical
    } else if str_eq(s, "warning") {
        Severity::Warning
    } else {
        Severity::Info
    }
}

fn finding_from(f: &Json) -> (r: Option<LegitimacyFinding>)
    ensures
        match r {
            Some(x) => finding_of(*f) == Some(finding_view(x)),
            None => finding_of(*f) is None,
        },
{
    let sev = match f.str_field("severity") {
        Some(s) => s,
        None => return None,
    };
    let detail = match f.str_field("detail") {
        Some(d) => d,
        None => return None,
    };
    let source = match f.str_field("source") {
        Some(s) => if s.as_str().unicode_len() > 0 {
            Some(s)
        } else {
            None
        },
        None => None,
    };
    Some(LegitimacyFinding { severity: severity_from(sev.as_str()), detail, source })
}

/// The report the web model's parsed reply makes.
pub fn legitimacy_report(model: String, parsed: &Json) -> (r: LegitimacyReport)
    ensures
        r.model == model,
        r.summary@ == summary_of(*parsed),
        r.confidence == confidence_of(*parsed),
        findings_view(r.findings@) == findings_in(*parsed),
{
    let mut findings: Vec<LegitimacyFinding> = Vec::new();
    match parsed.array_field("findings") {
        Some(items) => {
            let mut i: usize = 0;
            while i < items.len()
                invariant
                    i <= items@.len(),
                    findings_view(findings@) == findings_of(items@.take(i as int)),
                decreases items@.len() - i,
            {
                assert(items@.take(i + 1).drop_last() =~= items@.take(i as int));
                match finding_from(&items[i]) {
                    Some(x) => {
                        assert(findings_view(findings@.push(x)) =~= findings_view(findings@).push(
                            finding_view(x),
                        ));
                        findings.push(x);
                    },
                    None => {},
                }
                i += 1;
            }
            assert(items@.take(items@.len() as int) =~= items@);
        },
        None => {
            assert(findings_view(findings@) =~= seq![]);
        },
    }
    let summary = match parsed.str_field("summary") {
        Some(s) => s,
        None => String::from_str("no summary returned"),
    };
    let confidence: u8 = match parsed.lookup("confidence") {
        Some(Json::Number(JsonNumber::PosInt(n))) => if *n < 100 {
            *n as u8
        } else {
            100
        },
        _ => 0,
    };
    LegitimacyReport { model, summary, confidence, findings }
}

} // verus!

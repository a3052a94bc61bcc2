use omapak::judge::{
    braces_ordered, config_from_env, extract_content, json_object_text, judge_start, judge_step,
    redact_base_url, ContentError, JudgeAction, JudgeEvent, JudgeFailure, JudgeState,
};
use omapak::{Differentiation, Rubric, RubricScore};

fn s(x: &str) -> Option<String> {
    Some(x.to_string())
}

#[test]
fn judge_config_needs_all_three_or_none() {
    let c = config_from_env(s("https://x/v1"), s("k"), s("m")).unwrap().unwrap();
    assert_eq!((c.base_url.as_str(), c.key.as_str(), c.model.as_str()), ("https://x/v1", "k", "m"));
    assert!(config_from_env(None, None, None).unwrap().is_none());
    let partial = "OMAPAK_LLM_* partially set — set all three (BASE_URL, KEY, MODEL) or none";
    assert_eq!(config_from_env(s("u"), None, s("m")).err().unwrap(), partial);
    assert_eq!(config_from_env(s("u"), s(""), s("m")).err().unwrap(), partial);
}

#[test]
fn base_url_keeps_the_host_and_drops_scheme_and_credentials() {
    assert_eq!(redact_base_url("https://user:pw@api.example.com/v1"), "api.example.com/v1");
    assert_eq!(redact_base_url("https://key@host"), "host");
    assert_eq!(redact_base_url("https://a@b@host:8080/v1/x@y"), "host:8080/v1/x@y");
    assert_eq!(redact_base_url("http://host/path@v2"), "host/path@v2");
    assert_eq!(redact_base_url("https://openrouter.ai/api/v1"), "openrouter.ai/api/v1");
    assert_eq!(redact_base_url("localhost:8080"), "localhost:8080");
    assert_eq!(redact_base_url("a//b//c"), "c");
    assert_eq!(redact_base_url("a///b"), "b");
    for url in ["https://u:p@host/v1", "a//b//c", "plain", "x///"] {
        let once = redact_base_url(url);
        assert!(!once.contains("//"));
        assert_eq!(redact_base_url(&once), once);
    }
}

#[test]
fn json_object_is_found_inside_fences_and_prose() {
    let raw = r#"{"a": {"b": 1}}"#;
    assert_eq!(json_object_text(&format!("```json\n{raw}\n```")).as_deref(), Some(raw));
    assert_eq!(json_object_text(&format!("Here is my evaluation:\n{raw}")).as_deref(), Some(raw));
    assert_eq!(json_object_text(&format!("  {raw}  ")).as_deref(), Some(raw));
    assert_eq!(json_object_text("no object here"), None);
    assert_eq!(json_object_text("{ unterminated"), None);
    assert!(braces_ordered("}{"));
    assert_eq!(json_object_text("}{").as_deref(), Some(""));
    assert!(!braces_ordered("} x {"));
}

#[test]
fn reply_content_is_read_from_the_first_choice() {
    let body = r#"{"choices": [{"message": {"role": "assistant", "content": "hi"}}]}"#;
    assert_eq!(extract_content(body).unwrap(), "hi");
    assert_eq!(extract_content("<html>"), Err(ContentError::NotJson));
    assert_eq!(extract_content(r#"{"choices": []}"#), Err(ContentError::NoContent));
    assert_eq!(extract_content(r#"{"choices": [{"message": {"content": 3}}]}"#), Err(ContentError::NoContent));
    assert_eq!(ContentError::NotJson.message(), "endpoint returned non-JSON body");
}

fn rubric(score: u8) -> Rubric {
    let rs = |n: u8| RubricScore { score: n, rationale: "x".into() };
    Rubric {
        problem_clarity: rs(score),
        differentiation: Differentiation { score: 3, rationale: "x".into(), better_alternatives: vec![] },
        architecture: rs(3),
        code_quality: rs(3),
        ui_ux: rs(3),
        packaging_hygiene: rs(3),
        security_flags: vec![],
    }
}

#[test]
fn judge_retries_without_json_mode_after_a_400() {
    let (st, act) = judge_start();
    assert!(matches!(act, JudgeAction::Send { json_mode: true }));
    // the endpoint refuses response_format: retry bare
    let (st, act) = judge_step(st, JudgeEvent::Status { code: 400 });
    assert_eq!(st.attempt, 1);
    assert!(st.bare);
    assert!(matches!(act, JudgeAction::Send { json_mode: false }));
    // a bare request that gets a 400 is the endpoint's failure
    let (_, act) = judge_step(st, JudgeEvent::Status { code: 400 });
    assert!(matches!(act, JudgeAction::Fail(JudgeFailure::Endpoint { code: 400 })));
    // and a valid rubric on the bare retry is accepted after two requests
    let (st, _) = judge_start();
    let (st, _) = judge_step(st, JudgeEvent::Status { code: 400 });
    let (_, act) = judge_step(st, JudgeEvent::Reply { content: "{}".into(), parsed: Ok(rubric(4)) });
    assert!(matches!(act, JudgeAction::Accept(_)));
}

#[test]
fn corrections_after_a_refused_json_mode_stay_bare() {
    let (st, _) = judge_start();
    let (st, _) = judge_step(st, JudgeEvent::Status { code: 400 });
    let (st, act) = judge_step(st, JudgeEvent::Reply { content: "x".into(), parsed: Err("e".into()) });
    assert!(matches!(act, JudgeAction::Correct { json_mode: false, .. }));
    assert_eq!(st.attempt, 2);
}

#[test]
fn judge_corrects_then_gives_up_after_three_requests() {
    let st = JudgeState { attempt: 0, corrected: false, bare: false };
    let (st, act) = judge_step(st, JudgeEvent::Reply { content: "nope".into(), parsed: Err("expected value".into()) });
    match act {
        JudgeAction::Correct { reply, note, json_mode } => {
            assert_eq!(reply, "nope");
            assert_eq!(note, "That did not parse as JSON (expected value). Respond again with strict JSON only, no prose, no markdown fences.");
            assert!(json_mode);
        }
        _ => panic!("expected a correction"),
    }
    assert!(st.corrected);
    // after a correction a 400 is a hard failure
    let (_, act) = judge_step(JudgeState { attempt: 1, corrected: true, bare: false }, JudgeEvent::Status { code: 400 });
    assert!(matches!(act, JudgeAction::Fail(JudgeFailure::Endpoint { code: 400 })));
    let (st, act) = judge_step(st, JudgeEvent::Reply { content: "{}".into(), parsed: Ok(rubric(9)) });
    match act {
        JudgeAction::Correct { note, json_mode, .. } => {
            assert_eq!(note, "Your JSON parsed but failed validation: problem_clarity score 9 out of range 0-5. Respond again with corrected strict JSON, no prose.");
            assert!(!json_mode);
        }
        _ => panic!("expected a correction"),
    }
    assert_eq!(st.attempt, 2);
    let (_, act) = judge_step(st, JudgeEvent::Reply { content: "x".into(), parsed: Err("e".into()) });
    assert!(matches!(act, JudgeAction::Fail(JudgeFailure::Exhausted)));
}

#[test]
fn judge_accepts_a_valid_rubric_and_fails_on_server_errors() {
    let (st, _) = judge_start();
    let (_, act) = judge_step(st, JudgeEvent::Reply { content: "{}".into(), parsed: Ok(rubric(4)) });
    assert!(matches!(act, JudgeAction::Accept(r) if r.problem_clarity.score == 4));
    let (_, act) = judge_step(JudgeState { attempt: 0, corrected: false, bare: false }, JudgeEvent::Status { code: 502 });
    assert!(matches!(act, JudgeAction::Fail(JudgeFailure::Endpoint { code: 502 })));
    let (_, act) = judge_step(JudgeState { attempt: 0, corrected: false, bare: false }, JudgeEvent::Unreadable(ContentError::NoContent));
    assert!(matches!(act, JudgeAction::Fail(JudgeFailure::Unreadable(ContentError::NoContent))));
}

use omapak::schema::{decide_verdict, gates_only_verdict};
use omapak::{
    compute_verdict, Differentiation, LinterRun, LinterStatus, ManifestInfo, Rubric, RubricScore,
    SecurityFlag, Severity, StaticReport, Verdict,
};

fn score(n: u8) -> RubricScore {
    RubricScore { score: n, rationale: "test".into() }
}

fn rubric_with(avg_dim: u8, packaging: u8, security: Vec<SecurityFlag>) -> Rubric {
    Rubric {
        problem_clarity: score(avg_dim),
        differentiation: Differentiation {
            score: avg_dim,
            rationale: "test".into(),
            better_alternatives: vec![],
        },
        architecture: score(avg_dim),
        code_quality: score(avg_dim),
        ui_ux: score(avg_dim),
        packaging_hygiene: score(packaging),
        security_flags: security,
    }
}

#[test]
fn verdict_gates() {
    let critical = SecurityFlag { severity: Severity::Critical, detail: "obfuscated payload".into() };
    assert_eq!(compute_verdict(&rubric_with(5, 5, vec![]), true), Verdict::AcceptRecommended);
    assert_eq!(compute_verdict(&rubric_with(5, 5, vec![]), false), Verdict::RejectRecommended);
    assert_eq!(
        compute_verdict(&rubric_with(5, 5, vec![critical]), true),
        Verdict::RejectRecommended
    );
    assert_eq!(compute_verdict(&rubric_with(5, 1, vec![]), true), Verdict::RejectRecommended);
    assert_eq!(compute_verdict(&rubric_with(2, 5, vec![]), true), Verdict::NeedsHuman);
    let warning = SecurityFlag { severity: Severity::Warning, detail: "unexplained endpoint".into() };
    assert_eq!(compute_verdict(&rubric_with(5, 5, vec![warning]), true), Verdict::NeedsHuman);
}

#[test]
fn rubric_validation_rejects_out_of_range() {
    let mut r = rubric_with(4, 5, vec![]);
    r.code_quality.score = 6;
    assert!(r.validate().is_err());
    assert!(rubric_with(4, 5, vec![]).validate().is_ok());
}

#[test]
fn validation_names_the_first_offending_dimension() {
    let mut r = rubric_with(4, 5, vec![]);
    r.ui_ux.score = 9;
    r.packaging_hygiene.score = 200;
    assert_eq!(r.validate(), Err("ui_ux score 9 out of range 0-5".to_string()));
    let mut r = rubric_with(4, 5, vec![]);
    r.packaging_hygiene.score = 200;
    assert_eq!(r.validate(), Err("packaging_hygiene score 200 out of range 0-5".to_string()));
}

#[test]
fn accept_threshold_is_a_mean_of_three_and_a_half() {
    // sum 18 (mean 3.6) accepts, sum 17 (mean 3.4) does not
    let mut r = rubric_with(4, 5, vec![]);
    r.problem_clarity.score = 2;
    assert_eq!(r.advisory_sum(), 18);
    assert_eq!(compute_verdict(&r, true), Verdict::AcceptRecommended);
    r.architecture.score = 3;
    assert_eq!(r.advisory_sum(), 17);
    assert_eq!(compute_verdict(&r, true), Verdict::NeedsHuman);
}

#[test]
fn packaging_gate_is_two() {
    assert_eq!(compute_verdict(&rubric_with(5, 2, vec![]), true), Verdict::AcceptRecommended);
    assert_eq!(compute_verdict(&rubric_with(5, 1, vec![]), true), Verdict::RejectRecommended);
}

#[test]
fn differentiation_alone_never_rejects() {
    let mut r = rubric_with(5, 5, vec![]);
    r.differentiation.score = 0;
    r.differentiation.better_alternatives = vec!["com.example.Better".into()];
    assert_ne!(compute_verdict(&r, true), Verdict::RejectRecommended);
}

#[test]
fn higher_scores_never_hurt_on_examples() {
    let low = compute_verdict(&rubric_with(3, 2, vec![]), true);
    let high = compute_verdict(&rubric_with(4, 3, vec![]), true);
    assert_eq!(low, Verdict::NeedsHuman);
    assert_eq!(high, Verdict::AcceptRecommended);
}

fn manifest(app_id: &str) -> ManifestInfo {
    ManifestInfo {
        app_id: app_id.into(),
        runtime: None,
        runtime_version: None,
        sdk: None,
        base: None,
        base_version: None,
        finish_args: vec![],
        modules: vec![],
        command: None,
    }
}

#[test]
fn gates_only_verdict_rejects_without_manifest_or_on_lint_errors() {
    let mut s = StaticReport::default();
    assert_eq!(gates_only_verdict(&s, true), Verdict::RejectRecommended);
    s.manifest = Some(manifest("io.example.App"));
    assert_eq!(gates_only_verdict(&s, true), Verdict::NeedsHuman);
    assert_eq!(gates_only_verdict(&s, false), Verdict::RejectRecommended);
    s.linters.push(LinterRun {
        tool: "appstreamcli".into(),
        status: LinterStatus::Failed,
        findings: vec!["E: error in metainfo".into()],
    });
    assert_eq!(gates_only_verdict(&s, true), Verdict::NeedsHuman);
    s.linters.push(LinterRun {
        tool: "flatpak-builder-lint".into(),
        status: LinterStatus::Failed,
        findings: vec!["warning: x".into(), "appid-code-missing: error".into()],
    });
    assert_eq!(gates_only_verdict(&s, true), Verdict::RejectRecommended);
}

#[test]
fn pending_assisted_judging_caps_at_needs_human() {
    let s = StaticReport::default();
    let r = rubric_with(5, 5, vec![]);
    assert_eq!(decide_verdict(Some(&r), &s, true, false), Verdict::AcceptRecommended);
    assert_eq!(decide_verdict(Some(&r), &s, true, true), Verdict::NeedsHuman);
    assert_eq!(decide_verdict(Some(&r), &s, false, true), Verdict::RejectRecommended);
    assert_eq!(decide_verdict(None, &s, true, false), Verdict::RejectRecommended);
}

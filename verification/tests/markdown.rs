use omapak::markdown::{bar, escape_table, first_sentence, rubric_row, verdict_label};
use omapak::{
    render_markdown, BuildReport, Differentiation, Report, Rubric, RubricScore, SecurityFlag,
    Severity, StaticAdvisory, StaticReport, Verdict,
};

fn report() -> Report {
    Report {
        schema_version: 1,
        app_id: "io.outcroplabs.TestApp".into(),
        created_at: chrono::Utc::now().to_rfc3339(),
        static_report: Default::default(),
        build: BuildReport { ok: true, duration_secs: 30, log_tail: vec![] },
        dynamic: None,
        rubric: Some(Rubric {
            problem_clarity: RubricScore { score: 4, rationale: "clear".into() },
            differentiation: Differentiation {
                score: 2,
                rationale: "clone of existing".into(),
                better_alternatives: vec!["com.example.Better".into()],
            },
            architecture: RubricScore { score: 3, rationale: "fine".into() },
            code_quality: RubricScore { score: 3, rationale: "ok | has pipes".into() },
            ui_ux: RubricScore { score: 4, rationale: "nice".into() },
            packaging_hygiene: RubricScore { score: 5, rationale: "clean".into() },
            security_flags: vec![],
        }),
        verdict: Verdict::AcceptRecommended,
        judge: None,
    }
}

#[test]
fn markdown_escapes_and_renders() {
    let md = render_markdown(&report());
    assert!(md.contains("com.example.Better"));
    assert!(md.contains("3/5"));
}

#[test]
fn markdown_renders_the_whole_comment() {
    let mut r = report();
    r.build.ok = false;
    if let Some(rb) = r.rubric.as_mut() {
        rb.security_flags.push(SecurityFlag { severity: Severity::Warning, detail: "odd | host\nhere".into() });
        rb.differentiation.better_alternatives.push("org.example.Other".into());
    }
    r.static_report = StaticReport::default();
    r.static_report.advisories.push(StaticAdvisory { kind: "manifest".into(), detail: "no modules".into() });
    let md = render_markdown(&r);
    assert_eq!(
        md,
        "## omapak judge · `io.outcroplabs.TestApp`\n\n\
**Build failed.** Fix the manifest and push.\n\n\
| dimension | score | note |\n|---|---|---|\n\
| clarity | ■■■■□ 4/5 | clear. |\n\
| architecture | ■■■□□ 3/5 | fine. |\n\
| code | ■■■□□ 3/5 | ok \\| has pipes. |\n\
| ui/ux | ■■■■□ 4/5 | nice. |\n\
| packaging | ■■■■■ 5/5 | clean. |\n\
| uniqueness | ■■□□□ 2/5 | clone of existing. |\n\
\n\
**Security:**\n- [warning] odd \\| host here\n\n\
**Similar apps:** com.example.Better, org.example.Other\n\n\
**Advisories:**\n- manifest: no modules\n\n"
    );
}

#[test]
fn markdown_without_rubric_or_advisories_is_just_the_heading() {
    let mut r = report();
    r.rubric = None;
    assert_eq!(render_markdown(&r), "## omapak judge · `io.outcroplabs.TestApp`\n\n");
}

#[test]
fn first_sentence_stops_at_the_first_full_stop() {
    assert_eq!(first_sentence("  Solid work. Could be better."), "Solid work.");
    assert_eq!(first_sentence("no stop here "), "no stop here.");
    assert_eq!(first_sentence(""), ".");
}

#[test]
fn escaped_cells_hold_one_line() {
    let e = escape_table("a|b\nc||");
    assert_eq!(e, "a\\|b c\\|\\|");
    assert!(!e.contains('\n'));
}

#[test]
fn bars_cap_at_five() {
    assert_eq!(bar(3), "■■■□□ 3/5");
    assert_eq!(bar(9), "■■■■■ 5/5");
    assert_eq!(bar(0), "□□□□□ 0/5");
    assert_eq!(
        rubric_row("code", &RubricScore { score: 1, rationale: "x|y".into() }),
        "| code | ■□□□□ 1/5 | x\\|y |\n"
    );
}

#[test]
fn verdict_labels() {
    assert_eq!(verdict_label(Verdict::AcceptRecommended), "ACCEPT recommended");
    assert_eq!(verdict_label(Verdict::NeedsHuman), "NEEDS HUMAN");
    assert_eq!(verdict_label(Verdict::RejectRecommended), "REJECT recommended");
}

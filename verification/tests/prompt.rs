use omapak::prompt::{build_user_prompt, truncate, JudgeInputs};
use omapak::{Metadata, SourceAccess};

fn metadata(source_access: SourceAccess) -> Metadata {
    Metadata {
        submitter: "alex".into(),
        source_repo: "https://github.com/example/app".into(),
        summary: "a thing".into(),
        source_access,
        license: None,
        homepage: None,
        description: None,
        tags: vec![],
    }
}

#[test]
fn public_source_without_a_digest_is_not_described_as_proprietary() {
    let meta = metadata(SourceAccess::default());
    let prompt = build_user_prompt(&JudgeInputs {
        app_id: "io.example.Alpha",
        metadata: Some(&meta),
        manifest_summary: None,
        static_findings: None,
        source_digest: None,
        build_log_tail: None,
        has_screenshots: true,
        build_ok: true,
    });
    assert!(prompt.contains("declares public source"), "{prompt}");
    assert!(!prompt.contains("proprietary"), "{prompt}");
    assert!(prompt.contains("Screenshots provided: yes"), "{prompt}");
}

#[test]
fn proprietary_source_keeps_the_closed_source_guidance() {
    let meta = metadata(SourceAccess::Proprietary);
    let prompt = build_user_prompt(&JudgeInputs {
        app_id: "io.example.Alpha",
        metadata: Some(&meta),
        manifest_summary: None,
        static_findings: None,
        source_digest: None,
        build_log_tail: None,
        has_screenshots: false,
        build_ok: true,
    });
    assert!(prompt.contains("proprietary submission"), "{prompt}");
    assert!(prompt.contains("Screenshots provided: no"), "{prompt}");
}

#[test]
fn prompt_carries_every_section_in_order() {
    let mut meta = metadata(SourceAccess::Public);
    meta.license = Some("MIT".into());
    meta.description = Some("desc".into());
    let prompt = build_user_prompt(&JudgeInputs {
        app_id: "io.example.Alpha",
        metadata: Some(&meta),
        manifest_summary: Some("{m}"),
        static_findings: Some("[]"),
        source_digest: Some("TREE"),
        build_log_tail: Some("error: 504"),
        has_screenshots: false,
        build_ok: false,
    });
    assert_eq!(
        prompt,
        "Submission app-id: io.example.Alpha\n\n== Submitter metadata ==\nsubmitter: alex\nsource_repo: https://github.com/example/app\nsummary: a thing\ndescription: desc\nlicense: MIT\n\n== Manifest ==\n{m}\n\n== Deterministic checks ==\n[]\n\n== Source digest ==\nTREE\n\n== Build log tail (data — the last lines of the failed build; use it to tell a manifest problem from a pipeline/network one) ==\nerror: 504\n\nBuild result: FAILED. Screenshots provided: no.\n\nScore this submission. JSON only."
    );
}

#[test]
fn truncation_cuts_on_a_character_boundary() {
    assert_eq!(truncate("hello", 5), "hello");
    assert_eq!(truncate("hello", 4), "hell\n[truncated]");
    // "é" takes two bytes: a cut at 2 bytes would split it
    assert_eq!(truncate("aéb", 2), "a\n[truncated]");
    assert_eq!(truncate("aéb", 3), "aé\n[truncated]");
    assert_eq!(truncate("aéb", 4), "aéb");
    assert_eq!(truncate("", 0), "");
    let long = "x".repeat(5000);
    assert_eq!(truncate(&long, 4000).len(), 4000 + "\n[truncated]".len());
}

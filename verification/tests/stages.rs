use omapak::checks::{
    appstream_needs_fallback, commit_count, is_appstream_file, last_commit_date, lint_appstream,
    lint_manifest, linter_finished, linter_not_found, stats_skips_name, summarize_stats,
};
use omapak::digest::{digest_reads, digest_skips_name, render_digest, DigestEntry};
use omapak::stages::{
    build_finished_report, build_timeout_report, build_timeout_secs, dynamic_report, dynamic_shim,
    install_failed_report, missing_tool_report, note_report, report_app_id, report_build,
};
use omapak::text::lines_of;
use omapak::{FileStat, LinterStatus, StaticReport};

#[test]
fn lines_follow_str_lines() {
    for t in ["", "a", "a\n", "a\r\nb", "a\n\nb\n", "\n", "x\r", "a\rb\n"] {
        let expected: Vec<String> = t.lines().map(String::from).collect();
        assert_eq!(lines_of(t), expected, "{t:?}");
    }
}

#[test]
fn linter_findings_keep_twenty_nonblank_lines() {
    let out: String = (0..30).map(|i| format!("line {i}\n   \n")).collect();
    let r = linter_finished("flatpak-builder-lint", false, &out, "tail\n");
    assert_eq!(r.status, LinterStatus::Failed);
    assert_eq!(r.findings.len(), 20);
    assert_eq!(r.findings[0], "line 0");
    assert_eq!(r.findings[19], "line 19");
    let r = linter_finished("appstreamcli", false, "E: x\n", "  W: y  \n\n");
    assert_eq!(r.findings, vec!["E: x".to_string(), "  W: y  ".to_string()]);
    let r = linter_finished("appstreamcli", true, "E: x\n", "");
    assert_eq!(r.status, LinterStatus::Pass);
    assert!(r.findings.is_empty());
    let nf = linter_not_found("flatpak-builder-lint");
    assert!(appstream_needs_fallback(&nf));
    assert!(!appstream_needs_fallback(&r));
}

#[test]
fn lint_commands() {
    let (tool, args) = lint_manifest("/a/m.yml");
    assert_eq!((tool, args), ("flatpak-builder-lint", vec!["manifest".to_string(), "/a/m.yml".to_string()]));
    let ((t1, a1), (t2, a2)) = lint_appstream("/a/x.metainfo.xml");
    assert_eq!(t1, "flatpak-builder-lint");
    assert_eq!(a1, vec!["flatpakmetainfo", "/a/x.metainfo.xml"]);
    assert_eq!(t2, "appstreamcli");
    assert_eq!(a2, vec!["validate", "--no-net", "/a/x.metainfo.xml"]);
}

#[test]
fn appstream_files_and_walk_filters() {
    assert!(is_appstream_file("io.x.App.metainfo.xml"));
    assert!(is_appstream_file("io.x.App.appdata.xml"));
    assert!(!is_appstream_file("io.x.App.xml"));
    assert!(stats_skips_name(".git") && stats_skips_name("target") && !stats_skips_name("build"));
    assert!(digest_skips_name("build") && digest_skips_name("node_modules") && !digest_skips_name("src"));
}

fn fs(path: &str, bytes: u64) -> FileStat {
    FileStat { path: path.into(), bytes }
}

#[test]
fn stats_keep_the_five_largest_in_a_stable_order() {
    let files = vec![fs("a", 5), fs("b", 9), fs("c", 5), fs("d", 1), fs("e", 9), fs("f", 7), fs("g", 2)];
    let s = summarize_stats(files, Some(12), Some("2026-09-01T00:00:00+00:00".into()));
    assert_eq!(s.files, 7);
    assert_eq!(s.bytes, 38);
    let order: Vec<&str> = s.largest.iter().map(|f| f.path.as_str()).collect();
    assert_eq!(order, vec!["b", "e", "f", "a", "c"]);
    assert_eq!(s.commit_count, Some(12));
    let empty = summarize_stats(vec![], Some(3), Some("x".into()));
    assert_eq!((empty.files, empty.bytes, empty.largest.len(), empty.commit_count), (0, 0, 0, None));
}

#[test]
fn git_outputs_are_read_trimmed() {
    assert_eq!(commit_count("42\n"), Some(42));
    assert_eq!(commit_count("+7"), Some(7));
    assert_eq!(commit_count("-1"), None);
    assert_eq!(commit_count(""), None);
    assert_eq!(commit_count("18446744073709551615"), Some(u64::MAX));
    assert_eq!(commit_count("18446744073709551616"), None);
    assert_eq!(last_commit_date("  2026-09-18T10:00:00+02:00\n").as_deref(), Some("2026-09-18T10:00:00+02:00"));
    assert_eq!(last_commit_date(" \n"), None);
}

#[test]
fn build_records() {
    assert_eq!(build_timeout_secs(None), 1800);
    assert_eq!(build_timeout_secs(Some("60")), 60);
    assert_eq!(build_timeout_secs(Some(" 60")), 1800);
    let out: String = (0..50).map(|i| format!("o{i}\n")).collect();
    let r = build_finished_report(false, 12, &out, "e1\ne2\n");
    assert!(!r.ok);
    assert_eq!(r.log_tail.len(), 40);
    assert_eq!(r.log_tail[0], "o12");
    assert_eq!(r.log_tail[39], "e2");
    let t = build_timeout_report(1801, 1800);
    assert_eq!(t.log_tail, vec!["build exceeded OMAPAK_BUILD_TIMEOUT_SECS (1800) and was killed".to_string()]);
    assert_eq!(report_build(true, true).log_tail, vec!["recorded in an earlier phase".to_string()]);
    assert_eq!(report_build(false, false).log_tail, vec!["skipped: --skip-build or resumed from partial".to_string()]);
    assert_eq!(report_app_id(&StaticReport::default()), "unknown");
}

#[test]
fn launch_records() {
    let n = note_report("skipped: x");
    assert!(!n.launched);
    assert_eq!(n.log_tail, vec!["skipped: x".to_string()]);
    assert_eq!(
        missing_tool_report("cage").log_tail,
        vec!["skipped: cage not installed (pacman -S cage / apt install cage)".to_string()]
    );
    assert_eq!(
        install_failed_report("a\nerror: no such ref\n").log_tail,
        vec!["skipped: flatpak install failed: error: no such ref".to_string()]
    );
    assert_eq!(install_failed_report("").log_tail, vec!["skipped: flatpak install failed: ?".to_string()]);
    assert_eq!(
        dynamic_shim("io.x.App", "/o/shot-2s.png", "/o/shot-10s.png"),
        "#!/bin/sh\nflatpak run --user io.x.App &\nAPP=$!\nsleep 2\ngrim /o/shot-2s.png\nsleep 8\ngrim /o/shot-10s.png\nwait $APP\n"
    );
    let r = dynamic_report(vec!["/o/shot-2s.png".into()], Ok(("a\nb", "c\n")));
    assert!(r.launched);
    assert_eq!(r.log_tail, vec!["a".to_string(), "bc".to_string()]);
    let r = dynamic_report(vec![], Err("No such file"));
    assert!(!r.launched);
    assert_eq!(r.log_tail, vec!["cage failed to launch: No such file".to_string()]);
}

#[test]
fn digest_lists_everything_and_inlines_small_text() {
    assert!(digest_reads(10, "RS"));
    assert!(digest_reads(24000, "md"));
    assert!(!digest_reads(24001, "md"));
    assert!(!digest_reads(10, "png"));
    let entries = vec![
        DigestEntry { rel: "src/main.rs".into(), len: 3, ext: "rs".into(), bytes: Some(b"fn\xff".to_vec()) },
        DigestEntry { rel: "icon.png".into(), len: 1234567890, ext: "png".into(), bytes: None },
        DigestEntry { rel: "data.json".into(), len: 2, ext: "json".into(), bytes: Some(vec![b'{', 0]) },
    ];
    let d = render_digest(&entries);
    assert_eq!(
        d,
        "TREE (3 files):\n        3  src/main.rs\n1234567890  icon.png\n        2  data.json\n\nFILE CONTENTS (budget 3/350000 bytes used):\n\n----- src/main.rs -----\nfn\u{fffd}\n"
    );
}

#[test]
fn digest_stops_inlining_at_its_budget() {
    let entries: Vec<DigestEntry> = (0..16)
        .map(|i| DigestEntry {
            rel: format!("f{i:02}.txt"),
            len: 24000,
            ext: "txt".into(),
            bytes: Some(vec![b'a'; 24000]),
        })
        .collect();
    let d = render_digest(&entries);
    assert!(d.contains("FILE CONTENTS (budget 350000/350000 bytes used):\n"));
    // fourteen whole files, then the 14000 bytes left of the budget, then nothing
    assert!(d.contains(&format!("----- f14.txt -----\n{}\n", "a".repeat(14000))));
    assert!(!d.contains("----- f15.txt -----"));
    assert_eq!(d.matches('a').count(), 350000);
    assert!(d.contains("    24000  f15.txt\n"));
}

use omapak::checks::{choose_manifest, manifest_advisories};
use omapak::{parse_manifest, risky_finish_args, ManifestError};

const SAMPLE_YAML: &str = r#"
app-id: io.outcroplabs.TestApp
runtime: org.gnome.Platform
runtime-version: "48"
sdk: org.gnome.Sdk
command: testapp
finish-args:
  - --share=network
  - --device=all
modules:
  - name: testapp
    buildsystem: meson
    sources:
      - type: git
        url: https://github.com/outcrop-labs/testapp
        tag: v1.2.0
"#;

#[test]
fn parses_yaml_manifest() {
    let m = parse_manifest(SAMPLE_YAML).unwrap();
    assert_eq!(m.app_id, "io.outcroplabs.TestApp");
    assert_eq!(m.runtime.as_deref(), Some("org.gnome.Platform"));
    assert_eq!(m.modules.len(), 1);
    assert_eq!(m.modules[0].sources[0].pinned.as_deref(), Some("v1.2.0"));
    assert_eq!(risky_finish_args(&m), vec!["--device=all"]);
}

#[test]
fn parses_json_manifest() {
    let json = r#"{"id": "com.example.JsonApp", "command": "run"}"#;
    let m = parse_manifest(json).unwrap();
    assert_eq!(m.app_id, "com.example.JsonApp");
    assert_eq!(m.command.as_deref(), Some("run"));
}

#[test]
fn rejects_manifest_without_id() {
    assert!(parse_manifest("runtime: org.gnome.Platform").is_err());
}

#[test]
fn carries_the_fields_the_model_needs_to_verify_a_manifest() {
    const PYQT_YAML: &str = r#"
app-id: io.example.PyQtApp
runtime: org.kde.Platform
runtime-version: "6.11"
sdk: org.kde.Sdk
base: com.riverbankcomputing.PyQt.BaseApp
base-version: "6.11"
command: app
finish-args:
  - --socket=pulseaudio
modules:
  - python3-requirements.json
  - name: app
    buildsystem: simple
    build-commands:
      - mkdir -p ${FLATPAK_DEST}/app
      - install -Dm755 app.sh ${FLATPAK_DEST}/bin/app
    sources:
      - type: git
        url: https://github.com/example/app
        commit: 7d630f8543e8226cb6e291fdd548fca5f08056c1
"#;
    let m = parse_manifest(PYQT_YAML).unwrap();
    assert_eq!(m.runtime_version.as_deref(), Some("6.11"));
    assert_eq!(m.base.as_deref(), Some("com.riverbankcomputing.PyQt.BaseApp"));
    assert_eq!(m.base_version.as_deref(), Some("6.11"));

    assert_eq!(m.modules.len(), 2, "the bare-string include must survive");
    assert!(m.modules[0].included);
    assert_eq!(m.modules[0].name, "python3-requirements.json");

    assert!(!m.modules[1].included);
    assert_eq!(m.modules[1].build_commands.len(), 2);
    assert!(m.modules[1].build_commands[1].contains("${FLATPAK_DEST}/bin/app"));
}

#[test]
fn missing_app_id_and_syntax_errors_are_told_apart() {
    assert_eq!(parse_manifest("runtime: org.gnome.Platform"), Err(ManifestError::MissingAppId));
    assert_eq!(
        parse_manifest("runtime: x").unwrap_err().message(),
        "manifest has no app-id/id"
    );
    assert!(matches!(parse_manifest("{ not json"), Err(ManifestError::Syntax(_))));
    assert!(matches!(parse_manifest("a: [unclosed"), Err(ManifestError::Syntax(_))));
}

#[test]
fn app_id_key_wins_over_id_even_when_it_is_not_a_string() {
    assert_eq!(parse_manifest(r#"{"app-id": "a.b.C", "id": "x.y.Z"}"#).unwrap().app_id, "a.b.C");
    assert!(parse_manifest(r#"{"app-id": 3, "id": "x.y.Z"}"#).is_err());
    // leading blanks before the brace still select JSON
    assert_eq!(parse_manifest("  \n {\"id\": \"q.r.S\"}").unwrap().app_id, "q.r.S");
}

#[test]
fn source_pins_prefer_sha256_then_tag_then_commit() {
    let m = parse_manifest(
        r#"{"id": "a.b.C", "modules": [ {"name": "m", "sources": [
            {"url": "u1", "commit": "c", "tag": "t"},
            {"url": "u2", "sha256": "s", "tag": "t"},
            {"url": "u3"},
            "not-an-object"
        ]}, 7, {"buildsystem": "meson"}]}"#,
    )
    .unwrap();
    assert_eq!(m.modules.len(), 1);
    let s = &m.modules[0].sources;
    assert_eq!(s.len(), 4);
    assert_eq!(s[0].pinned.as_deref(), Some("t"));
    assert_eq!(s[1].pinned.as_deref(), Some("s"));
    assert_eq!(s[2].pinned, None);
    assert_eq!(s[3].url, None);
}

#[test]
fn risky_args_keep_their_table_order() {
    let m = parse_manifest(
        "app-id: a.b.C\nfinish-args:\n  - --socket=system-bus\n  - --filesystem=host\n  - --filesystem=home\n",
    )
    .unwrap();
    assert_eq!(risky_finish_args(&m), vec!["--filesystem=host", "--socket=system-bus"]);
}

#[test]
fn advisories_name_risky_args_missing_modules_and_unpinned_sources() {
    let m = parse_manifest("app-id: a.b.C\nfinish-args: [--device=all]\n").unwrap();
    let a = manifest_advisories(&m);
    assert_eq!(a.len(), 2);
    assert_eq!(a[0].kind, "finish-args");
    assert_eq!(a[0].detail, "--device=all punches a hole in the sandbox — confirm it's justified");
    assert_eq!(a[1].detail, "no modules — nothing will be built");
    let m = parse_manifest(
        "app-id: a.b.C\nmodules:\n  - name: one\n    sources:\n      - url: x\n      - url: y\n        tag: v1\n  - name: two\n    sources:\n      - url: z\n",
    )
    .unwrap();
    let a = manifest_advisories(&m);
    assert_eq!(a.len(), 1);
    assert_eq!(a[0].kind, "manifest");
    assert_eq!(a[0].detail, "unpinned upstream sources: one, two");
}

fn names(ns: &[&str]) -> Vec<String> {
    ns.iter().map(|s| s.to_string()).collect()
}

fn chosen(dir: &str, ns: &[&str]) -> Option<String> {
    let v = names(ns);
    choose_manifest(dir, &v).map(|i| v[i].clone())
}

#[test]
fn find_manifest_prefers_app_id_named_file_over_sources_json() {
    assert_eq!(
        chosen(
            "io.github.example.app",
            &["cargo-sources.json", "metadata.yml", "io.github.example.app.yml"]
        )
        .as_deref(),
        Some("io.github.example.app.yml")
    );
}

#[test]
fn find_manifest_prefers_app_id_named_json_over_yml() {
    let app_id = "io.github.example.app";
    assert_eq!(
        chosen(app_id, &[&format!("{app_id}.yml"), &format!("{app_id}.json")]),
        Some(format!("{app_id}.json"))
    );
}

#[test]
fn find_manifest_never_returns_metadata_yml() {
    assert_eq!(
        chosen("me.example.app", &["metadata.yml", "me.example.app.yml"]).as_deref(),
        Some("me.example.app.yml")
    );
}

#[test]
fn find_manifest_deprioritizes_sources_files_without_app_id_manifest() {
    assert_eq!(
        chosen("com.example.App", &["python3-dependencies.json", "manifest.yml"]).as_deref(),
        Some("manifest.yml")
    );
}

#[test]
fn find_manifest_edge_cases() {
    assert_eq!(chosen("x", &["metadata.yml", "README.md", ".json"]), None);
    assert_eq!(chosen("x", &["b.yaml", "a.yml", "c.json"]).as_deref(), Some("c.json"));
    assert_eq!(chosen("x", &["b.yaml", "a.yml"]).as_deref(), Some("b.yaml"));
    assert_eq!(chosen("x", &["x.yml.json", "y.json"]).as_deref(), Some("x.yml.json"));
}

//! The subset of a flatpak-builder manifest the judge reads. Manifests are
//! JSON or YAML and every field but the app id is optional in the wild, so
//! reading is permissive: a field of the wrong type reads as absent.
use vstd::prelude::*;

use crate::json::{
    Json, json_text_value, parse_json_text, parse_yaml_text, str_list, str_list_field,
    yaml_text_value,
};
use crate::text::{chars_of, opt_view, skip_ws, str_eq, strs_view, trim_start};

verus! {

/// A module source: where it comes from and what pins it.
#[derive(Debug, Clone, PartialEq)]
pub struct SourceRef {
    pub url: Option<String>,
    /// tag, commit, or sha256 the source is pinned to, if any.
    pub pinned: Option<String>,
}

#[derive(Debug, Clone, PartialEq)]
pub struct ModuleInfo {
    pub name: String,
    pub sources: Vec<SourceRef>,
    pub buildsystem: Option<String>,
    /// The module's own build commands.
    pub build_commands: Vec<String>,
    /// True when the manifest entry was a bare string: a path to another
    /// module file, which flatpak-builder expands in place. Its contents are
    /// not resolved here; the entry itself is listed.
    pub included: bool,
}

#[derive(Debug, Clone, PartialEq)]
pub struct ManifestInfo {
    pub app_id: String,
    pub runtime: Option<String>,
    pub runtime_version: Option<String>,
    pub sdk: Option<String>,
    /// Base app and its branch (`base:`/`base-version:`).
    pub base: Option<String>,
    pub base_version: Option<String>,
    pub finish_args: Vec<String>,
    pub modules: Vec<ModuleInfo>,
    pub command: Option<String>,
}

pub struct SourceView {
    pub url: Option<Seq<char>>,
    pub pinned: Option<Seq<char>>,
}

pub struct ModuleView {
    pub name: Seq<char>,
    pub sources: Seq<SourceView>,
    pub buildsystem: Option<Seq<char>>,
    pub build_commands: Seq<Seq<char>>,
    pub included: bool,
}

pub struct ManifestView {
    pub app_id: Seq<char>,
    pub runtime: Option<Seq<char>>,
    pub runtime_version: Option<Seq<char>>,
    pub sdk: Option<Seq<char>>,
    pub base: Option<Seq<char>>,
    pub base_version: Option<Seq<char>>,
    pub finish_args: Seq<Seq<char>>,
    pub modules: Seq<ModuleView>,
    pub command: Option<Seq<char>>,
}

pub open spec fn sources_view(v: Seq<SourceRef>) -> Seq<SourceView> {
    v.map_values(|s: SourceRef| s@)
}

pub open spec fn modules_view(v: Seq<ModuleInfo>) -> Seq<ModuleView> {
    v.map_values(|m: ModuleInfo| m@)
}

impl View for SourceRef {
    type V = SourceView;

    open spec fn view(&self) -> SourceView {
        SourceView { url: opt_view(self.url), pinned: opt_view(self.pinned) }
    }
}

impl View for ModuleInfo {
    type V = ModuleView;

    open spec fn view(&self) -> ModuleView {
        ModuleView {
            name: self.name@,
            sources: sources_view(self.sources@),
            buildsystem: opt_view(self.buildsystem),
            build_commands: strs_view(self.build_commands@),
            included: self.included,
        }
    }
}

impl View for ManifestInfo {
    type V = ManifestView;

    open spec fn view(&self) -> ManifestView {
        ManifestView {
            app_id: self.app_id@,
            runtime: opt_view(self.runtime),
            runtime_version: opt_view(self.runtime_version),
            sdk: opt_view(self.sdk),
            base: opt_view(self.base),
            base_version: opt_view(self.base_version),
            finish_args: strs_view(self.finish_args@),
            modules: modules_view(self.modules@),
            command: opt_view(self.command),
        }
    }
}

/// The pin of a source: its `sha256`, else its `tag`, else its `commit`.
pub open spec fn pinned_of(s: Json) -> Option<Seq<char>> {
    match s.str_at("sha256"@) {
        Some(p) => Some(p),
        None => match s.str_at("tag"@) {
            Some(p) => Some(p),
            None => s.str_at("commit"@),
        },
    }
}

pub open spec fn source_of(s: Json) -> SourceView {
    SourceView { url: s.str_at("url"@), pinned: pinned_of(s) }
}

pub open spec fn sources_from(items: Seq<Json>) -> Seq<SourceView> {
    items.map_values(|s: Json| source_of(s))
}

/// Every entry of a module's `sources` array becomes a source.
pub open spec fn sources_of(m: Json) -> Seq<SourceView> {
    match m.array_at("sources"@) {
        Some(items) => sources_from(items),
        None => seq![],
    }
}

/// A `modules` entry: a bare string is an included module file; an object
/// needs a string `name`; anything else is dropped.
pub open spec fn module_of(m: Json) -> Option<ModuleView> {
    match m.as_str() {
        Some(path) => Some(
            ModuleView {
                name: path,
                sources: seq![],
                buildsystem: None,
                build_commands: seq![],
                included: true,
            },
        ),
        None => match m.str_at("name"@) {
            Some(name) => Some(
                ModuleView {
                    name: name,
                    sources: sources_of(m),
                    buildsystem: m.str_at("buildsystem"@),
                    build_commands: str_list(m, "build-commands"@),
                    included: false,
                },
            ),
            None => None,
        },
    }
}

/// The modules that the entries in `items` yield, in order.
pub open spec fn modules_of(items: Seq<Json>) -> Seq<ModuleView>
    decreases items.len(),
{
    if items.len() == 0 {
        seq![]
    } else {
        let rest = modules_of(items.drop_last());
        match module_of(items.last()) {
            Some(m) => rest.push(m),
            None => rest,
        }
    }
}

/// `app-id` when that key is present (as a string), else `id`.
pub open spec fn app_id_of(v: Json) -> Option<Seq<char>> {
    match v.get("app-id"@) {
        Some(x) => x.as_str(),
        None => v.str_at("id"@),
    }
}

/// The manifest a document describes; `None` when it names no app id.
pub open spec fn manifest_of_json(v: Json) -> Option<ManifestView> {
    match app_id_of(v) {
        None => None,
        Some(id) => Some(
            ManifestView {
                app_id: id,
                runtime: v.str_at("runtime"@),
                runtime_version: v.str_at("runtime-version"@),
                sdk: v.str_at("sdk"@),
                base: v.str_at("base"@),
                base_version: v.str_at("base-version"@),
                finish_args: str_list(v, "finish-args"@),
                modules: match v.array_at("modules"@) {
                    Some(items) => modules_of(items),
                    None => seq![],
                },
                command: v.str_at("command"@),
            },
        ),
    }
}

fn source_from_json(s: &Json) -> (r: SourceRef)
    ensures
        r@ == source_of(*s),
{
    let pinned = match s.str_field("sha256") {
        Some(p) => Some(p),
        None => match s.str_field("tag") {
            Some(p) => Some(p),
            None => s.str_field("commit"),
        },
    };
    SourceRef { url: s.str_field("url"), pinned }
}

fn sources_from_json(m: &Json) -> (r: Vec<SourceRef>)
    ensures
        sources_view(r@) == sources_of(*m),
{
    let mut r: Vec<SourceRef> = Vec::new();
    match m.array_field("sources") {
        Some(items) => {
            let mut i: usize = 0;
            while i < items.len()
                invariant
                    i <= items@.len(),
                    r@.len() == i,
                    m.array_at("sources"@) == Some(items@),
                    sources_view(r@) == sources_from(items@.take(i as int)),
                decreases items@.len() - i,
            {
                let s = source_from_json(&items[i]);
                let ghost prev = r@;
                r.push(s);
                assert forall|k: int| 0 <= k < i + 1 implies #[trigger] sources_view(r@)[k]
                    == sources_from(items@.take(i + 1))[k] by {
                    if k < i {
                        assert(sources_view(prev)[k] == sources_from(items@.take(i as int))[k]);
                    }
                }
                assert(sources_view(r@) =~= sources_from(items@.take(i + 1)));
                i += 1;
            }
            assert(items@.take(items@.len() as int) =~= items@);
        },
        None => {
            assert(sources_view(r@) =~= seq![]);
        },
    }
    r
}

fn module_from_json(m: &Json) -> (r: Option<ModuleInfo>)
    ensures
        match r {
            Some(x) => module_of(*m) == Some(x@),
            None => module_of(*m) is None,
        },
{
    match m.as_str_ref() {
        Some(path) => {
            let sources: Vec<SourceRef> = Vec::new();
            let build_commands: Vec<String> = Vec::new();
            let x = ModuleInfo {
                name: path.clone(),
                sources,
                buildsystem: None,
                build_commands,
                included: true,
            };
            assert(x@.sources =~= seq![]);
            assert(x@.build_commands =~= seq![]);
            Some(x)
        },
        None => match m.str_field("name") {
            Some(name) => Some(
                ModuleInfo {
                    name,
                    sources: sources_from_json(m),
                    buildsystem: m.str_field("buildsystem"),
                    build_commands: str_list_field(m, "build-commands"),
                    included: false,
                },
            ),
            None => None,
        },
    }
}

fn modules_from_json(items: &Vec<Json>) -> (r: Vec<ModuleInfo>)
    ensures
        modules_view(r@) == modules_of(items@),
{
    let mut r: Vec<ModuleInfo> = Vec::new();
    let mut i: usize = 0;
    while i < items.len()
        invariant
            i <= items@.len(),
            modules_view(r@) == modules_of(items@.take(i as int)),
        decreases items@.len() - i,
    {
        assert(items@.take(i + 1).drop_last() =~= items@.take(i as int));
        match module_from_json(&items[i]) {
            Some(m) => {
                r.push(m);
                assert(modules_view(r@) =~= modules_of(items@.take(i as int)).push(
                    module_of(items@[i as int])->0,
                ));
            },
            None => {},
        }
        i += 1;
    }
    assert(items@.take(items@.len() as int) =~= items@);
    r
}

/// Reads the manifest a document describes; `None` exactly when the
/// document names no app id.
pub fn manifest_from_json(v: &Json) -> (r: Option<ManifestInfo>)
    ensures
        match r {
            Some(m) => manifest_of_json(*v) == Some(m@),
            None => manifest_of_json(*v) is None,
        },
{
    let app_id = match v.lookup("app-id") {
        Some(x) => match x.as_str_ref() {
            Some(s) => s.clone(),
            None => return None,
        },
        None => match v.str_field("id") {
            Some(s) => s,
            None => return None,
        },
    };
    let modules = match v.array_field("modules") {
        Some(items) => modules_from_json(items),
        None => {
            let r: Vec<ModuleInfo> = Vec::new();
            assert(modules_view(r@) =~= seq![]);
            r
        },
    };
    Some(
        ManifestInfo {
            app_id,
            runtime: v.str_field("runtime"),
            runtime_version: v.str_field("runtime-version"),
            sdk: v.str_field("sdk"),
            base: v.str_field("base"),
            base_version: v.str_field("base-version"),
            finish_args: str_list_field(v, "finish-args"),
            modules,
            command: v.str_field("command"),
        },
    )
}

/// Why a manifest could not be read.
#[derive(Debug, Clone, PartialEq)]
pub enum ManifestError {
    /// The text is neither JSON nor YAML; the parser's message.
    Syntax(String),
    /// The document names no `app-id` (nor `id`).
    MissingAppId,
}

pub enum ManifestErrorView {
    Syntax(Seq<char>),
    MissingAppId,
}

impl View for ManifestError {
    type V = ManifestErrorView;

    open spec fn view(&self) -> ManifestErrorView {
        match self {
            ManifestError::Syntax(m) => ManifestErrorView::Syntax(m@),
            ManifestError::MissingAppId => ManifestErrorView::MissingAppId,
        }
    }
}

/// A manifest is read as JSON when its first non-blank character is `{`,
/// and as YAML otherwise.
pub open spec fn looks_like_json(text: Seq<char>) -> bool {
    let t = trim_start(text);
    t.len() > 0 && t[0] == '{'
}

/// The document a manifest text holds, by the parser its first character picks.
pub open spec fn manifest_document(text: Seq<char>) -> Result<Json, Seq<char>> {
    if looks_like_json(text) {
        json_text_value(text)
    } else {
        yaml_text_value(text)
    }
}

/// What reading a manifest text gives.
pub open spec fn manifest_of_text(text: Seq<char>) -> Result<ManifestView, ManifestErrorView> {
    match manifest_document(text) {
        Err(msg) => Err(ManifestErrorView::Syntax(msg)),
        Ok(v) => match manifest_of_json(v) {
            Some(m) => Ok(m),
            None => Err(ManifestErrorView::MissingAppId),
        },
    }
}

pub open spec fn manifest_result_view(r: Result<ManifestInfo, ManifestError>) -> Result<ManifestView, ManifestErrorView> {
    match r {
        Ok(m) => Ok(m@),
        Err(e) => Err(e@),
    }
}

/// Parses a flatpak-builder manifest, JSON or YAML.
pub fn parse_manifest(text: &str) -> (r: Result<ManifestInfo, ManifestError>)
    ensures
        manifest_result_view(r) == manifest_of_text(text@),
{
    let cs = chars_of(text);
    let i = skip_ws(&cs, 0);
    assert(cs@.subrange(0, cs@.len() as int) =~= cs@);
    let is_json = i < cs.len() && cs[i] == '{';
    let doc = if is_json {
        parse_json_text(text)
    } else {
        parse_yaml_text(text)
    };
    match doc {
        Err(msg) => Err(ManifestError::Syntax(msg)),
        Ok(v) => match manifest_from_json(&v) {
            Some(m) => Ok(m),
            None => Err(ManifestError::MissingAppId),
        },
    }
}

/// The message an error reads as.
pub open spec fn manifest_error_text(e: ManifestErrorView) -> Seq<char> {
    match e {
        ManifestErrorView::Syntax(m) => m,
        ManifestErrorView::MissingAppId => "manifest has no app-id/id"@,
    }
}

impl ManifestError {
    pub fn message(&self) -> (r: String)
        ensures
            r@ == manifest_error_text(self@),
    {
        match self {
            ManifestError::Syntax(m) => m.clone(),
            ManifestError::MissingAppId => String::from_str("manifest has no app-id/id"),
        }
    }
}

/// Finish-args that punch holes in the sandbox. Advisory only: some apps
/// legitimately need these, but the human who merges should see them called out.
pub open spec fn risky_list() -> Seq<Seq<char>> {
    seq![
        "--filesystem=host"@,
        "--filesystem=host-os"@,
        "--filesystem=host-etc"@,
        "--filesystem=/"@,
        "--device=all"@,
        "--socket=system-bus"@,
    ]
}

/// A list of string slices, each taken by view.
pub open spec fn str_refs_view(v: Seq<&str>) -> Seq<Seq<char>> {
    v.map_values(|s: &str| s@)
}

/// The items of `list`, in order, that occur in `present`.
pub open spec fn kept(list: Seq<Seq<char>>, present: Seq<Seq<char>>) -> Seq<Seq<char>>
    decreases list.len(),
{
    if list.len() == 0 {
        seq![]
    } else {
        let rest = kept(list.drop_last(), present);
        if present.contains(list.last()) {
            rest.push(list.last())
        } else {
            rest
        }
    }
}

fn risky_table() -> (r: Vec<&'static str>)
    ensures
        str_refs_view(r@) == risky_list(),
{
    let r = vec![
        "--filesystem=host",
        "--filesystem=host-os",
        "--filesystem=host-etc",
        "--filesystem=/",
        "--device=all",
        "--socket=system-bus",
    ];
    assert(str_refs_view(r@) =~= risky_list());
    r
}

/// Whether `arg` is among `args`.
fn has_arg(args: &Vec<String>, arg: &str) -> (r: bool)
    ensures
        r == strs_view(args@).contains(arg@),
{
    let mut i: usize = 0;
    while i < args.len()
        invariant
            i <= args@.len(),
            forall|k: int| 0 <= k < i ==> args@[k]@ != arg@,
        decreases args@.len() - i,
    {
        if str_eq(args[i].as_str(), arg) {
            assert(strs_view(args@)[i as int] == arg@);
            return true;
        }
        i += 1;
    }
    assert forall|k: int| 0 <= k < strs_view(args@).len() implies strs_view(args@)[k] != arg@ by {
        assert(strs_view(args@)[k] == args@[k]@);
    }
    false
}

/// Finish args worth an advisory line in the report, in the order of the
/// list of risky args.
pub fn risky_finish_args(manifest: &ManifestInfo) -> (r: Vec<&'static str>)
    ensures
        str_refs_view(r@) == kept(risky_list(), manifest@.finish_args),
{
    let table = risky_table();
    let mut r: Vec<&'static str> = Vec::new();
    let mut i: usize = 0;
    while i < table.len()
        invariant
            i <= table@.len(),
            str_refs_view(table@) == risky_list(),
            str_refs_view(r@) == kept(str_refs_view(table@).take(i as int), manifest@.finish_args),
        decreases table@.len() - i,
    {
        assert(str_refs_view(table@).take(i + 1).drop_last() =~= str_refs_view(table@).take(i as int));
        assert(str_refs_view(table@).take(i + 1).last() == table@[i as int]@);
        if has_arg(&manifest.finish_args, table[i]) {
            let ghost prev = r@;
            r.push(table[i]);
            assert(str_refs_view(r@) =~= str_refs_view(prev).push(table@[i as int]@));
        }
        i += 1;
    }
    assert(str_refs_view(table@).take(table@.len() as int) =~= risky_list());
    r
}

} // verus!

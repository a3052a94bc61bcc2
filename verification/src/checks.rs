//! The deterministic checks of the static stage: advisories drawn from the
//! manifest, linter outcomes, source statistics and the choice of manifest
//! file. The program around the library walks directories and runs tools;
//! these functions decide what their results mean.
use vstd::prelude::*;

use crate::manifest::{kept, risky_finish_args, risky_list, str_refs_view, ManifestInfo, ModuleView, SourceView};
use crate::schema::{FileStat, LinterRun, LinterStatus, SourceStats, StaticAdvisory};
use crate::text::{
    chars_of, ends_with, join, last_index, last_index_of, lemma_strs_view_push, lines, lines_of,
    matches_at, push_join, string_of, strip_suffixes, strip_suffixes_end, strs_view, trim,
    trim_bounds,
};

verus! {

/// An advisory, taken by view: its kind and its detail.
pub open spec fn advisory_view(a: StaticAdvisory) -> (Seq<char>, Seq<char>) {
    (a.kind@, a.detail@)
}

pub open spec fn advisories_view(v: Seq<StaticAdvisory>) -> Seq<(Seq<char>, Seq<char>)> {
    v.map_values(|a: StaticAdvisory| advisory_view(a))
}

pub open spec fn risky_note(arg: Seq<char>) -> (Seq<char>, Seq<char>) {
    ("finish-args"@, arg + " punches a hole in the sandbox — confirm it's justified"@)
}

pub open spec fn risky_notes(args: Seq<Seq<char>>) -> Seq<(Seq<char>, Seq<char>)> {
    args.map_values(|a: Seq<char>| risky_note(a))
}

/// The module's name once for each of its sources that has a URL and no pin.
pub open spec fn unpinned_in(name: Seq<char>, sources: Seq<SourceView>) -> Seq<Seq<char>>
    decreases sources.len(),
{
    if sources.len() == 0 {
        seq![]
    } else {
        let rest = unpinned_in(name, sources.drop_last());
        if sources.last().url is Some && sources.last().pinned is None {
            rest.push(name)
        } else {
            rest
        }
    }
}

/// Names of the modules with unpinned upstream sources, one per such source.
pub open spec fn unpinned_names(modules: Seq<ModuleView>) -> Seq<Seq<char>>
    decreases modules.len(),
{
    if modules.len() == 0 {
        seq![]
    } else {
        unpinned_names(modules.drop_last()) + unpinned_in(modules.last().name, modules.last().sources)
    }
}

/// The advisories a manifest earns: one per risky finish-arg, one when it has
/// no modules, one naming the modules with unpinned sources.
pub open spec fn manifest_advisories_of(m: crate::manifest::ManifestView) -> Seq<(Seq<char>, Seq<char>)> {
    risky_notes(kept(risky_list(), m.finish_args)) + (if m.modules.len() == 0 {
        seq![("manifest"@, "no modules — nothing will be built"@)]
    } else {
        seq![]
    }) + (if unpinned_names(m.modules).len() > 0 {
        seq![("manifest"@, "unpinned upstream sources: "@ + join(unpinned_names(m.modules), ", "@))]
    } else {
        seq![]
    })
}

fn advisory(kind: &str, detail: String) -> (a: StaticAdvisory)
    ensures
        advisory_view(a) == (kind@, detail@),
{
    StaticAdvisory { kind: String::from_str(kind), detail }
}

fn push_advisory(v: &mut Vec<StaticAdvisory>, a: StaticAdvisory)
    ensures
        advisories_view(final(v)@) == advisories_view(old(v)@).push(advisory_view(a)),
{
    let ghost prev = v@;
    v.push(a);
    assert(advisories_view(v@) =~= advisories_view(prev).push(advisory_view(a)));
}

fn collect_unpinned(m: &ManifestInfo) -> (r: Vec<String>)
    ensures
        strs_view(r@) == unpinned_names(m@.modules),
{
    let mut r: Vec<String> = Vec::new();
    let mut i: usize = 0;
    assert(strs_view(r@) =~= seq![]);
    while i < m.modules.len()
        invariant
            i <= m.modules@.len(),
            strs_view(r@) == unpinned_names(m@.modules.take(i as int)),
        decreases m.modules@.len() - i,
    {
        let module = &m.modules[i];
        assert(m@.modules.take(i + 1).drop_last() =~= m@.modules.take(i as int));
        assert(m@.modules.take(i + 1).last() == module@);
        let ghost base = strs_view(r@);
        let mut j: usize = 0;
        assert(strs_view(r@) =~= base + unpinned_in(module@.name, module@.sources.take(0)));
        while j < module.sources.len()
            invariant
                j <= module.sources@.len(),
                module@.sources.len() == module.sources@.len(),
                strs_view(r@) == base + unpinned_in(module@.name, module@.sources.take(j as int)),
            decreases module.sources@.len() - j,
        {
            assert(module@.sources.take(j + 1).drop_last() =~= module@.sources.take(j as int));
            assert(module@.sources.take(j + 1).last() == module.sources@[j as int]@);
            let src = &module.sources[j];
            if src.url.is_some() && src.pinned.is_none() {
                let name = module.name.clone();
                proof {
                    lemma_strs_view_push(r@, name);
                }
                r.push(name);
            }
            assert(strs_view(r@) =~= base + unpinned_in(module@.name, module@.sources.take(j + 1)));
            j += 1;
        }
        assert(module@.sources.take(module.sources@.len() as int) =~= module@.sources);
        i += 1;
    }
    assert(m@.modules.take(m.modules@.len() as int) =~= m@.modules);
    r
}

/// The advisories the static stage records for a manifest.
pub fn manifest_advisories(m: &ManifestInfo) -> (r: Vec<StaticAdvisory>)
    ensures
        advisories_view(r@) == manifest_advisories_of(m@),
{
    let mut r: Vec<StaticAdvisory> = Vec::new();
    let risky = risky_finish_args(m);
    let mut i: usize = 0;
    assert(advisories_view(r@) =~= seq![]);
    while i < risky.len()
        invariant
            i <= risky@.len(),
            str_refs_view(risky@) == kept(risky_list(), m@.finish_args),
            advisories_view(r@) == risky_notes(str_refs_view(risky@).take(i as int)),
        decreases risky@.len() - i,
    {
        let mut detail = String::from_str(risky[i]);
        detail.append(" punches a hole in the sandbox — confirm it's justified");
        push_advisory(&mut r, advisory("finish-args", detail));
        assert(advisories_view(r@) =~= risky_notes(str_refs_view(risky@).take(i + 1)));
        i += 1;
    }
    assert(str_refs_view(risky@).take(risky@.len() as int) =~= str_refs_view(risky@));
    let ghost after_risky = advisories_view(r@);
    if m.modules.len() == 0 {
        push_advisory(&mut r, advisory("manifest", String::from_str("no modules — nothing will be built")));
    }
    let ghost after_modules = advisories_view(r@);
    let unpinned = collect_unpinned(m);
    if unpinned.len() > 0 {
        let mut detail = String::from_str("unpinned upstream sources: ");
        push_join(&mut detail, &unpinned, ", ");
        push_advisory(&mut r, advisory("manifest", detail));
    }
    assert(advisories_view(r@) =~= manifest_advisories_of(m@));
    r
}

/// The lines that hold more than white space, in order.
pub open spec fn nonblank(ls: Seq<Seq<char>>) -> Seq<Seq<char>>
    decreases ls.len(),
{
    if ls.len() == 0 {
        seq![]
    } else {
        let rest = nonblank(ls.drop_last());
        if trim(ls.last()).len() > 0 {
            rest.push(ls.last())
        } else {
            rest
        }
    }
}

/// At most the first `n` items.
pub open spec fn first_n<A>(s: Seq<A>, n: nat) -> Seq<A> {
    if s.len() > n {
        s.take(n as int)
    } else {
        s
    }
}

/// A failed linter's findings: the non-blank lines of its output, then of
/// its error output, at most twenty.
pub open spec fn linter_findings(stdout: Seq<char>, stderr: Seq<char>) -> Seq<Seq<char>> {
    first_n(nonblank(lines(stdout) + lines(stderr)), 20)
}

fn all_lines(stdout: &str, stderr: &str) -> (r: Vec<String>)
    ensures
        strs_view(r@) == lines(stdout@) + lines(stderr@),
{
    let mut r = lines_of(stdout);
    let mut more = lines_of(stderr);
    let ghost a = r@;
    let ghost b = more@;
    r.append(&mut more);
    assert(strs_view(r@) =~= strs_view(a) + strs_view(b));
    r
}

fn keep_nonblank(ls: Vec<String>) -> (r: Vec<String>)
    ensures
        strs_view(r@) == nonblank(strs_view(ls@)),
{
    let mut r: Vec<String> = Vec::new();
    let mut i: usize = 0;
    assert(strs_view(r@) =~= seq![]);
    while i < ls.len()
        invariant
            i <= ls@.len(),
            strs_view(r@) == nonblank(strs_view(ls@).take(i as int)),
        decreases ls@.len() - i,
    {
        assert(strs_view(ls@).take(i + 1).drop_last() =~= strs_view(ls@).take(i as int));
        assert(strs_view(ls@).take(i + 1).last() == ls@[i as int]@);
        let cs = chars_of(ls[i].as_str());
        let (a, b) = trim_bounds(&cs, 0, cs.len());
        assert(cs@.subrange(0, cs@.len() as int) =~= cs@);
        if a < b {
            let line = ls[i].clone();
            proof {
                lemma_strs_view_push(r@, line);
            }
            r.push(line);
        }
        i += 1;
    }
    assert(strs_view(ls@).take(ls@.len() as int) =~= strs_view(ls@));
    r
}

/// The run of a linter that could not be started.
pub fn linter_not_found(tool: &str) -> (r: LinterRun)
    ensures
        r.tool@ == tool@,
        r.status == LinterStatus::NotFound,
        r.findings@.len() == 0,
{
    LinterRun { tool: String::from_str(tool), status: LinterStatus::NotFound, findings: Vec::new() }
}

/// The run of a linter that exited: a pass on success, else a failure with
/// its findings.
pub fn linter_finished(tool: &str, success: bool, stdout: &str, stderr: &str) -> (r: LinterRun)
    ensures
        r.tool@ == tool@,
        r.status == (if success {
            LinterStatus::Pass
        } else {
            LinterStatus::Failed
        }),
        strs_view(r.findings@) == (if success {
            seq![]
        } else {
            linter_findings(stdout@, stderr@)
        }),
{
    if success {
        let r = LinterRun { tool: String::from_str(tool), status: LinterStatus::Pass, findings: Vec::new() };
        assert(strs_view(r.findings@) =~= seq![]);
        return r;
    }
    let mut findings = keep_nonblank(all_lines(stdout, stderr));
    findings.truncate(20);
    assert(strs_view(findings@) =~= linter_findings(stdout@, stderr@));
    LinterRun { tool: String::from_str(tool), status: LinterStatus::Failed, findings }
}

/// The appstream run is done by `appstreamcli` when flatpak-builder-lint is
/// not installed.
pub fn appstream_needs_fallback(metainfo: &LinterRun) -> (r: bool)
    ensures
        r == (metainfo.status == LinterStatus::NotFound),
{
    metainfo.status == LinterStatus::NotFound
}

/// A file the static stage takes for appstream metadata.
pub open spec fn is_appstream_name(name: Seq<char>) -> bool {
    ends_with(name, ".metainfo.xml"@) || ends_with(name, ".appdata.xml"@)
}

pub fn is_appstream_file(name: &str) -> (r: bool)
    ensures
        r == is_appstream_name(name@),
{
    crate::text::ends_with_str(name, ".metainfo.xml") || crate::text::ends_with_str(name, ".appdata.xml")
}

/// The date `git log -1 --format=%cI` printed, trimmed; `None` when blank.
pub open spec fn commit_date_of(out: Seq<char>) -> Option<Seq<char>> {
    if trim(out).len() > 0 {
        Some(trim(out))
    } else {
        None
    }
}

pub fn last_commit_date(out: &str) -> (r: Option<String>)
    ensures
        crate::text::opt_view(r) == commit_date_of(out@),
{
    let cs = chars_of(out);
    let (a, b) = trim_bounds(&cs, 0, cs.len());
    assert(cs@.subrange(0, cs@.len() as int) =~= cs@);
    if a < b {
        Some(string_of(&cs, a, b))
    } else {
        None
    }
}

/// `x` placed into a list sorted by size, largest first, after every entry
/// at least as large (so that equal sizes keep their order).
pub open spec fn insert_desc(sorted: Seq<FileStat>, x: FileStat) -> Seq<FileStat>
    decreases sorted.len(),
{
    if sorted.len() == 0 {
        seq![x]
    } else if sorted.last().bytes >= x.bytes {
        sorted.push(x)
    } else {
        insert_desc(sorted.drop_last(), x).push(sorted.last())
    }
}

/// The files sorted by size, largest first; equal sizes keep their order
/// (a stable sort).
pub open spec fn sort_desc(s: Seq<FileStat>) -> Seq<FileStat>
    decreases s.len(),
{
    if s.len() == 0 {
        seq![]
    } else {
        insert_desc(sort_desc(s.drop_last()), s.last())
    }
}

pub open spec fn total_bytes(s: Seq<FileStat>) -> int
    decreases s.len(),
{
    if s.len() == 0 {
        0
    } else {
        total_bytes(s.drop_last()) + s.last().bytes
    }
}

/// The five largest files, largest first.
pub open spec fn largest_files(s: Seq<FileStat>) -> Seq<FileStat> {
    first_n(sort_desc(s), 5)
}

fn insert_by_size(sorted: &mut Vec<FileStat>, x: FileStat)
    ensures
        final(sorted)@ == insert_desc(old(sorted)@, x),
{
    let mut p = sorted.len();
    assert(old(sorted)@.take(p as int) =~= old(sorted)@);
    assert(old(sorted)@.skip(p as int) =~= seq![]);
    while p > 0 && sorted[p - 1].bytes < x.bytes
        invariant
            p <= sorted@.len(),
            sorted@ == old(sorted)@,
            insert_desc(sorted@, x) == insert_desc(sorted@.take(p as int), x) + sorted@.skip(p as int),
        decreases p,
    {
        assert(sorted@.take(p as int).drop_last() =~= sorted@.take(p - 1));
        assert(sorted@.skip(p - 1) =~= seq![sorted@[p - 1]] + sorted@.skip(p as int));
        assert(insert_desc(sorted@.take(p as int), x) + sorted@.skip(p as int) =~= insert_desc(sorted@.take(p - 1), x) + sorted@.skip(p - 1));
        p -= 1;
    }
    let ghost before = sorted@;
    if p == 0 {
        assert(before.take(0) =~= seq![]);
    } else {
        assert(before.take(p as int).last() == before[p - 1]);
    }
    sorted.insert(p, x);
    assert(sorted@ =~= insert_desc(before, x));
}

/// The statistics of the files found: how many, how many bytes, and the five
/// largest; the git signals count only when there are files.
pub fn summarize_stats(files: Vec<FileStat>, commit_count: Option<u64>, last_commit_date: Option<String>) -> (r: SourceStats)
    requires
        total_bytes(files@) <= u64::MAX,
    ensures
        files@.len() == 0 ==> r.files == 0 && r.bytes == 0 && r.largest@.len() == 0 && r.commit_count is None
            && r.last_commit_date is None,
        files@.len() > 0 ==> r.files == files@.len() && r.bytes == total_bytes(files@) && r.largest@
            == largest_files(files@) && r.commit_count == commit_count && r.last_commit_date == last_commit_date,
{
    let ghost all = files@;
    if files.len() == 0 {
        return SourceStats {
            files: 0,
            bytes: 0,
            largest: Vec::new(),
            commit_count: None,
            last_commit_date: None,
        };
    }
    let n = files.len();
    let mut rest = files;
    let mut sorted: Vec<FileStat> = Vec::new();
    let mut count: u64 = 0;
    let mut bytes: u64 = 0;
    let mut k: usize = 0;
    proof {
        assert(all.take(0) =~= seq![]);
        assert(all.skip(0) =~= all);
    }
    while rest.len() > 0
        invariant
            k <= all.len(),
            all.len() == n,
            rest@ == all.skip(k as int),
            sorted@ == sort_desc(all.take(k as int)),
            count == k,
            bytes == total_bytes(all.take(k as int)),
            total_bytes(all) <= u64::MAX,
        decreases rest@.len(),
    {
        let x = rest.remove(0);
        proof {
            assert(all.take(k + 1).drop_last() =~= all.take(k as int));
            assert(all.skip(k as int)[0] == all[k as int]);
            assert(all.skip(k + 1) =~= all.skip(k as int).drop_first());
            lemma_total_prefix(all, k + 1);
        }
        bytes = bytes + x.bytes;
        insert_by_size(&mut sorted, x);
        count = count + 1;
        k = k + 1;
    }
    assert(all.take(k as int) =~= all);
    sorted.truncate(5);
    SourceStats {
        files: count,
        bytes,
        largest: sorted,
        commit_count,
        last_commit_date,
    }
}

pub proof fn lemma_total_prefix(s: Seq<FileStat>, k: int)
    requires
        0 <= k <= s.len(),
    ensures
        total_bytes(s.take(k)) <= total_bytes(s),
    decreases s.len() - k,
{
    if k < s.len() {
        assert(s.take(k + 1).drop_last() =~= s.take(k));
        lemma_total_prefix(s, k + 1);
    } else {
        assert(s.take(k) =~= s);
    }
}

/// `Path::extension`: what follows the last `.`, when that `.` is not the
/// first character.
pub open spec fn extension_of(name: Seq<char>) -> Option<Seq<char>> {
    match last_index_of(name, '.') {
        Some(i) => if i > 0 {
            Some(name.skip(i + 1))
        } else {
            None
        },
        None => None,
    }
}

/// The name without its `.json`, `.yml` and `.yaml` endings (each trimmed
/// repeatedly, in that order).
pub open spec fn name_stem(name: Seq<char>) -> Seq<char> {
    strip_suffixes(strip_suffixes(strip_suffixes(name, ".json"@), ".yml"@), ".yaml"@)
}

/// A top-level file that can be the manifest: JSON or YAML by extension, and
/// neither `metadata.*` nor a vendored `*-sources.json`/`*-dependencies.json`.
pub open spec fn manifest_candidate(name: Seq<char>) -> bool {
    &&& (match extension_of(name) {
        Some(e) => e == "json"@ || e == "yml"@ || e == "yaml"@,
        None => false,
    })
    &&& name_stem(name) != "metadata"@
    &&& !ends_with(name, "-sources.json"@)
    &&& !ends_with(name, "-dependencies.json"@)
}

/// Preference among candidates, lower first: a file named after the app dir
/// before any other, and within each, `.json` before YAML.
pub open spec fn manifest_rank(name: Seq<char>, dir_name: Seq<char>) -> int {
    let stem = name_stem(name);
    (if stem == dir_name && stem.len() > 0 {
        0int
    } else {
        2int
    }) + (if ends_with(name, ".json"@) {
        0int
    } else {
        1int
    })
}

/// `i` is the first candidate among those of the lowest rank.
pub open spec fn is_manifest_choice(names: Seq<Seq<char>>, dir_name: Seq<char>, i: int) -> bool {
    &&& 0 <= i < names.len()
    &&& manifest_candidate(names[i])
    &&& forall|j: int| 0 <= j < names.len() && manifest_candidate(names[j]) ==> manifest_rank(names[i], dir_name) <= manifest_rank(names[j], dir_name)
    &&& forall|j: int| 0 <= j < i && manifest_candidate(names[j]) ==> manifest_rank(names[j], dir_name) > manifest_rank(names[i], dir_name)
}

fn strip_end(cs: &Vec<char>, to: usize, suffix: &str) -> (j: usize)
    requires
        to <= cs@.len(),
    ensures
        j <= to,
        strip_suffixes(cs@.take(to as int), suffix@) == cs@.take(j as int),
{
    let pat = chars_of(suffix);
    let j = strip_suffixes_end(cs, 0, to, &pat);
    assert(cs@.subrange(0, to as int) =~= cs@.take(to as int));
    assert(cs@.subrange(0, j as int) =~= cs@.take(j as int));
    j
}

/// Whether a file name can be the manifest, and its rank.
fn candidate_rank(name: &str, dir_name: &str) -> (r: Option<u8>)
    ensures
        match r {
            Some(k) => manifest_candidate(name@) && k as int == manifest_rank(name@, dir_name@),
            None => !manifest_candidate(name@),
        },
{
    let cs = chars_of(name);
    let len = cs.len();
    proof {
        reveal_strlit("json");
        reveal_strlit("yml");
        reveal_strlit("yaml");
        reveal_strlit(".json");
        reveal_strlit(".yml");
        reveal_strlit(".yaml");
    }
    let ext_ok = match last_index(&cs, '.') {
        Some(i) => {
            if i > 0 {
                let e = string_of(&cs, i + 1, len);
                assert(e@ =~= name@.skip(i + 1));
                crate::text::str_eq(e.as_str(), "json") || crate::text::str_eq(e.as_str(), "yml")
                    || crate::text::str_eq(e.as_str(), "yaml")
            } else {
                false
            }
        },
        None => false,
    };
    if !ext_ok {
        return None;
    }
    assert(cs@.take(cs@.len() as int) =~= cs@);
    let a = strip_end(&cs, cs.len(), ".json");
    let b = strip_end(&cs, a, ".yml");
    let c = strip_end(&cs, b, ".yaml");
    let stem = string_of(&cs, 0, c);
    assert(stem@ =~= name_stem(name@));
    if crate::text::str_eq(stem.as_str(), "metadata") || crate::text::ends_with_str(name, "-sources.json")
        || crate::text::ends_with_str(name, "-dependencies.json") {
        return None;
    }
    let tier: u8 = if c > 0 && crate::text::str_eq(stem.as_str(), dir_name) { 0 } else { 2 };
    let json: u8 = if crate::text::ends_with_str(name, ".json") { 0 } else { 1 };
    Some(tier + json)
}

/// Picks the manifest among the regular files at the top of an app dir: the
/// JSON or YAML file named after the app dir (the app id), else any other
/// candidate; JSON before YAML; the first listed among equals.
pub fn choose_manifest(dir_name: &str, names: &Vec<String>) -> (r: Option<usize>)
    ensures
        match r {
            Some(i) => is_manifest_choice(strs_view(names@), dir_name@, i as int),
            None => forall|j: int| 0 <= j < names@.len() ==> !manifest_candidate(#[trigger] names@[j]@),
        },
{
    let mut best: Option<(usize, u8)> = None;
    let mut i: usize = 0;
    while i < names.len()
        invariant
            i <= names@.len(),
            match best {
                Some((b, k)) => b < i && manifest_candidate(names@[b as int]@) && k as int
                    == manifest_rank(names@[b as int]@, dir_name@) && (forall|j: int|
                    0 <= j < i && manifest_candidate(#[trigger] names@[j]@) ==> k as int <= manifest_rank(
                        names@[j]@,
                        dir_name@,
                    )) && (forall|j: int|
                    0 <= j < b && manifest_candidate(#[trigger] names@[j]@) ==> manifest_rank(
                        names@[j]@,
                        dir_name@,
                    ) > k as int),
                None => forall|j: int| 0 <= j < i ==> !manifest_candidate(#[trigger] names@[j]@),
            },
        decreases names@.len() - i,
    {
        match candidate_rank(names[i].as_str(), dir_name) {
            Some(k) => {
                match best {
                    Some((_, bk)) => {
                        if k < bk {
                            best = Some((i, k));
                        }
                    },
                    None => {
                        best = Some((i, k));
                    },
                }
            },
            None => {},
        }
        i += 1;
    }
    match best {
        Some((b, _)) => {
            assert forall|j: int| 0 <= j < strs_view(names@).len() implies strs_view(names@)[j] == names@[j]@ by {}
            Some(b)
        },
        None => None,
    }
}

/// The tool that lints a manifest and its arguments.
pub fn lint_manifest(path: &str) -> (r: (&'static str, Vec<String>))
    ensures
        r.0@ == "flatpak-builder-lint"@,
        strs_view(r.1@) == seq!["manifest"@, path@],
{
    let args = vec![String::from_str("manifest"), String::from_str(path)];
    assert(strs_view(args@) =~= seq!["manifest"@, path@]);
    ("flatpak-builder-lint", args)
}

/// The tool that lints appstream metadata and its arguments; the second is
/// the fallback when the first is not installed (`appstream_needs_fallback`).
pub fn lint_appstream(path: &str) -> (r: ((&'static str, Vec<String>), (&'static str, Vec<String>)))
    ensures
        r.0.0@ == "flatpak-builder-lint"@,
        strs_view(r.0.1@) == seq!["flatpakmetainfo"@, path@],
        r.1.0@ == "appstreamcli"@,
        strs_view(r.1.1@) == seq!["validate"@, "--no-net"@, path@],
{
    let first = vec![String::from_str("flatpakmetainfo"), String::from_str(path)];
    let second = vec![String::from_str("validate"), String::from_str("--no-net"), String::from_str(path)];
    assert(strs_view(first@) =~= seq!["flatpakmetainfo"@, path@]);
    assert(strs_view(second@) =~= seq!["validate"@, "--no-net"@, path@]);
    (("flatpak-builder-lint", first), ("appstreamcli", second))
}

/// Directories (and files) the statistics walk does not enter.
pub open spec fn stats_skips(name: Seq<char>) -> bool {
    name == ".git"@ || name == "node_modules"@ || name == "target"@
}

pub fn stats_skips_name(name: &str) -> (r: bool)
    ensures
        r == stats_skips(name@),
{
    crate::text::str_eq(name, ".git") || crate::text::str_eq(name, "node_modules") || crate::text::str_eq(name, "target")
}

/// The commit count `git rev-list --count HEAD` printed.
pub fn commit_count(out: &str) -> (r: Option<u64>)
    ensures
        r == crate::text::parse_u64(trim(out@)),
{
    let cs = chars_of(out);
    let (a, b) = trim_bounds(&cs, 0, cs.len());
    assert(cs@.subrange(0, cs@.len() as int) =~= cs@);
    let t = string_of(&cs, a, b);
    crate::text::parse_u64_str(t.as_str())
}

} // verus!

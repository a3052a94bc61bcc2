//! Properties that hold across all inputs: what can and cannot move a
//! verdict, and what the report, the prompt, the digest, the manifest choice
//! and the repo proxy promise whatever they are given.
use vstd::prelude::*;

use crate::digest::{digest_state, inlinable, inlined, lowercase, DigestEntry, PER_FILE_CAP_BYTES, TOTAL_BUDGET_BYTES};
use crate::json::{Json, JsonNumber};
use crate::legitimacy::confidence_of;
use crate::manifest::source_of;
use crate::markdown::{flag_line, flag_lines};
use crate::prompt::{prompt_of, JudgeInputs};
use crate::checks::{insert_desc, is_manifest_choice, largest_files, manifest_candidate, manifest_rank, name_stem, sort_desc};
use crate::judge::{after_scheme, last_occurrence, redacted, without_userinfo};
use crate::manifest::kept;
use crate::markdown::{escape_char, escaped_cell};
use crate::prompt::{fitting_chars, truncated, utf8_len, utf8_width, TRUNCATION_MARK};
use crate::proxy::{repo_critical, upstream_url_of};
use crate::schema::{
    advisory_supports_accept, has_critical, run_verdict, verdict_for, FileStat, Rubric,
    SecurityFlag, Severity, StaticReport, Verdict, GATE_MIN_PACKAGING_HYGIENE,
};
use crate::text::{before_char, contains_seq, ends_with, last_index_of, occurs_at, starts_with};

verus! {

/// How favourable a verdict is: reject < needs-human < accept.
pub open spec fn verdict_rank(v: Verdict) -> int {
    match v {
        Verdict::RejectRecommended => 0,
        Verdict::NeedsHuman => 1,
        Verdict::AcceptRecommended => 2,
    }
}

/// A failed build is rejected, whatever the rubric says.
pub proof fn build_failure_rejects(r: Rubric)
    ensures
        verdict_for(r, false) == Verdict::RejectRecommended,
{
}

/// A critical security flag is rejected, whatever the scores.
pub proof fn critical_flag_rejects(r: Rubric, build_ok: bool)
    requires
        has_critical(r.security_flags@),
    ensures
        verdict_for(r, build_ok) == Verdict::RejectRecommended,
{
}

/// Packaging hygiene below the minimum is rejected, whatever the other scores.
pub proof fn packaging_below_gate_rejects(r: Rubric, build_ok: bool)
    requires
        r.packaging_hygiene.score < GATE_MIN_PACKAGING_HYGIENE,
    ensures
        verdict_for(r, build_ok) == Verdict::RejectRecommended,
{
}

/// The three gates are the only way to a rejection: a built app with no
/// critical flag and packaging at or above the minimum is never rejected.
pub proof fn only_gates_reject(r: Rubric, build_ok: bool)
    requires
        build_ok,
        !has_critical(r.security_flags@),
        r.packaging_hygiene.score >= GATE_MIN_PACKAGING_HYGIENE,
    ensures
        verdict_for(r, build_ok) != Verdict::RejectRecommended,
{
}

/// An accept recommendation needs a passing build, no security flag at all,
/// packaging at the minimum, and an advisory mean of at least 3.5.
pub proof fn accept_needs_everything(r: Rubric, build_ok: bool)
    requires
        verdict_for(r, build_ok) == Verdict::AcceptRecommended,
    ensures
        build_ok,
        r.security_flags@.len() == 0,
        r.packaging_hygiene.score >= GATE_MIN_PACKAGING_HYGIENE,
        advisory_supports_accept(r),
{
}

/// Differentiation never gates: whatever its score, rationale or list of
/// better alternatives, it cannot turn a verdict into a rejection or out of one.
pub proof fn differentiation_never_gates(r: Rubric, build_ok: bool, d: crate::schema::Differentiation)
    ensures
        (verdict_for(r, build_ok) == Verdict::RejectRecommended) == (verdict_for(
            Rubric { differentiation: d, ..r },
            build_ok,
        ) == Verdict::RejectRecommended),
{
}

/// Higher scores never make a verdict worse.
pub proof fn higher_scores_never_hurt(r: Rubric, s: Rubric, build_ok: bool)
    requires
        s.problem_clarity.score >= r.problem_clarity.score,
        s.differentiation.score >= r.differentiation.score,
        s.architecture.score >= r.architecture.score,
        s.code_quality.score >= r.code_quality.score,
        s.ui_ux.score >= r.ui_ux.score,
        s.packaging_hygiene.score >= r.packaging_hygiene.score,
        s.security_flags@ == r.security_flags@,
    ensures
        verdict_rank(verdict_for(s, build_ok)) >= verdict_rank(verdict_for(r, build_ok)),
{
}

/// One more security flag never makes a verdict better.
pub proof fn another_flag_never_helps(r: Rubric, s: Rubric, f: SecurityFlag, build_ok: bool)
    requires
        s == (Rubric { security_flags: s.security_flags, ..r }),
        s.security_flags@ == r.security_flags@.push(f),
    ensures
        verdict_rank(verdict_for(s, build_ok)) <= verdict_rank(verdict_for(r, build_ok)),
{
    if has_critical(r.security_flags@) {
        let i = choose|i: int|
            0 <= i < r.security_flags@.len() && r.security_flags@[i].severity
                == Severity::Critical;
        assert(s.security_flags@[i] == r.security_flags@[i]);
    }
}

/// A non-critical flag is advisory: with the gates passed, it sends the app
/// to a human instead of an accept or a rejection.
pub proof fn non_critical_flags_go_to_a_human(r: Rubric)
    requires
        r.security_flags@.len() > 0,
        !has_critical(r.security_flags@),
        r.packaging_hygiene.score >= GATE_MIN_PACKAGING_HYGIENE,
    ensures
        verdict_for(r, true) == Verdict::NeedsHuman,
{
}

/// While an owner-assisted judging is pending, no run recommends accepting.
pub proof fn assisted_judging_never_accepts(rubric: Option<Rubric>, s: StaticReport, gates_ok: bool)
    ensures
        run_verdict(rubric, s, gates_ok, true) != Verdict::AcceptRecommended,
{
}

/// Without a rubric only the deterministic gates speak, and they never
/// recommend accepting.
pub proof fn gates_alone_never_accept(s: StaticReport, gates_ok: bool, pending: bool)
    ensures
        run_verdict(None, s, gates_ok, pending) != Verdict::AcceptRecommended,
{
}

/// An escaped table cell holds no line break, and every `|` in it is
/// escaped by the `\\` before it.
pub proof fn escaped_cell_is_safe(text: Seq<char>)
    ensures
        forall|i: int| 0 <= i < escaped_cell(text).len() ==> escaped_cell(text)[i] != '\n',
        forall|i: int|
            0 <= i < escaped_cell(text).len() && #[trigger] escaped_cell(text)[i] == '|' ==> i > 0
                && escaped_cell(text)[i - 1] == '\\',
    decreases text.len(),
{
    reveal_strlit("\\|");
    reveal_strlit(" ");
    if text.len() > 0 {
        escaped_cell_is_safe(text.drop_last());
        let prev = escaped_cell(text.drop_last());
        let tail = escape_char(text.last());
        assert(escaped_cell(text) == prev + tail);
        assert forall|i: int| 0 <= i < escaped_cell(text).len() implies escaped_cell(text)[i] != '\n' by {
            if i >= prev.len() {
                assert(escaped_cell(text)[i] == tail[i - prev.len()]);
            }
        }
        assert forall|i: int|
            0 <= i < escaped_cell(text).len() && #[trigger] escaped_cell(text)[i] == '|' implies i > 0
                && escaped_cell(text)[i - 1] == '\\' by {
            if i >= prev.len() {
                assert(escaped_cell(text)[i] == tail[i - prev.len()]);
                if i - prev.len() == 1 {
                    assert(escaped_cell(text)[i - 1] == tail[0]);
                }
            } else {
                assert(escaped_cell(text)[i] == prev[i]);
                if i > 0 {
                    assert(escaped_cell(text)[i - 1] == prev[i - 1]);
                }
            }
        }
    }
}

pub proof fn lemma_utf8_len_cons(c: char, t: Seq<char>)
    ensures
        utf8_len(seq![c] + t) == utf8_width(c) + utf8_len(t),
    decreases t.len(),
{
    if t.len() > 0 {
        assert((seq![c] + t).drop_last() =~= seq![c] + t.drop_last());
        assert((seq![c] + t).last() == t.last());
        lemma_utf8_len_cons(c, t.drop_last());
        assert(utf8_len(seq![c] + t) == utf8_len(seq![c] + t.drop_last()) + utf8_width(t.last()));
    } else {
        assert(seq![c] + t =~= seq![c]);
        assert(seq![c].drop_last() =~= Seq::<char>::empty());
        assert(utf8_len(seq![c]) == utf8_len(Seq::<char>::empty()) + utf8_width(c));
    }
}

pub proof fn lemma_fitting_prefix(s: Seq<char>, budget: nat)
    ensures
        fitting_chars(s, budget) <= s.len(),
        utf8_len(s.take(fitting_chars(s, budget) as int)) <= budget,
    decreases s.len(),
{
    if s.len() == 0 || utf8_width(s[0]) > budget {
        assert(s.take(0) =~= Seq::<char>::empty());
    } else {
        let rest = s.drop_first();
        let b2 = (budget - utf8_width(s[0])) as nat;
        lemma_fitting_prefix(rest, b2);
        let k = fitting_chars(rest, b2);
        assert(s.take(k as int + 1) =~= seq![s[0]] + rest.take(k as int));
        lemma_utf8_len_cons(s[0], rest.take(k as int));
    }
}

/// Truncation leaves text that fits alone; otherwise it keeps a prefix that
/// fits in the limit, cut on a character boundary, and marks the cut.
pub proof fn truncation_keeps_a_fitting_prefix(s: Seq<char>, max: nat)
    ensures
        utf8_len(s) <= max ==> truncated(s, max) == s,
        utf8_len(s) > max ==> exists|k: int|
            0 <= k <= s.len() && utf8_len(#[trigger] s.take(k)) <= max && truncated(s, max) == s.take(k)
                + TRUNCATION_MARK@,
{
    lemma_fitting_prefix(s, max);
    if utf8_len(s) > max {
        let k = fitting_chars(s, max) as int;
        assert(utf8_len(s.take(k)) <= max);
    }
}

pub proof fn lemma_last_occurrence(s: Seq<char>, pat: Seq<char>, n: int)
    ensures
        match last_occurrence(s, pat, n) {
            Some(i) => i < n && occurs_at(s, pat, i) && forall|j: int| i < j < n ==> !occurs_at(s, pat, j),
            None => forall|j: int| j < n ==> !occurs_at(s, pat, j),
        },
    decreases n,
{
    if n > 0 {
        lemma_last_occurrence(s, pat, n - 1);
    } else {
        assert forall|j: int| j < n implies !occurs_at(s, pat, j) by {}
    }
}

pub proof fn lemma_last_index_of(s: Seq<char>, c: char)
    ensures
        match last_index_of(s, c) {
            Some(k) => 0 <= k < s.len() && s[k] == c && forall|j: int| k < j < s.len() ==> s[j] != c,
            None => forall|j: int| 0 <= j < s.len() ==> s[j] != c,
        },
    decreases s.len(),
{
    if s.len() > 0 && s.last() != c {
        lemma_last_index_of(s.drop_last(), c);
        assert forall|j: int| 0 <= j < s.len() - 1 implies s[j] == s.drop_last()[j] by {}
    }
}

pub proof fn lemma_before_char_skip(s: Seq<char>, c: char, m: int)
    requires
        0 <= m <= before_char(s, c).len(),
    ensures
        before_char(s.skip(m), c) == before_char(s, c).skip(m),
    decreases m,
{
    lemma_before_char_len(s, c);
    if m == 0 {
        assert(s.skip(0) =~= s);
        assert(before_char(s, c).skip(0) =~= before_char(s, c));
    } else {
        assert(s.len() > 0 && s[0] != c);
        let b = before_char(s.drop_first(), c);
        assert(before_char(s, c) == seq![s[0]] + b);
        lemma_before_char_skip(s.drop_first(), c, m - 1);
        assert(s.drop_first().skip(m - 1) =~= s.skip(m));
        assert((seq![s[0]] + b).skip(m) =~= b.skip(m - 1));
    }
}

proof fn lemma_before_char_len(s: Seq<char>, c: char)
    ensures
        before_char(s, c).len() <= s.len(),
    decreases s.len(),
{
    if s.len() > 0 && s[0] != c {
        lemma_before_char_len(s.drop_first(), c);
    }
}

/// A tail of a text without `//` has none either.
proof fn lemma_no_double_slash_in_tail(t: Seq<char>, m: int)
    requires
        0 <= m <= t.len(),
        !contains_seq(t, "//"@),
    ensures
        !contains_seq(t.skip(m), "//"@),
{
    reveal_strlit("//");
    let r = t.skip(m);
    assert forall|j: int| !occurs_at(r, "//"@, j) by {
        if occurs_at(r, "//"@, j) {
            assert(r.subrange(j, j + 2) =~= t.subrange(m + j, m + j + 2));
            assert(occurs_at(t, "//"@, m + j));
        }
    }
}

proof fn lemma_after_scheme_has_no_double_slash(url: Seq<char>)
    ensures
        !contains_seq(after_scheme(url), "//"@),
{
    reveal_strlit("//");
    lemma_last_occurrence(url, "//"@, url.len() as int);
    match last_occurrence(url, "//"@, url.len() as int) {
        Some(i) => {
            let t = url.skip(i + 2);
            assert forall|j: int| !occurs_at(t, "//"@, j) by {
                if occurs_at(t, "//"@, j) {
                    assert(t.subrange(j, j + 2) =~= url.subrange(i + 2 + j, i + 2 + j + 2));
                    assert(occurs_at(url, "//"@, i + 2 + j));
                }
            }
        },
        None => {
            assert forall|j: int| !occurs_at(url, "//"@, j) by {
                if occurs_at(url, "//"@, j) {
                    assert(j < url.len());
                }
            }
        },
    }
}

/// The endpoint shown in a public report holds no `//`: whatever preceded
/// the last one (a scheme, and anything glued to it) is gone.
pub proof fn redacted_url_has_no_scheme_separator(url: Seq<char>)
    ensures
        !contains_seq(redacted(url), "//"@),
{
    lemma_after_scheme_has_no_double_slash(url);
    let t = after_scheme(url);
    lemma_last_index_of(before_char(t, '/'), '@');
    match last_index_of(before_char(t, '/'), '@') {
        Some(k) => {
            lemma_before_char_len(t, '/');
            lemma_no_double_slash_in_tail(t, k + 1);
        },
        None => {},
    }
}

/// The endpoint shown in a public report carries no credentials: its
/// authority (what precedes the first `/`) holds no `@`.
pub proof fn redacted_url_has_no_userinfo(url: Seq<char>)
    ensures
        !before_char(redacted(url), '/').contains('@'),
{
    let t = after_scheme(url);
    let b = before_char(t, '/');
    lemma_last_index_of(b, '@');
    match last_index_of(b, '@') {
        Some(k) => {
            lemma_before_char_skip(t, '/', k + 1);
            assert(before_char(redacted(url), '/') == b.skip(k + 1));
            let tail = b.skip(k + 1);
            assert forall|j: int| 0 <= j < tail.len() implies #[trigger] tail[j] != '@' by {
                assert(tail[j] == b[k + 1 + j]);
            }
        },
        None => {},
    }
}

/// Redaction is idempotent.
pub proof fn redaction_is_idempotent(url: Seq<char>)
    ensures
        redacted(redacted(url)) == redacted(url),
{
    reveal_strlit("//");
    redacted_url_has_no_scheme_separator(url);
    redacted_url_has_no_userinfo(url);
    let r = redacted(url);
    lemma_last_occurrence(r, "//"@, r.len() as int);
    match last_occurrence(r, "//"@, r.len() as int) {
        Some(i) => {
            assert(contains_seq(r, "//"@));
        },
        None => {},
    }
    assert(after_scheme(r) == r);
    lemma_last_index_of(before_char(r, '/'), '@');
    match last_index_of(before_char(r, '/'), '@') {
        Some(k) => {
            assert(before_char(r, '/').contains('@'));
        },
        None => {},
    }
}

/// Sorted by size, largest first.
pub open spec fn sorted_desc(s: Seq<FileStat>) -> bool {
    forall|i: int, j: int| 0 <= i < j < s.len() ==> s[i].bytes >= s[j].bytes
}

pub proof fn lemma_insert_desc(s: Seq<FileStat>, x: FileStat)
    requires
        sorted_desc(s),
    ensures
        sorted_desc(insert_desc(s, x)),
        insert_desc(s, x).to_multiset() == s.to_multiset().insert(x),
        insert_desc(s, x).len() == s.len() + 1,
    decreases s.len(),
{
    broadcast use vstd::seq_lib::group_to_multiset_ensures;
    if s.len() == 0 {
        assert(insert_desc(s, x) =~= seq![x]);
    } else if s.last().bytes >= x.bytes {
        assert(s == s.drop_last().push(s.last()));
    } else {
        let p = s.drop_last();
        assert(sorted_desc(p));
        lemma_insert_desc(p, x);
        let q = insert_desc(p, x);
        assert(s =~= p.push(s.last()));
        // every entry of q is x or an entry of p, all at least as large as s.last()
        assert forall|i: int| 0 <= i < q.len() implies q[i].bytes >= s.last().bytes by {
            assert(q.to_multiset().count(q[i]) > 0);
            if q[i] != x {
                assert(p.to_multiset().count(q[i]) > 0);
                assert(p.contains(q[i]));
                let k = choose|k: int| 0 <= k < p.len() && p[k] == q[i];
                assert(s[k] == p[k]);
            }
        }
    }
}

/// Sorting by size keeps every file and orders them largest first.
pub proof fn size_sort_is_a_sorted_permutation(s: Seq<FileStat>)
    ensures
        sorted_desc(sort_desc(s)),
        sort_desc(s).to_multiset() == s.to_multiset(),
        sort_desc(s).len() == s.len(),
    decreases s.len(),
{
    broadcast use vstd::seq_lib::group_to_multiset_ensures;
    if s.len() > 0 {
        size_sort_is_a_sorted_permutation(s.drop_last());
        lemma_insert_desc(sort_desc(s.drop_last()), s.last());
        assert(s =~= s.drop_last().push(s.last()));
    } else {
        assert(s.to_multiset() =~= vstd::multiset::Multiset::empty());
        assert(sort_desc(s).to_multiset() =~= vstd::multiset::Multiset::empty());
    }
}

/// The statistics name at most five files, largest first, each one of the
/// files found.
pub proof fn largest_files_are_the_largest(s: Seq<FileStat>)
    ensures
        largest_files(s).len() <= 5,
        sorted_desc(largest_files(s)),
        forall|i: int| 0 <= i < largest_files(s).len() ==> s.contains(#[trigger] largest_files(s)[i]),
        forall|i: int, j: int|
            0 <= i < largest_files(s).len() && 0 <= j < s.len() && !largest_files(s).contains(s[j])
                ==> #[trigger] largest_files(s)[i].bytes >= #[trigger] s[j].bytes,
{
    broadcast use vstd::seq_lib::group_to_multiset_ensures;
    size_sort_is_a_sorted_permutation(s);
    let t = sort_desc(s);
    let l = largest_files(s);
    assert forall|i: int| 0 <= i < l.len() implies s.contains(#[trigger] l[i]) by {
        assert(l[i] == t[i]);
        assert(t.to_multiset().count(t[i]) > 0);
    }
    assert forall|i: int, j: int|
        0 <= i < l.len() && 0 <= j < s.len() && !l.contains(s[j]) implies #[trigger] l[i].bytes
            >= #[trigger] s[j].bytes by {
        assert(s.to_multiset().count(s[j]) > 0);
        assert(t.contains(s[j]));
        let k = choose|k: int| 0 <= k < t.len() && t[k] == s[j];
        if k < l.len() {
            assert(l[k] == t[k]);
        }
        assert(l[i] == t[i]);
    }
}

/// A manifest named after the app dir wins over any other candidate.
pub proof fn app_named_manifest_wins(names: Seq<Seq<char>>, dir_name: Seq<char>, i: int, j: int)
    requires
        is_manifest_choice(names, dir_name, i),
        0 <= j < names.len(),
        manifest_candidate(names[j]),
        name_stem(names[j]) == dir_name,
        dir_name.len() > 0,
    ensures
        name_stem(names[i]) == dir_name,
{
    assert(manifest_rank(names[i], dir_name) <= manifest_rank(names[j], dir_name));
}

/// Every risky finish-arg reported is one of the manifest's finish-args.
pub proof fn reported_args_are_present(list: Seq<Seq<char>>, present: Seq<Seq<char>>)
    ensures
        forall|i: int| 0 <= i < kept(list, present).len() ==> present.contains(#[trigger] kept(list, present)[i]),
        forall|i: int| 0 <= i < kept(list, present).len() ==> list.contains(#[trigger] kept(list, present)[i]),
    decreases list.len(),
{
    if list.len() > 0 {
        reported_args_are_present(list.drop_last(), present);
        let rest = kept(list.drop_last(), present);
        assert forall|i: int| 0 <= i < kept(list, present).len() implies list.contains(#[trigger] kept(list, present)[i]) by {
            if i < rest.len() {
                assert(list.drop_last().contains(rest[i]));
                let k = choose|k: int| 0 <= k < list.drop_last().len() && list.drop_last()[k] == rest[i];
                assert(list[k] == rest[i]);
            } else {
                assert(list[list.len() - 1] == list.last());
            }
        }
    }
}

/// Repo-critical files are never fetched from upstream.
pub proof fn repo_critical_files_stay_local(key: Seq<char>)
    requires
        repo_critical(key),
    ensures
        upstream_url_of(key) is None,
{
}

/// The bytes the digest inlines, entry by entry.
pub open spec fn inlined_total(entries: Seq<DigestEntry>) -> nat
    decreases entries.len(),
{
    if entries.len() == 0 {
        0
    } else {
        inlined_total(entries.drop_last()) + match inlined(
            entries.last(),
            digest_state(entries.drop_last()).2,
        ) {
            Some(b) => b.len(),
            None => 0,
        }
    }
}

/// The digest keeps to its budget: what it inlines and what is left add up
/// to the budget, so the "bytes used" it reports are the bytes it inlined.
pub proof fn digest_stays_within_budget(entries: Seq<DigestEntry>)
    ensures
        inlined_total(entries) + digest_state(entries).2 == TOTAL_BUDGET_BYTES,
        inlined_total(entries) <= TOTAL_BUDGET_BYTES,
    decreases entries.len(),
{
    if entries.len() > 0 {
        digest_stays_within_budget(entries.drop_last());
    }
}

/// A source is pinned by the first of its `sha256`, `tag` and `commit`
/// fields that holds a string, and is unpinned only when none does; its URL
/// is its `url` string.
pub proof fn a_source_is_pinned_by_its_first_pin_field(s: Json)
    ensures
        source_of(s).url == s.str_at("url"@),
        s.str_at("sha256"@) is Some ==> source_of(s).pinned == s.str_at("sha256"@),
        s.str_at("sha256"@) is None && s.str_at("tag"@) is Some ==> source_of(s).pinned == s.str_at(
            "tag"@,
        ),
        s.str_at("sha256"@) is None && s.str_at("tag"@) is None ==> source_of(s).pinned == s.str_at(
            "commit"@,
        ),
        source_of(s).pinned is None <==> (s.str_at("sha256"@) is None && s.str_at("tag"@) is None
            && s.str_at("commit"@) is None),
{
}

/// Every security-flag line of the report names the flag's own severity.
pub proof fn flag_lines_name_their_severity(f: SecurityFlag)
    ensures
        f.severity == Severity::Critical ==> starts_with(flag_line(f), "- [critical] "@),
        f.severity == Severity::Warning ==> starts_with(flag_line(f), "- [warning] "@),
        f.severity == Severity::Info ==> starts_with(flag_line(f), "- [info] "@),
{
    reveal_strlit("- [critical] ");
    reveal_strlit("- [warning] ");
    reveal_strlit("- [info] ");
    reveal_strlit("- [");
    reveal_strlit("] ");
    reveal_strlit("critical");
    reveal_strlit("warning");
    reveal_strlit("info");
    let l = flag_line(f);
    if f.severity == Severity::Critical {
        assert(l.subrange(0, 13) =~= "- [critical] "@);
    } else if f.severity == Severity::Warning {
        assert(l.subrange(0, 12) =~= "- [warning] "@);
    } else {
        assert(l.subrange(0, 9) =~= "- [info] "@);
    }
}

/// The security section lists a line for every flag, in order.
pub proof fn every_flag_gets_its_line(flags: Seq<SecurityFlag>, k: int)
    requires
        0 <= k < flags.len(),
    ensures
        contains_seq(flag_lines(flags), flag_line(flags[k])),
    decreases flags.len(),
{
    let rest = flags.drop_last();
    let head = flag_lines(rest);
    let line = flag_line(flags.last());
    if k == flags.len() - 1 {
        assert((head + line).subrange(head.len() as int, (head.len() + line.len()) as int) =~= line);
        assert(occurs_at(flag_lines(flags), flag_line(flags[k]), head.len() as int));
    } else {
        every_flag_gets_its_line(rest, k);
        assert(rest[k] == flags[k]);
        let i = choose|i: int| occurs_at(head, flag_line(flags[k]), i);
        let w = flag_line(flags[k]);
        assert((head + line).subrange(i, i + w.len()) =~= head.subrange(i, i + w.len()));
        assert(occurs_at(flag_lines(flags), w, i));
    }
}

/// The judge prompt closes with the build result: SUCCESS exactly when the
/// build passed, FAILED when it did not, then whether screenshots came.
pub proof fn prompt_closes_with_the_build_result(inputs: JudgeInputs)
    ensures
        inputs.build_ok && inputs.has_screenshots ==> ends_with(
            prompt_of(inputs),
            "Build result: SUCCESS. Screenshots provided: yes.\n\nScore this submission. JSON only."@,
        ),
        inputs.build_ok && !inputs.has_screenshots ==> ends_with(
            prompt_of(inputs),
            "Build result: SUCCESS. Screenshots provided: no.\n\nScore this submission. JSON only."@,
        ),
        !inputs.build_ok && inputs.has_screenshots ==> ends_with(
            prompt_of(inputs),
            "Build result: FAILED. Screenshots provided: yes.\n\nScore this submission. JSON only."@,
        ),
        !inputs.build_ok && !inputs.has_screenshots ==> ends_with(
            prompt_of(inputs),
            "Build result: FAILED. Screenshots provided: no.\n\nScore this submission. JSON only."@,
        ),
{
    reveal_strlit("Build result: SUCCESS. Screenshots provided: yes.\n\nScore this submission. JSON only.");
    reveal_strlit("Build result: SUCCESS. Screenshots provided: no.\n\nScore this submission. JSON only.");
    reveal_strlit("Build result: FAILED. Screenshots provided: yes.\n\nScore this submission. JSON only.");
    reveal_strlit("Build result: FAILED. Screenshots provided: no.\n\nScore this submission. JSON only.");
    reveal_strlit("Build result: ");
    reveal_strlit("SUCCESS");
    reveal_strlit("FAILED");
    reveal_strlit(". Screenshots provided: ");
    reveal_strlit("yes");
    reveal_strlit("no");
    reveal_strlit(".\n\nScore this submission. JSON only.");
    let c = crate::prompt::closing_line(inputs.build_ok, inputs.has_screenshots);
    let p = prompt_of(inputs);
    assert(p.subrange(p.len() - c.len(), p.len() as int) =~= c);
    if inputs.build_ok && inputs.has_screenshots {
        assert(c =~= "Build result: SUCCESS. Screenshots provided: yes.\n\nScore this submission. JSON only."@);
    } else if inputs.build_ok {
        assert(c =~= "Build result: SUCCESS. Screenshots provided: no.\n\nScore this submission. JSON only."@);
    } else if inputs.has_screenshots {
        assert(c =~= "Build result: FAILED. Screenshots provided: yes.\n\nScore this submission. JSON only."@);
    } else {
        assert(c =~= "Build result: FAILED. Screenshots provided: no.\n\nScore this submission. JSON only."@);
    }
}

/// A file of at most 24000 bytes is inlined exactly when its extension, in
/// lowercase, is one of the source and text extensions below.
pub proof fn small_text_files_are_inlined(len: u64, ext: Seq<char>)
    requires
        len <= PER_FILE_CAP_BYTES,
    ensures
        inlinable(len, ext) <==> {
            let e = lowercase(ext);
            ||| e == "rs"@ ||| e == "c"@ ||| e == "h"@ ||| e == "cpp"@ ||| e == "cc"@
            ||| e == "py"@ ||| e == "js"@ ||| e == "ts"@ ||| e == "jsx"@ ||| e == "tsx"@
            ||| e == "svelte"@ ||| e == "vue"@ ||| e == "go"@ ||| e == "java"@ ||| e == "kt"@
            ||| e == "sh"@ ||| e == "vala"@ ||| e == "ui"@ ||| e == "xml"@ ||| e == "yml"@
            ||| e == "yaml"@ ||| e == "json"@ ||| e == "toml"@ ||| e == "md"@ ||| e == "txt"@
            ||| e == "css"@ ||| e == "html"@ ||| e == "meson"@ ||| e == "build"@
            ||| e == "cmake"@ ||| e == "glsl"@ ||| e == "desktop"@ ||| e == "metainfo.xml"@
            ||| e == "appdata.xml"@ ||| e == "gresource"@
        },
{
    let t = crate::digest::text_extensions();
    let e = lowercase(ext);
    assert(t.len() == 35);
    if t.contains(e) {
        let i = choose|i: int| 0 <= i < t.len() && t[i] == e;
        assert(0 <= i < 35);
        assert(t[i] == e);
    }
    assert(t[0] == "rs"@);
    assert(t[1] == "c"@);
    assert(t[2] == "h"@);
    assert(t[3] == "cpp"@);
    assert(t[4] == "cc"@);
    assert(t[5] == "py"@);
    assert(t[6] == "js"@);
    assert(t[7] == "ts"@);
    assert(t[8] == "jsx"@);
    assert(t[9] == "tsx"@);
    assert(t[10] == "svelte"@);
    assert(t[11] == "vue"@);
    assert(t[12] == "go"@);
    assert(t[13] == "java"@);
    assert(t[14] == "kt"@);
    assert(t[15] == "sh"@);
    assert(t[16] == "vala"@);
    assert(t[17] == "ui"@);
    assert(t[18] == "xml"@);
    assert(t[19] == "yml"@);
    assert(t[20] == "yaml"@);
    assert(t[21] == "json"@);
    assert(t[22] == "toml"@);
    assert(t[23] == "md"@);
    assert(t[24] == "txt"@);
    assert(t[25] == "css"@);
    assert(t[26] == "html"@);
    assert(t[27] == "meson"@);
    assert(t[28] == "build"@);
    assert(t[29] == "cmake"@);
    assert(t[30] == "glsl"@);
    assert(t[31] == "desktop"@);
    assert(t[32] == "metainfo.xml"@);
    assert(t[33] == "appdata.xml"@);
    assert(t[34] == "gresource"@);
}

/// The legitimacy report's confidence is the reply's non-negative integer
/// confidence capped at 100, and 0 when the reply gives none.
pub proof fn confidence_is_the_reply_capped_at_100(v: Json)
    ensures
        v.get("confidence"@) matches Some(Json::Number(JsonNumber::PosInt(n))) ==> (n <= 100
            ==> confidence_of(v) == n) && (n > 100 ==> confidence_of(v) == 100),
        !(v.get("confidence"@) matches Some(Json::Number(JsonNumber::PosInt(_)))) ==> confidence_of(v)
            == 0,
        confidence_of(v) <= 100,
{
}

} // verus!

//! The report as a PR comment: a compact score table, then security flags,
//! similar apps and static advisories.
use vstd::prelude::*;

use crate::schema::{Report, Rubric, RubricScore, SecurityFlag, Severity, StaticAdvisory, Verdict};
use crate::text::{
    before_char, chars_of, decimal, find_char, join, push_char, push_decimal, push_join,
    push_repeat, repeat_char, strs_view, trim, trim_bounds, push_chars,
};

verus! {

/// `text.split('.').next().trim()` followed by a full stop.
pub open spec fn first_sentence_text(text: Seq<char>) -> Seq<char> {
    trim(before_char(text, '.')) + "."@
}

/// One character made safe for a table cell: `|` is escaped, a line break
/// becomes a space.
pub open spec fn escape_char(c: char) -> Seq<char> {
    if c == '|' {
        "\\|"@
    } else if c == '\n' {
        " "@
    } else {
        seq![c]
    }
}

/// `text.replace('|', "\\|").replace('\n', " ")`.
pub open spec fn escaped_cell(text: Seq<char>) -> Seq<char>
    decreases text.len(),
{
    if text.len() == 0 {
        seq![]
    } else {
        escaped_cell(text.drop_last()) + escape_char(text.last())
    }
}

/// A five-step bar for a score (capped at 5), then `n/5`.
pub open spec fn bar_text(score: u8) -> Seq<char> {
    let s: nat = if score < 5 { score as nat } else { 5 };
    repeat_char('■', s) + repeat_char('□', (5 - s) as nat) + " "@ + decimal(s) + "/5"@
}

/// A table row with the score drawn as a bar and the full rationale.
pub open spec fn rubric_row_text(name: Seq<char>, s: RubricScore) -> Seq<char> {
    "| "@ + name + " | "@ + bar_text(s.score) + " | "@ + escaped_cell(s.rationale@) + " |\n"@
}

/// What a verdict reads as.
pub open spec fn verdict_text(v: Verdict) -> Seq<char> {
    match v {
        Verdict::AcceptRecommended => "ACCEPT recommended"@,
        Verdict::NeedsHuman => "NEEDS HUMAN"@,
        Verdict::RejectRecommended => "REJECT recommended"@,
    }
}

pub open spec fn severity_word(s: Severity) -> Seq<char> {
    match s {
        Severity::Critical => "critical"@,
        Severity::Warning => "warning"@,
        Severity::Info => "info"@,
    }
}

/// A compact score line: the score drawn as a bar, then the first sentence
/// of its rationale.
pub open spec fn score_line(name: Seq<char>, score: u8, rationale: Seq<char>) -> Seq<char> {
    "| "@ + name + " | "@ + bar_text(score) + " | "@ + escaped_cell(
        first_sentence_text(rationale),
    ) + " |\n"@
}

pub open spec fn flag_line(f: SecurityFlag) -> Seq<char> {
    "- ["@ + severity_word(f.severity) + "] "@ + escaped_cell(f.detail@) + "\n"@
}

pub open spec fn flag_lines(flags: Seq<SecurityFlag>) -> Seq<char>
    decreases flags.len(),
{
    if flags.len() == 0 {
        seq![]
    } else {
        flag_lines(flags.drop_last()) + flag_line(flags.last())
    }
}

pub open spec fn security_section(flags: Seq<SecurityFlag>) -> Seq<char> {
    if flags.len() == 0 {
        seq![]
    } else {
        "**Security:**\n"@ + flag_lines(flags) + "\n"@
    }
}

pub open spec fn alternatives_section(alts: Seq<Seq<char>>) -> Seq<char> {
    if alts.len() == 0 {
        seq![]
    } else {
        "**Similar apps:** "@ + join(alts, ", "@) + "\n\n"@
    }
}

pub open spec fn table_head() -> Seq<char> {
    "| dimension | score | note |\n|---|---|---|\n"@
}

/// The score table and what follows from the rubric.
pub open spec fn rubric_section(r: Rubric) -> Seq<char> {
    table_head() + score_line("clarity"@, r.problem_clarity.score, r.problem_clarity.rationale@)
        + score_line("architecture"@, r.architecture.score, r.architecture.rationale@)
        + score_line("code"@, r.code_quality.score, r.code_quality.rationale@) + score_line(
        "ui/ux"@,
        r.ui_ux.score,
        r.ui_ux.rationale@,
    ) + score_line("packaging"@, r.packaging_hygiene.score, r.packaging_hygiene.rationale@)
        + score_line("uniqueness"@, r.differentiation.score, r.differentiation.rationale@)
        + "\n"@ + security_section(r.security_flags@) + alternatives_section(
        strs_view(r.differentiation.better_alternatives@),
    )
}

pub open spec fn advisory_line(a: StaticAdvisory) -> Seq<char> {
    "- "@ + a.kind@ + ": "@ + a.detail@ + "\n"@
}

pub open spec fn advisory_lines(advs: Seq<StaticAdvisory>) -> Seq<char>
    decreases advs.len(),
{
    if advs.len() == 0 {
        seq![]
    } else {
        advisory_lines(advs.drop_last()) + advisory_line(advs.last())
    }
}

pub open spec fn advisories_section(advs: Seq<StaticAdvisory>) -> Seq<char> {
    if advs.len() == 0 {
        seq![]
    } else {
        "**Advisories:**\n"@ + advisory_lines(advs) + "\n"@
    }
}

pub open spec fn markdown_of(report: Report) -> Seq<char> {
    "## omapak judge · `"@ + report.app_id@ + "`\n\n"@ + (if !report.build.ok {
        "**Build failed.** Fix the manifest and push.\n\n"@
    } else {
        seq![]
    }) + (match report.rubric {
        Some(r) => rubric_section(r),
        None => seq![],
    }) + advisories_section(report.static_report.advisories@)
}

/// Appends `escaped_cell(cs[from..to])`.
fn push_escaped(out: &mut String, cs: &Vec<char>, from: usize, to: usize)
    requires
        from <= to <= cs@.len(),
    ensures
        final(out)@ == old(out)@ + escaped_cell(cs@.subrange(from as int, to as int)),
{
    let mut i = from;
    while i < to
        invariant
            from <= i <= to <= cs@.len(),
            out@ == old(out)@ + escaped_cell(cs@.subrange(from as int, i as int)),
        decreases to - i,
    {
        let c = cs[i];
        if c == '|' {
            out.append("\\|");
        } else if c == '\n' {
            out.append(" ");
        } else {
            push_char(out, c);
        }
        assert(cs@.subrange(from as int, i + 1).drop_last() =~= cs@.subrange(from as int, i as int));
        assert(out@ =~= old(out)@ + escaped_cell(cs@.subrange(from as int, i + 1)));
        i += 1;
    }
}

/// Makes text safe for one table cell.
pub fn escape_table(text: &str) -> (r: String)
    ensures
        r@ == escaped_cell(text@),
{
    let cs = chars_of(text);
    let mut r = String::new();
    push_escaped(&mut r, &cs, 0, cs.len());
    assert(cs@.subrange(0, cs@.len() as int) =~= cs@);
    r
}

/// The first sentence of a rationale, with its full stop.
pub fn first_sentence(text: &str) -> (r: String)
    ensures
        r@ == first_sentence_text(text@),
{
    let cs = chars_of(text);
    let end = find_char(&cs, '.');
    let (a, b) = trim_bounds(&cs, 0, end);
    assert(cs@.subrange(0, end as int) =~= cs@.take(end as int));
    let mut r = String::new();
    push_chars(&mut r, &cs, a, b);
    r.append(".");
    assert(r@ =~= first_sentence_text(text@));
    r
}

pub fn bar(score: u8) -> (r: String)
    ensures
        r@ == bar_text(score),
{
    let s: u8 = if score < 5 { score } else { 5 };
    let mut r = String::new();
    push_repeat(&mut r, '■', s as usize);
    push_repeat(&mut r, '□', (5 - s) as usize);
    r.append(" ");
    push_decimal(&mut r, s as u64);
    r.append("/5");
    assert(r@ =~= bar_text(score));
    r
}

pub fn rubric_row(name: &str, s: &RubricScore) -> (r: String)
    ensures
        r@ == rubric_row_text(name@, *s),
{
    let mut r = String::new();
    r.append("| ");
    r.append(name);
    r.append(" | ");
    let b = bar(s.score);
    r.append(b.as_str());
    r.append(" | ");
    let e = escape_table(s.rationale.as_str());
    r.append(e.as_str());
    r.append(" |\n");
    assert(r@ =~= rubric_row_text(name@, *s));
    r
}

pub fn verdict_label(v: Verdict) -> (r: &'static str)
    ensures
        r@ == verdict_text(v),
{
    match v {
        Verdict::AcceptRecommended => "ACCEPT recommended",
        Verdict::NeedsHuman => "NEEDS HUMAN",
        Verdict::RejectRecommended => "REJECT recommended",
    }
}

fn push_score_line(out: &mut String, name: &str, score: u8, rationale: &str)
    ensures
        final(out)@ == old(out)@ + score_line(name@, score, rationale@),
{
    out.append("| ");
    out.append(name);
    out.append(" | ");
    let b = bar(score);
    out.append(b.as_str());
    out.append(" | ");
    let first = first_sentence(rationale);
    let e = escape_table(first.as_str());
    out.append(e.as_str());
    out.append(" |\n");
    assert(out@ =~= old(out)@ + score_line(name@, score, rationale@));
}

fn severity_name(s: Severity) -> (r: &'static str)
    ensures
        r@ == severity_word(s),
{
    match s {
        Severity::Critical => "critical",
        Severity::Warning => "warning",
        Severity::Info => "info",
    }
}

fn push_security(out: &mut String, flags: &Vec<SecurityFlag>)
    ensures
        final(out)@ == old(out)@ + security_section(flags@),
{
    if flags.len() == 0 {
        assert(out@ =~= old(out)@ + security_section(flags@));
        return;
    }
    out.append("**Security:**\n");
    let ghost start = out@;
    let mut i: usize = 0;
    while i < flags.len()
        invariant
            i <= flags@.len(),
            out@ == start + flag_lines(flags@.take(i as int)),
        decreases flags@.len() - i,
    {
        let f = &flags[i];
        out.append("- [");
        out.append(severity_name(f.severity));
        out.append("] ");
        let e = escape_table(f.detail.as_str());
        out.append(e.as_str());
        out.append("\n");
        assert(flags@.take(i + 1).drop_last() =~= flags@.take(i as int));
        assert(out@ =~= start + flag_lines(flags@.take(i + 1)));
        i += 1;
    }
    assert(flags@.take(flags@.len() as int) =~= flags@);
    out.append("\n");
    assert(out@ =~= old(out)@ + security_section(flags@));
}

fn push_alternatives(out: &mut String, alts: &Vec<String>)
    ensures
        final(out)@ == old(out)@ + alternatives_section(strs_view(alts@)),
{
    if alts.len() == 0 {
        assert(out@ =~= old(out)@ + alternatives_section(strs_view(alts@)));
        return;
    }
    out.append("**Similar apps:** ");
    push_join(out, alts, ", ");
    out.append("\n\n");
    assert(out@ =~= old(out)@ + alternatives_section(strs_view(alts@)));
}

fn push_rubric(out: &mut String, r: &Rubric)
    ensures
        final(out)@ == old(out)@ + rubric_section(*r),
{
    out.append("| dimension | score | note |\n|---|---|---|\n");
    push_score_line(out, "clarity", r.problem_clarity.score, r.problem_clarity.rationale.as_str());
    push_score_line(out, "architecture", r.architecture.score, r.architecture.rationale.as_str());
    push_score_line(out, "code", r.code_quality.score, r.code_quality.rationale.as_str());
    push_score_line(out, "ui/ux", r.ui_ux.score, r.ui_ux.rationale.as_str());
    push_score_line(
        out,
        "packaging",
        r.packaging_hygiene.score,
        r.packaging_hygiene.rationale.as_str(),
    );
    push_score_line(
        out,
        "uniqueness",
        r.differentiation.score,
        r.differentiation.rationale.as_str(),
    );
    out.append("\n");
    push_security(out, &r.security_flags);
    push_alternatives(out, &r.differentiation.better_alternatives);
    assert(out@ =~= old(out)@ + rubric_section(*r));
}

fn push_advisories(out: &mut String, advs: &Vec<StaticAdvisory>)
    ensures
        final(out)@ == old(out)@ + advisories_section(advs@),
{
    if advs.len() == 0 {
        assert(out@ =~= old(out)@ + advisories_section(advs@));
        return;
    }
    out.append("**Advisories:**\n");
    let ghost start = out@;
    let mut i: usize = 0;
    while i < advs.len()
        invariant
            i <= advs@.len(),
            out@ == start + advisory_lines(advs@.take(i as int)),
        decreases advs@.len() - i,
    {
        out.append("- ");
        out.append(advs[i].kind.as_str());
        out.append(": ");
        out.append(advs[i].detail.as_str());
        out.append("\n");
        assert(advs@.take(i + 1).drop_last() =~= advs@.take(i as int));
        assert(out@ =~= start + advisory_lines(advs@.take(i + 1)));
        i += 1;
    }
    assert(advs@.take(advs@.len() as int) =~= advs@);
    out.append("\n");
    assert(out@ =~= old(out)@ + advisories_section(advs@));
}

/// Renders a report as the PR comment. Scores are shown with a bar so a
/// skim reads the shape of the app before any prose does.
pub fn render_markdown(report: &Report) -> (md: String)
    ensures
        md@ == markdown_of(*report),
{
    let mut out = String::new();
    out.append("## omapak judge · `");
    out.append(report.app_id.as_str());
    out.append("`\n\n");
    if !report.build.ok {
        out.append("**Build failed.** Fix the manifest and push.\n\n");
    }
    match &report.rubric {
        Some(r) => push_rubric(&mut out, r),
        None => {},
    }
    push_advisories(&mut out, &report.static_report.advisories);
    assert(out@ =~= markdown_of(*report));
    out
}

} // verus!

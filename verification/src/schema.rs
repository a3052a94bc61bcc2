//! The report schema and the verdict rules: what the judge produces and the
//! rules that turn a rubric into a verdict.
use vstd::prelude::*;

use crate::manifest::ManifestInfo;
use crate::metadata::{Metadata, SourceAccess};
use crate::text::{contains_seq, contains_str, decimal, push_decimal};

verus! {

pub const REPORT_SCHEMA_VERSION: u32 = 1;

/// Below this, packaging_hygiene is a hard reject: an app that cannot
/// install cleanly has no business being distributed, whatever else it scores.
pub const GATE_MIN_PACKAGING_HYGIENE: u8 = 2;

/// The highest score a rubric dimension can carry.
pub const SCORE_MAX: u8 = 5;

#[derive(Debug, Clone, Copy, PartialEq, Eq, Structural)]
pub enum Verdict {
    AcceptRecommended,
    NeedsHuman,
    RejectRecommended,
}

#[derive(Debug, Clone, Copy, PartialEq, Eq, Structural)]
pub enum Severity {
    Info,
    Warning,
    Critical,
}

#[derive(Debug, Clone, PartialEq)]
pub struct RubricScore {
    /// 0–5 inclusive.
    pub score: u8,
    pub rationale: String,
}

/// The one dimension that must never gate: it names better existing
/// solutions purely as information for the human who merges and the user.
#[derive(Debug, Clone, PartialEq)]
pub struct Differentiation {
    /// 0–5 inclusive. Low score = "this is a clone", still advisory.
    pub score: u8,
    pub rationale: String,
    pub better_alternatives: Vec<String>,
}

#[derive(Debug, Clone, PartialEq)]
pub struct SecurityFlag {
    pub severity: Severity,
    pub detail: String,
}

#[derive(Debug, Clone, PartialEq)]
pub struct Rubric {
    pub problem_clarity: RubricScore,
    pub differentiation: Differentiation,
    pub architecture: RubricScore,
    pub code_quality: RubricScore,
    pub ui_ux: RubricScore,
    pub packaging_hygiene: RubricScore,
    pub security_flags: Vec<SecurityFlag>,
}

/// The five advisory dimensions, summed. Packaging hygiene and security are
/// gates, not averages.
pub open spec fn advisory_sum(r: Rubric) -> int {
    r.problem_clarity.score + r.differentiation.score + r.architecture.score
        + r.code_quality.score + r.ui_ux.score
}

/// The advisory mean (`advisory_sum / 5`) is at least 3.5.
pub open spec fn advisory_supports_accept(r: Rubric) -> bool {
    2 * advisory_sum(r) >= 35
}

/// Some flag is critical.
pub open spec fn has_critical(flags: Seq<SecurityFlag>) -> bool {
    exists|i: int| 0 <= i < flags.len() && flags[i].severity == Severity::Critical
}

/// `"<name> score <score> out of range 0-5"`.
pub open spec fn range_error(name: Seq<char>, score: u8) -> Seq<char> {
    name + " score "@ + decimal(score as nat) + " out of range 0-5"@
}

/// The complaint about the first dimension whose score exceeds 5, in the
/// order the rubric lists them; `None` when every score is in range.
pub open spec fn validation_error(r: Rubric) -> Option<Seq<char>> {
    if r.problem_clarity.score > 5 {
        Some(range_error("problem_clarity"@, r.problem_clarity.score))
    } else if r.differentiation.score > 5 {
        Some(range_error("differentiation"@, r.differentiation.score))
    } else if r.architecture.score > 5 {
        Some(range_error("architecture"@, r.architecture.score))
    } else if r.code_quality.score > 5 {
        Some(range_error("code_quality"@, r.code_quality.score))
    } else if r.ui_ux.score > 5 {
        Some(range_error("ui_ux"@, r.ui_ux.score))
    } else if r.packaging_hygiene.score > 5 {
        Some(range_error("packaging_hygiene"@, r.packaging_hygiene.score))
    } else {
        None
    }
}

/// Every score lies in 0–5.
pub open spec fn scores_in_range(r: Rubric) -> bool {
    &&& r.problem_clarity.score <= SCORE_MAX
    &&& r.differentiation.score <= SCORE_MAX
    &&& r.architecture.score <= SCORE_MAX
    &&& r.code_quality.score <= SCORE_MAX
    &&& r.ui_ux.score <= SCORE_MAX
    &&& r.packaging_hygiene.score <= SCORE_MAX
}

/// The entire gate logic of omapak. The judge's rubric informs; these rules
/// decide.
pub open spec fn verdict_for(r: Rubric, build_ok: bool) -> Verdict {
    if !build_ok {
        Verdict::RejectRecommended
    } else if has_critical(r.security_flags@) {
        Verdict::RejectRecommended
    } else if r.packaging_hygiene.score < GATE_MIN_PACKAGING_HYGIENE {
        Verdict::RejectRecommended
    } else if r.security_flags@.len() == 0 && advisory_supports_accept(r) {
        Verdict::AcceptRecommended
    } else {
        Verdict::NeedsHuman
    }
}

fn range_message(name: &str, score: u8) -> (m: String)
    ensures
        m@ == range_error(name@, score),
{
    let mut m = String::from_str(name);
    m.append(" score ");
    push_decimal(&mut m, score as u64);
    m.append(" out of range 0-5");
    m
}

impl Rubric {
    /// Sum of the five advisory dimensions (their mean times five).
    pub fn advisory_sum(&self) -> (s: u32)
        ensures
            s == advisory_sum(*self),
    {
        self.problem_clarity.score as u32 + self.differentiation.score as u32
            + self.architecture.score as u32 + self.code_quality.score as u32
            + self.ui_ux.score as u32
    }

    /// Every score must be 0–5; the LLM's arithmetic is not trusted.
    pub fn validate(&self) -> (r: Result<(), String>)
        ensures
            r is Ok <==> scores_in_range(*self),
            r is Ok <==> validation_error(*self) is None,
            r matches Err(m) ==> validation_error(*self) == Some(m@),
    {
        if self.problem_clarity.score > 5 {
            return Err(range_message("problem_clarity", self.problem_clarity.score));
        }
        if self.differentiation.score > 5 {
            return Err(range_message("differentiation", self.differentiation.score));
        }
        if self.architecture.score > 5 {
            return Err(range_message("architecture", self.architecture.score));
        }
        if self.code_quality.score > 5 {
            return Err(range_message("code_quality", self.code_quality.score));
        }
        if self.ui_ux.score > 5 {
            return Err(range_message("ui_ux", self.ui_ux.score));
        }
        if self.packaging_hygiene.score > 5 {
            return Err(range_message("packaging_hygiene", self.packaging_hygiene.score));
        }
        Ok(())
    }
}

/// Whether some flag is critical.
pub fn any_critical(flags: &Vec<SecurityFlag>) -> (r: bool)
    ensures
        r == has_critical(flags@),
{
    let mut i: usize = 0;
    while i < flags.len()
        invariant
            i <= flags@.len(),
            forall|k: int| 0 <= k < i ==> flags@[k].severity != Severity::Critical,
        decreases flags@.len() - i,
    {
        if flags[i].severity == Severity::Critical {
            return true;
        }
        i += 1;
    }
    false
}

/// The verdict a rubric earns; `build_ok` is whether the build gate passed.
pub fn compute_verdict(rubric: &Rubric, build_ok: bool) -> (v: Verdict)
    ensures
        v == verdict_for(*rubric, build_ok),
{
    if !build_ok {
        return Verdict::RejectRecommended;
    }
    if any_critical(&rubric.security_flags) {
        return Verdict::RejectRecommended;
    }
    if rubric.packaging_hygiene.score < GATE_MIN_PACKAGING_HYGIENE {
        return Verdict::RejectRecommended;
    }
    if rubric.security_flags.len() == 0 && 2 * rubric.advisory_sum() >= 35 {
        return Verdict::AcceptRecommended;
    }
    Verdict::NeedsHuman
}

#[derive(Debug, Clone, Copy, PartialEq, Eq, Structural)]
pub enum LinterStatus {
    Pass,
    Failed,
    NotFound,
    Skipped,
}

#[derive(Debug, Clone, PartialEq)]
pub struct LinterRun {
    pub tool: String,
    pub status: LinterStatus,
    pub findings: Vec<String>,
}

#[derive(Debug, Clone, PartialEq)]
pub struct FileStat {
    pub path: String,
    pub bytes: u64,
}

#[derive(Debug, Clone, PartialEq)]
pub struct SourceStats {
    pub files: u64,
    pub bytes: u64,
    pub largest: Vec<FileStat>,
    /// None when the app dir carries no git history (e.g. a sparse CI checkout).
    pub commit_count: Option<u64>,
    /// RFC 3339 date of the upstream's last commit, when a source checkout
    /// was available. Feeds the maintenance lifecycle policy.
    pub last_commit_date: Option<String>,
}

#[derive(Debug, Clone, PartialEq)]
pub struct StaticAdvisory {
    pub kind: String,
    pub detail: String,
}

#[derive(Debug, Clone, PartialEq)]
pub struct StaticReport {
    pub manifest: Option<ManifestInfo>,
    pub metadata_present: bool,
    pub appstream_present: bool,
    pub linters: Vec<LinterRun>,
    pub advisories: Vec<StaticAdvisory>,
    pub source_stats: Option<SourceStats>,
}

impl Default for StaticReport {
    fn default() -> (r: StaticReport)
        ensures
            r.manifest is None,
            !r.metadata_present,
            !r.appstream_present,
            r.linters@.len() == 0,
            r.advisories@.len() == 0,
            r.source_stats is None,
    {
        StaticReport {
            manifest: None,
            metadata_present: false,
            appstream_present: false,
            linters: Vec::new(),
            advisories: Vec::new(),
            source_stats: None,
        }
    }
}

#[derive(Debug, Clone, PartialEq)]
pub struct BuildReport {
    pub ok: bool,
    pub duration_secs: u64,
    pub log_tail: Vec<String>,
}

#[derive(Debug, Clone, PartialEq)]
pub struct DynamicReport {
    pub launched: bool,
    pub screenshots: Vec<String>,
    pub log_tail: Vec<String>,
}

#[derive(Debug, Clone, PartialEq)]
pub struct JudgeInfo {
    pub model: String,
    pub base_url: String,
    /// Version tag of the in-repo judge prompt that produced the rubric.
    pub prompt_version: String,
    pub duration_secs: u64,
}

#[derive(Debug, Clone, PartialEq)]
pub struct Report {
    pub schema_version: u32,
    pub app_id: String,
    /// When the report was made, as an RFC 3339 timestamp in UTC.
    pub created_at: String,
    pub static_report: StaticReport,
    pub build: BuildReport,
    pub dynamic: Option<DynamicReport>,
    pub rubric: Option<Rubric>,
    pub verdict: Verdict,
    pub judge: Option<JudgeInfo>,
}

/// A failed run of flatpak-builder-lint that reports an error.
pub open spec fn hard_lint_failure(l: LinterRun) -> bool {
    &&& l.status == LinterStatus::Failed
    &&& l.tool@ == "flatpak-builder-lint"@
    &&& exists|j: int| 0 <= j < l.findings@.len() && contains_seq(l.findings@[j]@, "error"@)
}

/// Without an agent rubric only the deterministic gates speak: a failed gate,
/// a missing manifest or a hard lint failure rejects; anything else goes to a
/// human.
pub open spec fn gates_only(s: StaticReport, gates_ok: bool) -> Verdict {
    if !gates_ok || s.manifest is None {
        Verdict::RejectRecommended
    } else if exists|i: int| 0 <= i < s.linters@.len() && hard_lint_failure(s.linters@[i]) {
        Verdict::RejectRecommended
    } else {
        Verdict::NeedsHuman
    }
}

fn is_hard_lint_failure(l: &LinterRun) -> (r: bool)
    ensures
        r == hard_lint_failure(*l),
{
    if l.status != LinterStatus::Failed || !crate::text::str_eq(l.tool.as_str(), "flatpak-builder-lint") {
        return false;
    }
    let mut j: usize = 0;
    while j < l.findings.len()
        invariant
            j <= l.findings@.len(),
            l.status == LinterStatus::Failed,
            l.tool@ == "flatpak-builder-lint"@,
            forall|k: int| 0 <= k < j ==> !contains_seq(l.findings@[k]@, "error"@),
        decreases l.findings@.len() - j,
    {
        if contains_str(l.findings[j].as_str(), "error") {
            return true;
        }
        j += 1;
    }
    false
}

/// The verdict when no rubric is available.
pub fn gates_only_verdict(static_report: &StaticReport, gates_ok: bool) -> (v: Verdict)
    ensures
        v == gates_only(*static_report, gates_ok),
{
    if !gates_ok || static_report.manifest.is_none() {
        return Verdict::RejectRecommended;
    }
    let mut i: usize = 0;
    while i < static_report.linters.len()
        invariant
            i <= static_report.linters@.len(),
            forall|k: int| 0 <= k < i ==> !hard_lint_failure(#[trigger] static_report.linters@[k]),
        decreases static_report.linters@.len() - i,
    {
        if is_hard_lint_failure(&static_report.linters[i]) {
            return Verdict::RejectRecommended;
        }
        i += 1;
    }
    Verdict::NeedsHuman
}

/// The access a submitter declared, if metadata was read.
pub fn metadata_source_access(metadata: Option<&Metadata>) -> (r: Option<SourceAccess>)
    ensures
        r == (match metadata {
            Some(m) => Some(m.source_access),
            None => None,
        }),
{
    match metadata {
        Some(m) => Some(m.source_access),
        None => None,
    }
}

/// Closed source that ships only through owner-assisted judging, judged
/// without its real source.
pub open spec fn assisted_pending(access: Option<SourceAccess>, has_source_dir: bool) -> bool {
    access == Some(SourceAccess::PrivateAssisted) && !has_source_dir
}

pub fn assisted_judging_pending(access: Option<SourceAccess>, has_source_dir: bool) -> (r: bool)
    ensures
        r == assisted_pending(access, has_source_dir),
{
    match access {
        Some(SourceAccess::PrivateAssisted) => !has_source_dir,
        _ => false,
    }
}

/// The verdict of a judging run: the rubric's when there is one, the gates'
/// otherwise, held at needs-human while an owner-assisted judging is pending.
pub open spec fn run_verdict(rubric: Option<Rubric>, s: StaticReport, gates_ok: bool, pending: bool) -> Verdict {
    let v = match rubric {
        Some(r) => verdict_for(r, gates_ok),
        None => gates_only(s, gates_ok),
    };
    if pending && v == Verdict::AcceptRecommended {
        Verdict::NeedsHuman
    } else {
        v
    }
}

pub fn decide_verdict(rubric: Option<&Rubric>, static_report: &StaticReport, gates_ok: bool, pending: bool) -> (v: Verdict)
    ensures
        v == run_verdict(
            match rubric {
                Some(r) => Some(*r),
                None => None,
            },
            *static_report,
            gates_ok,
            pending,
        ),
{
    let v = match rubric {
        Some(r) => compute_verdict(r, gates_ok),
        None => gates_only_verdict(static_report, gates_ok),
    };
    if pending && v == Verdict::AcceptRecommended {
        Verdict::NeedsHuman
    } else {
        v
    }
}

} // verus!

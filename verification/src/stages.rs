//! What the build and launch stages make of what their tools printed, and the
//! build record a report carries.
use vstd::prelude::*;

use crate::schema::{BuildReport, DynamicReport, StaticReport};
use crate::text::{decimal, lemma_strs_view_push, lines, lines_of, parse_u64, parse_u64_str, push_decimal, strs_view};

verus! {

/// Seconds a build may run when `OMAPAK_BUILD_TIMEOUT_SECS` gives no number.
pub const DEFAULT_BUILD_TIMEOUT_SECS: u64 = 1800;

/// Lines of build output a report keeps.
pub const BUILD_LOG_LINES: usize = 40;

/// Lines of launch output a report keeps.
pub const DYNAMIC_LOG_LINES: usize = 20;

/// The build timeout: the variable's value when it reads as a number, else
/// the default.
pub open spec fn timeout_secs_of(value: Option<Seq<char>>) -> u64 {
    match value {
        Some(v) => match parse_u64(v) {
            Some(n) => n,
            None => DEFAULT_BUILD_TIMEOUT_SECS,
        },
        None => DEFAULT_BUILD_TIMEOUT_SECS,
    }
}

pub fn build_timeout_secs(value: Option<&str>) -> (r: u64)
    ensures
        r == timeout_secs_of(match value {
            Some(v) => Some(v@),
            None => None,
        }),
{
    match value {
        Some(v) => match parse_u64_str(v) {
            Some(n) => n,
            None => DEFAULT_BUILD_TIMEOUT_SECS,
        },
        None => DEFAULT_BUILD_TIMEOUT_SECS,
    }
}

/// The last `n` items (all of them when there are fewer).
pub open spec fn last_n<A>(s: Seq<A>, n: nat) -> Seq<A> {
    if s.len() > n {
        s.skip(s.len() - n)
    } else {
        s
    }
}

fn keep_last(v: Vec<String>, n: usize) -> (r: Vec<String>)
    ensures
        strs_view(r@) == last_n(strs_view(v@), n as nat),
{
    if v.len() <= n {
        return v;
    }
    let start = v.len() - n;
    let mut r: Vec<String> = Vec::new();
    let mut i = start;
    assert(strs_view(r@) =~= strs_view(v@).subrange(start as int, start as int));
    while i < v.len()
        invariant
            start <= i <= v@.len(),
            strs_view(r@) == strs_view(v@).subrange(start as int, i as int),
        decreases v@.len() - i,
    {
        let line = v[i].clone();
        proof {
            lemma_strs_view_push(r@, line);
        }
        r.push(line);
        assert(strs_view(v@).subrange(start as int, i + 1) =~= strs_view(v@).subrange(start as int, i as int).push(v@[i as int]@));
        i += 1;
    }
    assert(strs_view(v@).subrange(start as int, v@.len() as int) =~= strs_view(v@).skip(start as int));
    r
}

/// The tail of a build's output: its lines, then its error output's lines,
/// the last forty of them.
pub open spec fn build_tail(stdout: Seq<char>, stderr: Seq<char>) -> Seq<Seq<char>> {
    last_n(lines(stdout) + lines(stderr), BUILD_LOG_LINES as nat)
}

pub fn build_log_tail(stdout: &str, stderr: &str) -> (r: Vec<String>)
    ensures
        strs_view(r@) == build_tail(stdout@, stderr@),
{
    let mut all = lines_of(stdout);
    let mut more = lines_of(stderr);
    let ghost a = all@;
    let ghost b = more@;
    all.append(&mut more);
    assert(strs_view(all@) =~= strs_view(a) + strs_view(b));
    keep_last(all, BUILD_LOG_LINES)
}

/// The report of a build that ran to its end.
pub fn build_finished_report(success: bool, duration_secs: u64, stdout: &str, stderr: &str) -> (r: BuildReport)
    ensures
        r.ok == success,
        r.duration_secs == duration_secs,
        strs_view(r.log_tail@) == build_tail(stdout@, stderr@),
{
    BuildReport { ok: success, duration_secs, log_tail: build_log_tail(stdout, stderr) }
}

pub open spec fn timeout_line(timeout_secs: u64) -> Seq<char> {
    "build exceeded OMAPAK_BUILD_TIMEOUT_SECS ("@ + decimal(timeout_secs as nat) + ") and was killed"@
}

/// The report of a build killed for running past its timeout.
pub fn build_timeout_report(duration_secs: u64, timeout_secs: u64) -> (r: BuildReport)
    ensures
        !r.ok,
        r.duration_secs == duration_secs,
        strs_view(r.log_tail@) == seq![timeout_line(timeout_secs)],
{
    let mut line = String::from_str("build exceeded OMAPAK_BUILD_TIMEOUT_SECS (");
    push_decimal(&mut line, timeout_secs);
    line.append(") and was killed");
    let mut log_tail: Vec<String> = Vec::new();
    proof {
        lemma_strs_view_push(log_tail@, line);
    }
    log_tail.push(line);
    assert(strs_view(log_tail@) =~= seq![timeout_line(timeout_secs)]);
    BuildReport { ok: false, duration_secs, log_tail }
}

/// The note a report carries when the build was not run in this phase.
pub open spec fn build_note(recorded_earlier: bool) -> Seq<char> {
    if recorded_earlier {
        "recorded in an earlier phase"@
    } else {
        "skipped: --skip-build or resumed from partial"@
    }
}

/// The build record of a report: what an earlier phase or a skipped build
/// recorded; `recorded_earlier` is whether the run resumed from a partial
/// report or skipped the build.
pub fn report_build(build_ok: bool, recorded_earlier: bool) -> (r: BuildReport)
    ensures
        r.ok == build_ok,
        r.duration_secs == 0,
        strs_view(r.log_tail@) == seq![build_note(recorded_earlier)],
{
    let line = if recorded_earlier {
        String::from_str("recorded in an earlier phase")
    } else {
        String::from_str("skipped: --skip-build or resumed from partial")
    };
    let mut log_tail: Vec<String> = Vec::new();
    proof {
        lemma_strs_view_push(log_tail@, line);
    }
    log_tail.push(line);
    assert(strs_view(log_tail@) =~= seq![build_note(recorded_earlier)]);
    BuildReport { ok: build_ok, duration_secs: 0, log_tail }
}

/// The app id a report is filed under: the manifest's, else "unknown".
pub open spec fn report_app_id_of(s: StaticReport) -> Seq<char> {
    match s.manifest {
        Some(m) => m.app_id@,
        None => "unknown"@,
    }
}

pub fn report_app_id(s: &StaticReport) -> (r: String)
    ensures
        r@ == report_app_id_of(*s),
{
    match &s.manifest {
        Some(m) => m.app_id.clone(),
        None => String::from_str("unknown"),
    }
}

/// A launch report that records only why the launch stage did not run.
pub fn note_report(note: &str) -> (r: DynamicReport)
    ensures
        !r.launched,
        r.screenshots@.len() == 0,
        strs_view(r.log_tail@) == seq![note@],
{
    let mut log_tail: Vec<String> = Vec::new();
    let line = String::from_str(note);
    proof {
        lemma_strs_view_push(log_tail@, line);
    }
    log_tail.push(line);
    assert(strs_view(log_tail@) =~= seq![note@]);
    DynamicReport { launched: false, screenshots: Vec::new(), log_tail }
}

pub open spec fn missing_tool_text(tool: Seq<char>) -> Seq<char> {
    "skipped: "@ + tool + " not installed (pacman -S "@ + tool + " / apt install "@ + tool + ")"@
}

/// The launch stage needs a tool that is not installed.
pub fn missing_tool_report(tool: &str) -> (r: DynamicReport)
    ensures
        !r.launched,
        r.screenshots@.len() == 0,
        strs_view(r.log_tail@) == seq![missing_tool_text(tool@)],
{
    let mut note = String::from_str("skipped: ");
    note.append(tool);
    note.append(" not installed (pacman -S ");
    note.append(tool);
    note.append(" / apt install ");
    note.append(tool);
    note.append(")");
    assert(note@ =~= missing_tool_text(tool@));
    note_report(note.as_str())
}

/// The launch script could not be written.
pub fn shim_unwritable_report() -> (r: DynamicReport)
    ensures
        !r.launched,
        r.screenshots@.len() == 0,
        strs_view(r.log_tail@) == seq!["skipped: could not write dynamic shim"@],
{
    note_report("skipped: could not write dynamic shim")
}

pub open spec fn install_failure_text(stderr: Seq<char>) -> Seq<char> {
    "skipped: flatpak install failed: "@ + (if lines(stderr).len() > 0 {
        lines(stderr).last()
    } else {
        "?"@
    })
}

/// The app could not be installed from the local repo: the last line of the
/// installer's error output says why.
pub fn install_failed_report(stderr: &str) -> (r: DynamicReport)
    ensures
        !r.launched,
        r.screenshots@.len() == 0,
        strs_view(r.log_tail@) == seq![install_failure_text(stderr@)],
{
    let ls = lines_of(stderr);
    let mut note = String::from_str("skipped: flatpak install failed: ");
    if ls.len() > 0 {
        assert(strs_view(ls@).last() == ls@[ls@.len() - 1]@);
        note.append(ls[ls.len() - 1].as_str());
    } else {
        note.append("?");
    }
    assert(note@ =~= install_failure_text(stderr@));
    note_report(note.as_str())
}

pub open spec fn shim_text(app_id: Seq<char>, shot1: Seq<char>, shot2: Seq<char>) -> Seq<char> {
    "#!/bin/sh\nflatpak run --user "@ + app_id + " &\nAPP=$!\nsleep 2\ngrim "@ + shot1
        + "\nsleep 8\ngrim "@ + shot2 + "\nwait $APP\n"@
}

/// The script run under cage: start the app, screenshot at two and ten
/// seconds, wait for the app to exit.
pub fn dynamic_shim(app_id: &str, shot1: &str, shot2: &str) -> (r: String)
    ensures
        r@ == shim_text(app_id@, shot1@, shot2@),
{
    let mut s = String::from_str("#!/bin/sh\nflatpak run --user ");
    s.append(app_id);
    s.append(" &\nAPP=$!\nsleep 2\ngrim ");
    s.append(shot1);
    s.append("\nsleep 8\ngrim ");
    s.append(shot2);
    s.append("\nwait $APP\n");
    assert(s@ =~= shim_text(app_id@, shot1@, shot2@));
    s
}

/// What a launch under cage gave: the app counts as launched when a
/// screenshot was taken; the log keeps the last twenty lines of the combined
/// output, or why cage could not start.
pub fn dynamic_report(screenshots: Vec<String>, output: Result<(&str, &str), &str>) -> (r: DynamicReport)
    ensures
        r.launched == (screenshots@.len() > 0),
        r.screenshots == screenshots,
        strs_view(r.log_tail@) == (match output {
            Ok((out, err)) => last_n(lines(out@ + err@), DYNAMIC_LOG_LINES as nat),
            Err(e) => seq!["cage failed to launch: "@ + e@],
        }),
{
    let launched = screenshots.len() > 0;
    let log_tail = match output {
        Ok((out, err)) => {
            let mut combined = String::from_str(out);
            combined.append(err);
            keep_last(lines_of(combined.as_str()), DYNAMIC_LOG_LINES)
        },
        Err(e) => {
            let mut line = String::from_str("cage failed to launch: ");
            line.append(e);
            let mut v: Vec<String> = Vec::new();
            proof {
                lemma_strs_view_push(v@, line);
            }
            v.push(line);
            assert(strs_view(v@) =~= seq!["cage failed to launch: "@ + e@]);
            v
        },
    };
    DynamicReport { launched, screenshots, log_tail }
}

} // verus!

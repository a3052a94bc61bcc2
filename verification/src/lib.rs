//! omapak: the schema, gate logic and report rendering of the omapak
//! submission judge, which grades a Flatpak submission as an artifact
//! (does it build, is it safe to hand to users, is it any good) and
//! publishes why.
use vstd::prelude::*;

pub mod checks;
pub mod digest;
pub mod json;
pub mod judge;
pub mod laws;
pub mod legitimacy;
pub mod manifest;
pub mod markdown;
pub mod metadata;
pub mod prompt;
pub mod proxy;
pub mod schema;
pub mod stages;
pub mod text;

pub use manifest::{parse_manifest, risky_finish_args, ManifestError, ManifestInfo, ModuleInfo, SourceRef};
pub use markdown::render_markdown;
pub use metadata::{Metadata, SourceAccess};
pub use schema::{
    compute_verdict, BuildReport, Differentiation, DynamicReport, FileStat, JudgeInfo, LinterRun,
    LinterStatus, Report, Rubric, RubricScore, SecurityFlag, Severity, SourceStats, StaticAdvisory,
    StaticReport, Verdict, GATE_MIN_PACKAGING_HYGIENE, REPORT_SCHEMA_VERSION,
};

verus! {

} // verus!

//! `metadata.yml`: what the submitter attests about themselves and the app.
//! The judge reads it; the judge does not trust it.
use vstd::prelude::*;

verus! {

/// How the app's source is available to the judge.
#[derive(Debug, Clone, Copy, PartialEq, Eq, Structural)]
pub enum SourceAccess {
    /// Source is public and gets digested for the judge.
    Public,
    /// No source available; the manifest ships the author's own pinned
    /// release binaries. The judge works from packaging and metadata only and
    /// the report says the code was not audited.
    BinariesOnly,
    /// Closed source, Flathub-style: allowed, and not scored down for being
    /// closed.
    Proprietary,
    /// Closed source that ships only through owner-assisted judging: until a
    /// maintainer runs the judge against the real source, the verdict cannot
    /// exceed needs-human.
    PrivateAssisted,
}

impl Default for SourceAccess {
    fn default() -> (r: SourceAccess)
        ensures
            r == SourceAccess::Public,
    {
        SourceAccess::Public
    }
}

#[derive(Debug, Clone, PartialEq)]
pub struct Metadata {
    pub submitter: String,
    /// Upstream repository or release channel the artifacts come from.
    pub source_repo: String,
    pub summary: String,
    pub source_access: SourceAccess,
    pub license: Option<String>,
    pub homepage: Option<String>,
    pub description: Option<String>,
    pub tags: Vec<String>,
}

} // verus!

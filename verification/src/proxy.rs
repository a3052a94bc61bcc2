//! The decisions of the repo proxy that serves repo.omapak.org from the
//! omapak bucket, falling back to dl.flathub.org for anything missing and
//! caching what it fetches. OSTree objects are content-addressed and
//! immutable, so a cached object can never be stale; the summary is the
//! only freshness surface.
use vstd::prelude::*;

use crate::text::{chars_of, parse_u64, parse_u64_str, push_chars, starts_with, starts_with_str, str_eq};

verus! {

pub const UPSTREAM: &'static str = "https://dl.flathub.org/repo";

/// Objects this large or larger are streamed, never buffered and cached.
pub const STREAM_THRESHOLD_BYTES: u64 = 8388608;

/// The request method, as far as the proxy cares.
#[derive(Debug, Clone, Copy, PartialEq, Eq, Structural)]
pub enum RequestMethod {
    Get,
    Head,
    Other,
}

/// What to do with a request.
#[derive(Debug, Clone, PartialEq)]
pub enum ProxyRoute {
    /// Answer 405.
    MethodNotAllowed,
    /// Answer 404.
    NotFound,
    /// Look the object up in the bucket under this key.
    Lookup(String),
}

/// `str::trim_start_matches('/')`.
pub open spec fn strip_leading_slashes(s: Seq<char>) -> Seq<char>
    decreases s.len(),
{
    if s.len() > 0 && s[0] == '/' {
        strip_leading_slashes(s.drop_first())
    } else {
        s
    }
}

pub open spec fn route_of(method: RequestMethod, path: Seq<char>) -> Option<Option<Seq<char>>> {
    if method == RequestMethod::Other {
        None
    } else if strip_leading_slashes(path).len() == 0 {
        Some(None)
    } else {
        Some(Some(strip_leading_slashes(path)))
    }
}

/// Only GET and HEAD are served; the object key is the path without its
/// leading slashes, and an empty key is not found.
pub fn route_request(method: RequestMethod, path: &str) -> (r: ProxyRoute)
    ensures
        match route_of(method, path@) {
            None => r == ProxyRoute::MethodNotAllowed,
            Some(None) => r == ProxyRoute::NotFound,
            Some(Some(key)) => r matches ProxyRoute::Lookup(k) && k@ == key,
        },
{
    if method == RequestMethod::Other {
        return ProxyRoute::MethodNotAllowed;
    }
    let cs = chars_of(path);
    let mut i: usize = 0;
    assert(cs@.skip(0) =~= cs@);
    while i < cs.len() && cs[i] == '/'
        invariant
            i <= cs@.len(),
            cs@ == path@,
            strip_leading_slashes(path@) == strip_leading_slashes(cs@.skip(i as int)),
        decreases cs@.len() - i,
    {
        assert(cs@.skip(i as int).drop_first() =~= cs@.skip(i + 1));
        i += 1;
    }
    if i == cs.len() {
        assert(cs@.skip(i as int) =~= seq![]);
        return ProxyRoute::NotFound;
    }
    let mut key = String::new();
    push_chars(&mut key, &cs, i, cs.len());
    assert(cs@.subrange(i as int, cs@.len() as int) =~= cs@.skip(i as int));
    ProxyRoute::Lookup(key)
}

/// The summary, generated daily and signed, is the one object that changes.
pub open spec fn is_summary(key: Seq<char>) -> bool {
    starts_with(key, "summary"@)
}

/// `Cache-Control` and `X-Omapak-Origin` of an object served from the bucket.
pub open spec fn stored_headers(key: Seq<char>) -> (Seq<char>, Seq<char>) {
    if is_summary(key) {
        ("public, max-age=60, must-revalidate"@, "omapak"@)
    } else {
        ("public, max-age=31536000, immutable"@, "cached"@)
    }
}

pub fn stored_object_headers(key: &str) -> (r: (&'static str, &'static str))
    ensures
        (r.0@, r.1@) == stored_headers(key@),
{
    if starts_with_str(key, "summary") {
        ("public, max-age=60, must-revalidate", "omapak")
    } else {
        ("public, max-age=31536000, immutable", "cached")
    }
}

/// Repo-critical files come from the bucket only: an upstream copy would be
/// flathub's bytes served as omapak's own, which no omapak keyring verifies.
pub open spec fn repo_critical(key: Seq<char>) -> bool {
    is_summary(key) || key == "config"@ || key == "omapak.flatpakrepo"@
}

/// Where to fetch an object the bucket does not hold; `None` when it must
/// not be fetched (a repo-critical file: answer 404).
pub open spec fn upstream_url_of(key: Seq<char>) -> Option<Seq<char>> {
    if repo_critical(key) {
        None
    } else {
        Some(UPSTREAM@ + "/"@ + key)
    }
}

pub fn upstream_url(key: &str) -> (r: Option<String>)
    ensures
        crate::text::opt_view(r) == upstream_url_of(key@),
{
    if starts_with_str(key, "summary") || str_eq(key, "config") || str_eq(key, "omapak.flatpakrepo") {
        return None;
    }
    let mut url = String::from_str(UPSTREAM);
    url.append("/");
    url.append(key);
    Some(url)
}

/// What to do with an upstream answer.
#[derive(Debug, Clone, Copy, PartialEq, Eq, Structural)]
pub enum UpstreamReply {
    /// Anything but a clean 200 becomes a 404: clients treat speculative
    /// paths as miss-and-fallback, and a 500 would abort installs.
    NotFound,
    /// Pass the body through untouched.
    Stream,
    /// Store the body in the bucket, then serve it.
    Cache,
}

/// `str::parse::<usize>`.
pub open spec fn parse_usize(s: Seq<char>) -> Option<u64> {
    match parse_u64(s) {
        Some(n) => if n <= usize::MAX {
            Some(n)
        } else {
            None
        },
        None => None,
    }
}

pub open spec fn upstream_reply_of(status: u16, key: Seq<char>, content_length: Option<Seq<char>>) -> UpstreamReply {
    if status != 200 {
        UpstreamReply::NotFound
    } else if starts_with(key, "deltas/"@) || (match content_length {
        Some(v) => match parse_usize(v) {
            Some(n) => n > STREAM_THRESHOLD_BYTES,
            None => false,
        },
        None => false,
    }) {
        UpstreamReply::Stream
    } else {
        UpstreamReply::Cache
    }
}

/// Deltas run to hundreds of MB and would blow the worker's memory if
/// buffered; so would any object claiming more than 8 MiB. Everything
/// bounded gets cached.
pub fn upstream_reply(status: u16, key: &str, content_length: Option<&str>) -> (r: UpstreamReply)
    ensures
        r == upstream_reply_of(status, key@, match content_length {
            Some(v) => Some(v@),
            None => None,
        }),
{
    if status != 200 {
        return UpstreamReply::NotFound;
    }
    if starts_with_str(key, "deltas/") {
        return UpstreamReply::Stream;
    }
    let huge = match content_length {
        Some(v) => match parse_u64_str(v) {
            Some(n) => n <= usize::MAX as u64 && n > STREAM_THRESHOLD_BYTES,
            None => false,
        },
        None => false,
    };
    if huge {
        UpstreamReply::Stream
    } else {
        UpstreamReply::Cache
    }
}

} // verus!

//! The judge exchange: configuration, reading the model's reply, and the
//! decisions of the retry loop. The HTTP calls themselves are made by the
//! program around the library, which reports each outcome to `judge_step`.
use vstd::prelude::*;

use crate::json::{Json, json_text_value, parse_json_text};
use crate::schema::{validation_error, Rubric};
use crate::text::{
    before_char, chars_of, find_char, last_index, last_index_of, matches_at, occurs_at, opt_view,
    push_chars, starts_with, strip_suffixes, strip_suffixes_end, trim, trim_bounds,
};

verus! {

pub struct JudgeConfig {
    pub base_url: String,
    pub key: String,
    pub model: String,
}

/// Why the judge could not be configured.
pub open spec fn partial_config_message() -> Seq<char> {
    "OMAPAK_LLM_* partially set — set all three (BASE_URL, KEY, MODEL) or none"@
}

pub open spec fn set_and_nonempty(v: Option<String>) -> bool {
    v matches Some(s) && s@.len() > 0
}

/// Builds the judge configuration from the values of `OMAPAK_LLM_BASE_URL`,
/// `OMAPAK_LLM_KEY` and `OMAPAK_LLM_MODEL`: all three set and non-empty
/// configure the judge, none set means no judge, anything else is an error.
pub fn config_from_env(base_url: Option<String>, key: Option<String>, model: Option<String>) -> (r: Result<Option<JudgeConfig>, String>)
    ensures
        (set_and_nonempty(base_url) && set_and_nonempty(key) && set_and_nonempty(model)) ==> (
        r matches Ok(Some(c)) && c.base_url@ == base_url->0@ && c.key@ == key->0@ && c.model@
            == model->0@),
        (base_url is None && key is None && model is None) ==> r matches Ok(None),
        !(set_and_nonempty(base_url) && set_and_nonempty(key) && set_and_nonempty(model)) && !(
        base_url is None && key is None && model is None) ==> (r matches Err(m) && m@
            == partial_config_message()),
{
    match (base_url, key, model) {
        (Some(b), Some(k), Some(m)) => {
            if b.as_str().unicode_len() > 0 && k.as_str().unicode_len() > 0
                && m.as_str().unicode_len() > 0 {
                Ok(Some(JudgeConfig { base_url: b, key: k, model: m }))
            } else {
                Err(String::from_str("OMAPAK_LLM_* partially set — set all three (BASE_URL, KEY, MODEL) or none"))
            }
        },
        (None, None, None) => Ok(None),
        _ => Err(String::from_str("OMAPAK_LLM_* partially set — set all three (BASE_URL, KEY, MODEL) or none")),
    }
}

/// The largest `i < n` at which `pat` occurs in `s`, if any.
pub open spec fn last_occurrence(s: Seq<char>, pat: Seq<char>, n: int) -> Option<int>
    decreases n,
{
    if n <= 0 {
        None
    } else if occurs_at(s, pat, n - 1) {
        Some(n - 1)
    } else {
        last_occurrence(s, pat, n - 1)
    }
}

/// What follows the last `//` of a URL (`url.rsplit("//").next()`), the
/// whole URL when there is none.
pub open spec fn after_scheme(url: Seq<char>) -> Seq<char> {
    match last_occurrence(url, "//"@, url.len() as int) {
        Some(i) => url.skip(i + 2),
        None => url,
    }
}

/// A host part without its userinfo: when the authority (what precedes the
/// first `/`) holds an `@`, everything up to its last `@` goes.
pub open spec fn without_userinfo(t: Seq<char>) -> Seq<char> {
    match last_index_of(before_char(t, '/'), '@') {
        Some(k) => t.skip(k + 1),
        None => t,
    }
}

/// The endpoint as the public report shows it: the host and path, with the
/// scheme and any credentials dropped.
pub open spec fn redacted(url: Seq<char>) -> Seq<char> {
    without_userinfo(after_scheme(url))
}

fn strip_userinfo(t: &str) -> (r: String)
    ensures
        r@ == without_userinfo(t@),
{
    let tcs = chars_of(t);
    let a = find_char(&tcs, '/');
    let auth_text = crate::text::string_of(&tcs, 0, a);
    let auth = chars_of(auth_text.as_str());
    assert(auth@ =~= before_char(t@, '/'));
    match last_index(&auth, '@') {
        Some(k) => {
            let r = crate::text::string_of(&tcs, k + 1, tcs.len());
            assert(r@ =~= t@.skip(k + 1));
            r
        },
        None => {
            let r = crate::text::string_of(&tcs, 0, tcs.len());
            assert(r@ =~= t@);
            r
        },
    }
}

/// The report is public; the endpoint host is fine to show, credentials
/// never are.
pub fn redact_base_url(url: &str) -> (r: String)
    ensures
        r@ == redacted(url@),
{
    let cs = chars_of(url);
    let pat = chars_of("//");
    proof {
        reveal_strlit("//");
    }
    let len = cs.len();
    let mut n = len;
    while n > 0
        invariant
            len == cs@.len(),
            cs@ == url@,
            pat@ == "//"@,
            pat@.len() == 2,
            n <= cs@.len(),
            last_occurrence(url@, "//"@, url@.len() as int) == last_occurrence(url@, "//"@, n as int),
        decreases n,
    {
        if matches_at(&cs, &pat, n - 1) {
            let mut t = String::new();
            push_chars(&mut t, &cs, n + 1, len);
            assert(cs@.subrange(n + 1, cs@.len() as int) =~= url@.skip(n + 1));
            return strip_userinfo(t.as_str());
        }
        n -= 1;
    }
    strip_userinfo(url)
}

/// A reply with any markdown fence removed: the text is trimmed; when it
/// opens with a fence, the fence line goes, and trailing fences and blanks
/// with it.
pub open spec fn unfenced(content: Seq<char>) -> Seq<char> {
    let t = trim(content);
    if starts_with(t, "```"@) {
        let u = t.skip(3);
        let k = before_char(u, '\n').len();
        if k < u.len() {
            trim(strip_suffixes(trim(u.skip(k as int + 1)), "```"@))
        } else {
            t
        }
    } else {
        t
    }
}

/// The first `{` of the unfenced reply comes no later than one past its last `}`.
pub open spec fn braces_in_order(content: Seq<char>) -> bool {
    let t = unfenced(content);
    let a = before_char(t, '{').len();
    match last_index_of(t, '}') {
        Some(e) => a < t.len() ==> a <= e + 1,
        None => true,
    }
}

/// The JSON object in a reply: from the first `{` to the last `}` of the
/// unfenced text; `None` when either is missing.
pub open spec fn object_text(content: Seq<char>) -> Option<Seq<char>> {
    let t = unfenced(content);
    let a = before_char(t, '{').len();
    if a < t.len() {
        match last_index_of(t, '}') {
            Some(e) => Some(t.subrange(a as int, e + 1)),
            None => None,
        }
    } else {
        None
    }
}

/// Bounds of `unfenced(content)` within `cs`.
fn unfenced_bounds(cs: &Vec<char>) -> (r: (usize, usize))
    ensures
        r.0 <= r.1 <= cs@.len(),
        unfenced(cs@) == cs@.subrange(r.0 as int, r.1 as int),
{
    let (a, b) = trim_bounds(cs, 0, cs.len());
    assert(cs@.subrange(0, cs@.len() as int) =~= cs@);
    let ghost t = cs@.subrange(a as int, b as int);
    let fence = chars_of("```");
    proof {
        reveal_strlit("```");
    }
    if b - a < 3 || !matches_at(cs, &fence, a) {
        assert(!starts_with(t, "```"@)) by {
            if starts_with(t, "```"@) {
                assert(t.subrange(0, 3) =~= cs@.subrange(a as int, a + 3));
            }
        }
        return (a, b);
    }
    assert(t.subrange(0, 3) =~= cs@.subrange(a as int, a + 3));
    let ghost u = t.skip(3);
    assert(u =~= cs@.subrange(a + 3, b as int));
    // the fence line ends at the first line break after the fence
    let mut k = a + 3;
    while k < b && cs[k] != '\n'
        invariant
            a + 3 <= k <= b <= cs@.len(),
            u == cs@.subrange(a + 3, b as int),
            before_char(u, '\n') == cs@.subrange(a + 3, k as int) + before_char(
                cs@.subrange(k as int, b as int),
                '\n',
            ),
        decreases b - k,
    {
        assert(cs@.subrange(k as int, b as int).drop_first() =~= cs@.subrange(k + 1, b as int));
        assert(cs@.subrange(a + 3, k + 1) =~= cs@.subrange(a + 3, k as int) + seq![cs@[k as int]]);
        k += 1;
    }
    if k == b {
        assert(cs@.subrange(k as int, b as int) =~= seq![]);
        assert(before_char(u, '\n').len() == u.len());
        return (a, b);
    }
    assert(before_char(cs@.subrange(k as int, b as int), '\n') =~= seq![]);
    assert(before_char(u, '\n').len() == k - a - 3);
    assert(u.skip(k - a - 3 + 1) =~= cs@.subrange(k + 1, b as int));
    let (c, d) = trim_bounds(cs, k + 1, b);
    let e = strip_suffixes_end(cs, c, d, &fence);
    let (f, g) = trim_bounds(cs, c, e);
    (f, g)
}

/// Whether the reply's braces are in an order that `json_object_text` accepts.
pub fn braces_ordered(content: &str) -> (r: bool)
    ensures
        r == braces_in_order(content@),
{
    let cs = chars_of(content);
    let (a, b) = unfenced_bounds(&cs);
    let t = crate::text::string_of(&cs, a, b);
    let ts = chars_of(t.as_str());
    let s = find_char(&ts, '{');
    match last_index(&ts, '}') {
        Some(e) => s >= ts.len() || s <= e + 1,
        None => true,
    }
}

/// The JSON object in a model reply, tolerating markdown fences and stray
/// prose around it.
pub fn json_object_text(content: &str) -> (r: Option<String>)
    requires
        braces_in_order(content@),
    ensures
        opt_view(r) == object_text(content@),
{
    let cs = chars_of(content);
    let (a, b) = unfenced_bounds(&cs);
    let t = crate::text::string_of(&cs, a, b);
    let ts = chars_of(t.as_str());
    let s = find_char(&ts, '{');
    if s >= ts.len() {
        return None;
    }
    match last_index(&ts, '}') {
        Some(e) => Some(crate::text::string_of(&ts, s, e + 1)),
        None => None,
    }
}

/// `choices[0].message.content` of a chat-completion response, as a string.
pub open spec fn reply_content(v: Json) -> Option<Seq<char>> {
    match v.get("choices"@) {
        Some(choices) => match choices.at(0) {
            Some(first) => match first.get("message"@) {
                Some(message) => message.str_at("content"@),
                None => None,
            },
            None => None,
        },
        None => None,
    }
}

/// Why a response body yielded no reply.
#[derive(Debug, Clone, Copy, PartialEq, Eq, Structural)]
pub enum ContentError {
    /// The body is not JSON.
    NotJson,
    /// The body has no `choices[0].message.content` string.
    NoContent,
}

pub open spec fn content_error_text(e: ContentError) -> Seq<char> {
    match e {
        ContentError::NotJson => "endpoint returned non-JSON body"@,
        ContentError::NoContent => "no message.content in response"@,
    }
}

impl ContentError {
    pub fn message(&self) -> (r: &'static str)
        ensures
            r@ == content_error_text(*self),
    {
        match self {
            ContentError::NotJson => "endpoint returned non-JSON body",
            ContentError::NoContent => "no message.content in response",
        }
    }
}

/// The reply text in a chat-completion response body.
pub fn extract_content(body: &str) -> (r: Result<String, ContentError>)
    ensures
        match json_text_value(body@) {
            Err(_) => r == Err::<String, ContentError>(ContentError::NotJson),
            Ok(v) => match reply_content(v) {
                Some(c) => r matches Ok(s) && s@ == c,
                None => r == Err::<String, ContentError>(ContentError::NoContent),
            },
        },
{
    let v = match parse_json_text(body) {
        Ok(v) => v,
        Err(_) => return Err(ContentError::NotJson),
    };
    let choices = match v.lookup("choices") {
        Some(c) => c,
        None => return Err(ContentError::NoContent),
    };
    let first = match choices.element(0) {
        Some(f) => f,
        None => return Err(ContentError::NoContent),
    };
    let message = match first.lookup("message") {
        Some(m) => m,
        None => return Err(ContentError::NoContent),
    };
    match message.str_field("content") {
        Some(c) => Ok(c),
        None => Err(ContentError::NoContent),
    }
}

/// Requests the judge may send: the first, the retry without JSON mode or
/// after a correction, and one more.
pub const MAX_JUDGE_ATTEMPTS: u32 = 3;

/// Where the judge exchange stands.
pub struct JudgeState {
    /// Requests sent so far, minus one (the number of the current attempt).
    pub attempt: u32,
    /// A correction has been added to the conversation.
    pub corrected: bool,
    /// The endpoint refused JSON mode (answered 400); later requests go bare.
    pub bare: bool,
}

/// What came back from the last request.
pub enum JudgeEvent {
    /// The endpoint answered with a status that is not a success.
    Status { code: u16 },
    /// The endpoint answered, but the body held no reply.
    Unreadable(ContentError),
    /// The reply, and what reading it as a rubric gave (the error's message
    /// when it did not read); the step validates the rubric itself.
    Reply { content: String, parsed: Result<Rubric, String> },
}

/// How the exchange failed.
pub enum JudgeFailure {
    /// The endpoint's status, which the caller reports with the body.
    Endpoint { code: u16 },
    Unreadable(ContentError),
    /// No valid rubric within `MAX_JUDGE_ATTEMPTS` requests.
    Exhausted,
}

/// What the caller does next.
pub enum JudgeAction {
    /// Send the conversation again.
    Send { json_mode: bool },
    /// Add the model's reply and a correction to the conversation, then send it.
    Correct { reply: String, note: String, json_mode: bool },
    /// The rubric to use.
    Accept(Rubric),
    Fail(JudgeFailure),
}

/// JSON mode is asked for on the first two attempts, unless the endpoint
/// has refused it.
pub open spec fn json_mode_for(attempt: int, bare: bool) -> bool {
    attempt < 2 && !bare
}

pub open spec fn parse_note(err: Seq<char>) -> Seq<char> {
    "That did not parse as JSON ("@ + err
        + "). Respond again with strict JSON only, no prose, no markdown fences."@
}

pub open spec fn validation_note(err: Seq<char>) -> Seq<char> {
    "Your JSON parsed but failed validation: "@ + err
        + ". Respond again with corrected strict JSON, no prose."@
}

/// The first request: JSON mode, nothing corrected yet.
pub fn judge_start() -> (r: (JudgeState, JudgeAction))
    ensures
        r.0.attempt == 0,
        !r.0.corrected,
        !r.0.bare,
        r.1 matches JudgeAction::Send { json_mode } && json_mode,
{
    (JudgeState { attempt: 0, corrected: false, bare: false }, JudgeAction::Send { json_mode: true })
}

/// One step of the judge exchange: from where it stands and what the last
/// request gave, to where it stands next and what to do.
pub fn judge_step(state: JudgeState, event: JudgeEvent) -> (r: (JudgeState, JudgeAction))
    requires
        state.attempt < MAX_JUDGE_ATTEMPTS,
    ensures
        // a request is only ever sent as the next of at most three
        (r.1 is Send || r.1 is Correct) ==> r.0.attempt == state.attempt + 1 && r.0.attempt
            < MAX_JUDGE_ATTEMPTS,
        r.1 matches JudgeAction::Send { json_mode } ==> json_mode == json_mode_for(r.0.attempt as int, r.0.bare),
        r.1 matches JudgeAction::Correct { json_mode, .. } ==> json_mode == json_mode_for(r.0.attempt as int, r.0.bare),
        r.0.corrected == (state.corrected || r.1 is Correct),
        // the one resend without a correction is the bare retry after a 400
        r.0.bare == (state.bare || r.1 is Send),
        r.1 matches JudgeAction::Send { json_mode } ==> !json_mode,
        match event {
            JudgeEvent::Status { code } => if code == 400 && json_mode_for(state.attempt as int, state.bare)
                && !state.corrected {
                if state.attempt + 1 < MAX_JUDGE_ATTEMPTS {
                    r.1 is Send
                } else {
                    r.1 matches JudgeAction::Fail(JudgeFailure::Exhausted)
                }
            } else {
                r.1 matches JudgeAction::Fail(JudgeFailure::Endpoint { code: c }) && c == code
            },
            JudgeEvent::Unreadable(e) => r.1 matches JudgeAction::Fail(JudgeFailure::Unreadable(f)) && f == e,
            JudgeEvent::Reply { content, parsed } => match parsed {
                Ok(rubric) => match validation_error(rubric) {
                    None => r.1 == JudgeAction::Accept(rubric),
                    Some(err) => if state.attempt + 1 < MAX_JUDGE_ATTEMPTS {
                        r.1 matches JudgeAction::Correct { reply, note, .. } && reply == content
                            && note@ == validation_note(err)
                    } else {
                        r.1 matches JudgeAction::Fail(JudgeFailure::Exhausted)
                    },
                },
                Err(e) => if state.attempt + 1 < MAX_JUDGE_ATTEMPTS {
                    r.1 matches JudgeAction::Correct { reply, note, .. } && reply == content
                        && note@ == parse_note(e@)
                } else {
                    r.1 matches JudgeAction::Fail(JudgeFailure::Exhausted)
                },
            },
        },
{
    let json_mode = state.attempt < 2 && !state.bare;
    let next = state.attempt + 1;
    match event {
        JudgeEvent::Status { code } => {
            if code == 400 && json_mode && !state.corrected {
                if next < MAX_JUDGE_ATTEMPTS {
                    (JudgeState { attempt: next, corrected: state.corrected, bare: true }, JudgeAction::Send { json_mode: false })
                } else {
                    (state, JudgeAction::Fail(JudgeFailure::Exhausted))
                }
            } else {
                (state, JudgeAction::Fail(JudgeFailure::Endpoint { code }))
            }
        },
        JudgeEvent::Unreadable(e) => (state, JudgeAction::Fail(JudgeFailure::Unreadable(e))),
        JudgeEvent::Reply { content, parsed } => {
            let note = match parsed {
                Ok(rubric) => match rubric.validate() {
                    Ok(()) => return (state, JudgeAction::Accept(rubric)),
                    Err(err) => {
                        let mut n = String::from_str("Your JSON parsed but failed validation: ");
                        n.append(err.as_str());
                        n.append(". Respond again with corrected strict JSON, no prose.");
                        n
                    },
                },
                Err(e) => {
                    let mut n = String::from_str("That did not parse as JSON (");
                    n.append(e.as_str());
                    n.append("). Respond again with strict JSON only, no prose, no markdown fences.");
                    n
                },
            };
            if next < MAX_JUDGE_ATTEMPTS {
                (JudgeState { attempt: next, corrected: true, bare: state.bare }, JudgeAction::Correct { reply: content, note, json_mode: next < 2 && !state.bare })
            } else {
                (state, JudgeAction::Fail(JudgeFailure::Exhausted))
            }
        },
    }
}

} // verus!

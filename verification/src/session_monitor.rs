//! The session list that the dashboard shows: each session with a short
//! preview of its latest response, or the sessions of the local store when
//! Codex does not answer.
use vstd::prelude::*;

use crate::acp_client::{MessageResponse, SessionInfo};
use crate::config::opt_view;
use crate::text::{truncate_spec, truncate_with};

verus! {

/// How many sessions get a preview.
pub const MAX_SESSION_PREVIEWS: usize = 12;

/// How long a preview may be, in bytes.
pub const PREVIEW_CHARS: usize = 480;

/// `value` shortened to at most `max_len` bytes, with `…` where it was cut.
pub fn truncate(value: &str, max_len: usize) -> (r: String)
    ensures
        r@ == truncate_spec(value@, max_len as int, "…"@),
{
    truncate_with(value, max_len, "…")
}

#[derive(Debug)]
pub struct SessionPreviewContent {
    pub role: String,
    pub done: bool,
    pub content: String,
}

#[derive(Debug)]
pub struct CodexSessionDetail {
    pub session_id: String,
    pub created_at: Option<String>,
    pub preview: Option<SessionPreviewContent>,
    pub preview_error: Option<String>,
}

#[derive(Debug)]
pub struct CodexSessionListDetail {
    pub sessions: Vec<CodexSessionDetail>,
    pub error: Option<String>,
}

/// The preview of a response: its role and state, and its content cut to
/// `PREVIEW_CHARS`.
pub fn preview_of(role: String, done: bool, content: &str) -> (r: SessionPreviewContent)
    ensures
        r.role@ == role@,
        r.done == done,
        r.content@ == truncate_spec(content@, 480, "…"@),
{
    SessionPreviewContent { role, done, content: truncate(content, PREVIEW_CHARS) }
}

/// A listing that failed as a whole.
pub fn failed_listing(error: String) -> (r: CodexSessionListDetail)
    ensures
        r.sessions@.len() == 0,
        opt_view(r.error) == Some(error@),
{
    CodexSessionListDetail { sessions: Vec::new(), error: Some(error) }
}

/// The listing made from the rows of the local session store, `(id,
/// created_at)` each, in their order and without previews.
pub fn listing_from_store(rows: Vec<(String, Option<String>)>) -> (r: CodexSessionListDetail)
    ensures
        r.error is None,
        r.sessions@.len() == rows@.len(),
        forall|i: int|
            0 <= i < rows@.len() ==> {
                &&& (#[trigger] r.sessions@[i]).session_id@ == rows@[i].0@
                &&& opt_view(r.sessions@[i].created_at) == opt_view(rows@[i].1)
                &&& r.sessions@[i].preview is None
                &&& r.sessions@[i].preview_error is None
            },
{
    let mut sessions: Vec<CodexSessionDetail> = Vec::new();
    let mut rows = rows;
    let ghost given = rows@;
    let mut rest: Vec<(String, Option<String>)> = Vec::new();
    // The rows are taken from the back and put back in order.
    while rows.len() > 0
        invariant
            rows@ == given.subrange(0, rows@.len() as int),
            rest@.len() + rows@.len() == given.len(),
            forall|i: int|
                0 <= i < rest@.len() ==> #[trigger] rest@[i] == given[given.len() - 1 - i],
        decreases rows@.len(),
    {
        let row = rows.pop().unwrap();
        rest.push(row);
    }
    while rest.len() > 0
        invariant
            rest@.len() + sessions@.len() == given.len(),
            forall|i: int|
                0 <= i < rest@.len() ==> #[trigger] rest@[i] == given[given.len() - 1 - i],
            forall|i: int|
                0 <= i < sessions@.len() ==> {
                    &&& (#[trigger] sessions@[i]).session_id@ == given[i].0@
                    &&& opt_view(sessions@[i].created_at) == opt_view(given[i].1)
                    &&& sessions@[i].preview is None
                    &&& sessions@[i].preview_error is None
                },
        decreases rest@.len(),
    {
        let (session_id, created_at) = rest.pop().unwrap();
        sessions.push(CodexSessionDetail { session_id, created_at, preview: None, preview_error: None });
    }
    CodexSessionListDetail { sessions, error: None }
}

/// How many of `n` listed sessions are asked for a preview: at most
/// `MAX_SESSION_PREVIEWS`, the first ones.
pub fn preview_count(n: usize) -> (r: usize)
    ensures
        r == (if n < 12 {
            n
        } else {
            12
        }),
{
    if n < MAX_SESSION_PREVIEWS {
        n
    } else {
        MAX_SESSION_PREVIEWS
    }
}

/// The listing of the first sessions of `sessions`, as many as `replies`,
/// each with the preview of the reply that it gave, or why none came.
pub fn listing_with_previews(sessions: &Vec<SessionInfo>, replies: Vec<Result<MessageResponse, String>>) -> (r:
    CodexSessionListDetail)
    requires
        replies@.len() <= sessions@.len(),
    ensures
        r.error is None,
        r.sessions@.len() == replies@.len(),
        forall|i: int|
            0 <= i < replies@.len() ==> {
                &&& (#[trigger] r.sessions@[i]).session_id@ == sessions@[i].session_id@
                &&& opt_view(r.sessions@[i].created_at) == opt_view(sessions@[i].created_at)
                &&& match replies@[i] {
                    Ok(m) => r.sessions@[i].preview matches Some(p) && p.role@ == m.role@ && p.done
                        == m.done && p.content@ == truncate_spec(m.content@, 480, "…"@)
                        && r.sessions@[i].preview_error is None,
                    Err(e) => r.sessions@[i].preview is None && opt_view(r.sessions@[i].preview_error)
                        == Some(e@),
                }
            },
{
    let ghost given = replies@;
    let mut replies = replies;
    let mut rest: Vec<Result<MessageResponse, String>> = Vec::new();
    while replies.len() > 0
        invariant
            replies@ == given.subrange(0, replies@.len() as int),
            rest@.len() + replies@.len() == given.len(),
            forall|i: int| 0 <= i < rest@.len() ==> #[trigger] rest@[i] == given[given.len() - 1 - i],
        decreases replies@.len(),
    {
        let reply = replies.pop().unwrap();
        rest.push(reply);
    }
    let mut out: Vec<CodexSessionDetail> = Vec::new();
    while rest.len() > 0
        invariant
            rest@.len() + out@.len() == given.len(),
            given.len() <= sessions@.len(),
            forall|i: int| 0 <= i < rest@.len() ==> #[trigger] rest@[i] == given[given.len() - 1 - i],
            forall|i: int|
                0 <= i < out@.len() ==> {
                    &&& (#[trigger] out@[i]).session_id@ == sessions@[i].session_id@
                    &&& opt_view(out@[i].created_at) == opt_view(sessions@[i].created_at)
                    &&& match given[i] {
                        Ok(m) => out@[i].preview matches Some(p) && p.role@ == m.role@ && p.done
                            == m.done && p.content@ == truncate_spec(m.content@, 480, "…"@)
                            && out@[i].preview_error is None,
                        Err(e) => out@[i].preview is None && opt_view(out@[i].preview_error) == Some(
                            e@,
                        ),
                    }
                },
        decreases rest@.len(),
    {
        let i = out.len();
        let reply = rest.pop().unwrap();
        let session = &sessions[i];
        let detail = match reply {
            Ok(m) => CodexSessionDetail {
                session_id: session.session_id.clone(),
                created_at: session.created_at.clone(),
                preview: Some(preview_of(m.role, m.done, m.content.as_str())),
                preview_error: None,
            },
            Err(e) => CodexSessionDetail {
                session_id: session.session_id.clone(),
                created_at: session.created_at.clone(),
                preview: None,
                preview_error: Some(e),
            },
        };
        out.push(detail);
    }
    CodexSessionListDetail { sessions: out, error: None }
}

} // verus!

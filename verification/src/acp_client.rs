//! The session API of a running Codex: the messages it exchanges, the
//! addresses of its routes and how its answers are judged. The requests
//! themselves are sent by the program.
use vstd::prelude::*;

use crate::config::{api_key_spec, api_port_spec, api_scheme_spec, LauncherConfig};
use crate::text::{append_str, decimal, str_to_string, string_of};

verus! {

#[derive(Debug)]
pub struct SessionInfo {
    pub session_id: String,
    pub created_at: Option<String>,
}

#[derive(Debug)]
pub struct MessageRequest {
    pub session_id: String,
    pub content: String,
    pub role: String,
}

#[derive(Debug)]
pub struct MessageResponse {
    pub session_id: String,
    pub content: String,
    pub role: String,
    pub done: bool,
}

#[derive(Debug)]
pub struct SessionList {
    pub sessions: Vec<SessionInfo>,
}

/// Why a request to the session API failed.
#[derive(Debug)]
pub enum AcpError {
    Request(String),
    Decode(String),
    SessionNotFound(String),
    InvalidResponse,
    CodexNotRunning,
    Timeout,
}

/// Where the session API listens and the key that it is sent.
pub struct AcpClient {
    pub base_url: String,
    pub api_key: String,
}

/// Whether an HTTP status counts as success.
pub open spec fn is_success_spec(status: u16) -> bool {
    200 <= status <= 299
}

pub fn is_success(status: u16) -> (r: bool)
    ensures
        r == is_success_spec(status),
{
    200 <= status && status <= 299
}

/// Closing a session succeeds on success and also when the session is
/// already gone (404).
pub fn close_status_ok(status: u16) -> (r: bool)
    ensures
        r == (is_success_spec(status) || status == 404),
{
    is_success(status) || status == 404
}

/// The message that a user sends: its role is `user`.
pub fn user_message(session_id: &str, content: &str) -> (r: MessageRequest)
    ensures
        r.session_id@ == session_id@,
        r.content@ == content@,
        r.role@ == "user"@,
{
    MessageRequest {
        session_id: str_to_string(session_id),
        content: str_to_string(content),
        role: str_to_string("user"),
    }
}

impl AcpClient {
    /// The client for the Codex API that `config` names, with the configured
    /// key, or an empty one.
    pub fn from_config(config: &LauncherConfig) -> (r: AcpClient)
        ensures
            r.base_url@ == api_scheme_spec(config@) + "://127.0.0.1:"@ + decimal(
                api_port_spec(config@) as nat,
            ),
            r.api_key@ == (match api_key_spec(config@) {
                Ok(k) => k,
                Err(_) => Seq::<char>::empty(),
            }),
    {
        let base_url = config.codex_api_base_url();
        let api_key = match config.api_key() {
            Ok(k) => k,
            Err(_) => string_of(&Vec::new()),
        };
        AcpClient { base_url, api_key }
    }

    pub fn with_base_url(base_url: &str, api_key: &str) -> (r: AcpClient)
        ensures
            r.base_url@ == base_url@,
            r.api_key@ == api_key@,
    {
        AcpClient { base_url: str_to_string(base_url), api_key: str_to_string(api_key) }
    }

    /// Whether a key was configured.
    pub fn is_configured(&self) -> (r: bool)
        ensures
            r == (self.api_key@.len() > 0),
    {
        self.api_key.as_str().unicode_len() > 0
    }

    /// The route that lists and creates sessions.
    pub fn sessions_url(&self) -> (r: String)
        ensures
            r@ == self.base_url@ + "/sessions"@,
    {
        let mut v: Vec<char> = Vec::new();
        append_str(&mut v, self.base_url.as_str());
        append_str(&mut v, "/sessions");
        string_of(&v)
    }

    /// The route of one session, which closes it.
    pub fn session_url(&self, session_id: &str) -> (r: String)
        ensures
            r@ == self.base_url@ + "/sessions/"@ + session_id@,
    {
        let mut v: Vec<char> = Vec::new();
        append_str(&mut v, self.base_url.as_str());
        append_str(&mut v, "/sessions/");
        append_str(&mut v, session_id);
        string_of(&v)
    }

    /// The route that takes a session's messages.
    pub fn messages_url(&self, session_id: &str) -> (r: String)
        ensures
            r@ == self.base_url@ + "/sessions/"@ + session_id@ + "/messages"@,
    {
        let mut v: Vec<char> = Vec::new();
        append_str(&mut v, self.base_url.as_str());
        append_str(&mut v, "/sessions/");
        append_str(&mut v, session_id);
        append_str(&mut v, "/messages");
        string_of(&v)
    }

    /// The route that gives a session's latest response.
    pub fn response_url(&self, session_id: &str) -> (r: String)
        ensures
            r@ == self.base_url@ + "/sessions/"@ + session_id@ + "/response"@,
    {
        let mut v: Vec<char> = Vec::new();
        append_str(&mut v, self.base_url.as_str());
        append_str(&mut v, "/sessions/");
        append_str(&mut v, session_id);
        append_str(&mut v, "/response");
        string_of(&v)
    }

    /// The value of the `Authorization` header.
    pub fn authorization(&self) -> (r: String)
        ensures
            r@ == "Bearer "@ + self.api_key@,
    {
        let mut v: Vec<char> = Vec::new();
        append_str(&mut v, "Bearer ");
        append_str(&mut v, self.api_key.as_str());
        string_of(&v)
    }
}

/// The text that a failed request is shown with.
pub open spec fn acp_error_text(e: AcpError) -> Seq<char> {
    match e {
        AcpError::Request(m) => "request failed: "@ + m@,
        AcpError::Decode(m) => "decode failed: "@ + m@,
        AcpError::SessionNotFound(m) => "session not found: "@ + m@,
        AcpError::InvalidResponse => "invalid response from server"@,
        AcpError::CodexNotRunning => "codex is not running"@,
        AcpError::Timeout => "timeout waiting for response"@,
    }
}

impl AcpError {
    /// The text that the error is shown with.
    pub fn message(&self) -> (r: String)
        ensures
            r@ == acp_error_text(*self),
    {
        let mut v: Vec<char> = Vec::new();
        match self {
            AcpError::Request(m) => {
                append_str(&mut v, "request failed: ");
                append_str(&mut v, m.as_str());
            },
            AcpError::Decode(m) => {
                append_str(&mut v, "decode failed: ");
                append_str(&mut v, m.as_str());
            },
            AcpError::SessionNotFound(m) => {
                append_str(&mut v, "session not found: ");
                append_str(&mut v, m.as_str());
            },
            AcpError::InvalidResponse => append_str(&mut v, "invalid response from server"),
            AcpError::CodexNotRunning => append_str(&mut v, "codex is not running"),
            AcpError::Timeout => append_str(&mut v, "timeout waiting for response"),
        }
        string_of(&v)
    }
}

} // verus!

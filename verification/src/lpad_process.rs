//! What the launcher knows of a Codex process: whether it runs, under which
//! PID, how it was found, and whether its API answers. Starting, watching
//! and stopping the process is the program's work.
use vstd::prelude::*;

use crate::acp_client::is_success_spec;
use crate::text::{parse_u32_chars, parse_u32_spec, str_to_string, trim, trim_str};

verus! {

/// The file, in the launcher's root, that holds the PID of the Codex it
/// started.
pub const PID_FILE_NAME: &'static str = ".codex.pid";

/// Information about a running Codex process, used by the UI.
#[derive(Debug)]
pub struct CodexProcessInfo {
    pub running: bool,
    pub pid: Option<u32>,
    pub method: Option<String>,
    pub restart_required: bool,
}

#[derive(Debug)]
pub struct ProcessState {
    pub running: bool,
    pub api_ready: bool,
}

/// Why Codex could not be started, watched or stopped.
#[derive(Debug)]
pub enum ProcessError {
    Spawn(String),
    Wait(String),
    Kill(String),
    NotRunning,
    ApiNotReady,
    HealthCheck(String),
    Request(String),
}

/// A Codex that was seen running, found by `method`, with `pid` where it is
/// known.
pub fn running_info(pid: Option<u32>, method: &str) -> (r: CodexProcessInfo)
    ensures
        r.running,
        r.pid == pid,
        r.method matches Some(m) && m@ == method@,
        r.restart_required,
{
    CodexProcessInfo { running: true, pid, method: Some(str_to_string(method)), restart_required: true }
}

/// No Codex was found.
pub fn not_running_info() -> (r: CodexProcessInfo)
    ensures
        !r.running,
        r.pid is None,
        r.method is None,
        !r.restart_required,
{
    CodexProcessInfo { running: false, pid: None, method: None, restart_required: false }
}

/// The PID that a PID file holds: its text, trimmed, as a `u32`.
pub fn parse_pid_file(content: &str) -> (r: Option<u32>)
    ensures
        r == parse_u32_spec(trim(content@)),
{
    let t = trim_str(content);
    parse_u32_chars(&t)
}

/// What a health check concludes from the answer of `/health`: when an HTTP
/// status came back, the process runs and its API is ready on success;
/// without an answer, nothing yet (the caller waits and asks again).
pub fn health_from_status(status: Option<u16>) -> (r: Option<ProcessState>)
    ensures
        match status {
            Some(code) => r matches Some(st) && st.running && st.api_ready == is_success_spec(code),
            None => r is None,
        },
{
    match status {
        Some(code) => Some(ProcessState { running: true, api_ready: 200 <= code && code <= 299 }),
        None => None,
    }
}

/// The state reported when the health check runs out of time: the process
/// is taken to run, its API not to be ready.
pub fn timed_out_state() -> (r: ProcessState)
    ensures
        r.running,
        !r.api_ready,
{
    ProcessState { running: true, api_ready: false }
}

} // verus!

//! Finding and describing what to launch as Codex.
//!
//! Looking at the file system, the `PATH` and the Start menu happens around
//! these functions; they decide what those observations mean.
use vstd::prelude::*;

use crate::config::opt_view;
use crate::text::{
    append_str, ascii_lower_seq, ascii_lowercase, chars_of, contains, contains_str, ends_with, ends_with_str,
    lowercase, str_to_string, string_of, to_lowercase,
};

pub mod autostart;

verus! {

/// What to start: an executable, a Start-menu application, or a macOS app
/// bundle.
#[derive(Clone, Debug)]
pub enum LaunchTarget {
    Path(String),
    WindowsStartApp { app_id: String },
    MacAppBundle(String),
}

/// Why Codex could not be found or started.
#[derive(Clone, Debug)]
pub enum LauncherError {
    MissingConfiguredCommand(String),
    CodexNotFound,
    Launch { program: String, message: String },
    Platform(String),
}

/// The text that a launcher error is shown with.
pub open spec fn launcher_error_text(e: LauncherError) -> Seq<char> {
    match e {
        LauncherError::MissingConfiguredCommand(c) => "configured codexCommand was not found: "@ + c@,
        LauncherError::CodexNotFound => "could not find Codex; set codexCommand in config.json"@,
        LauncherError::Launch { program, message } => "failed to launch "@ + program@ + ": "@
            + message@,
        LauncherError::Platform(m) => m@,
    }
}

impl LauncherError {
    /// The text that the error is shown with.
    pub fn message(&self) -> (r: String)
        ensures
            r@ == launcher_error_text(*self),
    {
        let mut v: Vec<char> = Vec::new();
        match self {
            LauncherError::MissingConfiguredCommand(c) => {
                append_str(&mut v, "configured codexCommand was not found: ");
                append_str(&mut v, c.as_str());
            },
            LauncherError::CodexNotFound => {
                append_str(&mut v, "could not find Codex; set codexCommand in config.json");
            },
            LauncherError::Launch { program, message } => {
                append_str(&mut v, "failed to launch ");
                append_str(&mut v, program.as_str());
                append_str(&mut v, ": ");
                append_str(&mut v, message.as_str());
            },
            LauncherError::Platform(m) => {
                append_str(&mut v, m.as_str());
            },
        }
        proof {
            assert(v@ =~= launcher_error_text(*self));
        }
        string_of(&v)
    }
}

pub open spec fn describe_spec(t: LaunchTarget) -> Seq<char> {
    match t {
        LaunchTarget::Path(p) => "Path:"@ + p@,
        LaunchTarget::WindowsStartApp { app_id } => "StartAppID:"@ + app_id@,
        LaunchTarget::MacAppBundle(p) => "MacAppBundle:"@ + p@,
    }
}

impl LaunchTarget {
    /// The target as the launcher reports it: `Path:…`, `StartAppID:…` or
    /// `MacAppBundle:…`.
    pub fn describe(&self) -> (r: String)
        ensures
            r@ == describe_spec(*self),
    {
        let mut out = match self {
            LaunchTarget::Path(_) => chars_of("Path:"),
            LaunchTarget::WindowsStartApp { .. } => chars_of("StartAppID:"),
            LaunchTarget::MacAppBundle(_) => chars_of("MacAppBundle:"),
        };
        let rest = match self {
            LaunchTarget::Path(p) => chars_of(p.as_str()),
            LaunchTarget::WindowsStartApp { app_id } => chars_of(app_id.as_str()),
            LaunchTarget::MacAppBundle(p) => chars_of(p.as_str()),
        };
        crate::text::append_chars(&mut out, &rest);
        string_of(&out)
    }
}

/// `s` with every `/` turned into `\`.
pub open spec fn back_slashes(s: Seq<char>) -> Seq<char> {
    s.map_values(|c: char| if c == '/' { '\\' } else { c })
}

fn to_back_slashes(s: &Vec<char>) -> (r: Vec<char>)
    ensures
        r@ == back_slashes(s@),
{
    let mut r: Vec<char> = Vec::new();
    let mut i: usize = 0;
    while i < s.len()
        invariant
            i <= s.len(),
            r@ == back_slashes(s@.subrange(0, i as int)),
        decreases s.len() - i,
    {
        let c = s[i];
        r.push(if c == '/' { '\\' } else { c });
        i += 1;
        assert(r@ =~= back_slashes(s@.subrange(0, i as int)));
    }
    assert(s@.subrange(0, s.len() as int) =~= s@);
    r
}

/// Whether a path is the Codex executable inside the Store package, which
/// cannot be started directly.
pub open spec fn is_packaged_resource_spec(path: Seq<char>) -> bool {
    let n = lowercase(back_slashes(path));
    contains(n, "\\windowsapps\\openai.codex_"@) && (ends_with(n, "\\app\\resources\\codex.exe"@)
        || ends_with(n, "\\app\\resources\\codex"@))
}

pub fn is_packaged_codex_resource(path: &str) -> (r: bool)
    ensures
        r == is_packaged_resource_spec(path@),
{
    let b = to_back_slashes(&chars_of(path));
    let bs = string_of(&b);
    let n_s = to_lowercase(bs.as_str());
    let n = chars_of(n_s.as_str());
    contains_str(&n, "\\windowsapps\\openai.codex_") && (ends_with_str(
        &n,
        "\\app\\resources\\codex.exe",
    ) || ends_with_str(&n, "\\app\\resources\\codex"))
}

/// Whether a command-line path lies inside the Store package.
pub open spec fn is_blocked_cli_spec(path: Seq<char>) -> bool {
    contains(ascii_lower_seq(back_slashes(path)), "\\windowsapps\\openai.codex_"@)
}

pub fn is_blocked_windowsapps_cli(path: &str) -> (r: bool)
    ensures
        r == is_blocked_cli_spec(path@),
{
    let b = to_back_slashes(&chars_of(path));
    let l = ascii_lowercase(&b);
    contains_str(&l, "\\windowsapps\\openai.codex_")
}

/// The command-line paths that can be started: those outside the Store
/// package, in order.
pub fn spawnable_cli_paths(paths: &Vec<String>) -> (r: Vec<String>)
    ensures
        r@.map_values(|p: String| p@) == paths@.map_values(|p: String| p@).filter(
            |p: Seq<char>| !is_blocked_cli_spec(p),
        ),
{
    let ghost pv = paths@.map_values(|p: String| p@);
    let mut r: Vec<String> = Vec::new();
    let mut i: usize = 0;
    while i < paths.len()
        invariant
            i <= paths.len(),
            pv == paths@.map_values(|p: String| p@),
            r@.map_values(|p: String| p@) == pv.subrange(0, i as int).filter(
                |p: Seq<char>| !is_blocked_cli_spec(p),
            ),
        decreases paths.len() - i,
    {
        let ghost before = r@;
        assert(pv.subrange(0, i + 1) =~= pv.subrange(0, i as int).push(pv[i as int]));
        proof {
            pv.subrange(0, i as int).lemma_filter_push(pv[i as int], |p: Seq<char>| !is_blocked_cli_spec(p));
        }
        if !is_blocked_windowsapps_cli(paths[i].as_str()) {
            r.push(paths[i].clone());
            assert(r@.map_values(|p: String| p@) =~= before.map_values(|p: String| p@).push(pv[i as int]));
        }
        i += 1;
    }
    assert(pv.subrange(0, paths.len() as int) =~= pv);
    r
}

/// Whether the output of `tasklist` shows the Codex app running.
pub open spec fn tasklist_shows_codex_spec(stdout: Seq<char>) -> bool {
    let l = lowercase(stdout);
    contains(l, "codex.exe"@) || contains(l, "codex-app.exe"@) || contains(
        l,
        "\\windowsapps\\openai.codex_"@,
    )
}

pub fn tasklist_shows_codex(stdout: &str) -> (r: bool)
    ensures
        r == tasklist_shows_codex_spec(stdout@),
{
    let l_s = to_lowercase(stdout);
    let l = chars_of(l_s.as_str());
    contains_str(&l, "codex.exe") || contains_str(&l, "codex-app.exe") || contains_str(
        &l,
        "\\windowsapps\\openai.codex_",
    )
}

/// Whether a configured command names a file rather than a program to look
/// up on the `PATH`.
pub fn names_a_path(command: &str) -> (r: bool)
    ensures
        r == (command@.contains('/') || command@.contains('\\')),
{
    let c = chars_of(command);
    crate::text::contains_char(&c, '/') || crate::text::contains_char(&c, '\\')
}

/// The programs looked up on the `PATH` on Windows and macOS, in order.
pub fn common_path_commands() -> (r: Vec<String>)
    ensures
        r@.map_values(|s: String| s@) == seq!["codex-app"@, "codex"@],
{
    let mut v: Vec<String> = Vec::new();
    v.push(str_to_string("codex-app"));
    v.push(str_to_string("codex"));
    assert(v@.map_values(|s: String| s@) =~= seq!["codex-app"@, "codex"@]);
    v
}

/// The programs looked up on the `PATH` on Linux.
pub fn common_path_commands_for_linux() -> (r: Vec<String>)
    ensures
        r@.map_values(|s: String| s@) == seq!["codex"@],
{
    let mut v: Vec<String> = Vec::new();
    v.push(str_to_string("codex"));
    assert(v@.map_values(|s: String| s@) =~= seq!["codex"@]);
    v
}

} // verus!

//! The launcher's decisions about Codex processes and its own settings:
//! which process in the output of `tasklist`, `ps`, `pgrep`, `netstat`,
//! `lsof` or `ss` is Codex, which settings to adopt from Codex's own
//! configuration, and what to tell the user. Running those commands is the
//! program's work; it hands their output to these functions.
use vstd::prelude::*;

use crate::config::{non_empty_spec, opt_view, strings_view, ConfigModel, LauncherConfig};
use crate::fields::{
    first_token, first_token_exec, last_token, last_token_exec, split_chars, split_on,
    std_lines, std_lines_exec, trim_matches, trim_matches_exec, vv,
};
use crate::fsutil::{portable_path, with_extension, with_extension_spec};
use crate::lpad_config::CodexConfigInspection;
use crate::lpad_process::{running_info, CodexProcessInfo};
use crate::text::{
    append_str, chars_of, contains, contains_chars, contains_str, decimal, lowercase,
    parse_u32_chars, parse_u32_spec, push_decimal, string_of, to_lowercase, trim, trim_chars,
    trim_str,
};

verus! {

/// The PID file of the Codex that the launcher starts: next to the config
/// file, with its stem and the extension `pid` (`Path::with_extension`).
pub fn lpad_pid_file(config_path: &str) -> (r: String)
    ensures
        portable_path(config_path@) ==> r@ == with_extension_spec(config_path@, "pid"@),
{
    proof {
        reveal_strlit("pid");
        assert("pid"@.len() == 3 && seq!['.'].len() == 1 && seq!['.', '.'].len() == 2);
        assert("pid"@ != seq!['.']);
        assert("pid"@ != seq!['.', '.']);
    }
    with_extension(config_path, "pid")
}

// ---------------------------------------------------------------------------
// Lines of command output
// ---------------------------------------------------------------------------
/// Whether a process name or command line is the launcher's own.
pub open spec fn is_launcher_name_spec(name: Seq<char>) -> bool {
    contains(lowercase(name), "launchpadx"@)
}

pub fn is_launcher_process_name(name: &str) -> (r: bool)
    ensures
        r == is_launcher_name_spec(name@),
{
    let lower = to_lowercase(name);
    contains_str(&chars_of(lower.as_str()), "launchpadx")
}

fn is_launcher_line(line: &Vec<char>) -> (r: bool)
    ensures
        r == is_launcher_name_spec(line@),
{
    is_launcher_process_name(string_of(line).as_str())
}

/// Whether a line mentions Codex in any case.
pub open spec fn mentions_codex(line: Seq<char>) -> bool {
    contains(lowercase(line), "codex"@)
}

fn mentions_codex_exec(line: &Vec<char>) -> (r: bool)
    ensures
        r == mentions_codex(line@),
{
    let lower = to_lowercase(string_of(line).as_str());
    contains_str(&chars_of(lower.as_str()), "codex")
}

/// The PID in a line of `tasklist /FO CSV`: the second field, trimmed and
/// without its quotes.
pub open spec fn csv_pid(line: Seq<char>) -> Option<u32> {
    let parts = split_on(line, ',');
    if parts.len() >= 2 {
        parse_u32_spec(trim_matches(trim(parts[1]), '"'))
    } else {
        None
    }
}

pub fn csv_pid_exec(line: &Vec<char>) -> (r: Option<u32>)
    ensures
        r == csv_pid(line@),
{
    let parts = split_chars(line, ',');
    if parts.len() >= 2 {
        assert(vv(parts@)[1] == parts@[1]@);
        let t = trim_chars(&parts[1]);
        let u = trim_matches_exec(&t, '"');
        parse_u32_chars(&u)
    } else {
        None
    }
}

/// How the search for Codex ended: `found` says whether it was found, and
/// `pid` under which PID, where that is known.
pub open spec fn detection_of(r: Option<CodexProcessInfo>) -> Option<Option<u32>> {
    match r {
        Some(info) => Some(info.pid),
        None => None,
    }
}

/// A found Codex is reported as running, found by process name, and as one
/// that a restart must stop.
pub open spec fn found_by_name(r: Option<CodexProcessInfo>) -> bool {
    r matches Some(info) ==> info.running && info.restart_required && opt_view(info.method)
        == Some("process_name"@)
}

// ---------------------------------------------------------------------------
// Windows: tasklist
// ---------------------------------------------------------------------------
/// The first of `lines` that contains `name`.
pub open spec fn first_line_containing(lines: Seq<Seq<char>>, name: Seq<char>) -> Option<Seq<char>>
    decreases lines.len(),
{
    if lines.len() == 0 {
        None
    } else if contains(lines[0], name) {
        Some(lines[0])
    } else {
        first_line_containing(lines.drop_first(), name)
    }
}

/// Codex found by the binary `name`: the first line that names it, and the
/// PID of that line where it has one.
pub open spec fn hit(lines: Seq<Seq<char>>, name: Seq<char>) -> Option<Option<u32>> {
    match first_line_containing(lines, name) {
        Some(l) => Some(csv_pid(l)),
        None => None,
    }
}

pub open spec fn or_else(a: Option<Option<u32>>, b: Option<Option<u32>>) -> Option<Option<u32>> {
    if a is Some {
        a
    } else {
        b
    }
}

/// The search by the known binary names, in their order.
pub open spec fn by_binary_name(lines: Seq<Seq<char>>) -> Option<Option<u32>> {
    or_else(
        hit(lines, "Codex.exe"@),
        or_else(
            hit(lines, "codex.exe"@),
            or_else(
                hit(lines, "codex-app.exe"@),
                or_else(
                    hit(lines, "codex-app"@),
                    or_else(hit(lines, "codex.cmd"@), hit(lines, "codex.ps1"@)),
                ),
            ),
        ),
    )
}

/// The PID of the first line that mentions Codex, is not the launcher and
/// has a PID.
pub open spec fn by_codex_word(lines: Seq<Seq<char>>) -> Option<u32>
    decreases lines.len(),
{
    if lines.len() == 0 {
        None
    } else if mentions_codex(lines[0]) && !is_launcher_name_spec(lines[0]) && csv_pid(lines[0]) is Some {
        csv_pid(lines[0])
    } else {
        by_codex_word(lines.drop_first())
    }
}

/// Where `tasklist /FO CSV /NH` shows Codex: first by a known binary name,
/// then by any line that mentions Codex and gives a PID.
pub open spec fn tasklist_detection(stdout: Seq<char>) -> Option<Option<u32>> {
    let lines = std_lines(stdout);
    match by_binary_name(lines) {
        Some(found) => Some(found),
        None => match by_codex_word(lines) {
            Some(pid) => Some(Some(pid)),
            None => None,
        },
    }
}

fn first_line_containing_exec(lines: &Vec<Vec<char>>, name: &str) -> (r: Option<usize>)
    ensures
        match r {
            Some(i) => i < lines@.len() && first_line_containing(vv(lines@), name@) == Some(
                vv(lines@)[i as int],
            ),
            None => first_line_containing(vv(lines@), name@) is None,
        },
{
    let ghost all = vv(lines@);
    let n = lines.len();
    let mut i: usize = 0;
    assert(all.subrange(0, n as int) =~= all);
    while i < n
        invariant
            n == lines@.len(),
            all == vv(lines@),
            i <= n,
            first_line_containing(all, name@) == first_line_containing(all.subrange(i as int, n as int), name@),
        decreases n - i,
    {
        assert(all.subrange(i as int, n as int).drop_first() =~= all.subrange(i + 1, n as int));
        if contains_str(&lines[i], name) {
            return Some(i);
        }
        i += 1;
    }
    None
}

fn hit_exec(lines: &Vec<Vec<char>>, name: &str) -> (r: Option<Option<u32>>)
    ensures
        r == hit(vv(lines@), name@),
{
    match first_line_containing_exec(lines, name) {
        Some(i) => Some(csv_pid_exec(&lines[i])),
        None => None,
    }
}

fn by_codex_word_exec(lines: &Vec<Vec<char>>) -> (r: Option<u32>)
    ensures
        r == by_codex_word(vv(lines@)),
{
    let ghost all = vv(lines@);
    let n = lines.len();
    let mut i: usize = 0;
    assert(all.subrange(0, n as int) =~= all);
    while i < n
        invariant
            n == lines@.len(),
            all == vv(lines@),
            i <= n,
            by_codex_word(all) == by_codex_word(all.subrange(i as int, n as int)),
        decreases n - i,
    {
        assert(all.subrange(i as int, n as int).drop_first() =~= all.subrange(i + 1, n as int));
        if mentions_codex_exec(&lines[i]) && !is_launcher_line(&lines[i]) {
            let pid = csv_pid_exec(&lines[i]);
            if pid.is_some() {
                return pid;
            }
        }
        i += 1;
    }
    None
}

/// Codex as `tasklist /FO CSV /NH` shows it, if it does.
pub fn codex_from_tasklist(stdout: &str) -> (r: Option<CodexProcessInfo>)
    ensures
        detection_of(r) == tasklist_detection(stdout@),
        found_by_name(r),
{
    let lines = std_lines_exec(stdout);
    let mut found = hit_exec(&lines, "Codex.exe");
    if found.is_none() {
        found = hit_exec(&lines, "codex.exe");
    }
    if found.is_none() {
        found = hit_exec(&lines, "codex-app.exe");
    }
    if found.is_none() {
        found = hit_exec(&lines, "codex-app");
    }
    if found.is_none() {
        found = hit_exec(&lines, "codex.cmd");
    }
    if found.is_none() {
        found = hit_exec(&lines, "codex.ps1");
    }
    match found {
        Some(pid) => Some(running_info(pid, "process_name")),
        None => match by_codex_word_exec(&lines) {
            Some(pid) => Some(running_info(Some(pid), "process_name")),
            None => None,
        },
    }
}

/// The PIDs of the lines of `tasklist /FO CSV /NH` that mention Codex, are
/// not the launcher and give a PID: the processes that a stop by name ends.
pub open spec fn kill_candidates(lines: Seq<Seq<char>>) -> Seq<u32>
    decreases lines.len(),
{
    if lines.len() == 0 {
        Seq::empty()
    } else {
        let rest = kill_candidates(lines.drop_first());
        let l = lines[0];
        if mentions_codex(l) && !is_launcher_name_spec(l) && csv_pid(l) is Some {
            seq![csv_pid(l)->0] + rest
        } else {
            rest
        }
    }
}

pub fn tasklist_kill_pids(stdout: &str) -> (r: Vec<u32>)
    ensures
        r@ == kill_candidates(std_lines(stdout@)),
{
    let lines = std_lines_exec(stdout);
    let ghost all = vv(lines@);
    let n = lines.len();
    let mut out: Vec<u32> = Vec::new();
    let mut i: usize = 0;
    assert(all.subrange(0, n as int) =~= all);
    while i < n
        invariant
            n == lines@.len(),
            all == vv(lines@),
            all == std_lines(stdout@),
            i <= n,
            out@ + kill_candidates(all.subrange(i as int, n as int)) == kill_candidates(all),
        decreases n - i,
    {
        assert(all.subrange(i as int, n as int).drop_first() =~= all.subrange(i + 1, n as int));
        let ghost rest = kill_candidates(all.subrange(i + 1, n as int));
        let ghost before = out@;
        if mentions_codex_exec(&lines[i]) && !is_launcher_line(&lines[i]) {
            match csv_pid_exec(&lines[i]) {
                Some(pid) => {
                    out.push(pid);
                    assert(before + (seq![pid] + rest) =~= out@ + rest);
                },
                None => {},
            }
        }
        i += 1;
    }
    assert(all.subrange(n as int, n as int) =~= Seq::<Seq<char>>::empty());
    assert(out@ + Seq::<u32>::empty() =~= out@);
    out
}

/// Whether the output of `tasklist /FI "PID eq ..."` mentions `pid`.
pub fn tasklist_mentions_pid(stdout: &str, pid: u32) -> (r: bool)
    ensures
        r == contains(stdout@, decimal(pid as nat)),
{
    let mut d: Vec<char> = Vec::new();
    push_decimal(&mut d, pid as u64);
    assert(d@ =~= decimal(pid as nat));
    contains_chars(&chars_of(stdout), &d)
}

// ---------------------------------------------------------------------------
// macOS: ps -ax
// ---------------------------------------------------------------------------
/// How a scan of the `ps` output ended: Codex found (with its PID where it
/// parsed), the search given up (a line named Codex but held no token at
/// all), or nothing decided yet.
pub enum PsOutcome {
    Found(Option<u32>),
    Abort,
    Continue,
}

/// The scan of the lines for `name`: the first line naming it whose first
/// token is a PID gives that PID; when none does, Codex counts as found
/// without a PID.
pub open spec fn ps_scan(lines: Seq<Seq<char>>, name: Seq<char>) -> PsOutcome
    decreases lines.len(),
{
    if lines.len() == 0 {
        PsOutcome::Found(None)
    } else if contains(lines[0], name) {
        match first_token(lines[0]) {
            None => PsOutcome::Abort,
            Some(t) => match parse_u32_spec(t) {
                Some(p) => PsOutcome::Found(Some(p)),
                None => ps_scan(lines.drop_first(), name),
            },
        }
    } else {
        ps_scan(lines.drop_first(), name)
    }
}

/// The search by the names `Codex`, `codex` and `codex-app`, each tried when
/// the output contains it.
pub open spec fn ps_by_names(stdout: Seq<char>, lines: Seq<Seq<char>>) -> PsOutcome {
    if contains(stdout, "Codex"@) {
        ps_scan(lines, "Codex"@)
    } else if contains(stdout, "codex"@) {
        ps_scan(lines, "codex"@)
    } else if contains(stdout, "codex-app"@) {
        ps_scan(lines, "codex-app"@)
    } else {
        PsOutcome::Continue
    }
}

/// The search by any line that mentions Codex and is not the launcher.
pub open spec fn ps_by_word(lines: Seq<Seq<char>>) -> PsOutcome
    decreases lines.len(),
{
    if lines.len() == 0 {
        PsOutcome::Continue
    } else if mentions_codex(lines[0]) && !is_launcher_name_spec(lines[0]) {
        match first_token(lines[0]) {
            None => PsOutcome::Abort,
            Some(t) => match parse_u32_spec(t) {
                Some(p) => PsOutcome::Found(Some(p)),
                None => ps_by_word(lines.drop_first()),
            },
        }
    } else {
        ps_by_word(lines.drop_first())
    }
}

/// Where `ps -ax` shows Codex.
pub open spec fn ps_detection(stdout: Seq<char>) -> Option<Option<u32>> {
    let lines = std_lines(stdout);
    match ps_by_names(stdout, lines) {
        PsOutcome::Found(p) => Some(p),
        PsOutcome::Abort => None,
        PsOutcome::Continue => match ps_by_word(lines) {
            PsOutcome::Found(p) => Some(p),
            _ => None,
        },
    }
}

/// 0: found, 1: given up, 2: go on.
fn ps_scan_exec(lines: &Vec<Vec<char>>, name: &str) -> (r: (u8, Option<u32>))
    ensures
        match ps_scan(vv(lines@), name@) {
            PsOutcome::Found(p) => r.0 == 0 && r.1 == p,
            PsOutcome::Abort => r.0 == 1,
            PsOutcome::Continue => r.0 == 2,
        },
{
    let ghost all = vv(lines@);
    let n = lines.len();
    let mut i: usize = 0;
    assert(all.subrange(0, n as int) =~= all);
    while i < n
        invariant
            n == lines@.len(),
            all == vv(lines@),
            i <= n,
            ps_scan(all, name@) == ps_scan(all.subrange(i as int, n as int), name@),
        decreases n - i,
    {
        assert(all.subrange(i as int, n as int).drop_first() =~= all.subrange(i + 1, n as int));
        if contains_str(&lines[i], name) {
            match first_token_exec(&lines[i]) {
                None => {
                    return (1, None);
                },
                Some(t) => match parse_u32_chars(&t) {
                    Some(p) => {
                        return (0, Some(p));
                    },
                    None => {},
                },
            }
        }
        i += 1;
    }
    (0, None)
}

fn ps_by_word_exec(lines: &Vec<Vec<char>>) -> (r: (u8, Option<u32>))
    ensures
        match ps_by_word(vv(lines@)) {
            PsOutcome::Found(p) => r.0 == 0 && r.1 == p,
            PsOutcome::Abort => r.0 == 1,
            PsOutcome::Continue => r.0 == 2,
        },
{
    let ghost all = vv(lines@);
    let n = lines.len();
    let mut i: usize = 0;
    assert(all.subrange(0, n as int) =~= all);
    while i < n
        invariant
            n == lines@.len(),
            all == vv(lines@),
            i <= n,
            ps_by_word(all) == ps_by_word(all.subrange(i as int, n as int)),
        decreases n - i,
    {
        assert(all.subrange(i as int, n as int).drop_first() =~= all.subrange(i + 1, n as int));
        if mentions_codex_exec(&lines[i]) && !is_launcher_line(&lines[i]) {
            match first_token_exec(&lines[i]) {
                None => {
                    return (1, None);
                },
                Some(t) => match parse_u32_chars(&t) {
                    Some(p) => {
                        return (0, Some(p));
                    },
                    None => {},
                },
            }
        }
        i += 1;
    }
    (2, None)
}

/// Codex as `ps -ax` shows it, if it does.
pub fn codex_from_ps(stdout: &str) -> (r: Option<CodexProcessInfo>)
    ensures
        detection_of(r) == ps_detection(stdout@),
        found_by_name(r),
{
    let lines = std_lines_exec(stdout);
    let out = chars_of(stdout);
    let first = if contains_str(&out, "Codex") {
        ps_scan_exec(&lines, "Codex")
    } else if contains_str(&out, "codex") {
        ps_scan_exec(&lines, "codex")
    } else if contains_str(&out, "codex-app") {
        ps_scan_exec(&lines, "codex-app")
    } else {
        (2, None)
    };
    if first.0 == 0 {
        return Some(running_info(first.1, "process_name"));
    }
    if first.0 == 1 {
        return None;
    }
    let second = ps_by_word_exec(&lines);
    if second.0 == 0 {
        Some(running_info(second.1, "process_name"))
    } else {
        None
    }
}

// ---------------------------------------------------------------------------
// Linux: pgrep, then ps for each PID
// ---------------------------------------------------------------------------
/// The PIDs that the lines give, each line trimmed, in order.
pub open spec fn parsed_pids(lines: Seq<Seq<char>>) -> Seq<u32>
    decreases lines.len(),
{
    if lines.len() == 0 {
        Seq::empty()
    } else {
        let rest = parsed_pids(lines.drop_first());
        match parse_u32_spec(trim(lines[0])) {
            Some(p) => seq![p] + rest,
            None => rest,
        }
    }
}

/// The PIDs that `pgrep -f codex` printed.
pub fn pgrep_pids(stdout: &str) -> (r: Vec<u32>)
    ensures
        r@ == parsed_pids(std_lines(stdout@)),
{
    let lines = std_lines_exec(stdout);
    let ghost all = vv(lines@);
    let n = lines.len();
    let mut out: Vec<u32> = Vec::new();
    let mut i: usize = 0;
    assert(all.subrange(0, n as int) =~= all);
    while i < n
        invariant
            n == lines@.len(),
            all == vv(lines@),
            i <= n,
            out@ + parsed_pids(all.subrange(i as int, n as int)) == parsed_pids(all),
        decreases n - i,
    {
        assert(all.subrange(i as int, n as int).drop_first() =~= all.subrange(i + 1, n as int));
        let ghost rest = parsed_pids(all.subrange(i + 1, n as int));
        let ghost before = out@;
        let t = trim_chars(&lines[i]);
        match parse_u32_chars(&t) {
            Some(pid) => {
                out.push(pid);
                assert(before + (seq![pid] + rest) =~= out@ + rest);
            },
            None => {},
        }
        i += 1;
    }
    assert(all.subrange(n as int, n as int) =~= Seq::<Seq<char>>::empty());
    assert(out@ + Seq::<u32>::empty() =~= out@);
    out
}

pub open spec fn candidates_view(c: Seq<(u32, Option<String>)>) -> Seq<(u32, Option<Seq<char>>)> {
    c.map_values(|x: (u32, Option<String>)| (x.0, opt_view(x.1)))
}

/// The first PID whose command line, where `ps` gave one, is not the
/// launcher's.
pub open spec fn first_non_launcher(c: Seq<(u32, Option<Seq<char>>)>) -> Option<u32>
    decreases c.len(),
{
    if c.len() == 0 {
        None
    } else if c[0].1 matches Some(cmd) && is_launcher_name_spec(cmd) {
        first_non_launcher(c.drop_first())
    } else {
        Some(c[0].0)
    }
}

/// Where `pgrep` shows Codex, given each PID it printed with the command
/// line that `ps` gave for it: the first that is not the launcher; else,
/// when `pgrep` printed anything at all, Codex without a PID.
pub open spec fn pgrep_detection(c: Seq<(u32, Option<Seq<char>>)>, stdout: Seq<char>) -> Option<Option<u32>> {
    match first_non_launcher(c) {
        Some(p) => Some(Some(p)),
        None => if trim(stdout).len() > 0 {
            Some(None)
        } else {
            None
        },
    }
}

pub fn codex_from_pgrep(candidates: &Vec<(u32, Option<String>)>, stdout: &str) -> (r: Option<CodexProcessInfo>)
    ensures
        detection_of(r) == pgrep_detection(candidates_view(candidates@), stdout@),
        found_by_name(r),
{
    let ghost all = candidates_view(candidates@);
    let n = candidates.len();
    let mut i: usize = 0;
    assert(all.subrange(0, n as int) =~= all);
    while i < n
        invariant
            n == candidates@.len(),
            all == candidates_view(candidates@),
            i <= n,
            first_non_launcher(all) == first_non_launcher(all.subrange(i as int, n as int)),
        decreases n - i,
    {
        assert(all.subrange(i as int, n as int).drop_first() =~= all.subrange(i + 1, n as int));
        assert(all[i as int] == (candidates@[i as int].0, opt_view(candidates@[i as int].1)));
        let launcher = match &candidates[i].1 {
            Some(cmd) => is_launcher_process_name(cmd.as_str()),
            None => false,
        };
        if !launcher {
            return Some(running_info(Some(candidates[i].0), "process_name"));
        }
        i += 1;
    }
    let t = trim_str(stdout);
    if t.len() > 0 {
        Some(running_info(None, "process_name"))
    } else {
        None
    }
}

// ---------------------------------------------------------------------------
// The process that listens on a port
// ---------------------------------------------------------------------------
/// The PIDs of the lines of `netstat -ano` that mention `:port` and
/// `LISTENING`, each taken from the line's last token.
pub open spec fn listening_pids(lines: Seq<Seq<char>>, port: u16) -> Seq<u32>
    decreases lines.len(),
{
    if lines.len() == 0 {
        Seq::empty()
    } else {
        let rest = listening_pids(lines.drop_first(), port);
        let l = lines[0];
        if contains(l, ":"@ + decimal(port as nat)) && contains(l, "LISTENING"@) {
            match last_token(l) {
                Some(t) => match parse_u32_spec(trim(t)) {
                    Some(p) => seq![p] + rest,
                    None => rest,
                },
                None => rest,
            }
        } else {
            rest
        }
    }
}

/// The PIDs that `netstat -ano` shows listening on `port`, in order; each is
/// still to be checked with `tasklist`.
pub fn netstat_listening_pids(stdout: &str, port: u16) -> (r: Vec<u32>)
    ensures
        r@ == listening_pids(std_lines(stdout@), port),
{
    let lines = std_lines_exec(stdout);
    let ghost all = vv(lines@);
    let mut port_str: Vec<char> = Vec::new();
    append_str(&mut port_str, ":");
    push_decimal(&mut port_str, port as u64);
    assert(port_str@ =~= ":"@ + decimal(port as nat));
    let n = lines.len();
    let mut out: Vec<u32> = Vec::new();
    let mut i: usize = 0;
    assert(all.subrange(0, n as int) =~= all);
    while i < n
        invariant
            n == lines@.len(),
            all == vv(lines@),
            port_str@ == ":"@ + decimal(port as nat),
            i <= n,
            out@ + listening_pids(all.subrange(i as int, n as int), port) == listening_pids(all, port),
        decreases n - i,
    {
        assert(all.subrange(i as int, n as int).drop_first() =~= all.subrange(i + 1, n as int));
        let ghost rest = listening_pids(all.subrange(i + 1, n as int), port);
        let ghost before = out@;
        if contains_chars(&lines[i], &port_str) && contains_str(&lines[i], "LISTENING") {
            match last_token_exec(&lines[i]) {
                Some(t) => {
                    let tt = trim_chars(&t);
                    match parse_u32_chars(&tt) {
                        Some(pid) => {
                            out.push(pid);
                            assert(before + (seq![pid] + rest) =~= out@ + rest);
                        },
                        None => {},
                    }
                },
                None => {},
            }
        }
        i += 1;
    }
    assert(all.subrange(n as int, n as int) =~= Seq::<Seq<char>>::empty());
    assert(out@ + Seq::<u32>::empty() =~= out@);
    out
}

/// The first line, trimmed, that is not blank.
pub open spec fn first_nonblank(lines: Seq<Seq<char>>) -> Option<Seq<char>>
    decreases lines.len(),
{
    if lines.len() == 0 {
        None
    } else if trim(lines[0]).len() > 0 {
        Some(trim(lines[0]))
    } else {
        first_nonblank(lines.drop_first())
    }
}

/// The PID that `lsof -i :port -t` printed: its first line that is not
/// blank, trimmed, when that is a number.
pub open spec fn lsof_pid_spec(stdout: Seq<char>) -> Option<u32> {
    match first_nonblank(std_lines(stdout)) {
        Some(l) => parse_u32_spec(l),
        None => None,
    }
}

pub fn lsof_pid(stdout: &str) -> (r: Option<u32>)
    ensures
        r == lsof_pid_spec(stdout@),
{
    let lines = std_lines_exec(stdout);
    let ghost all = vv(lines@);
    let n = lines.len();
    let mut i: usize = 0;
    assert(all.subrange(0, n as int) =~= all);
    while i < n
        invariant
            n == lines@.len(),
            all == vv(lines@),
            all == std_lines(stdout@),
            i <= n,
            first_nonblank(all) == first_nonblank(all.subrange(i as int, n as int)),
        decreases n - i,
    {
        assert(all.subrange(i as int, n as int).drop_first() =~= all.subrange(i + 1, n as int));
        let t = trim_chars(&lines[i]);
        if t.len() > 0 {
            return parse_u32_chars(&t);
        }
        i += 1;
    }
    None
}

/// The PID that `ss -tlnp` filtered through `grep` printed: the first line
/// of its trimmed output, trimmed, when that is a number.
pub open spec fn ss_pid_spec(stdout: Seq<char>) -> Option<u32> {
    let lines = std_lines(trim(stdout));
    if lines.len() > 0 {
        parse_u32_spec(trim(lines[0]))
    } else {
        None
    }
}

pub fn ss_pid(stdout: &str) -> (r: Option<u32>)
    ensures
        r == ss_pid_spec(stdout@),
{
    let t = string_of(&trim_str(stdout));
    let lines = std_lines_exec(t.as_str());
    if lines.len() > 0 {
        assert(vv(lines@)[0] == lines@[0]@);
        let first = trim_chars(&lines[0]);
        parse_u32_chars(&first)
    } else {
        None
    }
}

// ---------------------------------------------------------------------------
// Settings adopted from Codex
// ---------------------------------------------------------------------------
/// What the first launch adopts from Codex's own configuration: its model,
/// when the launcher has none configured; and the launcher's endpoint that
/// Codex uses, when Codex is on the launcher's provider and the launcher has
/// no endpoint of its own. The second part lists the changes in words.
pub open spec fn bootstrap_spec(
    c: ConfigModel,
    model: Option<Seq<char>>,
    managed: bool,
    base_url: Option<Seq<char>>,
) -> (ConfigModel, Seq<Seq<char>>) {
    let adopt_model = non_empty_spec(c.codex_model) is None && (model matches Some(m) && m.len()
        > 0);
    let c1 = if adopt_model {
        ConfigModel { codex_model: model, ..c }
    } else {
        c
    };
    let ch1 = if adopt_model {
        seq!["Adopted Codex model: "@ + model->0]
    } else {
        Seq::<Seq<char>>::empty()
    };
    let adopt_url = managed && base_url is Some && c.openai_base_url is None && c.ollama_ip is None;
    let c2 = if adopt_url {
        ConfigModel { openai_base_url: base_url, ..c1 }
    } else {
        c1
    };
    let ch2 = if adopt_url {
        ch1.push("Adopted Codex endpoint: "@ + base_url->0)
    } else {
        ch1
    };
    (c2, ch2)
}

/// Merges the launcher's settings with the live Codex profile on first
/// launch, and says what it adopted.
pub fn bootstrap_launcher_from_codex(
    config: &mut LauncherConfig,
    inspection: &CodexConfigInspection,
) -> (changes: Vec<String>)
    ensures
        (final(config)@, strings_view(changes@)) == bootstrap_spec(
            old(config)@,
            opt_view(inspection.model),
            inspection.managed_by_launcher,
            opt_view(inspection.launcher_base_url),
        ),
        final(config).failover == old(config).failover,
        final(config).profiles == old(config).profiles,
{
    let ghost c0 = config@;
    let mut changes: Vec<String> = Vec::new();
    if config.codex_model().is_none() {
        match &inspection.model {
            Some(model) => {
                if model.as_str().unicode_len() > 0 {
                    config.codex_model = Some(model.clone());
                    let mut msg: Vec<char> = Vec::new();
                    append_str(&mut msg, "Adopted Codex model: ");
                    append_str(&mut msg, model.as_str());
                    changes.push(string_of(&msg));
                }
            },
            None => {},
        }
    }
    let ghost ch1 = strings_view(changes@);
    if inspection.managed_by_launcher {
        match &inspection.launcher_base_url {
            Some(base_url) => {
                if config.openai_base_url.is_none() && config.ollama_ip.is_none() {
                    config.openai_base_url = Some(base_url.clone());
                    let mut msg: Vec<char> = Vec::new();
                    append_str(&mut msg, "Adopted Codex endpoint: ");
                    append_str(&mut msg, base_url.as_str());
                    changes.push(string_of(&msg));
                    assert(strings_view(changes@) =~= ch1.push(msg@));
                }
            },
            None => {},
        }
    }
    proof {
        let r = bootstrap_spec(
            c0,
            opt_view(inspection.model),
            inspection.managed_by_launcher,
            opt_view(inspection.launcher_base_url),
        );
        assert(config@ == r.0);
        assert(strings_view(changes@) =~= r.1);
    }
    changes
}

// ---------------------------------------------------------------------------
// What the user is told
// ---------------------------------------------------------------------------
/// The answer to a launch when Codex already runs.
pub fn already_running_message(method: Option<String>) -> (r: String)
    ensures
        r@ == "Codex is already running (detected via "@ + (match method {
            Some(m) => m@,
            None => "unknown"@,
        }) + ")"@,
{
    let mut v: Vec<char> = Vec::new();
    append_str(&mut v, "Codex is already running (detected via ");
    match &method {
        Some(m) => append_str(&mut v, m.as_str()),
        None => append_str(&mut v, "unknown"),
    }
    append_str(&mut v, ")");
    string_of(&v)
}

/// The answer to a launch that was started through `target`.
pub fn launching_message(target: &str) -> (r: String)
    ensures
        r@ == "Launching Codex via "@ + target@,
{
    let mut v: Vec<char> = Vec::new();
    append_str(&mut v, "Launching Codex via ");
    append_str(&mut v, target);
    string_of(&v)
}

/// The answer to writing the Codex configuration at `path`.
pub fn config_updated_message(path: &str) -> (r: String)
    ensures
        r@ == "Updated Codex config: "@ + path@,
{
    let mut v: Vec<char> = Vec::new();
    append_str(&mut v, "Updated Codex config: ");
    append_str(&mut v, path);
    string_of(&v)
}

/// The answer to restoring the Codex configuration at `path`.
pub fn restored_message(path: &str) -> (r: String)
    ensures
        r@ == "Restored Codex config: "@ + path@,
{
    let mut v: Vec<char> = Vec::new();
    append_str(&mut v, "Restored Codex config: ");
    append_str(&mut v, path);
    string_of(&v)
}

/// The answer to switching Codex back to its account provider at `path`,
/// with the warning that the restore gave, if any.
pub fn reverted_message(path: &str, warning: Option<String>) -> (r: String)
    ensures
        r@ == (match warning {
            Some(w) => "Switched Codex back to account provider at "@ + path@ + " -- "@ + w@,
            None => "Switched Codex back to account provider: "@ + path@,
        }),
{
    let mut v: Vec<char> = Vec::new();
    match &warning {
        Some(w) => {
            append_str(&mut v, "Switched Codex back to account provider at ");
            append_str(&mut v, path);
            append_str(&mut v, " -- ");
            append_str(&mut v, w.as_str());
        },
        None => {
            append_str(&mut v, "Switched Codex back to account provider: ");
            append_str(&mut v, path);
        },
    }
    string_of(&v)
}

/// What a failed stop adds to its message: the PID under which Codex is
/// still seen, else the way it is still seen, else nothing.
pub fn still_running_hint(pid: Option<u32>, method: Option<String>) -> (r: String)
    ensures
        r@ == (match (pid, method) {
            (Some(p), _) => " (still detected as PID "@ + decimal(p as nat) + ")"@,
            (None, Some(m)) => " (still detected via "@ + m@ + ")"@,
            (None, None) => Seq::<char>::empty(),
        }),
{
    let mut v: Vec<char> = Vec::new();
    match pid {
        Some(p) => {
            append_str(&mut v, " (still detected as PID ");
            push_decimal(&mut v, p as u64);
            append_str(&mut v, ")");
        },
        None => match &method {
            Some(m) => {
                append_str(&mut v, " (still detected via ");
                append_str(&mut v, m.as_str());
                append_str(&mut v, ")");
            },
            None => {},
        },
    }
    string_of(&v)
}

/// Whether the configuration asks for the launcher to start with the
/// system; enabling then registers it, disabling removes it.
pub fn auto_start_requested(config: &LauncherConfig) -> (r: bool)
    ensures
        r == (config.auto_start == Some(true)),
{
    match config.auto_start {
        Some(b) => b,
        None => false,
    }
}

/// Whether Codex's configuration puts it on the launcher's provider; an
/// inspection that failed counts as no.
pub fn codex_managed_by_launcher(inspection: &Option<CodexConfigInspection>) -> (r: bool)
    ensures
        r == (inspection matches Some(i) && i.managed_by_launcher),
{
    match inspection {
        Some(i) => i.managed_by_launcher,
        None => false,
    }
}

} // verus!

//! Telling the launcher's own helper processes apart from the Codex app.
use std::collections::HashSet;
use vstd::prelude::*;

use crate::text::{chars_of, contains, contains_str, lowercase, to_lowercase};

verus! {

broadcast use vstd::std_specs::hash::group_hash_axioms;

/// The process ids of short-lived helpers that the launcher spawned itself
/// (such as `codex app-server` probes); the health checks ignore them.
pub struct TransientPids {
    pids: HashSet<u32>,
}

impl View for TransientPids {
    type V = Set<u32>;

    closed spec fn view(&self) -> Set<u32> {
        self.pids@
    }
}

impl TransientPids {
    pub fn new() -> (r: TransientPids)
        ensures
            r@ == Set::<u32>::empty(),
    {
        TransientPids { pids: HashSet::new() }
    }
}

/// Records a helper's process id; id 0 is never recorded.
pub fn register_transient_helper_pid(registry: &mut TransientPids, pid: u32)
    ensures
        final(registry)@ == if pid == 0 {
            old(registry)@
        } else {
            old(registry)@.insert(pid)
        },
{
    if pid == 0 {
        return;
    }
    registry.pids.insert(pid);
}

/// Forgets a helper's process id.
pub fn unregister_transient_helper_pid(registry: &mut TransientPids, pid: u32)
    ensures
        final(registry)@ == if pid == 0 {
            old(registry)@
        } else {
            old(registry)@.remove(pid)
        },
{
    if pid == 0 {
        return;
    }
    registry.pids.remove(&pid);
    assert(final(registry)@ =~= old(registry)@.remove(pid));
}

pub fn is_transient_helper_pid(registry: &TransientPids, pid: u32) -> (r: bool)
    ensures
        r == registry@.contains(pid),
{
    registry.pids.contains(&pid)
}

/// A helper that was registered is recognised until it is unregistered.
pub proof fn law_transient_registry_round_trip(s: Set<u32>, pid: u32)
    requires
        pid != 0,
    ensures
        s.insert(pid).contains(pid),
        !s.insert(pid).remove(pid).contains(pid),
        s.insert(pid).remove(pid) == s.remove(pid),
{
    assert(s.insert(pid).remove(pid) =~= s.remove(pid));
}

/// `s` with every `\` turned into `/`.
pub open spec fn forward_slashes(s: Seq<char>) -> Seq<char> {
    s.map_values(|c: char| if c == '\\' { '/' } else { c })
}

/// Whether a command line is one of the launcher's own
/// `codex app-server --listen stdio://` probes.
pub open spec fn is_probe_command_spec(cmdline: Seq<char>) -> bool {
    let l = forward_slashes(lowercase(cmdline));
    let has_app_server = contains(l, "app-server"@) || contains(l, "app_server"@);
    let stdio_listen = contains(l, "stdio://"@) || contains(l, "stdio:"@) || (contains(
        l,
        "--listen"@,
    ) && contains(l, "stdio"@));
    has_app_server && stdio_listen
}

pub fn is_app_server_probe_command(cmdline: &str) -> (r: bool)
    ensures
        r == is_probe_command_spec(cmdline@),
{
    let lower_s = to_lowercase(cmdline);
    let lower = chars_of(lower_s.as_str());
    let mut l: Vec<char> = Vec::new();
    let mut i: usize = 0;
    while i < lower.len()
        invariant
            i <= lower.len(),
            l@ == forward_slashes(lower@.subrange(0, i as int)),
        decreases lower.len() - i,
    {
        let c = lower[i];
        l.push(if c == '\\' { '/' } else { c });
        i += 1;
        assert(l@ =~= forward_slashes(lower@.subrange(0, i as int)));
    }
    assert(lower@.subrange(0, lower.len() as int) =~= lower@);
    let has_app_server = contains_str(&l, "app-server") || contains_str(&l, "app_server");
    let stdio_listen = contains_str(&l, "stdio://") || contains_str(&l, "stdio:") || (
    contains_str(&l, "--listen") && contains_str(&l, "stdio"));
    has_app_server && stdio_listen
}

/// Whether a process is not the user-facing Codex app: a registered helper,
/// or one whose command line (when it could be read) is a probe.  PID 0 has
/// no command line to read.
pub fn should_ignore_codex_pid(registry: &TransientPids, pid: u32, command_line: Option<&str>) -> (r:
    bool)
    ensures
        r == (registry@.contains(pid) || (pid != 0 && (command_line matches Some(c)
            && is_probe_command_spec(c@)))),
{
    if is_transient_helper_pid(registry, pid) {
        return true;
    }
    if pid == 0 {
        return false;
    }
    match command_line {
        Some(c) => is_app_server_probe_command(c),
        None => false,
    }
}

} // verus!

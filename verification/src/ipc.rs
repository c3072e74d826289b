//! The messages that the desktop window's frontend sends: which command a
//! message names. The commands themselves are run by the program.
use vstd::prelude::*;

use crate::text::{append_str, str_eq, string_of};

verus! {

#[derive(Clone, Copy, Debug, PartialEq, Eq, Structural)]
pub enum IpcCommand {
    Launch,
    Stop,
    SaveConfig,
    LoadConfig,
    HealthCheck,
    ListModels,
    RefreshModels,
    WriteCodexConfig,
    RevertCodexConfig,
    DetectCodex,
    KillCodexByPid,
}

/// The wire name of each command.
pub open spec fn ipc_name(c: IpcCommand) -> Seq<char> {
    match c {
        IpcCommand::Launch => "launch"@,
        IpcCommand::Stop => "stop"@,
        IpcCommand::SaveConfig => "save_config"@,
        IpcCommand::LoadConfig => "load_config"@,
        IpcCommand::HealthCheck => "health_check"@,
        IpcCommand::ListModels => "list_models"@,
        IpcCommand::RefreshModels => "refresh_models"@,
        IpcCommand::WriteCodexConfig => "write_codex_config"@,
        IpcCommand::RevertCodexConfig => "revert_codex_config"@,
        IpcCommand::DetectCodex => "detect_codex"@,
        IpcCommand::KillCodexByPid => "kill_codex_by_pid"@,
    }
}

pub fn ipc_command_name(c: IpcCommand) -> (r: &'static str)
    ensures
        r@ == ipc_name(c),
{
    match c {
        IpcCommand::Launch => "launch",
        IpcCommand::Stop => "stop",
        IpcCommand::SaveConfig => "save_config",
        IpcCommand::LoadConfig => "load_config",
        IpcCommand::HealthCheck => "health_check",
        IpcCommand::ListModels => "list_models",
        IpcCommand::RefreshModels => "refresh_models",
        IpcCommand::WriteCodexConfig => "write_codex_config",
        IpcCommand::RevertCodexConfig => "revert_codex_config",
        IpcCommand::DetectCodex => "detect_codex",
        IpcCommand::KillCodexByPid => "kill_codex_by_pid",
    }
}

/// The command that a message of type `name` asks for, or `None`.
pub fn ipc_command(name: &str) -> (r: Option<IpcCommand>)
    ensures
        match r {
            Some(c) => ipc_name(c) == name@,
            None => forall|c: IpcCommand| ipc_name(c) != name@,
        },
{
    let all: [IpcCommand; 11] = [
        IpcCommand::Launch,
        IpcCommand::Stop,
        IpcCommand::SaveConfig,
        IpcCommand::LoadConfig,
        IpcCommand::HealthCheck,
        IpcCommand::ListModels,
        IpcCommand::RefreshModels,
        IpcCommand::WriteCodexConfig,
        IpcCommand::RevertCodexConfig,
        IpcCommand::DetectCodex,
        IpcCommand::KillCodexByPid,
    ];
    let mut i: usize = 0;
    while i < 11
        invariant
            i <= 11,
            all@.len() == 11,
            forall|c: IpcCommand| #[trigger] all@.contains(c),
            forall|j: int| 0 <= j < i ==> ipc_name(#[trigger] all@[j]) != name@,
        decreases 11 - i,
    {
        let c = all[i];
        if str_eq(ipc_command_name(c), name) {
            return Some(c);
        }
        i += 1;
    }
    proof {
        assert forall|c: IpcCommand| ipc_name(c) != name@ by {
            let j = choose|j: int| 0 <= j < 11 && all@[j] == c;
        }
    }
    None
}

/// The answer to a message of an unknown type.
pub fn unknown_command_message(name: &str) -> (r: String)
    ensures
        r@ == "Unknown command: "@ + name@,
{
    let mut v: Vec<char> = Vec::new();
    append_str(&mut v, "Unknown command: ");
    append_str(&mut v, name);
    string_of(&v)
}

} // verus!

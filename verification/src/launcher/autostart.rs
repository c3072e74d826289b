//! The entries that start the launcher when the user logs in.
use vstd::prelude::*;

use crate::text::{append_str, chars_of, string_of};

verus! {

#[derive(Clone, Debug)]
pub enum AutoStartError {
    MissingHome,
    CreateDir { path: String, message: String },
    WriteEntry { message: String },
    ReadEntry { message: String },
    Registration(String),
}

/// `s` with every `"` doubled, as PowerShell reads a quoted string.
pub open spec fn double_quotes(s: Seq<char>) -> Seq<char>
    decreases s.len(),
{
    if s.len() == 0 {
        Seq::empty()
    } else {
        double_quotes(s.drop_last()) + if s.last() == '"' {
            seq!['"', '"']
        } else {
            seq![s.last()]
        }
    }
}

/// The PowerShell command that registers the launcher under the `Run` key.
pub open spec fn windows_run_script_spec(binary: Seq<char>) -> Seq<char> {
    "Set-ItemProperty -Path \"HKCU:\\Software\\Microsoft\\Windows\\CurrentVersion\\Run\" -Name \"CodexLocalLauncher\" -Value \""@
        + double_quotes(binary) + "\" -Force"@
}

pub fn windows_run_script(binary_path: &str) -> (r: String)
    ensures
        r@ == windows_run_script_spec(binary_path@),
{
    let b = chars_of(binary_path);
    let mut out = chars_of(
        "Set-ItemProperty -Path \"HKCU:\\Software\\Microsoft\\Windows\\CurrentVersion\\Run\" -Name \"CodexLocalLauncher\" -Value \"",
    );
    let ghost start = out@;
    let mut i: usize = 0;
    while i < b.len()
        invariant
            i <= b.len(),
            out@ == start + double_quotes(b@.subrange(0, i as int)),
        decreases b.len() - i,
    {
        assert(b@.subrange(0, i + 1).drop_last() =~= b@.subrange(0, i as int));
        if b[i] == '"' {
            out.push('"');
            out.push('"');
        } else {
            out.push(b[i]);
        }
        i += 1;
    }
    assert(b@.subrange(0, b.len() as int) =~= b@);
    append_str(&mut out, "\" -Force");
    string_of(&out)
}

/// The launchd property list that starts the launcher at login on macOS.
pub open spec fn macos_plist_spec(binary: Seq<char>) -> Seq<char> {
    "<?xml version=\"1.0\" encoding=\"UTF-8\"?>\n<!DOCTYPE plist PUBLIC \"-//Apple//DTD PLIST 1.0//EN\" \"http://www.apple.com/DTDs/PropertyList-1.0.dtd\">\n<plist version=\"1.0\">\n<dict>\n    <key>Label</key>\n    <string>com.codex-local-launcher.launcher</string>\n    <key>ProgramArguments</key>\n    <array>\n        <string>"@
        + binary
        + "</string>\n    </array>\n    <key>RunAtLoad</key>\n    <true/>\n    <key>KeepAlive</key>\n    <true/>\n</dict>\n</plist>"@
}

pub fn macos_launch_agent_plist(binary_path: &str) -> (r: String)
    ensures
        r@ == macos_plist_spec(binary_path@),
{
    let mut out = chars_of(
        "<?xml version=\"1.0\" encoding=\"UTF-8\"?>\n<!DOCTYPE plist PUBLIC \"-//Apple//DTD PLIST 1.0//EN\" \"http://www.apple.com/DTDs/PropertyList-1.0.dtd\">\n<plist version=\"1.0\">\n<dict>\n    <key>Label</key>\n    <string>com.codex-local-launcher.launcher</string>\n    <key>ProgramArguments</key>\n    <array>\n        <string>",
    );
    append_str(&mut out, binary_path);
    append_str(
        &mut out,
        "</string>\n    </array>\n    <key>RunAtLoad</key>\n    <true/>\n    <key>KeepAlive</key>\n    <true/>\n</dict>\n</plist>",
    );
    string_of(&out)
}

/// The desktop entry that starts the launcher at login on Linux.
pub open spec fn linux_desktop_spec(binary: Seq<char>) -> Seq<char> {
    "[Desktop Entry]\nType=Application\nName=Codex Local Launcher\nComment=Launch Codex with local Ollama endpoint\nExec="@
        + binary + "\nTerminal=false\nHidden=false\nX-GNOME-Autostart-enabled=true\n"@
}

pub fn linux_desktop_entry(binary_path: &str) -> (r: String)
    ensures
        r@ == linux_desktop_spec(binary_path@),
{
    let mut out = chars_of(
        "[Desktop Entry]\nType=Application\nName=Codex Local Launcher\nComment=Launch Codex with local Ollama endpoint\nExec=",
    );
    append_str(&mut out, binary_path);
    append_str(&mut out, "\nTerminal=false\nHidden=false\nX-GNOME-Autostart-enabled=true\n");
    string_of(&out)
}

} // verus!

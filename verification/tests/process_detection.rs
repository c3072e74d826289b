use codex_launchpad::app_logic::{
    already_running_message, codex_from_pgrep, codex_from_ps, codex_from_tasklist,
    csv_pid_exec, is_launcher_process_name, lsof_pid, netstat_listening_pids, pgrep_pids,
    ss_pid, still_running_hint, tasklist_kill_pids, tasklist_mentions_pid,
};
use codex_launchpad::lpad_process::{health_from_status, parse_pid_file};

const TASKLIST: &str = "\"System\",\"4\",\"Services\",\"0\",\"1,024 K\"\r\n\"launchpadx.exe\",\"812\",\"Console\",\"1\",\"9,000 K\"\r\n\"Codex.exe\",\"4242\",\"Console\",\"1\",\"150,000 K\"\r\n\"codex-helper.exe\",\"5150\",\"Console\",\"1\",\"1,000 K\"\r\n";

#[test]
fn tasklist_finds_codex_by_binary_name() {
    let info = codex_from_tasklist(TASKLIST).expect("codex found");
    assert!(info.running);
    assert_eq!(info.pid, Some(4242));
    assert_eq!(info.method.as_deref(), Some("process_name"));
    assert!(info.restart_required);
}

#[test]
fn tasklist_falls_back_to_any_codex_line() {
    let out = "\"codex-helper.exe\",\"5150\",\"Console\",\"1\",\"1,000 K\"\n";
    assert_eq!(codex_from_tasklist(out).expect("found").pid, Some(5150));
}

#[test]
fn tasklist_ignores_the_launcher_itself() {
    let out = "\"launchpadx-codex-helper\",\"812\",\"Console\",\"1\",\"9,000 K\"\n";
    assert!(codex_from_tasklist(out).is_none());
    assert!(codex_from_tasklist("").is_none());
}

#[test]
fn tasklist_binary_line_without_pid_still_counts() {
    let info = codex_from_tasklist("Codex.exe is running\n").expect("found");
    assert_eq!(info.pid, None);
}

#[test]
fn kill_candidates_skip_launcher_and_unparsable_lines() {
    assert_eq!(tasklist_kill_pids(TASKLIST), vec![4242, 5150]);
}

#[test]
fn csv_pid_takes_second_field() {
    let line: Vec<char> = "\"a\", \"77\" ,\"b\"".chars().collect();
    assert_eq!(csv_pid_exec(&line), Some(77));
    let single: Vec<char> = "\"only\"".chars().collect();
    assert_eq!(csv_pid_exec(&single), None);
}

#[test]
fn launcher_names_are_recognised_in_any_case() {
    assert!(is_launcher_process_name("C:\\Apps\\LaunchPadX.exe"));
    assert!(!is_launcher_process_name("codex"));
}

#[test]
fn ps_output_gives_the_codex_pid() {
    let out = "  PID TTY TIME CMD\n  301 ?? 0:01.00 /Applications/Codex.app/Contents/MacOS/Codex\n";
    assert_eq!(codex_from_ps(out).expect("found").pid, Some(301));
    assert!(codex_from_ps("  1 ?? 0:00 /sbin/launchd\n").is_none());
}

#[test]
fn ps_lowercase_codex_is_found_by_word() {
    let out = "  77 ?? 0:00 /usr/local/bin/CODEX-daemon\n";
    assert_eq!(codex_from_ps(out).expect("found").pid, Some(77));
}

#[test]
fn pgrep_candidates_and_decision() {
    assert_eq!(pgrep_pids("12\n 13 \nabc\n"), vec![12, 13]);
    let cands = vec![
        (12u32, Some("/opt/launchpadx/bin".to_string())),
        (13u32, Some("/usr/bin/codex".to_string())),
    ];
    assert_eq!(codex_from_pgrep(&cands, "12\n13\n").expect("found").pid, Some(13));
    let only_launcher = vec![(12u32, Some("launchpadx".to_string()))];
    assert_eq!(codex_from_pgrep(&only_launcher, "12\n").expect("found").pid, None);
    assert!(codex_from_pgrep(&Vec::new(), "  \n").is_none());
}

#[test]
fn netstat_lists_listening_pids_on_the_port() {
    let out = "  TCP    127.0.0.1:4000   0.0.0.0:0   LISTENING   9000\r\n  TCP    127.0.0.1:4000   127.0.0.1:5000   ESTABLISHED   9001\r\n  TCP    0.0.0.0:8080   0.0.0.0:0   LISTENING   9002\r\n";
    assert_eq!(netstat_listening_pids(out, 4000), vec![9000]);
}

#[test]
fn lsof_and_ss_take_the_first_line() {
    assert_eq!(lsof_pid("\n  \n 4321 \n99\n"), Some(4321));
    assert_eq!(lsof_pid(""), None);
    assert_eq!(ss_pid("\n 555\n666\n"), Some(555));
    assert_eq!(ss_pid("x\n1\n"), None);
}

#[test]
fn tasklist_filter_output_mentions_pid() {
    assert!(tasklist_mentions_pid("\"Codex.exe\",\"4242\",\"Console\"", 4242));
    assert!(!tasklist_mentions_pid("INFO: No tasks are running", 4242));
}

#[test]
fn pid_file_contents_are_trimmed() {
    assert_eq!(parse_pid_file(" 4242\n"), Some(4242));
    assert_eq!(parse_pid_file("+7"), Some(7));
    assert_eq!(parse_pid_file("4294967296"), None);
    assert_eq!(parse_pid_file(""), None);
}

#[test]
fn health_follows_the_status_code() {
    let ok = health_from_status(Some(200)).expect("answer");
    assert!(ok.running && ok.api_ready);
    let bad = health_from_status(Some(503)).expect("answer");
    assert!(bad.running && !bad.api_ready);
    assert!(health_from_status(None).is_none());
}

#[test]
fn stop_and_launch_messages() {
    assert_eq!(still_running_hint(Some(42), Some("x".to_string())), " (still detected as PID 42)");
    assert_eq!(still_running_hint(None, Some("process_name".to_string())), " (still detected via process_name)");
    assert_eq!(still_running_hint(None, None), "");
    assert_eq!(already_running_message(None), "Codex is already running (detected via unknown)");
}

use codex_switch::linux_proc::{arguments, start_time};

#[test]
fn stat_handles_spaces_and_parentheses_in_comm() {
    let stat = format!(
        "123 (Chat GPT)) S {}",
        (4..=22)
            .map(|i| i.to_string())
            .collect::<Vec<_>>()
            .join(" ")
    );
    assert_eq!(start_time(&stat).as_deref(), Some("22"));
    assert_eq!(start_time("invalid"), None);
}

#[test]
fn arguments_preserve_spaces_and_non_utf8() {
    assert_eq!(
        arguments(b"/opt/Chat GPT/ChatGPT\0--user-data-dir=/tmp/my profile\0\xff\0"),
        vec![b"--user-data-dir=/tmp/my profile".to_vec(), vec![255u8]]
    );
}

use codex_switch::linux_proc::{
    desktop_process, is_desktop_executable, is_main_args, sort_processes, DesktopProcess,
    ExecutableFacts,
};

fn facts(name: Option<&str>, exec: bool, pak: bool, asar: bool, pkg: bool) -> ExecutableFacts {
    ExecutableFacts {
        file_name: name.map(str::to_string),
        has_parent: true,
        is_executable_file: exec,
        has_pak: pak,
        has_asar: asar,
        has_package_json: pkg,
    }
}

#[test]
fn desktop_assets_distinguish_gui_from_cli() {
    // an executable `codex` alone
    assert!(!is_desktop_executable(&facts(Some("codex"), true, false, false, false)));
    // with `chrome_100_percent.pak` and `resources/app.asar` beside it
    assert!(is_desktop_executable(&facts(Some("codex"), true, true, true, false)));
    // a copy under `resources/`, where the assets are not beside it
    assert!(!is_desktop_executable(&facts(Some("codex"), true, false, false, false)));
    // the same file without its execute bits
    assert!(!is_desktop_executable(&facts(Some("codex"), false, true, true, false)));
}

#[test]
fn desktop_executables_need_a_desktop_name() {
    assert!(is_desktop_executable(&facts(Some("ChatGPT"), true, true, false, true)));
    assert!(!is_desktop_executable(&facts(Some("codex-cli"), true, true, true, false)));
    assert!(!is_desktop_executable(&facts(None, true, true, true, false)));
}

fn stat_line() -> String {
    format!(
        "9 (codex) S {}",
        (4..=22).map(|i| i.to_string()).collect::<Vec<_>>().join(" ")
    )
}

#[test]
fn proc_entries_become_desktop_processes() {
    let p = desktop_process(
        "1234",
        true,
        Some(b"/opt/Codex/codex".to_vec()),
        true,
        Some(b"/opt/Codex/codex\0--type=renderer\0".to_vec()),
        Some(stat_line()),
        Some(b"/home/u".to_vec()),
    )
    .expect("a desktop process");
    assert_eq!(p.pid, 1234);
    assert_eq!(p.args, vec![b"--type=renderer".to_vec()]);
    assert!(!p.is_main);
    assert_eq!(p.cwd.as_deref(), Some(&b"/home/u"[..]));
    assert!(p.is_current(&Some(b"/opt/Codex/codex".to_vec()), &Some(stat_line())));
    assert!(!p.is_current(&Some(b"/other".to_vec()), &Some(stat_line())));
    assert!(!p.is_current(&Some(b"/opt/Codex/codex".to_vec()), &None));

    assert!(desktop_process("self", true, Some(vec![1]), true, Some(vec![]), Some(stat_line()), None).is_none());
    assert!(desktop_process("12", false, Some(vec![1]), true, Some(vec![]), Some(stat_line()), None).is_none());
    assert!(desktop_process("12", true, Some(vec![1]), false, Some(vec![]), Some(stat_line()), None).is_none());
    assert!(desktop_process("12", true, Some(vec![1]), true, Some(vec![]), Some("bad".to_string()), None).is_none());
    assert!(is_main_args(&vec![b"--user-data-dir=x".to_vec()]));
}

fn proc_with(pid: u32, is_main: bool) -> DesktopProcess {
    DesktopProcess {
        pid,
        executable: b"/opt/Codex/codex".to_vec(),
        args: vec![],
        cwd: None,
        is_main,
        start_time: "1".to_string(),
    }
}

#[test]
fn processes_are_listed_main_first_then_by_pid() {
    let sorted = sort_processes(vec![
        proc_with(30, false),
        proc_with(20, true),
        proc_with(10, false),
        proc_with(40, true),
    ]);
    let order: Vec<(u32, bool)> = sorted.iter().map(|p| (p.pid, p.is_main)).collect();
    assert_eq!(order, vec![(20, true), (40, true), (10, false), (30, false)]);
}

use codex_switch::linux_proc::{list_desktop_processes, ProcEntry};

fn entry(name: &str, owned: bool, exe: &str, desktop: bool, cmdline: &[u8]) -> ProcEntry {
    ProcEntry {
        name: name.to_string(),
        owned,
        executable: Some(exe.as_bytes().to_vec()),
        facts: facts(Some("codex"), true, desktop, desktop, false),
        cmdline: Some(cmdline.to_vec()),
        stat: Some(stat_line()),
        cwd: None,
    }
}

#[test]
fn listing_keeps_owned_desktop_processes_main_first() {
    let entries = vec![
        entry("300", true, "/opt/Codex/codex", true, b"/opt/Codex/codex\0--type=gpu-process\0"),
        entry("200", true, "/opt/Codex/codex", true, b"/opt/Codex/codex\0"),
        entry("100", true, "/opt/Codex/resources/codex", false, b"codex\0app-server\0"),
        entry("150", false, "/opt/Codex/codex", true, b"/opt/Codex/codex\0"),
        entry("self", true, "/opt/Codex/codex", true, b"/opt/Codex/codex\0"),
        entry("250", true, "/opt/Codex/codex", true, b"/opt/Codex/codex\0--type=renderer\0"),
    ];
    let listed = list_desktop_processes(entries);
    let pids: Vec<u32> = listed.iter().map(|p| p.pid).collect();
    assert_eq!(pids, vec![200, 250, 300]);
    assert!(listed[0].is_main && !listed[1].is_main && !listed[2].is_main);
    for p in &listed {
        assert!(p.executable.starts_with(b"/"));
        assert!(!p.args.iter().any(|a| a == b"app-server"));
    }
}

// A snapshot of `/proc` as the reader hands it over: the desktop app's main
// and helper processes, the CLI's app-server beside them, another user's
// copy of the app and a non-process entry.
#[test]
fn live_snapshot_has_absolute_paths_and_excludes_cli() {
    let snapshot = vec![
        entry("4100", true, "/opt/Codex/codex", true, b"/opt/Codex/codex\0"),
        entry("4200", true, "/opt/Codex/resources/codex", false, b"/opt/Codex/resources/codex\0app-server\0"),
        entry("4300", true, "/opt/Codex/codex", true, b"/opt/Codex/codex\0--type=zygote\0"),
        entry("4400", false, "/opt/Codex/codex", true, b"/opt/Codex/codex\0"),
        entry("sys", true, "/opt/Codex/codex", true, b"/opt/Codex/codex\0"),
    ];
    let desktop: Vec<(u32, bool)> = vec![(4100, true), (4300, true)];
    for p in list_desktop_processes(snapshot) {
        assert!(p.executable.starts_with(b"/"));
        assert!(desktop.contains(&(p.pid, true)));
        assert!(!p.args.iter().any(|arg| arg == b"app-server"));
    }
}

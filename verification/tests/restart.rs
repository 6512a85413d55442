use codex_switch::restart::{
    codex_app_has_processes, restart_codex_app_macos, wait_step, MacAction, RestartEvent, WaitStep,
};
use codex_switch::windows_proc::WindowsCodexLaunchTarget;
use codex_switch::windows_restart::{
    close_window_script, quit_codex_app_windows, quit_outcome, restart_codex_app_windows,
    taskkill_args, QuitAction, QuitEvent, WinAction, PROCESS_IDS_SCRIPT, STOP_PROCESSES_SCRIPT,
};
use codex_switch::windows_text::WindowsCommandError;

fn flag(b: bool) -> RestartEvent {
    RestartEvent::Flag(Ok(b))
}

fn done() -> RestartEvent {
    RestartEvent::Done(Ok(()))
}

#[test]
fn waiting_stops_on_the_expected_state_a_failure_or_the_timeout() {
    assert!(matches!(wait_step(false, 0, 5000, 250, Some(Ok(false))), WaitStep::Finished(Ok(true))));
    assert!(matches!(wait_step(false, 0, 5000, 250, Some(Ok(true))), WaitStep::SleepThenCheck(250)));
    match wait_step(true, 100, 5000, 300, Some(Err("ps failed".to_string()))) {
        WaitStep::Finished(Err(e)) => assert_eq!(e, "ps failed"),
        _ => panic!("expected the failure"),
    }
    assert!(matches!(wait_step(true, 5000, 5000, 300, None), WaitStep::Finished(Ok(false))));
}

#[test]
fn mac_processes_are_those_of_the_bundle_or_the_running_flag() {
    let bundle = Some("/Applications/Codex.app".to_string());
    assert_eq!(codex_app_has_processes(&bundle, Some(Ok(vec![1, 2])), None), Ok(true));
    assert_eq!(codex_app_has_processes(&bundle, Some(Ok(vec![])), None), Ok(false));
    assert_eq!(
        codex_app_has_processes(&bundle, Some(Err("x".to_string())), None),
        Err("x".to_string())
    );
    assert_eq!(codex_app_has_processes(&None, None, Some(Ok(true))), Ok(true));
}

#[test]
fn mac_restart_of_a_running_app_escalates_to_term() {
    let mut m = restart_codex_app_macos(Some("/Applications/Codex.app".to_string()));
    assert!(matches!(m.step(RestartEvent::Begin), MacAction::CheckProcesses));
    assert!(matches!(m.step(flag(true)), MacAction::CheckRunning));
    assert!(matches!(m.step(RestartEvent::Flag(Err("osascript".to_string()))), MacAction::Quit));
    assert!(matches!(m.step(RestartEvent::Done(Err("quit refused".to_string()))), MacAction::WaitUntilGone(5)));
    match m.step(flag(false)) {
        MacAction::Signal(s) => assert_eq!(s, "-TERM"),
        _ => panic!("expected -TERM"),
    }
    assert!(matches!(m.step(done()), MacAction::WaitUntilGone(10)));
    assert!(matches!(m.step(flag(true)), MacAction::Launch));
    assert!(matches!(m.step(done()), MacAction::WaitUntilRunning(15)));
    match m.step(flag(true)) {
        MacAction::Finish(Ok(r)) => {
            assert!(r.was_running && r.launched);
            assert_eq!(r.app_path.as_deref(), Some("/Applications/Codex.app"));
            assert_eq!(r.app_id, None);
        }
        _ => panic!("expected a report"),
    }
}

#[test]
fn mac_restart_of_a_stopped_app_launches_it() {
    let mut m = restart_codex_app_macos(None);
    m.step(RestartEvent::Begin);
    assert!(matches!(m.step(flag(false)), MacAction::CheckRunning));
    assert!(matches!(m.step(flag(false)), MacAction::Launch));
    assert!(matches!(m.step(done()), MacAction::WaitUntilRunning(15)));
    assert!(matches!(m.step(flag(false)), MacAction::CheckRunning));
    match m.step(flag(false)) {
        MacAction::Finish(Err(e)) => assert_eq!(e, "等待 Codex App 启动超时"),
        _ => panic!("expected the timeout"),
    }
}

#[test]
fn mac_restart_fails_when_the_app_survives_kill() {
    let mut m = restart_codex_app_macos(Some("/A/Codex.app".to_string()));
    m.step(RestartEvent::Begin);
    m.step(flag(true));
    m.step(flag(true));
    m.step(done());
    m.step(flag(false));
    m.step(done());
    match m.step(flag(false)) {
        MacAction::Signal(s) => assert_eq!(s, "-KILL"),
        _ => panic!("expected -KILL"),
    }
    assert!(matches!(m.step(done()), MacAction::WaitUntilGone(5)));
    match m.step(flag(false)) {
        MacAction::Finish(Err(e)) => assert_eq!(e, "等待 Codex App 退出超时"),
        _ => panic!("expected the timeout"),
    }
}

#[test]
fn mac_restart_stops_on_a_failed_launch() {
    let mut m = restart_codex_app_macos(None);
    m.step(RestartEvent::Begin);
    m.step(flag(false));
    m.step(flag(false));
    match m.step(RestartEvent::Done(Err("启动 Codex App 失败: x".to_string()))) {
        MacAction::Finish(Err(e)) => assert_eq!(e, "启动 Codex App 失败: x"),
        _ => panic!("expected the failure"),
    }
}

#[test]
fn windows_restart_closes_then_starts_the_app() {
    let mut w = restart_codex_app_windows(WindowsCodexLaunchTarget::AppId("OpenAI.Codex_1!App".to_string()));
    assert!(matches!(w.step(RestartEvent::Begin), WinAction::CheckRunning));
    assert!(matches!(w.step(flag(true)), WinAction::Quit));
    assert!(matches!(w.step(done()), WinAction::WaitFor(false, 10)));
    assert!(matches!(w.step(RestartEvent::Flag(Err("x".to_string()))), WinAction::Start));
    assert!(matches!(w.step(done()), WinAction::WaitFor(true, 8)));
    match w.step(flag(false)) {
        WinAction::Finish(Ok(r)) => {
            assert!(r.was_running && r.launched);
            assert_eq!(r.app_id.as_deref(), Some("OpenAI.Codex_1!App"));
            assert_eq!(r.app_path, None);
        }
        _ => panic!("expected a report"),
    }
}

#[test]
fn windows_restart_outcomes() {
    let mut w = restart_codex_app_windows(WindowsCodexLaunchTarget::ExecutablePath("C:\\Codex.exe".to_string()));
    w.step(RestartEvent::Begin);
    assert!(matches!(w.step(RestartEvent::Flag(Err("x".to_string()))), WinAction::Start));
    w.step(done());
    match w.step(flag(true)) {
        WinAction::Finish(Ok(r)) => {
            assert!(!r.was_running);
            assert_eq!(r.app_path.as_deref(), Some("C:\\Codex.exe"));
        }
        _ => panic!("expected a report"),
    }
    let mut w = restart_codex_app_windows(WindowsCodexLaunchTarget::AppId("a".to_string()));
    w.step(RestartEvent::Begin);
    w.step(flag(true));
    w.step(done());
    match w.step(flag(false)) {
        WinAction::Finish(Err(e)) => {
            assert_eq!(e, "等待 Windows Codex App 退出超时，请手动关闭 Codex App 后重试。")
        }
        _ => panic!("expected the timeout"),
    }
    let mut w = restart_codex_app_windows(WindowsCodexLaunchTarget::AppId("a".to_string()));
    w.step(RestartEvent::Begin);
    w.step(flag(true));
    match w.step(RestartEvent::Done(Err("still running".to_string()))) {
        WinAction::Finish(Err(e)) => assert_eq!(e, "still running"),
        _ => panic!("expected the failure"),
    }
}

#[test]
fn close_script_and_taskkill_arguments() {
    assert_eq!(
        close_window_script("42"),
        "\n$ErrorActionPreference = \"SilentlyContinue\"\n$process = Get-Process -Id 42 -ErrorAction SilentlyContinue\nif ($process) { $process.CloseMainWindow() | Out-Null }\nStart-Sleep -Milliseconds 900\n"
    );
    assert_eq!(taskkill_args("42"), vec!["/F", "/T", "/PID", "42"]);
    assert!(STOP_PROCESSES_SCRIPT.contains("Stop-Process -Id $_.ProcessId -Force"));
    assert!(PROCESS_IDS_SCRIPT.contains("(?i)\\\\WindowsApps\\\\"));
}

#[test]
fn quit_outcome_messages() {
    assert_eq!(quit_outcome(Ok(false), false, false, &vec![]), Ok(()));
    assert_eq!(
        quit_outcome(Ok(true), true, true, &vec![]),
        Err("Codex App 仍在运行，Windows 拒绝当前应用结束部分 Codex 进程。请以管理员身份重启 CCC Switch，或手动关闭 Codex App 后重试。已成功关闭一部分 Codex 子进程，但仍有进程需要更高权限。".to_string())
    );
    assert_eq!(
        quit_outcome(Ok(true), false, true, &vec![]),
        Err("Codex App 仍在运行，Windows 拒绝当前应用结束部分 Codex 进程。请以管理员身份重启 CCC Switch，或手动关闭 Codex App 后重试。".to_string())
    );
    assert_eq!(
        quit_outcome(Ok(true), false, false, &vec!["a".to_string(), "b".to_string()]),
        Err("已尝试温和关闭、taskkill 和 PowerShell 停止 Codex App，但 Codex.exe 仍在运行。请手动关闭 Codex App 后重试。 详细：a；b".to_string())
    );
    assert_eq!(
        quit_outcome(Ok(true), false, false, &vec![]),
        Err("已尝试温和关闭、taskkill 和 PowerShell 停止 Codex App，但 Codex.exe 仍在运行。请手动关闭 Codex App 后重试。".to_string())
    );
    assert_eq!(quit_outcome(Err("x".to_string()), true, false, &vec![]), Ok(()));
    assert_eq!(
        quit_outcome(Err("x".to_string()), false, false, &vec![]),
        Err("无法确认 Codex App 是否已关闭：x。请手动关闭 Codex App 后重试。".to_string())
    );
    assert_eq!(
        quit_outcome(Err("x".to_string()), false, false, &vec!["f".to_string()]),
        Err("无法确认 Codex App 是否已关闭：x。详细：f".to_string())
    );
}

#[test]
fn quitting_stops_as_soon_as_no_process_is_left() {
    let mut q = quit_codex_app_windows();
    assert!(matches!(q.step(QuitEvent::Begin), QuitAction::CheckRunning));
    assert!(matches!(q.step(QuitEvent::Running(Ok(false))), QuitAction::Finish(Ok(()))));

    let mut q = quit_codex_app_windows();
    q.step(QuitEvent::Begin);
    assert!(matches!(q.step(QuitEvent::Running(Ok(true))), QuitAction::ListProcesses));
    assert!(matches!(q.step(QuitEvent::Ids(Ok(vec![]))), QuitAction::Finish(Ok(()))));
}

#[test]
fn quitting_escalates_and_reports_what_failed() {
    let mut q = quit_codex_app_windows();
    q.step(QuitEvent::Begin);
    assert!(matches!(q.step(QuitEvent::Running(Err("e0".to_string()))), QuitAction::ListProcesses));
    match q.step(QuitEvent::Ids(Ok(vec!["1".to_string(), "2".to_string()]))) {
        QuitAction::RunScript(s) => assert_eq!(s, close_window_script("1")),
        _ => panic!("expected the close script"),
    }
    match q.step(QuitEvent::Script(Err("c1".to_string()))) {
        QuitAction::RunScript(s) => assert_eq!(s, close_window_script("2")),
        _ => panic!("expected the second close script"),
    }
    assert!(matches!(q.step(QuitEvent::Script(Ok(()))), QuitAction::CheckRunning));
    assert!(matches!(q.step(QuitEvent::Running(Ok(true))), QuitAction::ListProcesses));
    match q.step(QuitEvent::Ids(Ok(vec!["2".to_string()]))) {
        QuitAction::TaskKill(pid) => assert_eq!(pid, "2"),
        _ => panic!("expected taskkill"),
    }
    let denied = WindowsCommandError {
        program: "taskkill".to_string(),
        status: "exit code: 1".to_string(),
        stdout: String::new(),
        stderr: "ERROR: Access is denied.".to_string(),
    };
    assert!(matches!(q.step(QuitEvent::Killed(Err(denied))), QuitAction::Sleep(800)));
    assert!(q.access_denied && !q.any_success);
    assert!(matches!(q.step(QuitEvent::Slept), QuitAction::CheckRunning));
    match q.step(QuitEvent::Running(Ok(true))) {
        QuitAction::RunScript(s) => assert_eq!(s, STOP_PROCESSES_SCRIPT),
        _ => panic!("expected the stop script"),
    }
    assert!(matches!(q.step(QuitEvent::Script(Err("ps".to_string()))), QuitAction::Sleep(1200)));
    assert!(matches!(q.step(QuitEvent::Slept), QuitAction::CheckRunning));
    assert_eq!(
        q.failures,
        vec![
            "检测 Codex.exe 进程失败：e0".to_string(),
            "温和关闭 PID 1 失败：c1".to_string(),
            "taskkill PID 2 失败：taskkill 退出码异常：exit code: 1；stderr: ERROR: Access is denied.".to_string(),
            "PowerShell 停止进程失败：ps".to_string(),
        ]
    );
    match q.step(QuitEvent::Running(Ok(true))) {
        QuitAction::Finish(Err(e)) => assert_eq!(
            e,
            "Codex App 仍在运行，Windows 拒绝当前应用结束部分 Codex 进程。请以管理员身份重启 CCC Switch，或手动关闭 Codex App 后重试。"
        ),
        _ => panic!("expected the refusal"),
    }
}

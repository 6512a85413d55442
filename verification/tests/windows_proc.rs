use codex_switch::windows_proc::{
    codex_windows_process_exists, decode_windows_output, is_codex_package_dir,
    manifest_search_failure, packaged_app_id, resolve_windows_codex_launch_target,
    start_codex_app_windows, windows_codex_app_id, windows_codex_app_id_from_powershell,
    windows_codex_app_process_ids, windows_codex_app_process_ids_from_powershell,
    windows_codex_app_process_ids_from_tasklist, windows_command_status_detail,
    windows_command_stdout, windows_launch_command, windows_powershell_args,
    windows_powershell_status, windows_powershell_stdout, CommandRun, WindowsCodexLaunchTarget,
};
use codex_switch::windows_text::WindowsCommandError;

fn finished(success: bool, status: &str, stdout: &[u8], stderr: &[u8]) -> CommandRun {
    CommandRun::Finished {
        success,
        status: status.to_string(),
        stdout: stdout.to_vec(),
        stderr: stderr.to_vec(),
    }
}

#[test]
fn launch_target_prefers_the_app_id_then_the_alias() {
    match resolve_windows_codex_launch_target(Ok("OpenAI.Codex_x!App".to_string()), None) {
        Ok(WindowsCodexLaunchTarget::AppId(id)) => assert_eq!(id, "OpenAI.Codex_x!App"),
        _ => panic!("expected the app id"),
    }
    match resolve_windows_codex_launch_target(Err("e".to_string()), Some("C:\\Codex.exe".to_string())) {
        Ok(WindowsCodexLaunchTarget::ExecutablePath(p)) => assert_eq!(p, "C:\\Codex.exe"),
        _ => panic!("expected the alias"),
    }
    assert_eq!(
        resolve_windows_codex_launch_target(Err("PowerShell 查询失败：x".to_string()), None).err().as_deref(),
        Some("未能定位 Windows Codex App。请先安装 Codex App，或通过安装功能自动安装。详细：PowerShell 查询失败：x")
    );
}

#[test]
fn launch_target_accessors() {
    let by_id = WindowsCodexLaunchTarget::AppId("A!B".to_string());
    assert_eq!(by_id.app_id().as_deref(), Some("A!B"));
    assert_eq!(by_id.app_path(), None);
    assert_eq!(by_id.label(), "A!B");
    let by_path = WindowsCodexLaunchTarget::ExecutablePath("C:\\x\\Codex.exe".to_string());
    assert_eq!(by_path.app_id(), None);
    assert_eq!(by_path.app_path().as_deref(), Some("C:\\x\\Codex.exe"));
    assert_eq!(by_path.label(), "C:\\x\\Codex.exe");
    assert_eq!(
        windows_launch_command(&by_id),
        ("explorer.exe".to_string(), Some("shell:AppsFolder\\A!B".to_string()))
    );
    assert_eq!(windows_launch_command(&by_path), ("C:\\x\\Codex.exe".to_string(), None));
}

#[test]
fn app_id_falls_back_to_the_manifests() {
    assert_eq!(windows_codex_app_id(Ok("id1".to_string()), None).as_deref(), Ok("id1"));
    assert_eq!(
        windows_codex_app_id(Err("a".to_string()), Some(Ok("id2".to_string()))).as_deref(),
        Ok("id2")
    );
    assert_eq!(
        windows_codex_app_id(Err("a".to_string()), Some(Err("b".to_string()))),
        Err("PowerShell 查询失败：a；WindowsApps manifest 查询失败：b".to_string())
    );
    assert_eq!(
        windows_codex_app_id_from_powershell(Ok("\r\n  OpenAI.Codex_1!App \r\nx".to_string())),
        Ok("OpenAI.Codex_1!App".to_string())
    );
    assert_eq!(
        windows_codex_app_id_from_powershell(Ok(" \n".to_string())),
        Err("未能从 Windows 开始菜单读取 Codex AppID".to_string())
    );
    assert_eq!(windows_codex_app_id_from_powershell(Err("e".to_string())), Err("e".to_string()));
}

#[test]
fn manifest_helpers() {
    assert!(is_codex_package_dir("OpenAI.Codex_1.0.0_x64__abc"));
    assert!(!is_codex_package_dir("Microsoft.Codex_1"));
    assert_eq!(
        packaged_app_id("OpenAI.Codex_1", "<Application Id=\"App\">").as_deref(),
        Some("OpenAI.Codex_1!App")
    );
    assert_eq!(packaged_app_id("OpenAI.Codex_1", "<Package/>"), None);
    assert_eq!(manifest_search_failure(&vec![]), "未在 WindowsApps manifest 中找到 OpenAI.Codex AppID");
    assert_eq!(
        manifest_search_failure(&vec!["读取 A 失败：x".to_string(), "读取 B 失败：y".to_string()]),
        "未在 WindowsApps manifest 中找到 OpenAI.Codex AppID；读取 A 失败：x；读取 B 失败：y"
    );
}

#[test]
fn process_ids_from_powershell_or_tasklist() {
    assert_eq!(
        windows_codex_app_process_ids_from_powershell(Ok(" 12 \r\n\r\n34\n".to_string())),
        Ok(vec!["12".to_string(), "34".to_string()])
    );
    assert_eq!(
        windows_codex_app_process_ids_from_tasklist(Ok("\"Codex.exe\",\"7\"\n".to_string())),
        Ok(vec!["7".to_string()])
    );
    assert_eq!(
        windows_codex_app_process_ids(Err("a".to_string()), Some(Ok(vec!["7".to_string()]))),
        Ok(vec!["7".to_string()])
    );
    assert_eq!(
        windows_codex_app_process_ids(Err("a".to_string()), Some(Err("b".to_string()))),
        Err("PowerShell 查询失败：a；tasklist 查询失败：b".to_string())
    );
    assert_eq!(codex_windows_process_exists(&Ok(vec![])), Ok(false));
    assert_eq!(codex_windows_process_exists(&Ok(vec!["1".to_string()])), Ok(true));
    assert_eq!(codex_windows_process_exists(&Err("x".to_string())), Err("x".to_string()));
}

#[test]
fn output_is_decoded_as_utf8_or_gbk_and_trimmed() {
    assert_eq!(decode_windows_output(b""), "");
    assert_eq!(decode_windows_output(" héllo \r\n".as_bytes()), "héllo");
    // "拒绝访问" in GBK
    assert_eq!(decode_windows_output(&[0xBE, 0xDC, 0xBE, 0xF8, 0xB7, 0xC3, 0xCE, 0xCA]), "拒绝访问");
}

#[test]
fn command_results_are_reported() {
    assert_eq!(
        windows_command_stdout("tasklist", &CommandRun::NotStarted("not found".to_string())),
        Err("执行 tasklist 失败：not found".to_string())
    );
    assert_eq!(
        windows_command_stdout("tasklist", &finished(true, "exit code: 0", b" out \n", b"")),
        Ok("out".to_string())
    );
    assert_eq!(
        windows_command_stdout("tasklist", &finished(false, "exit code: 1", b"", b"  ")),
        Err("tasklist 退出码异常：exit code: 1".to_string())
    );
    assert_eq!(
        windows_command_stdout("tasklist", &finished(false, "exit code: 1", b"", b" bad \n")),
        Err("bad".to_string())
    );
    assert!(windows_command_status_detail("taskkill", &finished(true, "0", b"", b"")).is_ok());
    let e = windows_command_status_detail("taskkill", &CommandRun::NotStarted("boom".to_string()))
        .err()
        .expect("failure");
    assert_eq!(e.program, "taskkill");
    assert_eq!(e.status, "未启动");
    assert_eq!(e.stdout, "");
    assert_eq!(e.stderr, "执行 taskkill 失败：boom");
    let e = windows_command_status_detail("taskkill", &finished(false, "exit code: 128", b" o ", b" e "))
        .err()
        .expect("failure");
    assert_eq!((e.status.as_str(), e.stdout.as_str(), e.stderr.as_str()), ("exit code: 128", "o", "e"));
}

#[test]
fn powershell_runs_fall_back_to_pwsh() {
    assert_eq!(
        windows_powershell_args("Get-Date"),
        vec![
            "-NoProfile".to_string(),
            "-ExecutionPolicy".to_string(),
            "Bypass".to_string(),
            "-Command".to_string(),
            "\nSet-ExecutionPolicy -Scope Process -ExecutionPolicy Bypass -Force\nGet-Date\n".to_string(),
        ]
    );
    assert_eq!(windows_powershell_stdout(Ok("x".to_string()), None), Ok("x".to_string()));
    assert_eq!(
        windows_powershell_stdout(Err("a".to_string()), Some(Err("b".to_string()))),
        Err("powershell.exe: a；pwsh: b".to_string())
    );
    let err = |p: &str| WindowsCommandError {
        program: p.to_string(),
        status: "exit code: 1".to_string(),
        stdout: String::new(),
        stderr: String::new(),
    };
    assert_eq!(windows_powershell_status(Ok(()), None), Ok(()));
    assert_eq!(windows_powershell_status(Err(err("powershell.exe")), Some(Ok(()))), Ok(()));
    assert_eq!(
        windows_powershell_status(Err(err("powershell.exe")), Some(Err(err("pwsh")))),
        Err("powershell.exe: powershell.exe 退出码异常：exit code: 1；pwsh: pwsh 退出码异常：exit code: 1".to_string())
    );
}

#[test]
fn starting_the_app_reports_how_it_failed() {
    let by_id = WindowsCodexLaunchTarget::AppId("A!B".to_string());
    assert_eq!(start_codex_app_windows(&by_id, Ok(())), Ok(()));
    assert_eq!(
        start_codex_app_windows(&by_id, Err("denied".to_string())),
        Err("未能通过 Windows AppID 启动 Codex App（A!B）：denied".to_string())
    );
    let by_path = WindowsCodexLaunchTarget::ExecutablePath("C:\\Codex.exe".to_string());
    assert_eq!(
        start_codex_app_windows(&by_path, Err("gone".to_string())),
        Err("未能通过 Windows App Execution Alias 启动 Codex App（C:\\Codex.exe）：gone".to_string())
    );
}

use codex_switch::windows_proc::{windows_codex_app_id_from_manifest_dirs, ManifestRoot, PackageEntry};

fn package(dir: &str, manifest: Option<&str>) -> PackageEntry {
    PackageEntry { dir_name: dir.to_string(), manifest: manifest.map(str::to_string) }
}

#[test]
fn manifest_scan_takes_the_first_codex_package_with_an_id() {
    let roots = vec![
        ManifestRoot::Unreadable { path: "C:\\Program Files\\WindowsApps".to_string(), error: "denied".to_string() },
        ManifestRoot::Listed(vec![
            package("Microsoft.Codex_1", Some("<Application Id=\"Wrong\">")),
            package("OpenAI.Codex_1", None),
            package("OpenAI.Codex_2", Some("<Package/>")),
            package("OpenAI.Codex_3", Some("<Application Id=\"App\">")),
            package("OpenAI.Codex_4", Some("<Application Id=\"Later\">")),
        ]),
    ];
    assert_eq!(windows_codex_app_id_from_manifest_dirs(&roots), Ok("OpenAI.Codex_3!App".to_string()));
}

#[test]
fn manifest_scan_reports_the_folders_it_could_not_read() {
    let roots = vec![
        ManifestRoot::Unreadable { path: "A".to_string(), error: "x".to_string() },
        ManifestRoot::Listed(vec![package("OpenAI.Codex_1", Some("<Package/>"))]),
        ManifestRoot::Unreadable { path: "B".to_string(), error: "y".to_string() },
    ];
    assert_eq!(
        windows_codex_app_id_from_manifest_dirs(&roots),
        Err("未在 WindowsApps manifest 中找到 OpenAI.Codex AppID；读取 A 失败：x；读取 B 失败：y".to_string())
    );
    assert_eq!(
        windows_codex_app_id_from_manifest_dirs(&vec![]),
        Err("未在 WindowsApps manifest 中找到 OpenAI.Codex AppID".to_string())
    );
}

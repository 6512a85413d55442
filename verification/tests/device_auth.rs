use codex_switch::device_auth::{
    device_auth_args, device_auth_spawn_failure, extract_device_auth_code, extract_device_auth_url,
    strip_ansi_sequences, DeviceAuthWatch,
};

#[test]
fn ansi_sequences_are_removed() {
    assert_eq!(strip_ansi_sequences("\u{1b}[1;32mhello\u{1b}[0m world"), "hello world");
    assert_eq!(strip_ansi_sequences("tail \u{1b}[12"), "tail ");
    assert_eq!(strip_ansi_sequences("lone \u{1b} escape"), "lone \u{1b} escape");
    assert_eq!(strip_ansi_sequences(""), "");
}

#[test]
fn link_and_code_are_found_in_the_output() {
    let out = "Open \"https://auth.openai.com/codex/device\". Then enter code: (ABCD-1234),\nhttps://other.example";
    assert_eq!(
        extract_device_auth_url(out).as_deref(),
        Some("https://auth.openai.com/codex/device")
    );
    assert_eq!(extract_device_auth_code(out).as_deref(), Some("ABCD-1234"));
    assert_eq!(extract_device_auth_url("http://x/codex/other"), None);
    assert_eq!(extract_device_auth_code("a-b-c -abc abc- ab_c-d"), None);
    assert_eq!(extract_device_auth_code("x a-b"), Some("a-b".to_string()));
}

#[test]
fn login_arguments_and_spawn_failure() {
    assert_eq!(device_auth_args(), vec!["login".to_string(), "--device-auth".to_string()]);
    let errors = vec!["codex.cmd: not found".to_string(), "codex: not found".to_string()];
    assert_eq!(
        device_auth_spawn_failure(&errors),
        "启动 codex login --device-auth 失败：codex.cmd: not found；codex: not found"
    );
}

#[test]
fn watch_reports_link_and_code_once_both_are_read() {
    let mut w = DeviceAuthWatch::new();
    assert!(!w.on_line("\u{1b}[94mWelcome\u{1b}[0m"));
    assert!(!w.on_line("   "));
    assert!(!w.on_line("1. Open https://auth.openai.com/codex/device"));
    assert!(w.on_line("2. Enter WXYZ-9876"));
    assert_eq!(w.lines.len(), 3);
    let r = w.finish().ok().expect("started");
    assert_eq!(r.verification_url.as_deref(), Some("https://auth.openai.com/codex/device"));
    assert_eq!(r.user_code.as_deref(), Some("WXYZ-9876"));
    assert_eq!(r.expires_in_minutes, Some(15));
    assert_eq!(
        r.output,
        "Welcome\n1. Open https://auth.openai.com/codex/device\n2. Enter WXYZ-9876"
    );
    assert_eq!(
        r.message,
        "已启动 Codex 设备码登录。请在浏览器打开链接并输入一次性 code；授权完成后刷新状态或导入当前档案。"
    );
}

#[test]
fn watch_fails_without_a_code_or_when_the_program_exits() {
    let mut w = DeviceAuthWatch::new();
    w.on_line("  Open https://auth.openai.com/codex/device  ");
    assert_eq!(w.on_quiet(None), None);
    assert_eq!(
        w.on_quiet(Some("exit status: 1".to_string())).as_deref(),
        Some("codex login --device-auth 提前退出：exit status: 1。输出：Open https://auth.openai.com/codex/device")
    );
    assert_eq!(
        w.finish().err().as_deref(),
        Some("已启动 codex login --device-auth，但未在 8s 内读取到设备码。输出：Open https://auth.openai.com/codex/device")
    );
}

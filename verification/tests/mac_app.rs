use codex_switch::mac_app::{
    codex_app_is_running, codex_app_pids, decimal_chars, launch_args, mac_command_status,
    parse_u32_text, process_listing_args, ps_codex_pids, quit_request_args, running_query_args,
    signal_command,
};
use codex_switch::windows_proc::CommandRun;

fn chars(s: &str) -> Vec<char> {
    s.chars().collect()
}

fn ok_run(stdout: &str) -> CommandRun {
    CommandRun::Finished {
        success: true,
        status: "exit status: 0".to_string(),
        stdout: stdout.as_bytes().to_vec(),
        stderr: Vec::new(),
    }
}

#[test]
fn numbers_are_read_as_u32_from_str_reads_them() {
    assert_eq!(parse_u32_text(&chars("123")), Some(123));
    assert_eq!(parse_u32_text(&chars("+7")), Some(7));
    assert_eq!(parse_u32_text(&chars("0004294967295")), Some(4294967295));
    assert_eq!(parse_u32_text(&chars("4294967296")), None);
    assert_eq!(parse_u32_text(&chars("")), None);
    assert_eq!(parse_u32_text(&chars("+")), None);
    assert_eq!(parse_u32_text(&chars("-1")), None);
    assert_eq!(parse_u32_text(&chars("1a")), None);
    assert_eq!(parse_u32_text(&chars("١٢")), None);
}

#[test]
fn decimal_text_round_trips() {
    for n in [0u32, 7, 10, 4096, 4294967295] {
        let text: String = decimal_chars(n).into_iter().collect();
        assert_eq!(text, n.to_string());
        assert_eq!(parse_u32_text(&decimal_chars(n)), Some(n));
    }
}

#[test]
fn ps_lines_with_the_bundle_give_their_process_ids() {
    let listing = "  101 /Applications/Codex.app/Contents/MacOS/Codex\n 202 /usr/bin/other\n303 /Applications/Codex.app/Contents/Frameworks/Helper --type=gpu\nabc /Applications/Codex.app/x\n404/Applications/Codex.app\n";
    assert_eq!(ps_codex_pids(listing, "/Applications/Codex.app"), vec![101, 303]);
    assert_eq!(ps_codex_pids("", "/Applications/Codex.app"), Vec::<u32>::new());
}

#[test]
fn mac_commands_report_their_failures() {
    assert_eq!(mac_command_status("退出 Codex App 失败", &ok_run("")), Ok(()));
    assert_eq!(
        mac_command_status("退出 Codex App 失败", &CommandRun::NotStarted("No such file".to_string())),
        Err("退出 Codex App 失败: No such file".to_string())
    );
    let failed = CommandRun::Finished {
        success: false,
        status: "exit status: 1".to_string(),
        stdout: Vec::new(),
        stderr: b"  execution error \n".to_vec(),
    };
    assert_eq!(
        mac_command_status("启动 Codex App 失败", &failed),
        Err("启动 Codex App 失败: execution error".to_string())
    );
    assert_eq!(codex_app_is_running(&ok_run(" true\n")), Ok(true));
    assert_eq!(codex_app_is_running(&ok_run("false\n")), Ok(false));
    assert_eq!(
        codex_app_is_running(&failed),
        Err("检查 Codex App 运行状态失败: execution error".to_string())
    );
    assert_eq!(
        codex_app_pids("/A/Codex.app", &ok_run("1 /A/Codex.app/c\n2 /B\n")),
        Ok(vec![1])
    );
    assert_eq!(
        codex_app_pids("/A/Codex.app", &CommandRun::NotStarted("x".to_string())),
        Err("读取 Codex App 进程失败: x".to_string())
    );
}

#[test]
fn command_arguments() {
    assert_eq!(running_query_args(), vec!["-e", "application id \"com.openai.codex\" is running"]);
    assert_eq!(quit_request_args(), vec!["-e", "tell application id \"com.openai.codex\" to quit"]);
    assert_eq!(process_listing_args(), vec!["ax", "-o", "pid=,args="]);
    assert_eq!(launch_args(&Some("/A/Codex.app".to_string())), vec!["/A/Codex.app"]);
    assert_eq!(launch_args(&None), vec!["-b", "com.openai.codex"]);
    assert_eq!(
        signal_command("-TERM", Ok(vec![12, 345])),
        Ok(Some(vec!["-TERM".to_string(), "12".to_string(), "345".to_string()]))
    );
    assert_eq!(signal_command("-KILL", Ok(vec![])), Ok(None));
    assert_eq!(signal_command("-KILL", Err("e".to_string())), Err("e".to_string()));
}

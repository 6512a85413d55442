use codex_switch::windows_text::{
    extract_windows_appx_application_id, first_non_empty_lines, parse_tasklist_csv_pid,
    parse_windows_csv_line, text_has_access_denied, windows_codex_app_process_ids_from_tasklist,
    windows_powershell_script, WindowsCommandError,
};

#[test]
fn csv_columns_handle_quotes_and_doubled_quotes() {
    assert_eq!(
        parse_windows_csv_line("\"Codex.exe\",\"1234\",\"Console\",\"1\",\"120,000 K\""),
        vec!["Codex.exe", "1234", "Console", "1", "120,000 K"]
    );
    assert_eq!(parse_windows_csv_line(" a , \"b \"\"q\"\" \",c"), vec!["a", "b \"q\"", "c"]);
    assert_eq!(parse_windows_csv_line(""), vec![""]);
}

#[test]
fn tasklist_rows_give_codex_process_ids() {
    assert_eq!(parse_tasklist_csv_pid("\"CODEX.EXE\",\" 42 \",\"Console\"").as_deref(), Some("42"));
    assert_eq!(parse_tasklist_csv_pid("\"other.exe\",\"42\""), None);
    assert_eq!(parse_tasklist_csv_pid("\"Codex.exe\",\"4a\""), None);
    assert_eq!(parse_tasklist_csv_pid("\"Codex.exe\""), None);
    assert_eq!(
        parse_tasklist_csv_pid("INFO: No tasks are running which match the specified criteria."),
        None
    );
    let listing = "\"Codex.exe\",\"10\",\"Console\"\r\n\"Codex.exe\",\"11\",\"Console\"\r\n\"cmd.exe\",\"12\"\r\n";
    assert_eq!(windows_codex_app_process_ids_from_tasklist(listing), vec!["10", "11"]);
}

#[test]
fn appx_application_id_is_read_from_the_manifest() {
    let manifest = "<Package><Applications><Application Id=\"  App \" Executable=\"Codex.exe\"/></Applications></Package>";
    assert_eq!(extract_windows_appx_application_id(manifest).as_deref(), Some("App"));
    assert_eq!(
        extract_windows_appx_application_id("<Application Id='Main'>").as_deref(),
        Some("Main")
    );
    assert_eq!(extract_windows_appx_application_id("<Application Id=Main>"), None);
    assert_eq!(extract_windows_appx_application_id("<Application Id=\"  \">"), None);
    assert_eq!(extract_windows_appx_application_id("<Application Id=\"open"), None);
    assert_eq!(extract_windows_appx_application_id("Id=\"x\" <Application>"), None);
}

#[test]
fn first_lines_are_trimmed_and_joined() {
    assert_eq!(first_non_empty_lines("\n a \n\n b\r\n c \n d \n e", 4), "a / b / c / d");
    assert_eq!(first_non_empty_lines("  \n \n", 4), "");
    assert_eq!(first_non_empty_lines("x", 0), "");
}

#[test]
fn access_denied_is_recognised() {
    assert!(text_has_access_denied("ERROR: Access is denied."));
    assert!(text_has_access_denied("ACCESS DENIED"));
    assert!(text_has_access_denied("错误: 拒绝访问。"));
    assert!(!text_has_access_denied("access was granted"));
}

#[test]
fn command_error_details() {
    let err = WindowsCommandError {
        program: "taskkill".to_string(),
        status: "exit code: 1".to_string(),
        stdout: "SUCCESS: The process with PID 1 has been terminated.\n".to_string(),
        stderr: "ERROR: The process with PID 2 could not be terminated.\nReason: Access is denied.\n".to_string(),
    };
    assert_eq!(
        err.detail(),
        "taskkill 退出码异常：exit code: 1；stdout: SUCCESS: The process with PID 1 has been terminated.；stderr: ERROR: The process with PID 2 could not be terminated. / Reason: Access is denied."
    );
    assert!(err.is_access_denied());
    assert!(err.has_successful_termination());
    assert_eq!(
        err.combined_text(),
        "SUCCESS: The process with PID 1 has been terminated.\n\nERROR: The process with PID 2 could not be terminated.\nReason: Access is denied.\n"
    );
    let quiet = WindowsCommandError {
        program: "pwsh".to_string(),
        status: "未启动".to_string(),
        stdout: " ".to_string(),
        stderr: String::new(),
    };
    assert_eq!(quiet.detail(), "pwsh 退出码异常：未启动");
    assert!(!quiet.is_access_denied());
    assert!(!quiet.has_successful_termination());
}

#[test]
fn powershell_script_allows_execution_first() {
    assert_eq!(
        windows_powershell_script("Get-Date"),
        "\nSet-ExecutionPolicy -Scope Process -ExecutionPolicy Bypass -Force\nGet-Date\n"
    );
}

//! Finding, starting and stopping the Windows Codex App: the decisions
//! between the commands that the app runs, and what their output means.
use vstd::prelude::*;
use vstd::utf8::{decode_utf8, valid_utf8};
use crate::text::{
    chars_of, lines, string_of, strings_view, lower, lower_vec, starts_with, starts_with_exec,
    trim_ws, views,
};
use crate::config_text::opt_view;
use crate::windows_text::{
    non_empty_trimmed, tasklist_pids, windows_codex_app_process_ids_from_tasklist as tasklist_ids,
    windows_powershell_script, WindowsCommandError, detail_text, appx_application_id,
    extract_windows_appx_application_id,
};
use crate::text::{join, join_exec};

verus! {

/// The views of a result of texts.
pub open spec fn text_result(r: Result<String, String>) -> Result<Seq<char>, Seq<char>> {
    match r {
        Ok(s) => Ok(s@),
        Err(e) => Err(e@),
    }
}

/// How the Codex App is started on Windows.
pub enum WindowsCodexLaunchTarget {
    /// through its application user model id
    AppId(String),
    /// through an executable (the App Execution Alias), by path
    ExecutablePath(String),
}

impl WindowsCodexLaunchTarget {
    /// The application id, when started by id.
    pub fn app_id(&self) -> (r: Option<String>)
        ensures
            opt_view(r) == (match self {
                WindowsCodexLaunchTarget::AppId(a) => Some(a@),
                WindowsCodexLaunchTarget::ExecutablePath(_) => None,
            }),
    {
        match self {
            WindowsCodexLaunchTarget::AppId(a) => Some(a.clone()),
            WindowsCodexLaunchTarget::ExecutablePath(_) => None,
        }
    }

    /// The executable path, when started by path.
    pub fn app_path(&self) -> (r: Option<String>)
        ensures
            opt_view(r) == (match self {
                WindowsCodexLaunchTarget::AppId(_) => None,
                WindowsCodexLaunchTarget::ExecutablePath(p) => Some(p@),
            }),
    {
        match self {
            WindowsCodexLaunchTarget::AppId(_) => None,
            WindowsCodexLaunchTarget::ExecutablePath(p) => Some(p.clone()),
        }
    }

    /// The id or the path, for messages.
    pub fn label(&self) -> (r: String)
        ensures
            r@ == (match self {
                WindowsCodexLaunchTarget::AppId(a) => a@,
                WindowsCodexLaunchTarget::ExecutablePath(p) => p@,
            }),
    {
        match self {
            WindowsCodexLaunchTarget::AppId(a) => a.clone(),
            WindowsCodexLaunchTarget::ExecutablePath(p) => p.clone(),
        }
    }
}

fn concat2(a: &str, b: &str) -> (r: String)
    ensures
        r@ == a@ + b@,
{
    let mut s = String::from_str(a);
    s.append(b);
    s
}

fn concat3(a: &str, b: &str, c: &str) -> (r: String)
    ensures
        r@ == a@ + b@ + c@,
{
    let mut s = String::from_str(a);
    s.append(b);
    s.append(c);
    s
}

/// The launch target: by application id when one was found, else the App
/// Execution Alias when it exists, else a failure that carries why the id
/// was not found. The alias is looked at only when no id was found.
pub fn resolve_windows_codex_launch_target(
    found_id: Result<String, String>,
    alias: Option<String>,
) -> (r: Result<WindowsCodexLaunchTarget, String>)
    ensures
        match found_id {
            Ok(found) => (r matches Ok(t) && t == WindowsCodexLaunchTarget::AppId(found)),
            Err(e) => match alias {
                Some(p) => (r matches Ok(t) && t == WindowsCodexLaunchTarget::ExecutablePath(p)),
                None => (r matches Err(m) && m@
                    == "未能定位 Windows Codex App。请先安装 Codex App，或通过安装功能自动安装。详细："@ + e@),
            },
        },
{
    match found_id {
        Ok(a) => Ok(WindowsCodexLaunchTarget::AppId(a)),
        Err(e) => match alias {
            Some(p) => Ok(WindowsCodexLaunchTarget::ExecutablePath(p)),
            None => Err(concat2(
                "未能定位 Windows Codex App。请先安装 Codex App，或通过安装功能自动安装。详细：",
                e.as_str(),
            )),
        },
    }
}

/// The first of two attempts that succeeded, or both failures, each after
/// its label, joined by `；`. The second attempt is made only when the first
/// failed.
pub open spec fn fallback(
    first: Result<Seq<char>, Seq<char>>,
    first_label: Seq<char>,
    second: Result<Seq<char>, Seq<char>>,
    second_label: Seq<char>,
) -> Result<Seq<char>, Seq<char>> {
    match first {
        Ok(v) => Ok(v),
        Err(e1) => match second {
            Ok(v) => Ok(v),
            Err(e2) => Err(first_label + e1 + "；"@ + second_label + e2),
        },
    }
}

fn fallback_text(
    first: Result<String, String>,
    first_label: &str,
    second: Option<Result<String, String>>,
    second_label: &str,
) -> (r: Result<String, String>)
    requires
        first is Err ==> second is Some,
    ensures
        first is Ok ==> text_result(r) == text_result(first),
        first is Err ==> text_result(r) == fallback(
            text_result(first),
            first_label@,
            text_result(second->0),
            second_label@,
        ),
{
    match first {
        Ok(v) => Ok(v),
        Err(e1) => match second {
            Some(Ok(v)) => Ok(v),
            Some(Err(e2)) => {
                let mut m = String::from_str(first_label);
                m.append(e1.as_str());
                m.append("；");
                m.append(second_label);
                m.append(e2.as_str());
                Err(m)
            },
            None => Err(e1),
        },
    }
}

/// The Codex App's application id: from the Start menu via PowerShell,
/// else from the package manifests (looked at only when PowerShell failed).
pub fn windows_codex_app_id(
    from_powershell: Result<String, String>,
    from_manifests: Option<Result<String, String>>,
) -> (r: Result<String, String>)
    requires
        from_powershell is Err ==> from_manifests is Some,
    ensures
        from_powershell is Ok ==> text_result(r) == text_result(from_powershell),
        from_powershell is Err ==> text_result(r) == fallback(
            text_result(from_powershell),
            "PowerShell 查询失败："@,
            text_result(from_manifests->0),
            "WindowsApps manifest 查询失败："@,
        ),
{
    fallback_text(from_powershell, "PowerShell 查询失败：", from_manifests, "WindowsApps manifest 查询失败：")
}

/// The first non-empty trimmed line, if any.
pub open spec fn first_line(text: Seq<char>) -> Option<Seq<char>> {
    let ls = non_empty_trimmed(lines(text));
    if ls.len() > 0 {
        Some(ls[0])
    } else {
        None
    }
}

fn non_empty_trimmed_lines(text: &str) -> (r: Vec<String>)
    ensures
        strings_view(r@) == non_empty_trimmed(lines(text@)),
{
    let joined_parts = crate::windows_text::non_empty_trimmed_lines_exec(text);
    joined_parts
}

/// The application id PowerShell printed: its first non-empty line.
pub fn windows_codex_app_id_from_powershell(stdout: Result<String, String>) -> (r: Result<
    String,
    String,
>)
    ensures
        match stdout {
            Err(e) => r matches Err(m) && m@ == e@,
            Ok(out) => match first_line(out@) {
                Some(l) => r matches Ok(id) && id@ == l,
                None => r matches Err(m) && m@ == "未能从 Windows 开始菜单读取 Codex AppID"@,
            },
        },
{
    let out = match stdout {
        Ok(o) => o,
        Err(e) => return Err(e),
    };
    let ls = non_empty_trimmed_lines(out.as_str());
    if ls.len() > 0 {
        let first = ls[0].clone();
        assert(strings_view(ls@)[0] == ls@[0]@);
        Ok(first)
    } else {
        Err(String::from_str("未能从 Windows 开始菜单读取 Codex AppID"))
    }
}

/// The process ids PowerShell printed: its non-empty trimmed lines.
pub fn windows_codex_app_process_ids_from_powershell(stdout: Result<String, String>) -> (r: Result<
    Vec<String>,
    String,
>)
    ensures
        match stdout {
            Err(e) => r matches Err(m) && m@ == e@,
            Ok(out) => r matches Ok(ids) && strings_view(ids@) == non_empty_trimmed(lines(out@)),
        },
{
    match stdout {
        Ok(o) => Ok(non_empty_trimmed_lines(o.as_str())),
        Err(e) => Err(e),
    }
}

/// The process ids `tasklist` printed for `Codex.exe`.
pub fn windows_codex_app_process_ids_from_tasklist(stdout: Result<String, String>) -> (r: Result<
    Vec<String>,
    String,
>)
    ensures
        match stdout {
            Err(e) => r matches Err(m) && m@ == e@,
            Ok(out) => r matches Ok(ids) && strings_view(ids@) == tasklist_pids(lines(out@)),
        },
{
    match stdout {
        Ok(o) => Ok(tasklist_ids(o.as_str())),
        Err(e) => Err(e),
    }
}

/// The Codex App's process ids: from PowerShell, else from `tasklist`
/// (asked only when PowerShell failed).
pub fn windows_codex_app_process_ids(
    from_powershell: Result<Vec<String>, String>,
    from_tasklist: Option<Result<Vec<String>, String>>,
) -> (r: Result<Vec<String>, String>)
    requires
        from_powershell is Err ==> from_tasklist is Some,
    ensures
        match from_powershell {
            Ok(ids) => r == Ok::<Vec<String>, String>(ids),
            Err(e1) => match from_tasklist->0 {
                Ok(ids) => r == Ok::<Vec<String>, String>(ids),
                Err(e2) => r matches Err(m) && m@ == "PowerShell 查询失败："@ + e1@ + "；"@
                    + "tasklist 查询失败："@ + e2@,
            },
        },
{
    match from_powershell {
        Ok(ids) => Ok(ids),
        Err(e1) => match from_tasklist {
            Some(Ok(ids)) => Ok(ids),
            Some(Err(e2)) => {
                let mut m = String::from_str("PowerShell 查询失败：");
                m.append(e1.as_str());
                m.append("；");
                m.append("tasklist 查询失败：");
                m.append(e2.as_str());
                Err(m)
            },
            None => Err(e1),
        },
    }
}

/// Whether a Codex App process runs, from the process ids found.
pub fn codex_windows_process_exists(ids: &Result<Vec<String>, String>) -> (r: Result<bool, String>)
    ensures
        match ids {
            Ok(v) => r == Ok::<bool, String>(v@.len() > 0),
            Err(e) => r matches Err(m) && m@ == e@,
        },
{
    match ids {
        Ok(v) => Ok(v.len() > 0),
        Err(e) => Err(e.clone()),
    }
}

/// Whether a directory under `WindowsApps` is a Codex package:
/// `openai.codex_` in any ASCII case at the start of its name.
pub open spec fn codex_package_dir(name: Seq<char>) -> bool {
    starts_with(lower(name), "openai.codex_"@)
}

/// Whether a directory under `WindowsApps` is a Codex package.
pub fn is_codex_package_dir(name: &str) -> (r: bool)
    ensures
        r == codex_package_dir(name@),
{
    let low = lower_vec(&chars_of(name));
    let p = chars_of("openai.codex_");
    starts_with_exec(&low, &p)
}

/// The application id of a Codex package: the directory name, `!`, and the
/// id its manifest declares.
pub fn packaged_app_id(dir_name: &str, manifest: &str) -> (r: Option<String>)
    ensures
        match appx_application_id(manifest@) {
            Some(id) => r matches Some(s) && s@ == dir_name@ + "!"@ + id,
            None => r is None,
        },
{
    match extract_windows_appx_application_id(manifest) {
        Some(id) => Some(concat3(dir_name, "!", id.as_str())),
        None => None,
    }
}

/// Why no manifest gave an application id.
pub fn manifest_search_failure(failures: &Vec<String>) -> (r: String)
    ensures
        failures@.len() == 0 ==> r@ == "未在 WindowsApps manifest 中找到 OpenAI.Codex AppID"@,
        failures@.len() > 0 ==> r@ == "未在 WindowsApps manifest 中找到 OpenAI.Codex AppID；"@ + join(
            strings_view(failures@),
            "；"@,
        ),
{
    if failures.len() == 0 {
        String::from_str("未在 WindowsApps manifest 中找到 OpenAI.Codex AppID")
    } else {
        let mut m = String::from_str("未在 WindowsApps manifest 中找到 OpenAI.Codex AppID；");
        let j = join_strings(failures, "；");
        m.append(j.as_str());
        m
    }
}

/// The texts joined by a separator.
pub fn join_strings(parts: &Vec<String>, sep: &str) -> (r: String)
    ensures
        r@ == join(strings_view(parts@), sep@),
{
    let mut cs: Vec<Vec<char>> = Vec::new();
    let mut i: usize = 0;
    while i < parts.len()
        invariant
            i <= parts@.len(),
            views(cs@) == strings_view(parts@).take(i as int),
        decreases parts@.len() - i,
    {
        let c = chars_of(parts[i].as_str());
        let ghost before = cs@;
        cs.push(c);
        assert(views(cs@) =~= views(before).push(c@));
        i = i + 1;
        assert(strings_view(parts@).take(i as int) =~= strings_view(parts@).take(i - 1).push(
            parts@[i - 1]@,
        ));
    }
    assert(strings_view(parts@).take(parts@.len() as int) =~= strings_view(parts@));
    let sepc = chars_of(sep);
    string_of(&join_exec(&cs, &sepc))
}

/// The arguments PowerShell is run with for a script.
pub fn windows_powershell_args(script: &str) -> (r: Vec<String>)
    ensures
        strings_view(r@) == seq![
            "-NoProfile"@,
            "-ExecutionPolicy"@,
            "Bypass"@,
            "-Command"@,
            "\nSet-ExecutionPolicy -Scope Process -ExecutionPolicy Bypass -Force\n"@ + script@
                + "\n"@,
        ],
{
    let mut v: Vec<String> = Vec::new();
    v.push(String::from_str("-NoProfile"));
    v.push(String::from_str("-ExecutionPolicy"));
    v.push(String::from_str("Bypass"));
    v.push(String::from_str("-Command"));
    v.push(windows_powershell_script(script));
    assert(strings_view(v@) =~= seq![
        "-NoProfile"@,
        "-ExecutionPolicy"@,
        "Bypass"@,
        "-Command"@,
        "\nSet-ExecutionPolicy -Scope Process -ExecutionPolicy Bypass -Force\n"@ + script@ + "\n"@,
    ]);
    v
}

/// The output of a script run with `powershell.exe`, else with `pwsh`
/// (run only when `powershell.exe` failed).
pub fn windows_powershell_stdout(
    from_powershell: Result<String, String>,
    from_pwsh: Option<Result<String, String>>,
) -> (r: Result<String, String>)
    requires
        from_powershell is Err ==> from_pwsh is Some,
    ensures
        from_powershell is Ok ==> text_result(r) == text_result(from_powershell),
        from_powershell is Err ==> text_result(r) == fallback(
            text_result(from_powershell),
            "powershell.exe: "@,
            text_result(from_pwsh->0),
            "pwsh: "@,
        ),
{
    fallback_text(from_powershell, "powershell.exe: ", from_pwsh, "pwsh: ")
}

/// Whether a script succeeded with `powershell.exe`, else with `pwsh` (run
/// only when `powershell.exe` failed); the failure reports both.
pub fn windows_powershell_status(
    from_powershell: Result<(), WindowsCommandError>,
    from_pwsh: Option<Result<(), WindowsCommandError>>,
) -> (r: Result<(), String>)
    requires
        from_powershell is Err ==> from_pwsh is Some,
    ensures
        match from_powershell {
            Ok(()) => r is Ok,
            Err(e1) => match from_pwsh->0 {
                Ok(()) => r is Ok,
                Err(e2) => r matches Err(m) && m@ == "powershell.exe: "@ + detail_text(
                    e1.program@,
                    e1.status@,
                    e1.stdout@,
                    e1.stderr@,
                ) + "；pwsh: "@ + detail_text(e2.program@, e2.status@, e2.stdout@, e2.stderr@),
            },
        },
{
    match from_powershell {
        Ok(()) => Ok(()),
        Err(e1) => match from_pwsh {
            Some(Ok(())) => Ok(()),
            Some(Err(e2)) => {
                let mut m = String::from_str("powershell.exe: ");
                m.append(e1.detail().as_str());
                m.append("；pwsh: ");
                m.append(e2.detail().as_str());
                Err(m)
            },
            None => Err(e1.detail()),
        },
    }
}

/// The name of the GBK decoding of a byte string, as `encoding_rs` gives it.
pub uninterp spec fn gbk_text(b: Seq<u8>) -> Seq<char>;

/// `encoding_rs::GBK.decode`: the text of GBK bytes (malformed sequences
/// replaced).
#[verifier::external_body]
fn gbk_decode(b: &[u8]) -> (r: String)
    ensures
        r@ == gbk_text(b@),
{
    let (text, _, _) = encoding_rs::GBK.decode(b);
    text.into_owned()
}

/// `std::str::from_utf8`: the text of UTF-8 bytes, if they are UTF-8.
#[verifier::external_body]
fn utf8_text(b: &[u8]) -> (r: Option<String>)
    ensures
        r is Some <==> valid_utf8(b@),
        r matches Some(s) ==> s@ == decode_utf8(b@),
{
    match std::str::from_utf8(b) {
        Ok(s) => Some(s.to_string()),
        Err(_) => None,
    }
}

/// What a Windows command printed, as text: UTF-8 when the bytes are UTF-8,
/// else GBK (the Chinese console code page), trimmed.
pub open spec fn windows_output_text(b: Seq<u8>) -> Seq<char> {
    if b.len() == 0 {
        Seq::<char>::empty()
    } else if valid_utf8(b) {
        trim_ws(decode_utf8(b))
    } else {
        trim_ws(gbk_text(b))
    }
}

pub(crate) fn trimmed_string(s: &str) -> (r: String)
    ensures
        r@ == trim_ws(s@),
{
    let cs = chars_of(s);
    let ws = crate::text::CharSet::Whitespace;
    let (a, b) = crate::text::trim_range(&cs, 0, cs.len(), &ws);
    proof {
        assert(cs@.subrange(0, cs@.len() as int) =~= cs@);
    }
    string_of(&crate::text::sub_vec(&cs, a, b))
}

/// What a Windows command printed, as trimmed text.
pub fn decode_windows_output(bytes: &[u8]) -> (r: String)
    ensures
        r@ == windows_output_text(bytes@),
{
    if bytes.len() == 0 {
        return String::new();
    }
    match utf8_text(bytes) {
        Some(t) => trimmed_string(t.as_str()),
        None => trimmed_string(gbk_decode(bytes).as_str()),
    }
}

/// How a command run ended.
pub enum CommandRun {
    /// it could not be started
    NotStarted(String),
    /// it ran; whether it succeeded, its exit status, what it printed
    Finished { success: bool, status: String, stdout: Vec<u8>, stderr: Vec<u8> },
}

/// The output of a command that must succeed: its standard output as text;
/// when it fails, its standard error, or the exit status when that is empty.
pub fn windows_command_stdout(program: &str, run: &CommandRun) -> (r: Result<String, String>)
    ensures
        match run {
            CommandRun::NotStarted(err) => r matches Err(m) && m@ == "执行 "@ + program@ + " 失败："@
                + err@,
            CommandRun::Finished { success, status, stdout, stderr } => if *success {
                r matches Ok(out) && out@ == windows_output_text(stdout@)
            } else if windows_output_text(stderr@).len() == 0 {
                r matches Err(m) && m@ == program@ + " 退出码异常："@ + status@
            } else {
                r matches Err(m) && m@ == windows_output_text(stderr@)
            },
        },
{
    match run {
        CommandRun::NotStarted(err) => {
            let mut m = String::from_str("执行 ");
            m.append(program);
            m.append(" 失败：");
            m.append(err.as_str());
            Err(m)
        },
        CommandRun::Finished { success, status, stdout, stderr } => {
            if !*success {
                let text = decode_windows_output(stderr.as_slice());
                if text.as_str().is_empty() {
                    return Err(concat3(program, " 退出码异常：", status.as_str()));
                }
                return Err(text);
            }
            Ok(decode_windows_output(stdout.as_slice()))
        },
    }
}

/// The failure of a command whose success is all that matters, with what
/// it printed.
pub fn windows_command_status_detail(program: &str, run: &CommandRun) -> (r: Result<
    (),
    WindowsCommandError,
>)
    ensures
        match run {
            CommandRun::NotStarted(err) => r matches Err(e) && e.program@ == program@ && e.status@
                == "未启动"@ && e.stdout@.len() == 0 && e.stderr@ == "执行 "@ + program@ + " 失败："@
                + err@,
            CommandRun::Finished { success, status, stdout, stderr } => if *success {
                r is Ok
            } else {
                r matches Err(e) && e.program@ == program@ && e.status@ == status@ && e.stdout@
                    == windows_output_text(stdout@) && e.stderr@ == windows_output_text(stderr@)
            },
        },
{
    match run {
        CommandRun::NotStarted(err) => {
            let mut m = String::from_str("执行 ");
            m.append(program);
            m.append(" 失败：");
            m.append(err.as_str());
            Err(
                WindowsCommandError {
                    program: String::from_str(program),
                    status: String::from_str("未启动"),
                    stdout: String::new(),
                    stderr: m,
                },
            )
        },
        CommandRun::Finished { success, status, stdout, stderr } => {
            if *success {
                return Ok(());
            }
            Err(
                WindowsCommandError {
                    program: String::from_str(program),
                    status: status.clone(),
                    stdout: decode_windows_output(stdout.as_slice()),
                    stderr: decode_windows_output(stderr.as_slice()),
                },
            )
        },
    }
}

/// What is started to launch the Codex App: Explorer with the app's
/// `shell:AppsFolder` entry, or the alias executable itself.
pub fn windows_launch_command(target: &WindowsCodexLaunchTarget) -> (r: (String, Option<String>))
    ensures
        match target {
            WindowsCodexLaunchTarget::AppId(found) => r.0@ == "explorer.exe"@ && (r.1 matches Some(
                arg,
            ) && arg@ == "shell:AppsFolder\\"@ + found@),
            WindowsCodexLaunchTarget::ExecutablePath(p) => r.0@ == p@ && r.1 is None,
        },
{
    match target {
        WindowsCodexLaunchTarget::AppId(a) => (
            String::from_str("explorer.exe"),
            Some(concat2("shell:AppsFolder\\", a.as_str())),
        ),
        WindowsCodexLaunchTarget::ExecutablePath(p) => (p.clone(), None),
    }
}

/// The result of starting the Codex App, with the failure explained.
pub fn start_codex_app_windows(target: &WindowsCodexLaunchTarget, spawned: Result<(), String>) -> (r:
    Result<(), String>)
    ensures
        match spawned {
            Ok(()) => r is Ok,
            Err(err) => r matches Err(m) && m@ == (match target {
                WindowsCodexLaunchTarget::AppId(a) => "未能通过 Windows AppID 启动 Codex App（"@ + a@
                    + "）："@ + err@,
                WindowsCodexLaunchTarget::ExecutablePath(p) =>
                    "未能通过 Windows App Execution Alias 启动 Codex App（"@ + p@ + "）："@ + err@,
            }),
        },
{
    match spawned {
        Ok(()) => Ok(()),
        Err(err) => {
            let mut m = match target {
                WindowsCodexLaunchTarget::AppId(a) => concat3(
                    "未能通过 Windows AppID 启动 Codex App（",
                    a.as_str(),
                    "）：",
                ),
                WindowsCodexLaunchTarget::ExecutablePath(p) => concat3(
                    "未能通过 Windows App Execution Alias 启动 Codex App（",
                    p.as_str(),
                    "）：",
                ),
            };
            m.append(err.as_str());
            Err(m)
        },
    }
}

/// A package directory under a `WindowsApps` folder: its name, and its
/// `AppxManifest.xml` when it could be read.
pub struct PackageEntry {
    pub dir_name: String,
    pub manifest: Option<String>,
}

/// A `WindowsApps` folder as it was read: its package directories in
/// listing order, or why it could not be read.
pub enum ManifestRoot {
    Unreadable { path: String, error: String },
    Listed(Vec<PackageEntry>),
}

/// The application id a package directory gives: a Codex package whose
/// manifest was read and declares an id.
pub open spec fn entry_app_id(e: PackageEntry) -> Option<Seq<char>> {
    if codex_package_dir(e.dir_name@) {
        match e.manifest {
            Some(m) => match appx_application_id(m@) {
                Some(id) => Some(e.dir_name@ + "!"@ + id),
                None => None,
            },
            None => None,
        }
    } else {
        None
    }
}

/// The id the first package directory that gives one gives.
pub open spec fn first_entry_app_id(es: Seq<PackageEntry>) -> Option<Seq<char>>
    decreases es.len(),
{
    if es.len() == 0 {
        None
    } else {
        match entry_app_id(es[0]) {
            Some(id) => Some(id),
            None => first_entry_app_id(es.drop_first()),
        }
    }
}

/// The id the first readable folder with a Codex package gives, folders
/// and directories taken in order.
pub open spec fn first_root_app_id(roots: Seq<ManifestRoot>) -> Option<Seq<char>>
    decreases roots.len(),
{
    if roots.len() == 0 {
        None
    } else {
        match roots[0] {
            ManifestRoot::Listed(es) => match first_entry_app_id(es@) {
                Some(id) => Some(id),
                None => first_root_app_id(roots.drop_first()),
            },
            ManifestRoot::Unreadable { .. } => first_root_app_id(roots.drop_first()),
        }
    }
}

/// Why each unreadable folder could not be read, in order.
pub open spec fn root_failures(roots: Seq<ManifestRoot>) -> Seq<Seq<char>>
    decreases roots.len(),
{
    if roots.len() == 0 {
        seq![]
    } else {
        let rest = root_failures(roots.drop_last());
        match roots.last() {
            ManifestRoot::Unreadable { path, error } => rest.push(
                "读取 "@ + path@ + " 失败："@ + error@,
            ),
            ManifestRoot::Listed(_) => rest,
        }
    }
}

/// The failure when no manifest gave an application id.
pub open spec fn manifest_failure_text(failures: Seq<Seq<char>>) -> Seq<char> {
    if failures.len() == 0 {
        "未在 WindowsApps manifest 中找到 OpenAI.Codex AppID"@
    } else {
        "未在 WindowsApps manifest 中找到 OpenAI.Codex AppID；"@ + join(failures, "；"@)
    }
}

fn first_app_id_in(es: &Vec<PackageEntry>) -> (r: Option<String>)
    ensures
        opt_view(r) == first_entry_app_id(es@),
{
    let mut i: usize = 0;
    assert(es@.skip(0) =~= es@);
    while i < es.len()
        invariant
            i <= es@.len(),
            first_entry_app_id(es@) == first_entry_app_id(es@.skip(i as int)),
        decreases es@.len() - i,
    {
        let e = &es[i];
        proof {
            assert(es@.skip(i as int)[0] == es@[i as int]);
            assert(es@.skip(i as int).drop_first() =~= es@.skip(i + 1));
        }
        if is_codex_package_dir(e.dir_name.as_str()) {
            if let Some(m) = &e.manifest {
                if let Some(id) = packaged_app_id(e.dir_name.as_str(), m.as_str()) {
                    return Some(id);
                }
            }
        }
        i = i + 1;
    }
    None
}

/// The Codex App's application id from the package manifests: the first
/// Codex package, folder by folder and directory by directory, whose
/// manifest declares an id; else the failure, with why folders could not be
/// read.
pub fn windows_codex_app_id_from_manifest_dirs(roots: &Vec<ManifestRoot>) -> (r: Result<
    String,
    String,
>)
    ensures
        match first_root_app_id(roots@) {
            Some(id) => r matches Ok(s) && s@ == id,
            None => r matches Err(e) && e@ == manifest_failure_text(root_failures(roots@)),
        },
{
    let mut failures: Vec<String> = Vec::new();
    let mut i: usize = 0;
    assert(roots@.skip(0) =~= roots@);
    assert(roots@.take(0) =~= Seq::<ManifestRoot>::empty());
    while i < roots.len()
        invariant
            i <= roots@.len(),
            first_root_app_id(roots@) == first_root_app_id(roots@.skip(i as int)),
            strings_view(failures@) == root_failures(roots@.take(i as int)),
        decreases roots@.len() - i,
    {
        proof {
            assert(roots@.skip(i as int)[0] == roots@[i as int]);
            assert(roots@.skip(i as int).drop_first() =~= roots@.skip(i + 1));
            assert(roots@.take(i + 1).drop_last() =~= roots@.take(i as int));
            assert(roots@.take(i + 1).last() == roots@[i as int]);
        }
        match &roots[i] {
            ManifestRoot::Listed(es) => {
                if let Some(id) = first_app_id_in(es) {
                    return Ok(id);
                }
            },
            ManifestRoot::Unreadable { path, error } => {
                let mut m = String::from_str("读取 ");
                m.append(path.as_str());
                m.append(" 失败：");
                m.append(error.as_str());
                let ghost before = failures@;
                failures.push(m);
                assert(strings_view(failures@) =~= strings_view(before).push(m@));
            },
        }
        i = i + 1;
    }
    assert(roots@.take(i as int) =~= roots@);
    Err(manifest_search_failure(&failures))
}

} // verus!

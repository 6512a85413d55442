//! Restarting and closing the Windows Codex App: the scripts run for it and
//! the decisions between the commands, as machines that say which command
//! to run next from what the previous one gave back.
use vstd::prelude::*;
use crate::config_text::opt_view;
use crate::text::{join, strings_view};
use crate::restart::{CodexAppRestartResult, RestartEvent};
use crate::windows_proc::{join_strings, WindowsCodexLaunchTarget};
use crate::windows_text::{
    detail_text, says_access_denied, says_success, text_has_access_denied, WindowsCommandError,
};

verus! {

/// The PowerShell script that prints the Codex App's application id.
pub const APP_ID_SCRIPT: &'static str = r#"
$ErrorActionPreference = "Stop"

function Test-IsSwitcher($entry) {
  $name = [string]$entry.Name
  $appId = [string]$entry.AppID
  return (
    $name -match "(?i)CCC Switch|CC Switch|Codex Switch|Profile Switcher|Codex Account Switcher|Account Switcher|切号器" -or
    $appId -match "(?i)ccc-switch|cc-switch|codex-switch|profile-switcher|codex-account-switcher|com\.local"
  )
}

$startApps = @(Get-StartApps | Where-Object { -not (Test-IsSwitcher $_) })
$packages = @(Get-AppxPackage -Name "OpenAI.Codex" -ErrorAction SilentlyContinue)
if ($packages.Count -eq 0) {
  $packages = @(Get-AppxPackage -ErrorAction SilentlyContinue |
    Where-Object {
      $_.Name -eq "OpenAI.Codex" -or
      $_.PackageFamilyName -like "OpenAI.Codex_*"
    })
}

foreach ($package in $packages) {
  $app = $startApps |
    Where-Object { $_.AppID -like "$($package.PackageFamilyName)!*" } |
    Select-Object -First 1
  if ($app) {
    $app.AppID
    exit 0
  }
}

$app = $startApps |
  Where-Object {
    $_.Name -eq "Codex" -and (
      $_.AppID -match "(?i)^OpenAI\.Codex_" -or
      $_.AppID -match "(?i)9PLM9XGG6VKS"
    )
  } |
  Select-Object -First 1

if (-not $app) {
  $app = $startApps |
    Where-Object {
      $_.Name -eq "Codex" -and
      $_.AppID -match "!" -and
      $_.AppID -notmatch "(?i)switcher|account-switcher|codex-account-switcher|ccc-switch|cc-switch|codex-switch|com\.local"
    } |
    Select-Object -First 1
}

if (-not $app) { exit 1 }
$app.AppID
"#;

/// The PowerShell script that prints the ids of the Codex App's processes.
pub const PROCESS_IDS_SCRIPT: &'static str = r#"
$ErrorActionPreference = "Stop"
$processes = Get-CimInstance Win32_Process -Filter "Name = 'Codex.exe'" |
  Where-Object {
    ($_.ExecutablePath -and ($_.ExecutablePath -match "(?i)\\WindowsApps\\" -or $_.ExecutablePath -match "(?i)\\Programs\\Codex\\" -or $_.ExecutablePath -match "(?i)Codex App")) -or
    ($_.CommandLine -and ($_.CommandLine -match "(?i)\\WindowsApps\\" -or $_.CommandLine -match "(?i)Codex App" -or $_.CommandLine -match "(?i)ms-appx"))
  } |
  Select-Object -ExpandProperty ProcessId
$processes
"#;

/// The PowerShell script that force-stops the Codex App's processes.
pub const STOP_PROCESSES_SCRIPT: &'static str = r#"
$ErrorActionPreference = "Continue"
Get-CimInstance Win32_Process -Filter "Name = 'Codex.exe'" |
  Where-Object {
    ($_.ExecutablePath -and ($_.ExecutablePath -match "(?i)\\WindowsApps\\" -or $_.ExecutablePath -match "(?i)\\Programs\\Codex\\" -or $_.ExecutablePath -match "(?i)Codex App")) -or
    ($_.CommandLine -and ($_.CommandLine -match "(?i)\\WindowsApps\\" -or $_.CommandLine -match "(?i)Codex App" -or $_.CommandLine -match "(?i)ms-appx"))
  } |
  ForEach-Object { Stop-Process -Id $_.ProcessId -Force -ErrorAction Continue }
"#;

/// The script that asks one process to close its main window.
pub open spec fn close_window_text(pid: Seq<char>) -> Seq<char> {
    "\n$ErrorActionPreference = \"SilentlyContinue\"\n$process = Get-Process -Id "@ + pid
        + " -ErrorAction SilentlyContinue\nif ($process) { $process.CloseMainWindow() | Out-Null }\nStart-Sleep -Milliseconds 900\n"@
}

/// The PowerShell script that asks the process `pid` to close its main
/// window, then waits a moment.
pub fn close_window_script(pid: &str) -> (r: String)
    ensures
        r@ == close_window_text(pid@),
{
    let mut s = String::from_str(
        "\n$ErrorActionPreference = \"SilentlyContinue\"\n$process = Get-Process -Id ",
    );
    s.append(pid);
    s.append(
        " -ErrorAction SilentlyContinue\nif ($process) { $process.CloseMainWindow() | Out-Null }\nStart-Sleep -Milliseconds 900\n",
    );
    s
}

/// The arguments of `taskkill` that force-stop a process and its children.
pub fn taskkill_args(pid: &str) -> (r: Vec<String>)
    ensures
        strings_view(r@) == seq!["/F"@, "/T"@, "/PID"@, pid@],
{
    let mut v: Vec<String> = Vec::new();
    v.push(String::from_str("/F"));
    v.push(String::from_str("/T"));
    v.push(String::from_str("/PID"));
    v.push(String::from_str(pid));
    assert(strings_view(v@) =~= seq!["/F"@, "/T"@, "/PID"@, pid@]);
    v
}

/// The failures joined for a message: nothing when there are none, else
/// the prefix and the failures separated by `；`.
pub open spec fn failure_detail(failures: Seq<Seq<char>>, prefix: Seq<char>, none: Seq<char>) -> Seq<
    char,
> {
    if failures.len() == 0 {
        none
    } else {
        prefix + join(failures, "；"@)
    }
}

/// What a close attempt comes to, from the last look at the processes:
/// none left is success; some left is a failure that says whether Windows
/// refused access (and whether some processes were stopped), or else lists
/// what failed; when the last look failed, any stop that succeeded counts
/// as success, else the failure says why nothing could be confirmed.
pub open spec fn quit_outcome_text(
    state: Result<bool, Seq<char>>,
    any_success: bool,
    access_denied: bool,
    failures: Seq<Seq<char>>,
) -> Result<(), Seq<char>> {
    match state {
        Ok(false) => Ok(()),
        Ok(true) => if access_denied {
            Err(
                "Codex App 仍在运行，Windows 拒绝当前应用结束部分 Codex 进程。请以管理员身份重启 CCC Switch，或手动关闭 Codex App 后重试。"@
                    + if any_success {
                    "已成功关闭一部分 Codex 子进程，但仍有进程需要更高权限。"@
                } else {
                    Seq::<char>::empty()
                },
            )
        } else {
            Err(
                "已尝试温和关闭、taskkill 和 PowerShell 停止 Codex App，但 Codex.exe 仍在运行。请手动关闭 Codex App 后重试。"@
                    + failure_detail(failures, " 详细："@, Seq::<char>::empty()),
            )
        },
        Err(err) => if any_success {
            Ok(())
        } else {
            Err(
                "无法确认 Codex App 是否已关闭："@ + err + "。"@ + failure_detail(
                    failures,
                    "详细："@,
                    "请手动关闭 Codex App 后重试。"@,
                ),
            )
        },
    }
}

/// The views of a result of a flag.
pub open spec fn flag_result(r: Result<bool, String>) -> Result<bool, Seq<char>> {
    match r {
        Ok(b) => Ok(b),
        Err(e) => Err(e@),
    }
}

/// The views of a result of nothing.
pub open spec fn unit_result(r: Result<(), String>) -> Result<(), Seq<char>> {
    match r {
        Ok(()) => Ok(()),
        Err(e) => Err(e@),
    }
}

/// The outcome of closing the Codex App, from the last look at its
/// processes and what the attempts gave.
pub fn quit_outcome(
    state: Result<bool, String>,
    any_success: bool,
    access_denied: bool,
    failures: &Vec<String>,
) -> (r: Result<(), String>)
    ensures
        unit_result(r) == quit_outcome_text(
            flag_result(state),
            any_success,
            access_denied,
            strings_view(failures@),
        ),
{
    match state {
        Ok(false) => Ok(()),
        Ok(true) => if access_denied {
            let mut m = String::from_str(
                "Codex App 仍在运行，Windows 拒绝当前应用结束部分 Codex 进程。请以管理员身份重启 CCC Switch，或手动关闭 Codex App 后重试。",
            );
            if any_success {
                m.append("已成功关闭一部分 Codex 子进程，但仍有进程需要更高权限。");
            }
            Err(m)
        } else {
            let mut m = String::from_str(
                "已尝试温和关闭、taskkill 和 PowerShell 停止 Codex App，但 Codex.exe 仍在运行。请手动关闭 Codex App 后重试。",
            );
            if failures.len() > 0 {
                let ghost before = m@;
                m.append(" 详细：");
                let j = join_strings(failures, "；");
                m.append(j.as_str());
                assert(m@ =~= before + (" 详细："@ + j@));
            }
            Err(m)
        },
        Err(err) => if any_success {
            Ok(())
        } else {
            let mut m = String::from_str("无法确认 Codex App 是否已关闭：");
            m.append(err.as_str());
            m.append("。");
            if failures.len() > 0 {
                let ghost before = m@;
                m.append("详细：");
                let j = join_strings(failures, "；");
                m.append(j.as_str());
                assert(m@ =~= before + ("详细："@ + j@));
            } else {
                m.append("请手动关闭 Codex App 后重试。");
            }
            Err(m)
        },
    }
}

/// What closing the Windows Codex App waits for: the answer to the command
/// it asked for last.
#[derive(PartialEq, Eq, Structural)]
pub enum QuitPhase {
    Begin,
    AwaitRunning,
    AwaitIds,
    Closing,
    AwaitRunningAfterClose,
    AwaitIdsToKill,
    Killing,
    AwaitSettle,
    AwaitRunningAfterKill,
    AwaitStop,
    AwaitStopSettle,
    AwaitFinal,
    Done,
}

/// What the caller runs next while closing the app.
pub enum QuitAction {
    /// whether Codex App processes run (answer with `Running`)
    CheckRunning,
    /// the ids of the Codex App's processes (answer with `Ids`)
    ListProcesses,
    /// run a PowerShell script for its status (answer with `Script`)
    RunScript(String),
    /// run `taskkill` on a process id, with `taskkill_args` (answer with
    /// `Killed`)
    TaskKill(String),
    /// sleep for the milliseconds given (answer with `Slept`)
    Sleep(u64),
    /// closing is over
    Finish(Result<(), String>),
}

/// What the command asked for gave back.
pub enum QuitEvent {
    Begin,
    Running(Result<bool, String>),
    Ids(Result<Vec<String>, String>),
    Script(Result<(), String>),
    Killed(Result<(), WindowsCommandError>),
    Slept,
}

/// Closing the Windows Codex App, under way: gently (each main window asked
/// to close), then with `taskkill`, then with a PowerShell stop, looking
/// after each round whether processes are left.
pub struct WindowsQuit {
    pub phase: QuitPhase,
    pub failures: Vec<String>,
    pub any_success: bool,
    pub access_denied: bool,
    pub pids: Vec<String>,
    pub next: usize,
}

/// Starts closing the Windows Codex App, with nothing noted and nothing
/// tried yet; `WindowsQuit::step` then says what to run.
pub fn quit_codex_app_windows() -> (r: WindowsQuit)
    ensures
        r.wf(),
        r.phase == QuitPhase::Begin,
        r.noted().len() == 0,
        !r.any_success,
        !r.access_denied,
        r.pids@.len() == 0,
        r.next == 0,
{
    WindowsQuit {
        phase: QuitPhase::Begin,
        failures: Vec::new(),
        any_success: false,
        access_denied: false,
        pids: Vec::new(),
        next: 0,
    }
}

/// Whether an event answers what the phase waits for.
pub open spec fn quit_answers(p: QuitPhase, e: QuitEvent) -> bool {
    match p {
        QuitPhase::Begin => e is Begin,
        QuitPhase::AwaitRunning | QuitPhase::AwaitRunningAfterClose
        | QuitPhase::AwaitRunningAfterKill | QuitPhase::AwaitFinal => e is Running,
        QuitPhase::AwaitIds | QuitPhase::AwaitIdsToKill => e is Ids,
        QuitPhase::Closing | QuitPhase::AwaitStop => e is Script,
        QuitPhase::Killing => e is Killed,
        QuitPhase::AwaitSettle | QuitPhase::AwaitStopSettle => e is Slept,
        QuitPhase::Done => false,
    }
}

impl WindowsQuit {
    /// While going through the process ids, the next one is one of them.
    pub open spec fn wf(self) -> bool {
        (self.phase == QuitPhase::Closing || self.phase == QuitPhase::Killing) ==> self.next
            < self.pids@.len()
    }

    /// The failures noted so far.
    pub open spec fn noted(self) -> Seq<Seq<char>> {
        strings_view(self.failures@)
    }

    /// The process id being handled.
    pub open spec fn current_pid(self) -> Seq<char> {
        self.pids@[self.next as int]@
    }

    fn note(&mut self, prefix: &str, detail: &str)
        ensures
            final(self).noted() == old(self).noted().push(prefix@ + detail@),
            final(self).phase == old(self).phase,
            final(self).any_success == old(self).any_success,
            final(self).access_denied == old(self).access_denied,
            final(self).pids == old(self).pids,
            final(self).next == old(self).next,
    {
        let mut m = String::from_str(prefix);
        m.append(detail);
        let ghost before = self.failures@;
        self.failures.push(m);
        assert(strings_view(self.failures@) =~= strings_view(before).push(prefix@ + detail@));
    }

    fn note_pid(&mut self, prefix: &str, pid: &str, middle: &str, detail: &str)
        ensures
            final(self).noted() == old(self).noted().push(prefix@ + pid@ + middle@ + detail@),
            final(self).phase == old(self).phase,
            final(self).any_success == old(self).any_success,
            final(self).access_denied == old(self).access_denied,
            final(self).pids == old(self).pids,
            final(self).next == old(self).next,
    {
        let mut m = String::from_str(prefix);
        m.append(pid);
        m.append(middle);
        m.append(detail);
        let ghost before = self.failures@;
        self.failures.push(m);
        assert(strings_view(self.failures@) =~= strings_view(before).push(
            prefix@ + pid@ + middle@ + detail@,
        ));
    }

    fn finish(&mut self, outcome: Result<(), String>) -> (r: QuitAction)
        ensures
            r == QuitAction::Finish(outcome),
            final(self).phase == QuitPhase::Done,
            final(self).failures == old(self).failures,
            final(self).any_success == old(self).any_success,
            final(self).access_denied == old(self).access_denied,
    {
        self.phase = QuitPhase::Done;
        QuitAction::Finish(outcome)
    }

    /// After a look at whether processes run: none is done; otherwise (a
    /// failed look noted) the next command.
    fn after_look(&mut self, running: Result<bool, String>, failed: &str, then: QuitPhase, action: QuitAction) -> (r: QuitAction)
        requires
            then != QuitPhase::Closing && then != QuitPhase::Killing && then != QuitPhase::Done,
        ensures
            final(self).wf(),
            final(self).any_success == old(self).any_success,
            final(self).access_denied == old(self).access_denied,
            match running {
                Ok(false) => r == QuitAction::Finish(Ok(())) && final(self).phase == QuitPhase::Done
                    && final(self).noted() == old(self).noted(),
                Ok(true) => r == action && final(self).phase == then && final(self).noted()
                    == old(self).noted(),
                Err(e) => r == action && final(self).phase == then && final(self).noted()
                    == old(self).noted().push(failed@ + e@),
            },
    {
        match running {
            Ok(false) => self.finish(Ok(())),
            Ok(true) => {
                self.phase = then;
                action
            },
            Err(e) => {
                self.note(failed, e.as_str());
                self.phase = then;
                action
            },
        }
    }

    /// The next command while closing the app, from what the last one gave
    /// back. Each look at the processes ends the closing when none run;
    /// each failure is noted, with the process id where there is one, and
    /// the closing goes on:
    /// look, list the ids and ask each main window to close; look, list the
    /// ids and `taskkill` each (noting whether any succeeded or access was
    /// denied), sleep 800 ms; look, run the stop script, sleep 1200 ms; the
    /// last look decides (`quit_outcome_text`).
    pub fn step(&mut self, event: QuitEvent) -> (r: QuitAction)
        requires
            old(self).wf(),
            quit_answers(old(self).phase, event),
        ensures
            final(self).wf(),
            r is Finish <==> final(self).phase == QuitPhase::Done,
            old(self).phase == QuitPhase::Begin ==> r == QuitAction::CheckRunning
                && final(self).phase == QuitPhase::AwaitRunning && final(self).noted()
                == old(self).noted(),
            old(self).phase == QuitPhase::AwaitRunning ==> (event matches QuitEvent::Running(
                running,
            ) && match running {
                Ok(false) => r == QuitAction::Finish(Ok(())),
                Ok(true) => r == QuitAction::ListProcesses && final(self).phase
                    == QuitPhase::AwaitIds && final(self).noted() == old(self).noted(),
                Err(e) => r == QuitAction::ListProcesses && final(self).phase
                    == QuitPhase::AwaitIds && final(self).noted() == old(self).noted().push(
                    "检测 Codex.exe 进程失败："@ + e@,
                ),
            }),
            old(self).phase == QuitPhase::AwaitIds ==> (event matches QuitEvent::Ids(ids)
                && match ids {
                Ok(v) => if v@.len() == 0 {
                    r == QuitAction::Finish(Ok(()))
                } else {
                    (r matches QuitAction::RunScript(sc) && sc@ == close_window_text(v@[0]@))
                        && final(self).phase == QuitPhase::Closing && final(self).pids == v
                        && final(self).next == 0 && final(self).noted() == old(self).noted()
                },
                Err(e) => r == QuitAction::CheckRunning && final(self).phase
                    == QuitPhase::AwaitRunningAfterClose && final(self).noted()
                    == old(self).noted().push("读取 Codex App 进程失败："@ + e@),
            }),
            old(self).phase == QuitPhase::Closing ==> (event matches QuitEvent::Script(res) && {
                &&& final(self).noted() == match res {
                    Ok(()) => old(self).noted(),
                    Err(e) => old(self).noted().push(
                        "温和关闭 PID "@ + old(self).current_pid() + " 失败："@ + e@,
                    ),
                }
                &&& if old(self).next + 1 < old(self).pids@.len() {
                    &&& r matches QuitAction::RunScript(sc) && sc@ == close_window_text(
                        old(self).pids@[old(self).next + 1]@,
                    )
                    &&& final(self).phase == QuitPhase::Closing
                    &&& final(self).next == old(self).next + 1
                    &&& final(self).pids == old(self).pids
                } else {
                    r == QuitAction::CheckRunning && final(self).phase
                        == QuitPhase::AwaitRunningAfterClose
                }
            }),
            old(self).phase == QuitPhase::AwaitRunningAfterClose ==> (event matches QuitEvent::Running(
                running,
            ) && match running {
                Ok(false) => r == QuitAction::Finish(Ok(())),
                Ok(true) => r == QuitAction::ListProcesses && final(self).phase
                    == QuitPhase::AwaitIdsToKill && final(self).noted() == old(self).noted(),
                Err(e) => r == QuitAction::ListProcesses && final(self).phase
                    == QuitPhase::AwaitIdsToKill && final(self).noted() == old(self).noted().push(
                    "温和关闭后检测进程失败："@ + e@,
                ),
            }),
            old(self).phase == QuitPhase::AwaitIdsToKill ==> (event matches QuitEvent::Ids(ids)
                && match ids {
                Ok(v) => if v@.len() == 0 {
                    r == QuitAction::Finish(Ok(()))
                } else {
                    (r matches QuitAction::TaskKill(pid) && pid@ == v@[0]@) && final(self).phase
                        == QuitPhase::Killing && final(self).pids == v && final(self).next == 0
                        && final(self).noted() == old(self).noted()
                },
                Err(e) => r == QuitAction::Sleep(800) && final(self).phase == QuitPhase::AwaitSettle
                    && final(self).noted() == old(self).noted().push(
                    "读取 Codex App 进程失败："@ + e@,
                ),
            }),
            old(self).phase == QuitPhase::Killing ==> (event matches QuitEvent::Killed(res) && {
                &&& match res {
                    Ok(()) => final(self).any_success && final(self).access_denied
                        == old(self).access_denied && final(self).noted() == old(self).noted(),
                    Err(err) => {
                        &&& final(self).any_success == (old(self).any_success || says_success(
                            err.stdout@ + "\n"@ + err.stderr@,
                        ))
                        &&& final(self).access_denied == (old(self).access_denied
                            || says_access_denied(err.stdout@ + "\n"@ + err.stderr@))
                        &&& final(self).noted() == old(self).noted().push(
                            "taskkill PID "@ + old(self).current_pid() + " 失败："@ + detail_text(
                                err.program@,
                                err.status@,
                                err.stdout@,
                                err.stderr@,
                            ),
                        )
                    },
                }
                &&& if old(self).next + 1 < old(self).pids@.len() {
                    &&& r matches QuitAction::TaskKill(pid) && pid@ == old(self).pids@[old(
                        self,
                    ).next + 1]@
                    &&& final(self).phase == QuitPhase::Killing
                    &&& final(self).next == old(self).next + 1
                    &&& final(self).pids == old(self).pids
                } else {
                    r == QuitAction::Sleep(800) && final(self).phase == QuitPhase::AwaitSettle
                }
            }),
            old(self).phase == QuitPhase::AwaitSettle ==> r == QuitAction::CheckRunning
                && final(self).phase == QuitPhase::AwaitRunningAfterKill && final(self).noted()
                == old(self).noted(),
            old(self).phase == QuitPhase::AwaitRunningAfterKill ==> (event matches QuitEvent::Running(
                running,
            ) && match running {
                Ok(false) => r == QuitAction::Finish(Ok(())),
                Ok(true) => (r matches QuitAction::RunScript(sc) && sc@
                    == STOP_PROCESSES_SCRIPT@) && final(self).phase == QuitPhase::AwaitStop
                    && final(self).noted() == old(self).noted(),
                Err(e) => (r matches QuitAction::RunScript(sc) && sc@
                    == STOP_PROCESSES_SCRIPT@) && final(self).phase == QuitPhase::AwaitStop
                    && final(self).noted() == old(self).noted().push(
                    "taskkill 后检测进程失败："@ + e@,
                ),
            }),
            old(self).phase == QuitPhase::AwaitStop ==> (event matches QuitEvent::Script(res)
                && r == QuitAction::Sleep(1200) && final(self).phase == QuitPhase::AwaitStopSettle
                && match res {
                Ok(()) => final(self).any_success && final(self).access_denied
                    == old(self).access_denied && final(self).noted() == old(self).noted(),
                Err(e) => final(self).any_success == old(self).any_success
                    && final(self).access_denied == (old(self).access_denied
                    || says_access_denied(e@)) && final(self).noted() == old(self).noted().push(
                    "PowerShell 停止进程失败："@ + e@,
                ),
            }),
            old(self).phase == QuitPhase::AwaitStopSettle ==> r == QuitAction::CheckRunning
                && final(self).phase == QuitPhase::AwaitFinal && final(self).noted()
                == old(self).noted(),
            old(self).phase == QuitPhase::AwaitFinal ==> (event matches QuitEvent::Running(
                running,
            ) && (r matches QuitAction::Finish(outcome) && unit_result(outcome)
                == quit_outcome_text(
                flag_result(running),
                old(self).any_success,
                old(self).access_denied,
                old(self).noted(),
            ))),
            old(self).phase != QuitPhase::Killing && old(self).phase != QuitPhase::AwaitStop
                ==> final(self).any_success == old(self).any_success && final(self).access_denied
                == old(self).access_denied,
    {
        match self.phase {
            QuitPhase::Begin => {
                self.phase = QuitPhase::AwaitRunning;
                QuitAction::CheckRunning
            },
            QuitPhase::AwaitRunning => match event {
                QuitEvent::Running(running) => self.after_look(
                    running,
                    "检测 Codex.exe 进程失败：",
                    QuitPhase::AwaitIds,
                    QuitAction::ListProcesses,
                ),
                _ => self.finish(Ok(())),
            },
            QuitPhase::AwaitIds => match event {
                QuitEvent::Ids(Ok(v)) => {
                    if v.len() == 0 {
                        return self.finish(Ok(()));
                    }
                    let sc = close_window_script(v[0].as_str());
                    self.pids = v;
                    self.next = 0;
                    self.phase = QuitPhase::Closing;
                    QuitAction::RunScript(sc)
                },
                QuitEvent::Ids(Err(e)) => {
                    self.note("读取 Codex App 进程失败：", e.as_str());
                    self.phase = QuitPhase::AwaitRunningAfterClose;
                    QuitAction::CheckRunning
                },
                _ => self.finish(Ok(())),
            },
            QuitPhase::Closing => match event {
                QuitEvent::Script(res) => {
                    let i = self.next;
                    let n = self.pids.len();
                    assert(i < n);
                    if let Err(e) = res {
                        let pid = self.pids[i].clone();
                        self.note_pid("温和关闭 PID ", pid.as_str(), " 失败：", e.as_str());
                    }
                    if i + 1 < n {
                        self.next = i + 1;
                        let sc = close_window_script(self.pids[i + 1].as_str());
                        QuitAction::RunScript(sc)
                    } else {
                        self.phase = QuitPhase::AwaitRunningAfterClose;
                        QuitAction::CheckRunning
                    }
                },
                _ => self.finish(Ok(())),
            },
            QuitPhase::AwaitRunningAfterClose => match event {
                QuitEvent::Running(running) => self.after_look(
                    running,
                    "温和关闭后检测进程失败：",
                    QuitPhase::AwaitIdsToKill,
                    QuitAction::ListProcesses,
                ),
                _ => self.finish(Ok(())),
            },
            QuitPhase::AwaitIdsToKill => match event {
                QuitEvent::Ids(Ok(v)) => {
                    if v.len() == 0 {
                        return self.finish(Ok(()));
                    }
                    let pid = v[0].clone();
                    self.pids = v;
                    self.next = 0;
                    self.phase = QuitPhase::Killing;
                    QuitAction::TaskKill(pid)
                },
                QuitEvent::Ids(Err(e)) => {
                    self.note("读取 Codex App 进程失败：", e.as_str());
                    self.phase = QuitPhase::AwaitSettle;
                    QuitAction::Sleep(800)
                },
                _ => self.finish(Ok(())),
            },
            QuitPhase::Killing => match event {
                QuitEvent::Killed(res) => {
                    let i = self.next;
                    let n = self.pids.len();
                    assert(i < n);
                    match res {
                        Ok(()) => {
                            self.any_success = true;
                        },
                        Err(err) => {
                            let succeeded = err.has_successful_termination();
                            let denied = err.is_access_denied();
                            self.any_success = self.any_success || succeeded;
                            self.access_denied = self.access_denied || denied;
                            let pid = self.pids[i].clone();
                            let d = err.detail();
                            self.note_pid("taskkill PID ", pid.as_str(), " 失败：", d.as_str());
                        },
                    }
                    if i + 1 < n {
                        self.next = i + 1;
                        QuitAction::TaskKill(self.pids[i + 1].clone())
                    } else {
                        self.phase = QuitPhase::AwaitSettle;
                        QuitAction::Sleep(800)
                    }
                },
                _ => self.finish(Ok(())),
            },
            QuitPhase::AwaitSettle => {
                self.phase = QuitPhase::AwaitRunningAfterKill;
                QuitAction::CheckRunning
            },
            QuitPhase::AwaitRunningAfterKill => match event {
                QuitEvent::Running(running) => self.after_look(
                    running,
                    "taskkill 后检测进程失败：",
                    QuitPhase::AwaitStop,
                    QuitAction::RunScript(String::from_str(STOP_PROCESSES_SCRIPT)),
                ),
                _ => self.finish(Ok(())),
            },
            QuitPhase::AwaitStop => match event {
                QuitEvent::Script(res) => {
                    match res {
                        Ok(()) => {
                            self.any_success = true;
                        },
                        Err(e) => {
                            let denied = text_has_access_denied(e.as_str());
                            self.access_denied = self.access_denied || denied;
                            self.note("PowerShell 停止进程失败：", e.as_str());
                        },
                    }
                    self.phase = QuitPhase::AwaitStopSettle;
                    QuitAction::Sleep(1200)
                },
                _ => self.finish(Ok(())),
            },
            QuitPhase::AwaitStopSettle => {
                self.phase = QuitPhase::AwaitFinal;
                QuitAction::CheckRunning
            },
            QuitPhase::AwaitFinal => match event {
                QuitEvent::Running(running) => {
                    let outcome = quit_outcome(
                        running,
                        self.any_success,
                        self.access_denied,
                        &self.failures,
                    );
                    self.finish(outcome)
                },
                _ => self.finish(Ok(())),
            },
            QuitPhase::Done => self.finish(Ok(())),
        }
    }
}

/// What a Windows restart waits for: the answer to the command it asked
/// for last.
#[derive(PartialEq, Eq, Structural)]
pub enum WinPhase {
    Begin,
    AwaitRunning,
    AwaitQuit,
    AwaitGone,
    AwaitStart,
    AwaitStarted,
    Done,
}

/// What the caller runs next during a Windows restart.
pub enum WinAction {
    /// whether Codex App processes run (answer with `Flag`)
    CheckRunning,
    /// close the app with a `WindowsQuit` (answer with `Done`)
    Quit,
    /// wait until processes run (`true`) or are gone (`false`), up to the
    /// seconds given, looking every 300 ms (answer with `Flag`: reached or
    /// not)
    WaitFor(bool, u64),
    /// start the app from the launch target (answer with `Done`)
    Start,
    /// the restart is over
    Finish(Result<CodexAppRestartResult, String>),
}

/// A Windows restart under way, of the app found at a launch target.
pub struct WindowsRestart {
    pub phase: WinPhase,
    pub target: WindowsCodexLaunchTarget,
    pub was_running: bool,
}

/// Starts a Windows restart of the app at a launch target (resolved with
/// `resolve_windows_codex_launch_target`); `WindowsRestart::step` then says
/// what to run.
pub fn restart_codex_app_windows(target: WindowsCodexLaunchTarget) -> (r: WindowsRestart)
    ensures
        r.phase == WinPhase::Begin,
        r.target == target,
        !r.was_running,
{
    WindowsRestart { phase: WinPhase::Begin, target, was_running: false }
}

/// Whether an event answers what the phase waits for.
pub open spec fn win_answers(p: WinPhase, e: RestartEvent) -> bool {
    match p {
        WinPhase::Begin => e is Begin,
        WinPhase::AwaitQuit | WinPhase::AwaitStart => e is Done,
        WinPhase::Done => false,
        _ => e is Flag,
    }
}

/// The report of a finished Windows restart: whether the app ran, and the
/// launch target's id or path.
pub open spec fn win_reports(r: CodexAppRestartResult, was_running: bool, t: WindowsCodexLaunchTarget) -> bool {
    &&& r.was_running == was_running
    &&& r.launched
    &&& opt_view(r.app_id) == match t {
        WindowsCodexLaunchTarget::AppId(a) => Some(a@),
        WindowsCodexLaunchTarget::ExecutablePath(_) => None,
    }
    &&& opt_view(r.app_path) == match t {
        WindowsCodexLaunchTarget::AppId(_) => None,
        WindowsCodexLaunchTarget::ExecutablePath(p) => Some(p@),
    }
}

impl WindowsRestart {
    fn finish(&mut self, outcome: Result<CodexAppRestartResult, String>) -> (r: WinAction)
        ensures
            r == WinAction::Finish(outcome),
            final(self).phase == WinPhase::Done,
            final(self).target == old(self).target,
            final(self).was_running == old(self).was_running,
    {
        self.phase = WinPhase::Done;
        WinAction::Finish(outcome)
    }

    /// The next command of a Windows restart, from what the last one gave
    /// back: look whether the app runs (a failed look counts as not
    /// running); if it runs, close it and wait up to 10 s for its processes
    /// to go, failing if they stay (a failed wait is passed over); then
    /// start it and wait up to 8 s for it (whatever that wait gives), and
    /// report. A failed close or start ends the restart with its failure.
    pub fn step(&mut self, event: RestartEvent) -> (r: WinAction)
        requires
            win_answers(old(self).phase, event),
        ensures
            final(self).target == old(self).target,
            r is Finish <==> final(self).phase == WinPhase::Done,
            old(self).phase == WinPhase::Begin ==> r == WinAction::CheckRunning
                && final(self).phase == WinPhase::AwaitRunning,
            old(self).phase == WinPhase::AwaitRunning ==> (event matches RestartEvent::Flag(running)
                && {
                let was = match running {
                    Ok(b) => b,
                    Err(_) => false,
                };
                &&& final(self).was_running == was
                &&& if was {
                    r == WinAction::Quit && final(self).phase == WinPhase::AwaitQuit
                } else {
                    r == WinAction::Start && final(self).phase == WinPhase::AwaitStart
                }
            }),
            old(self).phase == WinPhase::AwaitQuit ==> (event matches RestartEvent::Done(res)
                && match res {
                Err(m) => r == WinAction::Finish(Err(m)),
                Ok(()) => r == WinAction::WaitFor(false, 10) && final(self).phase
                    == WinPhase::AwaitGone,
            }),
            old(self).phase == WinPhase::AwaitGone ==> (event matches RestartEvent::Flag(gone)
                && match gone {
                Ok(false) => r matches WinAction::Finish(Err(m)) && m@
                    == "等待 Windows Codex App 退出超时，请手动关闭 Codex App 后重试。"@,
                _ => r == WinAction::Start && final(self).phase == WinPhase::AwaitStart,
            }),
            old(self).phase == WinPhase::AwaitStart ==> (event matches RestartEvent::Done(res)
                && match res {
                Err(m) => r == WinAction::Finish(Err(m)),
                Ok(()) => r == WinAction::WaitFor(true, 8) && final(self).phase
                    == WinPhase::AwaitStarted,
            }),
            old(self).phase == WinPhase::AwaitStarted ==> (r matches WinAction::Finish(Ok(rep))
                && win_reports(rep, old(self).was_running, old(self).target)),
            old(self).phase != WinPhase::AwaitRunning ==> final(self).was_running
                == old(self).was_running,
    {
        match self.phase {
            WinPhase::Begin => {
                self.phase = WinPhase::AwaitRunning;
                WinAction::CheckRunning
            },
            WinPhase::AwaitRunning => match event {
                RestartEvent::Flag(running) => {
                    let was = match running {
                        Ok(b) => b,
                        Err(_) => false,
                    };
                    self.was_running = was;
                    if was {
                        self.phase = WinPhase::AwaitQuit;
                        WinAction::Quit
                    } else {
                        self.phase = WinPhase::AwaitStart;
                        WinAction::Start
                    }
                },
                _ => self.finish(Err(String::new())),
            },
            WinPhase::AwaitQuit => match event {
                RestartEvent::Done(Ok(())) => {
                    self.phase = WinPhase::AwaitGone;
                    WinAction::WaitFor(false, 10)
                },
                RestartEvent::Done(Err(m)) => self.finish(Err(m)),
                _ => self.finish(Err(String::new())),
            },
            WinPhase::AwaitGone => match event {
                RestartEvent::Flag(Ok(false)) => self.finish(
                    Err(
                        String::from_str(
                            "等待 Windows Codex App 退出超时，请手动关闭 Codex App 后重试。",
                        ),
                    ),
                ),
                _ => {
                    self.phase = WinPhase::AwaitStart;
                    WinAction::Start
                },
            },
            WinPhase::AwaitStart => match event {
                RestartEvent::Done(Ok(())) => {
                    self.phase = WinPhase::AwaitStarted;
                    WinAction::WaitFor(true, 8)
                },
                RestartEvent::Done(Err(m)) => self.finish(Err(m)),
                _ => self.finish(Err(String::new())),
            },
            WinPhase::AwaitStarted => {
                let rep = CodexAppRestartResult {
                    was_running: self.was_running,
                    launched: true,
                    app_path: self.target.app_path(),
                    app_id: self.target.app_id(),
                };
                self.finish(Ok(rep))
            },
            WinPhase::Done => self.finish(Err(String::new())),
        }
    }
}

} // verus!

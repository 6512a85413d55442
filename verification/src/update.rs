//! Installing an application update and restarting: the order of the steps
//! on each platform and the failure reported at each, as a machine that
//! says which step to run next from what the previous one gave back.
use vstd::prelude::*;

verus! {

/// What the update waits for: the answer to the step it asked for last.
#[derive(PartialEq, Eq, Structural)]
pub enum UpdatePhase {
    Begin,
    AwaitUpdater,
    AwaitCheck,
    AwaitDownload,
    AwaitCleanup,
    AwaitPause,
    AwaitInstall,
    Done,
}

/// What the caller runs next.
pub enum UpdateAction {
    /// build the updater (answer with `Ready`)
    BuildUpdater,
    /// look for an update (answer with `Checked`)
    Check,
    /// download the update (answer with `Ready`)
    Download,
    /// save the window state and run the exit clean-up; on Windows also
    /// remove the tray icon and the single-instance lock (answer with
    /// `Ready(Ok(()))`)
    CleanUpForExit,
    /// sleep for the milliseconds given (answer with `Ready(Ok(()))`)
    Sleep(u64),
    /// install the downloaded update (answer with `Ready`)
    Install,
    /// restart the application process; nothing comes back
    Restart,
    /// the update is over: whether one was installed, or why not
    Finish(Result<bool, String>),
}

/// What the step asked for gave back.
pub enum UpdateEvent {
    Begin,
    Ready(Result<(), String>),
    Checked(Result<bool, String>),
}

/// An update under way. On Windows the installer ends the process, so the
/// clean-up comes before the install; elsewhere the install comes first, so
/// that a failed install leaves the running app untouched.
pub struct UpdateFlow {
    pub phase: UpdatePhase,
    pub windows: bool,
    pub installed: bool,
}

/// Whether an event answers what the phase waits for.
pub open spec fn update_answers(p: UpdatePhase, e: UpdateEvent) -> bool {
    match p {
        UpdatePhase::Begin => e is Begin,
        UpdatePhase::AwaitCheck => e is Checked,
        UpdatePhase::Done => false,
        _ => e is Ready,
    }
}

/// A failure with a message prefix.
pub open spec fn prefixed(prefix: Seq<char>, e: Seq<char>) -> Seq<char> {
    prefix + e
}

/// Starts installing an update, on Windows or elsewhere.
pub fn install_update_and_restart(windows: bool) -> (r: UpdateFlow)
    ensures
        r.phase == UpdatePhase::Begin,
        r.windows == windows,
        !r.installed,
{
    UpdateFlow { phase: UpdatePhase::Begin, windows, installed: false }
}

fn with_prefix(prefix: &str, e: &str) -> (r: String)
    ensures
        r@ == prefix@ + e@,
{
    let mut m = String::from_str(prefix);
    m.append(e);
    m
}

impl UpdateFlow {
    fn finish(&mut self, outcome: Result<bool, String>) -> (r: UpdateAction)
        ensures
            r == UpdateAction::Finish(outcome),
            final(self).phase == UpdatePhase::Done,
            final(self).windows == old(self).windows,
            final(self).installed == old(self).installed,
    {
        self.phase = UpdatePhase::Done;
        UpdateAction::Finish(outcome)
    }

    /// The next step of an update, from what the last one gave back: build
    /// the updater, look for an update (none: finish with `false`),
    /// download it; on Windows clean up, pause 100 ms and install, finishing
    /// with `true`; elsewhere install, clean up, pause 100 ms and restart.
    /// Each failure finishes with its message.
    pub fn step(&mut self, event: UpdateEvent) -> (r: UpdateAction)
        requires
            update_answers(old(self).phase, event),
        ensures
            final(self).windows == old(self).windows,
            r is Finish ==> final(self).phase == UpdatePhase::Done,
            old(self).phase == UpdatePhase::Begin ==> r == UpdateAction::BuildUpdater
                && final(self).phase == UpdatePhase::AwaitUpdater,
            old(self).phase == UpdatePhase::AwaitUpdater ==> (event matches UpdateEvent::Ready(res)
                && match res {
                Err(e) => r matches UpdateAction::Finish(Err(m)) && m@ == prefixed(
                    "初始化更新器失败: "@,
                    e@,
                ),
                Ok(()) => r == UpdateAction::Check && final(self).phase == UpdatePhase::AwaitCheck,
            }),
            old(self).phase == UpdatePhase::AwaitCheck ==> (event matches UpdateEvent::Checked(res)
                && match res {
                Err(e) => r matches UpdateAction::Finish(Err(m)) && m@ == prefixed(
                    "检查更新失败: "@,
                    e@,
                ),
                Ok(false) => r == UpdateAction::Finish(Ok(false)),
                Ok(true) => r == UpdateAction::Download && final(self).phase
                    == UpdatePhase::AwaitDownload,
            }),
            old(self).phase == UpdatePhase::AwaitDownload ==> (event matches UpdateEvent::Ready(res)
                && match res {
                Err(e) => r matches UpdateAction::Finish(Err(m)) && m@ == prefixed(
                    "下载更新失败: "@,
                    e@,
                ),
                Ok(()) => if old(self).windows {
                    r == UpdateAction::CleanUpForExit && final(self).phase
                        == UpdatePhase::AwaitCleanup
                } else {
                    r == UpdateAction::Install && final(self).phase == UpdatePhase::AwaitInstall
                },
            }),
            old(self).phase == UpdatePhase::AwaitCleanup ==> r == UpdateAction::Sleep(100)
                && final(self).phase == UpdatePhase::AwaitPause,
            old(self).phase == UpdatePhase::AwaitPause ==> if old(self).windows {
                r == UpdateAction::Install && final(self).phase == UpdatePhase::AwaitInstall
            } else {
                r == UpdateAction::Restart && final(self).phase == UpdatePhase::Done
            },
            old(self).phase == UpdatePhase::AwaitInstall ==> (event matches UpdateEvent::Ready(res)
                && match res {
                Err(e) => r matches UpdateAction::Finish(Err(m)) && m@ == if old(self).windows {
                    "Windows 更新安装失败: "@ + e@
                        + "。已执行退出前清理，代理或 Live 接管可能已暂停；请重启应用或重新开启代理后再试。"@
                } else {
                    prefixed("安装更新失败: "@, e@)
                },
                Ok(()) => if old(self).windows {
                    r == UpdateAction::Finish(Ok(true))
                } else {
                    r == UpdateAction::CleanUpForExit && final(self).phase
                        == UpdatePhase::AwaitCleanup && final(self).installed
                },
            }),
    {
        match self.phase {
            UpdatePhase::Begin => {
                self.phase = UpdatePhase::AwaitUpdater;
                UpdateAction::BuildUpdater
            },
            UpdatePhase::AwaitUpdater => match event {
                UpdateEvent::Ready(Ok(())) => {
                    self.phase = UpdatePhase::AwaitCheck;
                    UpdateAction::Check
                },
                UpdateEvent::Ready(Err(e)) => self.finish(
                    Err(with_prefix("初始化更新器失败: ", e.as_str())),
                ),
                _ => self.finish(Ok(false)),
            },
            UpdatePhase::AwaitCheck => match event {
                UpdateEvent::Checked(Ok(true)) => {
                    self.phase = UpdatePhase::AwaitDownload;
                    UpdateAction::Download
                },
                UpdateEvent::Checked(Ok(false)) => self.finish(Ok(false)),
                UpdateEvent::Checked(Err(e)) => self.finish(
                    Err(with_prefix("检查更新失败: ", e.as_str())),
                ),
                _ => self.finish(Ok(false)),
            },
            UpdatePhase::AwaitDownload => match event {
                UpdateEvent::Ready(Ok(())) => {
                    if self.windows {
                        self.phase = UpdatePhase::AwaitCleanup;
                        UpdateAction::CleanUpForExit
                    } else {
                        self.phase = UpdatePhase::AwaitInstall;
                        UpdateAction::Install
                    }
                },
                UpdateEvent::Ready(Err(e)) => self.finish(
                    Err(with_prefix("下载更新失败: ", e.as_str())),
                ),
                _ => self.finish(Ok(false)),
            },
            UpdatePhase::AwaitCleanup => {
                self.phase = UpdatePhase::AwaitPause;
                UpdateAction::Sleep(100)
            },
            UpdatePhase::AwaitPause => {
                if self.windows {
                    self.phase = UpdatePhase::AwaitInstall;
                    UpdateAction::Install
                } else {
                    self.phase = UpdatePhase::Done;
                    UpdateAction::Restart
                }
            },
            UpdatePhase::AwaitInstall => match event {
                UpdateEvent::Ready(Ok(())) => {
                    if self.windows {
                        self.installed = true;
                        self.finish(Ok(true))
                    } else {
                        self.installed = true;
                        self.phase = UpdatePhase::AwaitCleanup;
                        UpdateAction::CleanUpForExit
                    }
                },
                UpdateEvent::Ready(Err(e)) => {
                    if self.windows {
                        let mut m = with_prefix("Windows 更新安装失败: ", e.as_str());
                        m.append(
                            "。已执行退出前清理，代理或 Live 接管可能已暂停；请重启应用或重新开启代理后再试。",
                        );
                        self.finish(Err(m))
                    } else {
                        self.finish(Err(with_prefix("安装更新失败: ", e.as_str())))
                    }
                },
                _ => self.finish(Ok(false)),
            },
            UpdatePhase::Done => self.finish(Ok(false)),
        }
    }
}

} // verus!

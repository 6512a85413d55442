//! Restarting the external Codex App: the decisions of the macOS and
//! Windows procedures, as machines that say which command to run next from
//! what the previous one gave back. The caller runs the commands.
use vstd::prelude::*;
use crate::config_text::opt_view;

verus! {

/// What a restart of the Codex App reports.
pub struct CodexAppRestartResult {
    pub was_running: bool,
    pub launched: bool,
    pub app_path: Option<String>,
    pub app_id: Option<String>,
}

/// What to do while waiting for the Codex App to reach a state.
pub enum WaitStep {
    /// stop waiting with this outcome: reached (`true`) or timed out (`false`)
    Finished(Result<bool, String>),
    /// look again after sleeping this many milliseconds
    SleepThenCheck(u64),
}

/// The next step of a wait: time is up when the elapsed time has reached
/// the timeout; otherwise the observation decides: a failure ends the wait,
/// the expected state ends it with success, anything else means sleeping
/// for the interval and looking again. The state is observed only while
/// time is left.
pub fn wait_step(
    expected: bool,
    elapsed_ms: u64,
    timeout_ms: u64,
    interval_ms: u64,
    observed: Option<Result<bool, String>>,
) -> (r: WaitStep)
    requires
        elapsed_ms < timeout_ms ==> observed is Some,
    ensures
        elapsed_ms >= timeout_ms ==> r == WaitStep::Finished(Ok(false)),
        elapsed_ms < timeout_ms ==> match observed->0 {
            Err(e) => r == WaitStep::Finished(Err(e)),
            Ok(b) => if b == expected {
                r == WaitStep::Finished(Ok(true))
            } else {
                r == WaitStep::SleepThenCheck(interval_ms)
            },
        },
{
    if elapsed_ms >= timeout_ms {
        return WaitStep::Finished(Ok(false));
    }
    match observed {
        Some(Err(e)) => WaitStep::Finished(Err(e)),
        Some(Ok(b)) => if b == expected {
            WaitStep::Finished(Ok(true))
        } else {
            WaitStep::SleepThenCheck(interval_ms)
        },
        None => WaitStep::Finished(Ok(false)),
    }
}

/// Whether the Codex App has processes on macOS: the processes of its
/// bundle when the bundle was found, else whether the app reports running.
pub fn codex_app_has_processes(app_path: &Option<String>, pids: Option<Result<Vec<u32>, String>>, running: Option<Result<bool, String>>) -> (r: Result<bool, String>)
    requires
        app_path is Some ==> pids is Some,
        app_path is None ==> running is Some,
    ensures
        app_path is Some ==> match pids->0 {
            Ok(v) => r == Ok::<bool, String>(v@.len() > 0),
            Err(e) => r == Err::<bool, String>(e),
        },
        app_path is None ==> r == running->0,
{
    match app_path {
        Some(_) => match pids {
            Some(Ok(v)) => Ok(v.len() > 0),
            Some(Err(e)) => Err(e),
            None => Ok(false),
        },
        None => match running {
            Some(x) => x,
            None => Ok(false),
        },
    }
}

/// What a macOS restart waits for: the result of the command it asked for.
#[derive(PartialEq, Eq, Structural)]
pub enum MacPhase {
    Begin,
    AwaitProcesses,
    AwaitRunning,
    AwaitQuit,
    AwaitGoneGraceful,
    AwaitTerminate,
    AwaitGoneTerminated,
    AwaitKill,
    AwaitGoneKilled,
    AwaitLaunch,
    AwaitStarted,
    AwaitConfirm,
    Done,
}

/// What the caller runs next.
pub enum MacAction {
    /// whether the app has processes (answer with `Flag`)
    CheckProcesses,
    /// whether the app reports running (answer with `Flag`)
    CheckRunning,
    /// ask the app to quit (answer with `Done`)
    Quit,
    /// wait until the processes are gone, up to the seconds given (answer
    /// with `Flag`: gone or not)
    WaitUntilGone(u64),
    /// send a signal (`-TERM`, `-KILL`) to the app's processes (answer with
    /// `Done`)
    Signal(String),
    /// open the app (answer with `Done`)
    Launch,
    /// wait until the processes are there, up to the seconds given (answer
    /// with `Flag`)
    WaitUntilRunning(u64),
    /// the restart is over
    Finish(Result<CodexAppRestartResult, String>),
}

/// What the command asked for gave back.
pub enum RestartEvent {
    Begin,
    Flag(Result<bool, String>),
    Done(Result<(), String>),
}

/// A macOS restart under way.
pub struct MacRestart {
    pub phase: MacPhase,
    pub app_path: Option<String>,
    pub had_processes: bool,
    pub was_running: bool,
}

/// Whether an event answers what the phase waits for.
pub open spec fn mac_answers(p: MacPhase, e: RestartEvent) -> bool {
    match p {
        MacPhase::Begin => e is Begin,
        MacPhase::AwaitQuit | MacPhase::AwaitTerminate | MacPhase::AwaitKill
        | MacPhase::AwaitLaunch => e is Done,
        MacPhase::Done => false,
        _ => e is Flag,
    }
}

/// Starts a macOS restart of the app at a bundle path (when one was
/// found); `MacRestart::step` then says what to run.
pub fn restart_codex_app_macos(app_path: Option<String>) -> (r: MacRestart)
    ensures
        r.phase == MacPhase::Begin,
        r.app_path == app_path,
        !r.had_processes,
        !r.was_running,
{
    MacRestart { phase: MacPhase::Begin, app_path, had_processes: false, was_running: false }
}

/// The report of a finished macOS restart.
pub open spec fn mac_reports(r: CodexAppRestartResult, s: MacRestart) -> bool {
    r.was_running == s.was_running && r.launched && opt_view(r.app_path) == opt_view(s.app_path)
        && r.app_id is None
}

impl MacRestart {
    fn report(&self) -> (r: CodexAppRestartResult)
        ensures
            mac_reports(r, *self),
    {
        let app_path = match &self.app_path {
            Some(p) => Some(p.clone()),
            None => None,
        };
        CodexAppRestartResult {
            was_running: self.was_running,
            launched: true,
            app_path,
            app_id: None,
        }
    }

    /// The next command of a macOS restart, from what the last one gave
    /// back: look for the app's processes, ask whether it runs; if either,
    /// ask it to quit and wait 5 s, then `-TERM` and wait 10 s, then `-KILL`
    /// and wait 5 s, failing if it is still there; then open the app and
    /// wait 15 s for it, then ask whether it runs. A failure of any command
    /// but the quit request ends the restart with that failure.
    pub fn step(&mut self, event: RestartEvent) -> (r: MacAction)
        requires
            mac_answers(old(self).phase, event),
        ensures
            final(self).app_path == old(self).app_path,
            old(self).phase == MacPhase::Begin ==> r == MacAction::CheckProcesses
                && final(self).phase == MacPhase::AwaitProcesses,
            old(self).phase == MacPhase::AwaitProcesses ==> match event {
                RestartEvent::Flag(Err(m)) => r == MacAction::Finish(Err(m))
                    && final(self).phase == MacPhase::Done,
                RestartEvent::Flag(Ok(had)) => r == MacAction::CheckRunning && final(self).phase
                    == MacPhase::AwaitRunning && final(self).had_processes == had,
                _ => false,
            },
            old(self).phase == MacPhase::AwaitRunning ==> match event {
                RestartEvent::Flag(running) => {
                    let was = match running {
                        Ok(b) => b,
                        Err(_) => old(self).had_processes,
                    };
                    &&& final(self).was_running == was
                    &&& final(self).had_processes == old(self).had_processes
                    &&& if was || old(self).had_processes {
                        r == MacAction::Quit && final(self).phase == MacPhase::AwaitQuit
                    } else {
                        r == MacAction::Launch && final(self).phase == MacPhase::AwaitLaunch
                    }
                },
                _ => false,
            },
            old(self).phase == MacPhase::AwaitQuit ==> r == MacAction::WaitUntilGone(5)
                && final(self).phase == MacPhase::AwaitGoneGraceful,
            old(self).phase == MacPhase::AwaitGoneGraceful ==> match event {
                RestartEvent::Flag(Err(m)) => r == MacAction::Finish(Err(m)),
                RestartEvent::Flag(Ok(true)) => r == MacAction::Launch && final(self).phase
                    == MacPhase::AwaitLaunch,
                RestartEvent::Flag(Ok(false)) => (r matches MacAction::Signal(sig) && sig@ == "-TERM"@)
                    && final(self).phase == MacPhase::AwaitTerminate,
                _ => false,
            },
            old(self).phase == MacPhase::AwaitTerminate ==> match event {
                RestartEvent::Done(Err(m)) => r == MacAction::Finish(Err(m)),
                RestartEvent::Done(Ok(())) => r == MacAction::WaitUntilGone(10) && final(self).phase
                    == MacPhase::AwaitGoneTerminated,
                _ => false,
            },
            old(self).phase == MacPhase::AwaitGoneTerminated ==> match event {
                RestartEvent::Flag(Err(m)) => r == MacAction::Finish(Err(m)),
                RestartEvent::Flag(Ok(true)) => r == MacAction::Launch && final(self).phase
                    == MacPhase::AwaitLaunch,
                RestartEvent::Flag(Ok(false)) => (r matches MacAction::Signal(sig) && sig@ == "-KILL"@)
                    && final(self).phase == MacPhase::AwaitKill,
                _ => false,
            },
            old(self).phase == MacPhase::AwaitKill ==> match event {
                RestartEvent::Done(Err(m)) => r == MacAction::Finish(Err(m)),
                RestartEvent::Done(Ok(())) => r == MacAction::WaitUntilGone(5) && final(self).phase
                    == MacPhase::AwaitGoneKilled,
                _ => false,
            },
            old(self).phase == MacPhase::AwaitGoneKilled ==> match event {
                RestartEvent::Flag(Err(m)) => r == MacAction::Finish(Err(m)),
                RestartEvent::Flag(Ok(true)) => r == MacAction::Launch && final(self).phase
                    == MacPhase::AwaitLaunch,
                RestartEvent::Flag(Ok(false)) => r matches MacAction::Finish(Err(m)) && m@
                    == "等待 Codex App 退出超时"@,
                _ => false,
            },
            old(self).phase == MacPhase::AwaitLaunch ==> match event {
                RestartEvent::Done(Err(m)) => r == MacAction::Finish(Err(m)),
                RestartEvent::Done(Ok(())) => r == MacAction::WaitUntilRunning(15) && final(self).phase
                    == MacPhase::AwaitStarted,
                _ => false,
            },
            old(self).phase == MacPhase::AwaitStarted ==> match event {
                RestartEvent::Flag(Err(m)) => r == MacAction::Finish(Err(m)),
                RestartEvent::Flag(Ok(true)) => r matches MacAction::Finish(Ok(rep)) && mac_reports(
                    rep,
                    *old(self),
                ),
                RestartEvent::Flag(Ok(false)) => r == MacAction::CheckRunning && final(self).phase
                    == MacPhase::AwaitConfirm,
                _ => false,
            },
            old(self).phase == MacPhase::AwaitConfirm ==> match event {
                RestartEvent::Flag(Err(m)) => r == MacAction::Finish(Err(m)),
                RestartEvent::Flag(Ok(true)) => r matches MacAction::Finish(Ok(rep)) && mac_reports(
                    rep,
                    *old(self),
                ),
                RestartEvent::Flag(Ok(false)) => r matches MacAction::Finish(Err(m)) && m@
                    == "等待 Codex App 启动超时"@,
                _ => false,
            },
            old(self).phase != MacPhase::AwaitProcesses && old(self).phase
                != MacPhase::AwaitRunning ==> final(self).was_running == old(self).was_running
                && final(self).had_processes == old(self).had_processes,
            r is Finish <==> final(self).phase == MacPhase::Done,
    {
        match self.phase {
            MacPhase::Begin => {
                self.phase = MacPhase::AwaitProcesses;
                MacAction::CheckProcesses
            },
            MacPhase::AwaitProcesses => match event {
                RestartEvent::Flag(Ok(had)) => {
                    self.had_processes = had;
                    self.phase = MacPhase::AwaitRunning;
                    MacAction::CheckRunning
                },
                RestartEvent::Flag(Err(m)) => self.finish(Err(m)),
                _ => self.finish(Err(String::new())),
            },
            MacPhase::AwaitRunning => match event {
                RestartEvent::Flag(running) => {
                    let was = match running {
                        Ok(b) => b,
                        Err(_) => self.had_processes,
                    };
                    self.was_running = was;
                    if was || self.had_processes {
                        self.phase = MacPhase::AwaitQuit;
                        MacAction::Quit
                    } else {
                        self.phase = MacPhase::AwaitLaunch;
                        MacAction::Launch
                    }
                },
                _ => self.finish(Err(String::new())),
            },
            MacPhase::AwaitQuit => {
                self.phase = MacPhase::AwaitGoneGraceful;
                MacAction::WaitUntilGone(5)
            },
            MacPhase::AwaitGoneGraceful => self.after_wait(event, "-TERM", MacPhase::AwaitTerminate),
            MacPhase::AwaitTerminate => self.after_signal(event, 10, MacPhase::AwaitGoneTerminated),
            MacPhase::AwaitGoneTerminated => self.after_wait(event, "-KILL", MacPhase::AwaitKill),
            MacPhase::AwaitKill => self.after_signal(event, 5, MacPhase::AwaitGoneKilled),
            MacPhase::AwaitGoneKilled => match event {
                RestartEvent::Flag(Ok(true)) => {
                    self.phase = MacPhase::AwaitLaunch;
                    MacAction::Launch
                },
                RestartEvent::Flag(Ok(false)) => self.finish(Err(String::from_str("等待 Codex App 退出超时"))),
                RestartEvent::Flag(Err(m)) => self.finish(Err(m)),
                _ => self.finish(Err(String::new())),
            },
            MacPhase::AwaitLaunch => self.after_signal(event, 15, MacPhase::AwaitStarted),
            MacPhase::AwaitStarted => match event {
                RestartEvent::Flag(Ok(true)) => {
                    let rep = self.report();
                    self.finish(Ok(rep))
                },
                RestartEvent::Flag(Ok(false)) => {
                    self.phase = MacPhase::AwaitConfirm;
                    MacAction::CheckRunning
                },
                RestartEvent::Flag(Err(m)) => self.finish(Err(m)),
                _ => self.finish(Err(String::new())),
            },
            MacPhase::AwaitConfirm => match event {
                RestartEvent::Flag(Ok(true)) => {
                    let rep = self.report();
                    self.finish(Ok(rep))
                },
                RestartEvent::Flag(Ok(false)) => self.finish(Err(String::from_str("等待 Codex App 启动超时"))),
                RestartEvent::Flag(Err(m)) => self.finish(Err(m)),
                _ => self.finish(Err(String::new())),
            },
            MacPhase::Done => self.finish(Err(String::new())),
        }
    }

    fn finish(&mut self, outcome: Result<CodexAppRestartResult, String>) -> (r: MacAction)
        ensures
            r == MacAction::Finish(outcome),
            final(self).phase == MacPhase::Done,
            final(self).app_path == old(self).app_path,
            final(self).was_running == old(self).was_running,
            final(self).had_processes == old(self).had_processes,
    {
        self.phase = MacPhase::Done;
        MacAction::Finish(outcome)
    }

    fn after_wait(&mut self, event: RestartEvent, signal: &str, next: MacPhase) -> (r: MacAction)
        requires
            next != MacPhase::Done,
        ensures
            final(self).app_path == old(self).app_path,
            final(self).was_running == old(self).was_running,
            final(self).had_processes == old(self).had_processes,
            match event {
                RestartEvent::Flag(Err(m)) => r == MacAction::Finish(Err(m)) && final(self).phase
                    == MacPhase::Done,
                RestartEvent::Flag(Ok(true)) => r == MacAction::Launch && final(self).phase
                    == MacPhase::AwaitLaunch,
                RestartEvent::Flag(Ok(false)) => (r matches MacAction::Signal(sig) && sig@ == signal@)
                    && final(self).phase == next,
                _ => r is Finish && final(self).phase == MacPhase::Done,
            },
    {
        match event {
            RestartEvent::Flag(Ok(true)) => {
                self.phase = MacPhase::AwaitLaunch;
                MacAction::Launch
            },
            RestartEvent::Flag(Ok(false)) => {
                self.phase = next;
                MacAction::Signal(String::from_str(signal))
            },
            RestartEvent::Flag(Err(m)) => self.finish(Err(m)),
            _ => self.finish(Err(String::new())),
        }
    }

    fn after_signal(&mut self, event: RestartEvent, secs: u64, next: MacPhase) -> (r: MacAction)
        requires
            next != MacPhase::Done,
            next == MacPhase::AwaitStarted ==> secs == 15,
        ensures
            final(self).app_path == old(self).app_path,
            final(self).was_running == old(self).was_running,
            final(self).had_processes == old(self).had_processes,
            match event {
                RestartEvent::Done(Err(m)) => r == MacAction::Finish(Err(m)) && final(self).phase
                    == MacPhase::Done,
                RestartEvent::Done(Ok(())) => (if next == MacPhase::AwaitStarted {
                    r == MacAction::WaitUntilRunning(secs)
                } else {
                    r == MacAction::WaitUntilGone(secs)
                }) && final(self).phase == next,
                _ => r is Finish && final(self).phase == MacPhase::Done,
            },
    {
        match event {
            RestartEvent::Done(Ok(())) => {
                let starting = next == MacPhase::AwaitStarted;
                self.phase = next;
                if starting {
                    MacAction::WaitUntilRunning(secs)
                } else {
                    MacAction::WaitUntilGone(secs)
                }
            },
            RestartEvent::Done(Err(m)) => self.finish(Err(m)),
            _ => self.finish(Err(String::new())),
        }
    }
}

} // verus!

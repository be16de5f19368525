use vstd::prelude::*;
use crate::error::{Error, ErrorKind};
use crate::process::{LaunchPlan, DEFAULT_READINESS_TIMEOUT_SECS};

verus! {

/// How far the shutdown of a process has come.
#[derive(Clone, Copy, Debug, PartialEq, Eq, Structural)]
pub enum StopPhase {
    /// No stop was asked for.
    Running,
    /// The intent to stop is recorded where the watcher sees it.
    IntentRecorded,
    /// The termination signal was delivered.
    Signalled,
    /// The watcher was joined: the process is gone.
    Stopped,
}

/// The next thing that stopping a process does.
#[derive(Clone, Copy, Debug, PartialEq, Eq, Structural)]
pub enum StopAction {
    /// Set the one-shot intent signal.
    RecordIntent,
    /// Send the graceful termination signal to the process.
    SendTerminate,
    /// Wait for the watcher to finish.
    JoinWatcher,
    /// Nothing is left to do.
    Done,
}

/// How the watcher judges the exit of its process.
#[derive(Clone, Copy, Debug, PartialEq, Eq, Structural)]
pub enum ExitKind {
    /// The process was asked to stop.
    Intentional,
    /// The process ended on its own.
    Unexpected,
}

pub open spec fn intent_recorded(p: StopPhase) -> bool {
    p != StopPhase::Running
}

pub open spec fn signalled(p: StopPhase) -> bool {
    p == StopPhase::Signalled || p == StopPhase::Stopped
}

pub open spec fn next_action_spec(p: StopPhase) -> StopAction {
    match p {
        StopPhase::Running => StopAction::RecordIntent,
        StopPhase::IntentRecorded => StopAction::SendTerminate,
        StopPhase::Signalled => StopAction::JoinWatcher,
        StopPhase::Stopped => StopAction::Done,
    }
}

/// The phase reached once the next action has succeeded.
pub open spec fn advance_spec(p: StopPhase) -> StopPhase {
    match p {
        StopPhase::Running => StopPhase::IntentRecorded,
        StopPhase::IntentRecorded => StopPhase::Signalled,
        StopPhase::Signalled => StopPhase::Stopped,
        StopPhase::Stopped => StopPhase::Stopped,
    }
}

/// The phase after the next action failed: a failed join is final, any
/// other failure leaves the phase as it was.
pub open spec fn failed_spec(p: StopPhase) -> StopPhase {
    if p == StopPhase::Signalled {
        StopPhase::Stopped
    } else {
        p
    }
}

/// A failed join is a watcher failure; anything before it fails as a
/// signal failure.
pub open spec fn action_failure_kind(a: StopAction) -> ErrorKind {
    if a == StopAction::JoinWatcher {
        ErrorKind::WatcherJoinFailed
    } else {
        ErrorKind::SignalFailed
    }
}

pub open spec fn classify_exit_spec(intent: bool) -> ExitKind {
    if intent {
        ExitKind::Intentional
    } else {
        ExitKind::Unexpected
    }
}

/// Judges an exit by whether the intent to stop was recorded before it.
pub fn classify_exit(intent: bool) -> (r: ExitKind)
    ensures
        r == classify_exit_spec(intent),
{
    if intent {
        ExitKind::Intentional
    } else {
        ExitKind::Unexpected
    }
}

/// The intent is recorded before the termination signal goes out and stays
/// recorded, so an exit caused by a stop is judged intentional; an exit while
/// no stop was asked for is judged unexpected.
pub proof fn lemma_stop_is_intentional(p: StopPhase)
    ensures
        next_action_spec(p) == StopAction::SendTerminate ==> intent_recorded(p),
        signalled(p) ==> intent_recorded(p),
        intent_recorded(p) ==> intent_recorded(advance_spec(p)),
        signalled(p) ==> classify_exit_spec(intent_recorded(p)) == ExitKind::Intentional,
        classify_exit_spec(intent_recorded(StopPhase::Running)) == ExitKind::Unexpected,
{
}

/// A supervised program: its name, log file, process identifier, readiness
/// deadline and how far its shutdown has come.
pub struct Process {
    command: String,
    log_file: String,
    pid: u32,
    readiness_timeout: u64,
    phase: StopPhase,
}

impl Process {
    pub closed spec fn command_view(&self) -> Seq<char> {
        self.command@
    }

    pub closed spec fn log_file_view(&self) -> Seq<char> {
        self.log_file@
    }

    pub closed spec fn pid_view(&self) -> u32 {
        self.pid
    }

    pub closed spec fn timeout_view(&self) -> u64 {
        self.readiness_timeout
    }

    pub closed spec fn phase(&self) -> StopPhase {
        self.phase
    }

    /// The record of the program of `plan`, spawned as `pid`.
    pub fn new(plan: &LaunchPlan, pid: u32) -> (r: Process)
        ensures
            r.command_view() == plan.command@,
            r.log_file_view() == plan.log_file@,
            r.pid_view() == pid,
            r.timeout_view() == DEFAULT_READINESS_TIMEOUT_SECS,
            r.phase() == StopPhase::Running,
    {
        Process {
            command: String::from_str(plan.command.as_str()),
            log_file: String::from_str(plan.log_file.as_str()),
            pid,
            readiness_timeout: DEFAULT_READINESS_TIMEOUT_SECS,
            phase: StopPhase::Running,
        }
    }

    /// The pseudo state of a service that is not running.
    pub fn stopped() -> (r: Result<Process, Error>)
        ensures
            r matches Err(e) && e.kind == ErrorKind::Stopped,
    {
        Err(Error::new(ErrorKind::Stopped, "", "Stopped"))
    }

    pub fn command(&self) -> (r: &str)
        ensures
            r@ == self.command_view(),
    {
        self.command.as_str()
    }

    pub fn log_file(&self) -> (r: &str)
        ensures
            r@ == self.log_file_view(),
    {
        self.log_file.as_str()
    }

    pub fn pid(&self) -> (r: u32)
        ensures
            r == self.pid_view(),
    {
        self.pid
    }

    pub fn readiness_timeout(&self) -> (r: u64)
        ensures
            r == self.timeout_view(),
    {
        self.readiness_timeout
    }

    pub fn set_readiness_timeout(&mut self, secs: u64)
        ensures
            final(self).timeout_view() == secs,
            final(self).command_view() == old(self).command_view(),
            final(self).log_file_view() == old(self).log_file_view(),
            final(self).pid_view() == old(self).pid_view(),
            final(self).phase() == old(self).phase(),
    {
        self.readiness_timeout = secs;
    }

    pub fn stop_phase(&self) -> (r: StopPhase)
        ensures
            r == self.phase(),
    {
        self.phase
    }

    /// Whether the watcher should judge an exit now as intentional.
    pub fn intent_recorded(&self) -> (r: bool)
        ensures
            r == intent_recorded(self.phase()),
    {
        self.phase != StopPhase::Running
    }

    /// Admits a stop request: a process whose watcher was already joined, or
    /// whose join failed, refuses a second one.
    pub fn begin_stop(&self) -> (r: Result<(), Error>)
        ensures
            r is Err <==> self.phase() == StopPhase::Stopped,
            r matches Err(e) ==> e.kind == ErrorKind::SignalFailed && e.command@
                == self.command_view(),
    {
        if self.phase == StopPhase::Stopped {
            Err(Error::new(ErrorKind::SignalFailed, self.command.as_str(), "process already stopped"))
        } else {
            Ok(())
        }
    }

    /// What stopping this process does next.
    pub fn next_stop_action(&self) -> (r: StopAction)
        ensures
            r == next_action_spec(self.phase()),
    {
        match self.phase {
            StopPhase::Running => StopAction::RecordIntent,
            StopPhase::IntentRecorded => StopAction::SendTerminate,
            StopPhase::Signalled => StopAction::JoinWatcher,
            StopPhase::Stopped => StopAction::Done,
        }
    }

    /// Takes note of how the next action went: on success the shutdown moves
    /// one phase on. A failed intent or signal leaves the phase where it was,
    /// so a later stop may try again; a failed join ends the shutdown, since
    /// the watcher is joined at most once. A failure is reported with
    /// `detail`.
    pub fn finish_stop_action(&mut self, succeeded: bool, detail: &str) -> (r: Result<(), Error>)
        ensures
            r is Ok <==> succeeded,
            succeeded ==> final(self).phase() == advance_spec(old(self).phase()),
            !succeeded ==> final(self).phase() == failed_spec(old(self).phase()),
            r matches Err(e) ==> e.kind == action_failure_kind(next_action_spec(old(self).phase()))
                && e.command@ == old(self).command_view() && e.detail@ == detail@,
            final(self).command_view() == old(self).command_view(),
            final(self).log_file_view() == old(self).log_file_view(),
            final(self).pid_view() == old(self).pid_view(),
            final(self).timeout_view() == old(self).timeout_view(),
    {
        if succeeded {
            self.phase = match self.phase {
                StopPhase::Running => StopPhase::IntentRecorded,
                StopPhase::IntentRecorded => StopPhase::Signalled,
                StopPhase::Signalled => StopPhase::Stopped,
                StopPhase::Stopped => StopPhase::Stopped,
            };
            Ok(())
        } else {
            let kind = if self.phase == StopPhase::Signalled {
                ErrorKind::WatcherJoinFailed
            } else {
                ErrorKind::SignalFailed
            };
            if self.phase == StopPhase::Signalled {
                self.phase = StopPhase::Stopped;
            }
            Err(Error::new(kind, self.command.as_str(), detail))
        }
    }
}

} // verus!

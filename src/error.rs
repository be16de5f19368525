use vstd::prelude::*;

verus! {

/// What went wrong while supervising a program.
#[derive(Clone, Copy, Debug, PartialEq, Eq, Structural)]
pub enum ErrorKind {
    /// The program name was empty.
    InvalidCommand,
    /// The operating system could not create the process.
    SpawnFailed,
    /// A directory, file or permission could not be created or written.
    IoFailure,
    /// The readiness marker did not show up before the deadline.
    ReadinessTimeout,
    /// The termination request could not be delivered.
    SignalFailed,
    /// The background watcher could not be joined cleanly.
    WatcherJoinFailed,
    /// The pseudo state of a service that is not running.
    Stopped,
}

/// A failure, with the program it concerns and the underlying detail text.
#[derive(Debug)]
pub struct Error {
    pub kind: ErrorKind,
    pub command: String,
    pub detail: String,
}

pub open spec fn kind_text(kind: ErrorKind) -> Seq<char> {
    match kind {
        ErrorKind::InvalidCommand => "invalid command"@,
        ErrorKind::SpawnFailed => "unable to spawn process"@,
        ErrorKind::IoFailure => "input/output failure"@,
        ErrorKind::ReadinessTimeout => "timed out waiting for process to become ready"@,
        ErrorKind::SignalFailed => "unable to send termination signal"@,
        ErrorKind::WatcherJoinFailed => "unable to join process watcher"@,
        ErrorKind::Stopped => "stopped"@,
    }
}

/// The text of an error: its kind, the program in quotes, and the detail.
pub open spec fn message_spec(kind: ErrorKind, command: Seq<char>, detail: Seq<char>) -> Seq<char> {
    kind_text(kind) + " '"@ + command + "': "@ + detail
}

impl ErrorKind {
    /// A short description of the kind.
    pub fn text(&self) -> (r: &'static str)
        ensures
            r@ == kind_text(*self),
    {
        match self {
            ErrorKind::InvalidCommand => "invalid command",
            ErrorKind::SpawnFailed => "unable to spawn process",
            ErrorKind::IoFailure => "input/output failure",
            ErrorKind::ReadinessTimeout => "timed out waiting for process to become ready",
            ErrorKind::SignalFailed => "unable to send termination signal",
            ErrorKind::WatcherJoinFailed => "unable to join process watcher",
            ErrorKind::Stopped => "stopped",
        }
    }
}

impl Error {
    pub fn new(kind: ErrorKind, command: &str, detail: &str) -> (r: Error)
        ensures
            r.kind == kind,
            r.command@ == command@,
            r.detail@ == detail@,
    {
        Error { kind, command: String::from_str(command), detail: String::from_str(detail) }
    }

    pub fn kind(&self) -> (r: ErrorKind)
        ensures
            r == self.kind,
    {
        self.kind
    }

    /// The human-readable text of the error.
    pub fn message(&self) -> (r: String)
        ensures
            r@ == message_spec(self.kind, self.command@, self.detail@),
    {
        let mut r = String::from_str(self.kind.text());
        r.append(" '");
        r.append(self.command.as_str());
        r.append("': ");
        r.append(self.detail.as_str());
        r
    }
}

} // verus!

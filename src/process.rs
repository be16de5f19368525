use vstd::prelude::*;
use crate::error::{Error, ErrorKind};
use crate::paths::{join, join_spec};

verus! {

/// How long a process may take to print its readiness marker, in seconds.
pub const DEFAULT_READINESS_TIMEOUT_SECS: u64 = 30;

/// The permission bits of the run record: rwxr-xr-x.
pub const RUN_RECORD_MODE: u32 = 0o755;

/// What separates the program and its arguments in the run record: a line
/// continuation followed by an indent.
pub open spec fn continuation() -> Seq<char> {
    " \\\n    "@
}

/// Each argument on a continuation line of its own.
pub open spec fn continuation_lines(args: Seq<Seq<char>>) -> Seq<char>
    decreases args.len(),
{
    if args.len() == 0 {
        Seq::empty()
    } else {
        continuation_lines(args.drop_last()) + continuation() + args.last()
    }
}

/// The run record of a program: its name, then one argument per continuation
/// line, then a final newline.
pub open spec fn run_script_spec(command: Seq<char>, args: Seq<Seq<char>>) -> Seq<char> {
    command + continuation_lines(args) + "\n"@
}

pub open spec fn views(args: Seq<String>) -> Seq<Seq<char>> {
    args.map_values(|a: String| a@)
}

/// Where the text of argument `i` (with its leading separator) starts in the
/// run record.
pub open spec fn arg_offset(command: Seq<char>, args: Seq<Seq<char>>, i: int) -> int {
    (command.len() + continuation_lines(args.take(i)).len()) as int
}

proof fn lemma_continuation_lines_layout(args: Seq<Seq<char>>, i: int)
    requires
        0 <= i < args.len(),
    ensures
        continuation_lines(args).subrange(
            continuation_lines(args.take(i)).len() as int,
            (continuation_lines(args.take(i)).len() + continuation().len() + args[i].len()) as int,
        ) == continuation() + args[i],
        continuation_lines(args.take(i)).len() + continuation().len() + args[i].len()
            <= continuation_lines(args).len(),
    decreases args.len(),
{
    let prev = args.drop_last();
    assert(args.take(args.len() as int) =~= args);
    if i == args.len() - 1 {
        assert(args.take(i) =~= prev);
        assert(continuation_lines(args) =~= continuation_lines(prev) + (continuation() + args[i]));
    } else {
        lemma_continuation_lines_layout(prev, i);
        assert(prev.take(i) =~= args.take(i));
        let lo = continuation_lines(args.take(i)).len() as int;
        let hi = lo + continuation().len() + args[i].len();
        let whole = continuation_lines(args);
        assert(whole =~= continuation_lines(prev) + (continuation() + args.last()));
        assert(whole.subrange(lo, hi) =~= continuation_lines(prev).subrange(lo, hi));
    }
}

/// The run record starts with the program name, ends with a newline, and
/// holds each argument, in order, on a continuation line of its own.
pub proof fn lemma_run_record_layout(command: Seq<char>, args: Seq<Seq<char>>)
    ensures
        run_script_spec(command, args).subrange(0, command.len() as int) == command,
        run_script_spec(command, args).last() == '\n',
        forall|i: int|
            0 <= i < args.len() ==> #[trigger] run_script_spec(command, args).subrange(
                arg_offset(command, args, i),
                arg_offset(command, args, i) + continuation().len() + args[i].len(),
            ) == continuation() + args[i],
{
    let s = run_script_spec(command, args);
    assert(s.subrange(0, command.len() as int) =~= command);
    reveal_strlit("\n");
    assert forall|i: int| 0 <= i < args.len() implies #[trigger] s.subrange(
        arg_offset(command, args, i),
        arg_offset(command, args, i) + continuation().len() + args[i].len(),
    ) == continuation() + args[i] by {
        lemma_continuation_lines_layout(args, i);
        let lines = continuation_lines(args);
        let lo = continuation_lines(args.take(i)).len() as int;
        let hi = lo + continuation().len() + args[i].len();
        assert(s =~= command + (lines + "\n"@));
        assert(s.subrange(command.len() + lo, command.len() + hi) =~= lines.subrange(lo, hi));
    }
}

/// Renders the run record of `command` started with `args`.
pub fn run_script(command: &str, args: &Vec<String>) -> (r: String)
    ensures
        r@ == run_script_spec(command@, views(args@)),
{
    let mut r = String::from_str(command);
    let mut i: usize = 0;
    while i < args.len()
        invariant
            i <= args.len(),
            r@ == command@ + continuation_lines(views(args@).take(i as int)),
        decreases args.len() - i,
    {
        r.append(" \\\n    ");
        r.append(args[i].as_str());
        proof {
            let vs = views(args@);
            assert(vs.take(i as int + 1).drop_last() =~= vs.take(i as int));
        }
        i = i + 1;
    }
    proof {
        assert(views(args@).take(args.len() as int) =~= views(args@));
    }
    r.append("\n");
    r
}

pub open spec fn log_dir_spec(root: Seq<char>) -> Seq<char> {
    join_spec(root, "log"@)
}

/// The log file of a program: `<root>/log/<command>.log`, always inside the
/// log directory, whatever the program name holds.
pub open spec fn log_file_spec(root: Seq<char>, command: Seq<char>) -> Seq<char> {
    log_dir_spec(root) + "/"@ + command + ".log"@
}

pub open spec fn run_file_spec(dir: Seq<char>) -> Seq<char> {
    join_spec(dir, "run.sh"@)
}

/// Two different programs log to two different files under the same root,
/// so their output never mixes.
pub proof fn lemma_distinct_log_files(root: Seq<char>, c1: Seq<char>, c2: Seq<char>)
    requires
        c1 != c2,
    ensures
        log_file_spec(root, c1) != log_file_spec(root, c2),
{
    let p = log_dir_spec(root) + "/"@;
    let f1 = log_file_spec(root, c1);
    let f2 = log_file_spec(root, c2);
    if f1 == f2 {
        assert(f1 =~= p + c1 + ".log"@);
        assert(f2 =~= p + c2 + ".log"@);
        assert(c1.len() == c2.len());
        assert(c1 =~= f1.subrange(p.len() as int, (p.len() + c1.len()) as int));
        assert(c2 =~= f2.subrange(p.len() as int, (p.len() + c2.len()) as int));
    }
}

/// Everything that starting a program needs, worked out before anything is
/// touched on disk.
pub struct LaunchPlan {
    pub command: String,
    pub args: Vec<String>,
    pub log_dir: String,
    pub log_file: String,
    pub work_dir: String,
    pub run_file: String,
    pub run_script: String,
}

impl LaunchPlan {
    /// The plan is the one for `command` with `args`, logging under `root`
    /// and recording the invocation in `dir`.
    pub open spec fn describes(
        &self,
        root: Seq<char>,
        dir: Seq<char>,
        command: Seq<char>,
        args: Seq<Seq<char>>,
    ) -> bool {
        &&& self.command@ == command
        &&& views(self.args@) == args
        &&& self.log_dir@ == log_dir_spec(root)
        &&& self.log_file@ == log_file_spec(root, command)
        &&& self.work_dir@ == dir
        &&& self.run_file@ == run_file_spec(dir)
        &&& self.run_script@ == run_script_spec(command, args)
    }
}

fn copy_args(args: &Vec<String>) -> (r: Vec<String>)
    ensures
        views(r@) == views(args@),
{
    let mut r: Vec<String> = Vec::new();
    let mut i: usize = 0;
    while i < args.len()
        invariant
            i <= args.len(),
            r@.len() == i,
            views(r@) =~= views(args@).take(i as int),
        decreases args.len() - i,
    {
        let a = String::from_str(args[i].as_str());
        let ghost before = r@;
        r.push(a);
        proof {
            assert(views(r@) =~= views(before).push(args@[i as int]@));
            assert(views(args@).take(i as int + 1) =~= views(args@).take(i as int).push(
                args@[i as int]@,
            ));
        }
        i = i + 1;
    }
    proof {
        assert(views(args@).take(args.len() as int) =~= views(args@));
    }
    r
}

/// Works out how `command` is started: an empty program name is refused
/// before anything else happens.
pub fn plan_launch(root: &str, dir: &str, command: &str, args: &Vec<String>) -> (r: Result<
    LaunchPlan,
    Error,
>)
    ensures
        r is Err <==> command@.len() == 0,
        r matches Err(e) ==> e.kind == ErrorKind::InvalidCommand && e.command@ == command@,
        r matches Ok(p) ==> p.describes(root@, dir@, command@, views(args@)),
{
    if command.unicode_len() == 0 {
        return Err(Error::new(ErrorKind::InvalidCommand, command, "no valid command provided"));
    }
    let log_dir = join(root, "log");
    let mut log_file = String::from_str(log_dir.as_str());
    log_file.append("/");
    log_file.append(command);
    log_file.append(".log");
    Ok(LaunchPlan {
        command: String::from_str(command),
        args: copy_args(args),
        log_dir,
        log_file,
        work_dir: String::from_str(dir),
        run_file: join(dir, "run.sh"),
        run_script: run_script(command, args),
    })
}

/// The steps of starting a program, in the order in which they are taken.
#[derive(Clone, Copy, Debug, PartialEq, Eq, Structural)]
pub enum LaunchStep {
    /// Create the shared log directory if it is absent.
    CreateLogDir,
    /// Create or truncate the program's log file.
    CreateLogFile,
    /// Spawn the program with both output streams on the log file, and start
    /// its watcher.
    Spawn,
    /// Create the working directory if it is absent.
    CreateWorkDir,
    /// Write the run record.
    WriteRunRecord,
    /// Make the run record executable.
    SetRunRecordMode,
}

pub open spec fn step_index(s: LaunchStep) -> nat {
    match s {
        LaunchStep::CreateLogDir => 0,
        LaunchStep::CreateLogFile => 1,
        LaunchStep::Spawn => 2,
        LaunchStep::CreateWorkDir => 3,
        LaunchStep::WriteRunRecord => 4,
        LaunchStep::SetRunRecordMode => 5,
    }
}

pub open spec fn next_step_spec(s: LaunchStep) -> Option<LaunchStep> {
    match s {
        LaunchStep::CreateLogDir => Some(LaunchStep::CreateLogFile),
        LaunchStep::CreateLogFile => Some(LaunchStep::Spawn),
        LaunchStep::Spawn => Some(LaunchStep::CreateWorkDir),
        LaunchStep::CreateWorkDir => Some(LaunchStep::WriteRunRecord),
        LaunchStep::WriteRunRecord => Some(LaunchStep::SetRunRecordMode),
        LaunchStep::SetRunRecordMode => None,
    }
}

/// Only the spawn itself fails as a spawn failure; every other step is
/// file-system work.
pub open spec fn step_failure_kind(s: LaunchStep) -> ErrorKind {
    if s == LaunchStep::Spawn {
        ErrorKind::SpawnFailed
    } else {
        ErrorKind::IoFailure
    }
}

impl LaunchStep {
    pub fn first() -> (r: LaunchStep)
        ensures
            r == LaunchStep::CreateLogDir,
            step_index(r) == 0,
    {
        LaunchStep::CreateLogDir
    }

    pub fn next(self) -> (r: Option<LaunchStep>)
        ensures
            r == next_step_spec(self),
    {
        match self {
            LaunchStep::CreateLogDir => Some(LaunchStep::CreateLogFile),
            LaunchStep::CreateLogFile => Some(LaunchStep::Spawn),
            LaunchStep::Spawn => Some(LaunchStep::CreateWorkDir),
            LaunchStep::CreateWorkDir => Some(LaunchStep::WriteRunRecord),
            LaunchStep::WriteRunRecord => Some(LaunchStep::SetRunRecordMode),
            LaunchStep::SetRunRecordMode => None,
        }
    }

    /// The error reported when this step fails for `command`.
    pub fn failure(self, command: &str, detail: &str) -> (r: Error)
        ensures
            r.kind == step_failure_kind(self),
            r.command@ == command@,
            r.detail@ == detail@,
    {
        let kind = if self == LaunchStep::Spawn {
            ErrorKind::SpawnFailed
        } else {
            ErrorKind::IoFailure
        };
        Error::new(kind, command, detail)
    }
}

/// Starting a program takes its steps one after the other, from the creation
/// of the log directory on; every step before the spawn fails as an
/// input/output failure, so a log directory that cannot be created stops the
/// start with such a failure before any process exists.
pub proof fn lemma_log_dir_failure_precedes_spawn()
    ensures
        step_index(LaunchStep::CreateLogDir) == 0,
        forall|s: LaunchStep|
            #[trigger] next_step_spec(s) matches Some(t) ==> step_index(t) == step_index(s) + 1,
        step_index(LaunchStep::CreateLogDir) < step_index(LaunchStep::Spawn),
        forall|s: LaunchStep|
            step_index(s) < step_index(LaunchStep::Spawn) ==> #[trigger] step_failure_kind(s)
                == ErrorKind::IoFailure,
{
}

/// Some window `line[i .. i + marker.len()]` is exactly `marker`.
pub open spec fn contains_spec(line: Seq<char>, marker: Seq<char>) -> bool {
    exists|i: int|
        0 <= i && i + marker.len() <= line.len() && #[trigger] line.subrange(i, i + marker.len())
            == marker
}

fn chars_of(s: &str) -> (r: Vec<char>)
    ensures
        r@ == s@,
{
    let n = s.unicode_len();
    let mut r: Vec<char> = Vec::new();
    let mut i: usize = 0;
    while i < n
        invariant
            n == s@.len(),
            i <= n,
            r@ =~= s@.take(i as int),
        decreases n - i,
    {
        r.push(s.get_char(i));
        i = i + 1;
    }
    proof {
        assert(s@.take(n as int) =~= s@);
    }
    r
}

/// Whether `marker` occurs in `line` as a literal substring.
pub fn line_has_marker(line: &str, marker: &str) -> (r: bool)
    ensures
        r == contains_spec(line@, marker@),
{
    let hay = chars_of(line);
    let needle = chars_of(marker);
    let n = hay.len();
    let m = needle.len();
    if m > n {
        return false;
    }
    let mut i: usize = 0;
    while i <= n - m
        invariant
            hay@ == line@,
            needle@ == marker@,
            n == line@.len(),
            m == marker@.len(),
            m <= n,
            i <= n - m + 1,
            forall|k: int| 0 <= k < i ==> #[trigger] line@.subrange(k, k + m) != marker@,
        decreases n - m + 1 - i,
    {
        let mut j: usize = 0;
        let mut same = true;
        while j < m && same
            invariant
                hay@ == line@,
                needle@ == marker@,
                n == line@.len(),
                m == marker@.len(),
                i + m <= n,
                j <= m,
                same ==> forall|jj: int| 0 <= jj < j ==> line@[i + jj] == marker@[jj],
                !same ==> j > 0 && line@[i + j - 1] != marker@[j - 1],
            decreases m - j,
        {
            if hay[i + j] != needle[j] {
                same = false;
            }
            j = j + 1;
        }
        if same {
            assert(line@.subrange(i as int, i + m) =~= marker@);
            return true;
        }
        assert(line@.subrange(i as int, i + m)[j - 1] != marker@[j - 1]);
        i = i + 1;
    }
    false
}

/// What one look at the log tells about readiness.
#[derive(Clone, Copy, Debug, PartialEq, Eq, Structural)]
pub enum Readiness {
    /// The marker was found: the process is ready.
    Ready,
    /// Not yet: read on.
    Pending,
    /// The deadline has passed without the marker.
    TimedOut,
}

pub open spec fn readiness_spec(
    line: Seq<char>,
    marker: Seq<char>,
    elapsed_secs: u64,
    timeout_secs: u64,
) -> Readiness {
    if contains_spec(line, marker) {
        Readiness::Ready
    } else if elapsed_secs >= timeout_secs {
        Readiness::TimedOut
    } else {
        Readiness::Pending
    }
}

/// Judges the line read last (empty when nothing was read) after
/// `elapsed_secs` of waiting: a line holding the marker makes the process
/// ready; otherwise the wait goes on while time remains.
pub fn readiness_verdict(line: &str, marker: &str, elapsed_secs: u64, timeout_secs: u64) -> (r:
    Readiness)
    ensures
        r == readiness_spec(line@, marker@, elapsed_secs, timeout_secs),
{
    if line_has_marker(line, marker) {
        Readiness::Ready
    } else if elapsed_secs >= timeout_secs {
        Readiness::TimedOut
    } else {
        Readiness::Pending
    }
}

pub open spec fn timeout_detail(marker: Seq<char>) -> Seq<char> {
    "marker '"@ + marker + "' not found"@
}

/// The detail of a timeout whose cleanup stop failed too: the marker first,
/// then the stop's own detail.
pub open spec fn timeout_stop_failed_detail(marker: Seq<char>, stop_detail: Seq<char>) -> Seq<char> {
    timeout_detail(marker) + "; stopping the process failed: "@ + stop_detail
}

/// The error of a wait that ran out of time: always a readiness timeout
/// naming the marker that never showed up. The stop that cleaned up after it
/// is best effort; where it failed, its detail is added to the text.
pub fn readiness_failure(command: &str, marker: &str, stopped: Result<(), Error>) -> (r: Error)
    ensures
        r.kind == ErrorKind::ReadinessTimeout,
        r.command@ == command@,
        stopped is Ok ==> r.detail@ == timeout_detail(marker@),
        stopped matches Err(e) ==> r.detail@ == timeout_stop_failed_detail(marker@, e.detail@),
{
    let mut detail = String::from_str("marker '");
    detail.append(marker);
    detail.append("' not found");
    if let Err(e) = stopped {
        detail.append("; stopping the process failed: ");
        detail.append(e.detail.as_str());
    }
    Error::new(ErrorKind::ReadinessTimeout, command, detail.as_str())
}

} // verus!

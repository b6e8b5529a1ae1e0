//! The boundary to the outside world. The library never touches a file, a
//! process or the clock: it hands out an `Action`, and takes the `Reply`
//! that describes how performing it went.

use crate::command::{Command, CommandView, ExitStatus, Output, OutputView};
use vstd::prelude::*;
use vstd::string::*;

verus! {

/// The classes of I/O failure that decisions depend on.
#[derive(Clone, Copy, Debug, PartialEq, Eq, Structural)]
pub enum IoErrorKind {
    NotFound,
    PermissionDenied,
    AlreadyExists,
    Other,
}

/// An I/O failure: its class and the system's description of it.
#[derive(Debug)]
pub struct IoError {
    pub kind: IoErrorKind,
    pub message: String,
}

/// What a `IoError` holds, as contracts speak of it.
pub struct IoErrorView {
    pub kind: IoErrorKind,
    pub message: Seq<char>,
}

impl View for IoError {
    type V = IoErrorView;

    open spec fn view(&self) -> IoErrorView {
        IoErrorView { kind: self.kind, message: self.message@ }
    }
}

impl DeepView for IoError {
    type V = IoErrorView;

    open spec fn deep_view(&self) -> IoErrorView {
        self@
    }
}

impl IoErrorView {
    /// The failure recorded when a reply does not answer the action it was
    /// given for.
    pub open spec fn unexpected() -> IoErrorView {
        IoErrorView { kind: IoErrorKind::Other, message: "unexpected reply"@ }
    }
}

impl IoError {
    pub fn unexpected() -> (e: IoError)
        ensures
            e@ == IoErrorView::unexpected(),
    {
        IoError { kind: IoErrorKind::Other, message: String::from_str("unexpected reply") }
    }
}

/// One thing for the embedding program to do.
#[derive(Debug)]
pub enum Action {
    /// Create the directory `path`; with `recursive`, its missing parents
    /// too, and an existing directory is no failure.
    CreateDir { path: String, recursive: bool },
    /// Create the file `path` and keep it open as the log of job `job`.
    OpenLog { job: usize, path: String },
    /// Write `text` to the log of job `job`.
    WriteLog { job: usize, text: String },
    /// Write `content` to the file `path`, replacing what it held.
    WriteFile { path: String, content: String },
    /// Remove the file `path`.
    RemoveFile { path: String },
    /// Create the symbolic link `link` that points to `target`.
    Symlink { target: String, link: String },
    /// Run the command to its end and collect its output.
    Run { command: Command },
    /// Start the command as the process of job `job`, its output going to
    /// the job's log, without waiting for it.
    Spawn { job: usize, command: Command },
    /// Ask, without blocking, whether the process of job `job` has ended.
    Poll { job: usize },
    /// Wait until the process of job `job` has ended.
    Wait { job: usize },
    /// Pause for `millis` milliseconds.
    Sleep { millis: u64 },
    /// Print a line on standard output.
    Print { line: String },
    /// Print a line on standard error.
    Warn { line: String },
}

/// What a `Action` holds, as contracts speak of it.
pub enum ActionView {
    CreateDir { path: Seq<char>, recursive: bool },
    OpenLog { job: usize, path: Seq<char> },
    WriteLog { job: usize, text: Seq<char> },
    WriteFile { path: Seq<char>, content: Seq<char> },
    RemoveFile { path: Seq<char> },
    Symlink { target: Seq<char>, link: Seq<char> },
    Run { command: CommandView },
    Spawn { job: usize, command: CommandView },
    Poll { job: usize },
    Wait { job: usize },
    Sleep { millis: u64 },
    Print { line: Seq<char> },
    Warn { line: Seq<char> },
}

impl View for Action {
    type V = ActionView;

    open spec fn view(&self) -> ActionView {
        match self {
            Action::CreateDir { path, recursive } => ActionView::CreateDir {
                path: path@,
                recursive: *recursive,
            },
            Action::OpenLog { job, path } => ActionView::OpenLog { job: *job, path: path@ },
            Action::WriteLog { job, text } => ActionView::WriteLog { job: *job, text: text@ },
            Action::WriteFile { path, content } => ActionView::WriteFile {
                path: path@,
                content: content@,
            },
            Action::RemoveFile { path } => ActionView::RemoveFile { path: path@ },
            Action::Symlink { target, link } => ActionView::Symlink {
                target: target@,
                link: link@,
            },
            Action::Run { command } => ActionView::Run { command: command@ },
            Action::Spawn { job, command } => ActionView::Spawn { job: *job, command: command@ },
            Action::Poll { job } => ActionView::Poll { job: *job },
            Action::Wait { job } => ActionView::Wait { job: *job },
            Action::Sleep { millis } => ActionView::Sleep { millis: *millis },
            Action::Print { line } => ActionView::Print { line: line@ },
            Action::Warn { line } => ActionView::Warn { line: line@ },
        }
    }
}

impl DeepView for Action {
    type V = ActionView;

    open spec fn deep_view(&self) -> ActionView {
        self@
    }
}

/// How performing an action went.
#[derive(Debug)]
pub enum Reply {
    /// Performed; nothing to hand back.
    Done,
    /// Could not be performed.
    Failed(IoError),
    /// A file that the action needs could not be opened or shared, and
    /// nothing else was tried: the input file of a command, or the second
    /// handle on a job's log.
    Unopened(IoError),
    /// The command ran to its end.
    Output(Output),
    /// The process has ended.
    Exited(ExitStatus),
    /// The process is still running.
    Pending,
}

/// What a `Reply` holds, as contracts speak of it.
pub enum ReplyView {
    Done,
    Failed(IoErrorView),
    Unopened(IoErrorView),
    Output(OutputView),
    Exited(ExitStatus),
    Pending,
}

impl View for Reply {
    type V = ReplyView;

    open spec fn view(&self) -> ReplyView {
        match self {
            Reply::Done => ReplyView::Done,
            Reply::Failed(e) => ReplyView::Failed(e@),
            Reply::Unopened(e) => ReplyView::Unopened(e@),
            Reply::Output(o) => ReplyView::Output(o@),
            Reply::Exited(s) => ReplyView::Exited(*s),
            Reply::Pending => ReplyView::Pending,
        }
    }
}

/// `Ok` for `e` of a plain result, viewed.
pub open spec fn unit_view(r: Result<(), IoError>) -> Result<(), IoErrorView> {
    match r {
        Ok(_) => Ok(()),
        Err(e) => Err(e@),
    }
}

/// The result with its parts viewed.
pub open spec fn output_view(r: Result<Output, IoError>) -> Result<OutputView, IoErrorView> {
    match r {
        Ok(o) => Ok(o@),
        Err(e) => Err(e@),
    }
}

impl ReplyView {
    /// The reply read as the outcome of an action that hands nothing back:
    /// any reply but a failure counts as success.
    pub open spec fn unit(self) -> Result<(), IoErrorView> {
        match self {
            ReplyView::Failed(e) => Err(e),
            ReplyView::Unopened(e) => Err(e),
            _ => Ok(()),
        }
    }

    /// The reply read as the outcome of running a command to its end.
    pub open spec fn output(self) -> Result<OutputView, IoErrorView> {
        match self {
            ReplyView::Output(o) => Ok(o),
            ReplyView::Failed(e) => Err(e),
            ReplyView::Unopened(e) => Err(e),
            _ => Err(IoErrorView::unexpected()),
        }
    }
}

impl Reply {
    pub fn unit(self) -> (r: Result<(), IoError>)
        ensures
            unit_view(r) == self@.unit(),
    {
        match self {
            Reply::Failed(e) => Err(e),
            Reply::Unopened(e) => Err(e),
            _ => Ok(()),
        }
    }

    pub fn output(self) -> (r: Result<Output, IoError>)
        ensures
            output_view(r) == self@.output(),
    {
        match self {
            Reply::Output(o) => Ok(o),
            Reply::Failed(e) => Err(e),
            Reply::Unopened(e) => Err(e),
            _ => Err(IoError::unexpected()),
        }
    }
}

/// A failure to remove something that was not there is no failure.
pub open spec fn ignoring_not_found(r: Result<(), IoErrorView>) -> Result<(), IoErrorView> {
    match r {
        Err(e) if e.kind == IoErrorKind::NotFound => Ok(()),
        other => other,
    }
}

/// Turns a `NotFound` failure into success and leaves every other outcome
/// as it is.
pub fn ignore_not_found(r: Result<(), IoError>) -> (out: Result<(), IoError>)
    ensures
        unit_view(out) == ignoring_not_found(unit_view(r)),
{
    match r {
        Ok(()) => Ok(()),
        Err(e) => {
            if e.kind == IoErrorKind::NotFound {
                Ok(())
            } else {
                Err(e)
            }
        },
    }
}

} // verus!

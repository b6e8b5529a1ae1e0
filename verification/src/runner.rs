//! One suite's job, from construction to its recorded outcome. A runner is
//! in exactly one state at a time, and each transition consumes it.

use crate::command::{Command, CommandView, ExitStatus};
use crate::config::{Git, GitView, Suite, SuiteView};
use crate::effect::{Action, ActionView, IoError, IoErrorView, Reply, ReplyView};
use crate::text::{
    decimal, decimal_string, join_path, joined, lowercase, padded_decimal_string, path_below,
    replace, replaced, signed_decimal, signed_decimal_string, strip_prefix, to_lowercase, zero_padded,
};
use crate::util::Arch;
use crate::vm::runner::{StartPhase, VmView};
use crate::vm::{RunnerVm, RunnerVmError};
use crate::vm::runner::ErrorView as RunnerVmErrorView;
use vstd::prelude::*;
use vstd::string::*;

verus! {

/// Why a job did not succeed.
#[derive(Debug)]
pub enum Error {
    LogFile(IoError),
    LogWrite(IoError),
    LogDirectory(IoError),
    LogFileDescriptor(IoError),
    Vm(RunnerVmError),
    RunnerStart(IoError),
    RunnerFinnish(IoError),
    ReturnCode(i32),
}

/// An `Error` as contracts speak of it.
pub enum ErrorView {
    LogFile(IoErrorView),
    LogWrite(IoErrorView),
    LogDirectory(IoErrorView),
    LogFileDescriptor(IoErrorView),
    Vm(RunnerVmErrorView),
    RunnerStart(IoErrorView),
    RunnerFinnish(IoErrorView),
    ReturnCode(i32),
}

impl View for Error {
    type V = ErrorView;

    open spec fn view(&self) -> ErrorView {
        match self {
            Error::LogFile(e) => ErrorView::LogFile(e@),
            Error::LogWrite(e) => ErrorView::LogWrite(e@),
            Error::LogDirectory(e) => ErrorView::LogDirectory(e@),
            Error::LogFileDescriptor(e) => ErrorView::LogFileDescriptor(e@),
            Error::Vm(e) => ErrorView::Vm(e@),
            Error::RunnerStart(e) => ErrorView::RunnerStart(e@),
            Error::RunnerFinnish(e) => ErrorView::RunnerFinnish(e@),
            Error::ReturnCode(code) => ErrorView::ReturnCode(*code),
        }
    }
}

impl DeepView for Error {
    type V = ErrorView;

    open spec fn deep_view(&self) -> ErrorView {
        self@
    }
}

impl ErrorView {
    /// The error as one line of text.
    pub open spec fn message(self) -> Seq<char> {
        match self {
            ErrorView::LogFile(e) => "Cannot create log file: "@ + e.message,
            ErrorView::LogWrite(e) => "Cannot write to log file: "@ + e.message,
            ErrorView::LogDirectory(e) => "Cannot create log directory: "@ + e.message,
            ErrorView::LogFileDescriptor(e) => "Cannot clone log file descriptor: "@ + e.message,
            ErrorView::Vm(e) => "VM error: "@ + e.message(),
            ErrorView::RunnerStart(e) => "Cannot start runner: "@ + e.message,
            ErrorView::RunnerFinnish(e) => "Cannot finnish runner job: "@ + e.message,
            ErrorView::ReturnCode(code) => "Non-zero return code: "@ + signed_decimal(code as int),
        }
    }
}

impl Error {
    /// The error as one line of text.
    pub fn message(&self) -> (s: String)
        ensures
            s@ == self@.message(),
    {
        match self {
            Error::LogFile(e) => {
                let mut s = String::from_str("Cannot create log file: ");
                s.append(e.message.as_str());
                s
            },
            Error::LogWrite(e) => {
                let mut s = String::from_str("Cannot write to log file: ");
                s.append(e.message.as_str());
                s
            },
            Error::LogDirectory(e) => {
                let mut s = String::from_str("Cannot create log directory: ");
                s.append(e.message.as_str());
                s
            },
            Error::LogFileDescriptor(e) => {
                let mut s = String::from_str("Cannot clone log file descriptor: ");
                s.append(e.message.as_str());
                s
            },
            Error::Vm(e) => {
                let mut s = String::from_str("VM error: ");
                s.append(e.message().as_str());
                s
            },
            Error::RunnerStart(e) => {
                let mut s = String::from_str("Cannot start runner: ");
                s.append(e.message.as_str());
                s
            },
            Error::RunnerFinnish(e) => {
                let mut s = String::from_str("Cannot finnish runner job: ");
                s.append(e.message.as_str());
                s
            },
            Error::ReturnCode(code) => {
                let mut s = String::from_str("Non-zero return code: ");
                s.append(signed_decimal_string(*code).as_str());
                s
            },
        }
    }
}

/// The steps of starting a job, in the order in which they are taken.
#[derive(Clone, Copy, Debug, PartialEq, Eq, Structural)]
pub enum RunPhase {
    /// Create the job's log directory.
    CreateLogDir,
    /// Create the job's log file.
    OpenLog,
    /// Write the job's name and command to the log.
    WriteLog,
    /// Start the job's machine.
    Vm(StartPhase),
    /// Start the job's process inside the machine.
    Spawn,
}

/// The steps of ending a job, in the order in which they are taken.
#[derive(Clone, Copy, Debug, PartialEq, Eq, Structural)]
pub enum FinishPhase {
    /// Fetch the artifacts from the machine.
    Retrieve,
    /// Wait for the process to end.
    Wait,
    /// Destroy the machine.
    Destroy,
    /// Report that the machine could not be destroyed.
    Warn,
}

/// Constructed; nothing has been done yet.
#[derive(Debug)]
pub struct New {
    command: Command,
    vm: Option<RunnerVm>,
}

/// Being started: between `New` and `Running`.
#[derive(Debug)]
pub struct Starting {
    command: Command,
    vm: Option<RunnerVm>,
    start: u64,
    phase: RunPhase,
}

/// The job's process is running.
#[derive(Debug)]
pub struct Running {
    start: u64,
    vm: Option<RunnerVm>,
}

/// Being ended: the outcome is being determined and the machine torn down.
#[derive(Debug)]
pub struct Finishing {
    start: u64,
    vm: Option<RunnerVm>,
    phase: FinishPhase,
    outcome: Finished,
    warning: String,
}

/// Ended, with the outcome recorded. Terminal.
#[derive(Debug)]
pub struct Finished {
    error: Option<Error>,
    duration: u64,
}

/// What a `New` holds, as contracts speak of it.
pub struct NewView {
    pub command: CommandView,
    /// The machine that the job runs in; `None` for a job that runs on the
    /// orchestrator's own host.
    pub vm: Option<VmView>,
}

/// What a `Starting` holds, as contracts speak of it.
pub struct StartingView {
    pub command: CommandView,
    pub vm: Option<VmView>,
    /// When the start began, in milliseconds on the caller's clock.
    pub start: u64,
    pub phase: RunPhase,
}

/// What a `Running` holds, as contracts speak of it.
pub struct RunningView {
    pub start: u64,
    pub vm: Option<VmView>,
}

/// What a `Finishing` holds, as contracts speak of it.
pub struct FinishingView {
    pub start: u64,
    pub vm: Option<VmView>,
    pub phase: FinishPhase,
    /// The outcome; settled once the phase is `Destroy` or `Warn`.
    pub outcome: FinishedView,
    /// The warning to print in phase `Warn`.
    pub warning: Seq<char>,
}

/// What a `Finished` holds, as contracts speak of it.
pub struct FinishedView {
    /// `None` for success.
    pub error: Option<ErrorView>,
    /// From the beginning of the start to the end, in milliseconds.
    pub duration: u64,
}

impl View for New {
    type V = NewView;

    closed spec fn view(&self) -> NewView {
        NewView { command: self.command@, vm: self.vm.deep_view() }
    }
}

impl View for Starting {
    type V = StartingView;

    closed spec fn view(&self) -> StartingView {
        StartingView {
            command: self.command@,
            vm: self.vm.deep_view(),
            start: self.start,
            phase: self.phase,
        }
    }
}

impl View for Running {
    type V = RunningView;

    closed spec fn view(&self) -> RunningView {
        RunningView { start: self.start, vm: self.vm.deep_view() }
    }
}

impl View for Finishing {
    type V = FinishingView;

    closed spec fn view(&self) -> FinishingView {
        FinishingView {
            start: self.start,
            vm: self.vm.deep_view(),
            phase: self.phase,
            outcome: self.outcome@,
            warning: self.warning@,
        }
    }
}

impl View for Finished {
    type V = FinishedView;

    closed spec fn view(&self) -> FinishedView {
        FinishedView { error: self.error.deep_view(), duration: self.duration }
    }
}

/// One suite's job in state `S`.
#[derive(Debug)]
pub struct Runner<S> {
    index: usize,
    name: String,
    log_path: String,
    state: S,
}

/// What a `Runner` holds, as contracts speak of it.
pub struct RunnerView<S> {
    /// The job's index, unique within a run; it names the job's process
    /// and its machine.
    pub index: usize,
    /// The suite's display name.
    pub name: Seq<char>,
    /// The job's log directory.
    pub log_path: Seq<char>,
    pub state: S,
}

impl<S: View> View for Runner<S> {
    type V = RunnerView<S::V>;

    closed spec fn view(&self) -> RunnerView<S::V> {
        RunnerView {
            index: self.index,
            name: self.name@,
            log_path: self.log_path@,
            state: self.state@,
        }
    }
}

impl<S: View> DeepView for Runner<S> {
    type V = RunnerView<S::V>;

    open spec fn deep_view(&self) -> RunnerView<S::V> {
        self@
    }
}

/// What starting a job has led to.
#[derive(Debug)]
pub enum Started {
    /// More is to be done.
    Pending(Runner<Starting>),
    /// The job's process runs.
    Running(Runner<Running>),
    /// The start failed; the job's machine is being torn down.
    Failed(Runner<Finishing>),
    /// The start failed, and there is no machine to tear down.
    Finished(Runner<Finished>),
}

/// What a `Started` holds, as contracts speak of it.
pub enum StartedView {
    Pending(RunnerView<StartingView>),
    Running(RunnerView<RunningView>),
    Failed(RunnerView<FinishingView>),
    Finished(RunnerView<FinishedView>),
}

impl View for Started {
    type V = StartedView;

    open spec fn view(&self) -> StartedView {
        match self {
            Started::Pending(r) => StartedView::Pending(r@),
            Started::Running(r) => StartedView::Running(r@),
            Started::Failed(r) => StartedView::Failed(r@),
            Started::Finished(r) => StartedView::Finished(r@),
        }
    }
}

/// What ending a job has led to.
#[derive(Debug)]
pub enum Ended {
    /// More is to be done.
    Pending(Runner<Finishing>),
    /// The outcome is recorded.
    Finished(Runner<Finished>),
}

/// What a `Ended` holds, as contracts speak of it.
pub enum EndedView {
    Pending(RunnerView<FinishingView>),
    Finished(RunnerView<FinishedView>),
}

impl View for Ended {
    type V = EndedView;

    open spec fn view(&self) -> EndedView {
        match self {
            Ended::Pending(r) => EndedView::Pending(r@),
            Ended::Finished(r) => EndedView::Finished(r@),
        }
    }
}

/// The directory name made of a text that is in lower case already: the
/// text without parentheses, with an underscore for each space.
pub open spec fn directory_text(lower: Seq<char>) -> Seq<char> {
    replaced(replaced(replaced(lower, "("@, ""@), ")"@, ""@), " "@, "_"@)
}

/// The name of a job's log directory: the suite's display name in lower
/// case, without parentheses, with an underscore for each space.
pub open spec fn directory_name(name: Seq<char>) -> Seq<char> {
    directory_text(lowercase(name))
}

/// The command of the job of `suite`: the fixed script with the source
/// paths inside the machine, the job count, the request to archive logs,
/// the timeout, and the suite's bindings.
pub open spec fn job_command(jobs: usize, timeout: Seq<char>, suite: SuiteView) -> CommandView {
    CommandView::new("/workspace/ovn/.ci/ci.sh"@).arg("--ovn-path=/workspace/ovn"@).arg(
        "--ovs-path=/workspace/ovs"@,
    ).arg("--jobs="@ + decimal(jobs as nat)).arg("--archive-logs"@).arg("--timeout="@ + timeout).envs(
        suite.envs(),
    )
}

/// The bindings of a job's command stand in the order of their keys,
/// whatever the order in which the suite makes them.
pub proof fn lemma_job_bindings_are_ordered(jobs: usize, timeout: Seq<char>, suite: SuiteView)
    ensures
        crate::command::ordered(job_command(jobs, timeout, suite).envs),
{
    crate::command::lemma_with_bindings_keeps_order(Seq::empty(), suite.envs());
}

/// The time from `start` to `now`; zero if the clock went backwards.
pub open spec fn elapsed(start: u64, now: u64) -> u64 {
    if now >= start {
        (now - start) as u64
    } else {
        0
    }
}

/// Each of `words` with a space before it.
pub open spec fn spaced(words: Seq<Seq<char>>) -> Seq<char>
    decreases words.len(),
{
    if words.len() == 0 {
        Seq::empty()
    } else {
        spaced(words.drop_last()) + " "@ + words.last()
    }
}

/// Each binding as `key=value`.
pub open spec fn assignments(envs: Seq<(Seq<char>, Seq<char>)>) -> Seq<Seq<char>> {
    envs.map_values(|e: (Seq<char>, Seq<char>)| e.0 + "="@ + e.1)
}

/// What a job's log begins with: the job's name, and its command with its
/// bindings.
pub open spec fn log_header(name: Seq<char>, command: CommandView) -> Seq<char> {
    "Name: "@ + name + "\nCommand:"@ + spaced(assignments(command.envs)) + " "@ + command.program
        + spaced(command.args) + "\n"@
}

/// A duration in milliseconds as minutes, seconds and milliseconds, each
/// with its unit and nothing between them: at least two digits for the
/// minutes, two for the seconds, three for the milliseconds.
pub open spec fn formatted_duration(millis: u64) -> Seq<char> {
    zero_padded(decimal((millis / 1000 / 60) as nat), 2) + "m"@ + zero_padded(
        decimal((millis / 1000 % 60) as nat),
        2,
    ) + "s"@ + zero_padded(decimal((millis % 1000) as nat), 3) + "ms"@
}

/// What the end of a job's process says of the job: nothing for exit code
/// zero, the code otherwise (-1 when a signal ended it), or that the wait
/// failed.
pub open spec fn exit_error(reply: ReplyView) -> Option<ErrorView> {
    match reply {
        ReplyView::Exited(status) => if status.success() {
            None
        } else {
            Some(
                ErrorView::ReturnCode(
                    match status.code {
                        Some(code) => code,
                        None => -1i32,
                    },
                ),
            )
        },
        ReplyView::Failed(e) => Some(ErrorView::RunnerFinnish(e)),
        ReplyView::Unopened(e) => Some(ErrorView::RunnerFinnish(e)),
        _ => Some(ErrorView::RunnerFinnish(IoErrorView::unexpected())),
    }
}

impl<S> RunnerView<S> {
    /// The same job in another state.
    pub open spec fn to<T>(self, state: T) -> RunnerView<T> {
        RunnerView { index: self.index, name: self.name, log_path: self.log_path, state }
    }

    /// What makes the job this job: its index and its name.
    pub open spec fn identity(self) -> (usize, Seq<char>) {
        (self.index, self.name)
    }

    /// Whether two views are of the same job.
    pub open spec fn same_job<T>(self, other: RunnerView<T>) -> bool {
        self.index == other.index && self.name == other.name && self.log_path == other.log_path
    }

    /// The path of the job's log file.
    pub open spec fn log_file(self) -> Seq<char> {
        joined(self.log_path, "ovn-ci.log"@)
    }
}

/// The command of the job of `suite` when it runs on the orchestrator's
/// own host: the script in the first source tree, with the two trees'
/// paths, the job count, the container image if one is configured, and the
/// suite's bindings.
pub open spec fn local_command(
    jobs: usize,
    image_name: Option<Seq<char>>,
    git: GitView,
    suite: SuiteView,
) -> CommandView {
    let fixed = CommandView::new("./.ci/ci.sh"@).arg("--ovn-path="@ + git.ovn_path).arg(
        "--ovs-path="@ + git.ovs_path,
    ).arg("--jobs="@ + decimal(jobs as nat));
    (match image_name {
        Some(name) => fixed.arg("--image-name="@ + name),
        None => fixed,
    }).envs(suite.envs()).current_dir(git.ovn_path)
}

impl RunnerView<NewView> {
    /// The job of `suite` with the given index, run in a machine of its
    /// own, its log directory below `log_path`.
    pub open spec fn new(
        index: usize,
        memory: u32,
        jobs: usize,
        timeout: Seq<char>,
        suite: SuiteView,
        log_path: Seq<char>,
        arch: Arch,
    ) -> RunnerView<NewView> {
        let name = suite.name();
        let dir = joined(log_path, directory_name(name));
        RunnerView {
            index,
            name,
            log_path: dir,
            state: NewView {
                command: job_command(jobs, timeout, suite),
                vm: Some(VmView::new(index, memory, jobs, dir, arch)),
            },
        }
    }

    /// The job of `suite` with the given index, run on the orchestrator's
    /// own host, its log directory below `log_path`.
    pub open spec fn local(
        index: usize,
        jobs: usize,
        image_name: Option<Seq<char>>,
        git: GitView,
        suite: SuiteView,
        log_path: Seq<char>,
    ) -> RunnerView<NewView> {
        let name = suite.name();
        RunnerView {
            index,
            name,
            log_path: joined(log_path, directory_name(name)),
            state: NewView { command: local_command(jobs, image_name, git, suite), vm: None },
        }
    }

    /// The line that reports the job on the console.
    pub open spec fn report_console(self) -> Seq<char> {
        "The job \""@ + self.name + "\" is starting, log file: "@ + self.log_path
            + "/ovn-ci.log"@
    }

    /// The job as its start begins at time `now`.
    pub open spec fn run(self, now: u64) -> RunnerView<StartingView> {
        self.to(
            StartingView {
                command: self.state.command,
                vm: self.state.vm,
                start: now,
                phase: RunPhase::CreateLogDir,
            },
        )
    }
}

impl RunnerView<StartingView> {
    /// The same with another stage or phase.
    pub open spec fn at(self, phase: RunPhase) -> RunnerView<StartingView> {
        self.to(StartingView { phase, ..self.state })
    }

    /// The phase that the start is in: a job without a machine has no
    /// phase in which a machine is started.
    pub open spec fn phase(self) -> RunPhase {
        match (self.state.vm, self.state.phase) {
            (None, RunPhase::Vm(_)) => RunPhase::Spawn,
            (_, phase) => phase,
        }
    }

    /// What a start that failed at time `now` leads to: the error is
    /// recorded with the time since the start began, and the job's machine,
    /// if it has one, is torn down.
    pub open spec fn fail(self, now: u64, error: ErrorView) -> StartedView {
        let outcome = FinishedView {
            error: Some(error),
            duration: elapsed(self.state.start, now),
        };
        match self.state.vm {
            Some(vm) => StartedView::Failed(
                self.to(
                    FinishingView {
                        start: self.state.start,
                        vm: Some(vm),
                        phase: FinishPhase::Destroy,
                        outcome,
                        warning: Seq::empty(),
                    },
                ),
            ),
            None => StartedView::Finished(self.to(outcome)),
        }
    }

    /// The command that starts the job's process: inside its machine, if
    /// it has one.
    pub open spec fn spawn_command(self) -> CommandView {
        match self.state.vm {
            Some(vm) => vm.ssh(self.state.command),
            None => self.state.command,
        }
    }

    /// What is to be done next.
    pub open spec fn action(self, template: Seq<char>) -> ActionView {
        match (self.phase(), self.state.vm) {
            (RunPhase::CreateLogDir, _) => ActionView::CreateDir {
                path: self.log_path,
                recursive: false,
            },
            (RunPhase::OpenLog, _) => ActionView::OpenLog {
                job: self.index,
                path: self.log_file(),
            },
            (RunPhase::WriteLog, _) => ActionView::WriteLog {
                job: self.index,
                text: log_header(self.name, self.state.command),
            },
            (RunPhase::Vm(phase), Some(vm)) => vm.start_action(phase, template),
            _ => ActionView::Spawn { job: self.index, command: self.spawn_command() },
        }
    }

    /// What the job becomes when its pending action was answered by
    /// `reply` at time `now`.
    pub open spec fn advance(self, now: u64, reply: ReplyView) -> StartedView {
        match (self.phase(), self.state.vm) {
            (RunPhase::CreateLogDir, _) => match reply.unit() {
                Err(e) => self.fail(now, ErrorView::LogDirectory(e)),
                Ok(_) => StartedView::Pending(self.at(RunPhase::OpenLog)),
            },
            (RunPhase::OpenLog, _) => match reply.unit() {
                Err(e) => self.fail(now, ErrorView::LogFile(e)),
                Ok(_) => StartedView::Pending(self.at(RunPhase::WriteLog)),
            },
            (RunPhase::WriteLog, _) => match reply.unit() {
                Err(e) => self.fail(now, ErrorView::LogWrite(e)),
                Ok(_) => StartedView::Pending(
                    self.at(
                        if self.state.vm is Some {
                            RunPhase::Vm(StartPhase::ListRunning)
                        } else {
                            RunPhase::Spawn
                        },
                    ),
                ),
            },
            (RunPhase::Vm(phase), Some(vm)) => match vm.start(phase, reply) {
                Err(e) => self.fail(now, ErrorView::Vm(e)),
                Ok(Some(next)) => StartedView::Pending(self.at(RunPhase::Vm(next))),
                Ok(None) => StartedView::Pending(self.at(RunPhase::Spawn)),
            },
            _ => match reply {
                ReplyView::Failed(e) => self.fail(now, ErrorView::RunnerStart(e)),
                ReplyView::Unopened(e) => self.fail(
                    now,
                    if self.state.vm is Some {
                        ErrorView::Vm(RunnerVmErrorView::LogFileDescriptor(e))
                    } else {
                        ErrorView::LogFileDescriptor(e)
                    },
                ),
                _ => StartedView::Running(
                    self.to(RunningView { start: self.state.start, vm: self.state.vm }),
                ),
            },
        }
    }
}

impl RunnerView<RunningView> {
    /// The job as its end begins: with the fetching of the artifacts from
    /// its machine, or without a machine with the wait for its process.
    pub open spec fn finish(self) -> RunnerView<FinishingView> {
        self.to(
            FinishingView {
                start: self.state.start,
                vm: self.state.vm,
                phase: if self.state.vm is Some {
                    FinishPhase::Retrieve
                } else {
                    FinishPhase::Wait
                },
                outcome: FinishedView { error: None, duration: 0 },
                warning: Seq::empty(),
            },
        )
    }
}

impl RunnerView<FinishingView> {
    /// What the settling of the outcome at time `now` leads to: the
    /// teardown of the job's machine, or without a machine the finished
    /// job.
    pub open spec fn settle(self, now: u64, error: Option<ErrorView>) -> EndedView {
        let outcome = FinishedView { error, duration: elapsed(self.state.start, now) };
        match self.state.vm {
            Some(_) => EndedView::Pending(
                self.to(FinishingView { phase: FinishPhase::Destroy, outcome, ..self.state }),
            ),
            None => EndedView::Finished(self.to(outcome)),
        }
    }

    /// What is to be done next.
    pub open spec fn action(self) -> ActionView {
        match self.state.vm {
            None => ActionView::Wait { job: self.index },
            Some(vm) => match self.state.phase {
                FinishPhase::Retrieve => ActionView::Run { command: vm.artifacts_command() },
                FinishPhase::Wait => ActionView::Wait { job: self.index },
                FinishPhase::Destroy => ActionView::Run { command: vm.destroy_command() },
                FinishPhase::Warn => ActionView::Warn { line: self.state.warning },
            },
        }
    }

    /// What the job becomes when its pending action was answered by
    /// `reply` at time `now`.
    pub open spec fn advance(self, now: u64, reply: ReplyView) -> EndedView {
        match self.state.vm {
            None => self.settle(now, exit_error(reply)),
            Some(vm) => match self.state.phase {
                FinishPhase::Retrieve => match VmView::artifacts_retrieved(reply) {
                    Err(e) => self.settle(now, Some(ErrorView::Vm(e))),
                    Ok(_) => EndedView::Pending(
                        self.to(FinishingView { phase: FinishPhase::Wait, ..self.state }),
                    ),
                },
                FinishPhase::Wait => self.settle(now, exit_error(reply)),
                FinishPhase::Destroy => match vm.destroyed(reply) {
                    Some(line) => EndedView::Pending(
                        self.to(
                            FinishingView {
                                phase: FinishPhase::Warn,
                                warning: line,
                                ..self.state
                            },
                        ),
                    ),
                    None => EndedView::Finished(self.to(self.state.outcome)),
                },
                FinishPhase::Warn => EndedView::Finished(self.to(self.state.outcome)),
            },
        }
    }
}

impl RunnerView<FinishedView> {
    /// Whether the job succeeded: no error was recorded.
    pub open spec fn success(self) -> bool {
        self.state.error is None
    }

    /// The line that reports the job on the console.
    pub open spec fn report_console(self) -> Seq<char> {
        "The job \""@ + self.name + "\" is done. Duration: "@ + formatted_duration(
            self.state.duration,
        ) + ", Status: "@ + (match self.state.error {
            Some(e) => "Fail, "@ + e.message(),
            None => "Ok"@,
        })
    }

    /// The job's log directory relative to `log_prefix`, or the empty path
    /// when it does not lie below it.
    pub open spec fn relative_path(self, log_prefix: Seq<char>) -> Seq<char> {
        match path_below(self.log_path, log_prefix) {
            Some(rest) => rest,
            None => Seq::empty(),
        }
    }

    /// The job's row in the table of the report, for a run whose logs `host`
    /// serves from `log_prefix`.
    pub open spec fn report_html(self, host: Seq<char>, log_prefix: Seq<char>) -> Seq<char> {
        self.report_row(host, self.relative_path(log_prefix))
    }

    /// The job's row in the table of the report, with the links to its log
    /// directory at `path` on `host`: the name, the status, the duration,
    /// the link to the log, and for a failed job the link to its artifacts.
    pub open spec fn report_row(self, host: Seq<char>, path: Seq<char>) -> Seq<char> {
        let status = if self.success() {
            "Ok"@
        } else {
            "Fail"@
        };
        let class = if self.success() {
            "ok"@
        } else {
            "fail"@
        };
        let artifacts = if self.success() {
            "-"@
        } else {
            "<a href=\"http://"@ + host + ":8080/"@ + path
                + "/logs.tgz\" target=\"_blank\">Artifacts</a>"@
        };
        "<tr><td>"@ + self.name + "</td><td class=\""@ + class + "\">"@ + status + "</td><td>"@
            + formatted_duration(self.state.duration) + "</td><td><a href=\"http://"@ + host
            + ":8080/"@ + path + "/ovn-ci.log\" target=\"_blank\">Log</a></td><td>"@ + artifacts
            + "</td></tr>"@
    }
}

/// Makes a directory name of a text that is in lower case already: the
/// parentheses are taken out and each space becomes an underscore.
pub fn directory_of(lower: &str) -> (dir: String)
    ensures
        dir@ == directory_text(lower@),
        dir@ == replaced(replaced(replaced(lower@, "("@, ""@), ")"@, ""@), " "@, "_"@),
{
    let open = replace(lower, "(", "");
    let close = replace(open.as_str(), ")", "");
    replace(close.as_str(), " ", "_")
}

fn directory(name: &str) -> (dir: String)
    ensures
        dir@ == directory_name(name@),
{
    directory_of(to_lowercase(name).as_str())
}

fn duration_between(start: u64, now: u64) -> (d: u64)
    ensures
        d == elapsed(start, now),
{
    if now >= start {
        now - start
    } else {
        0
    }
}

fn append_spaced(text: &mut String, words: &Vec<String>)
    ensures
        final(text)@ == old(text)@ + spaced(words.deep_view()),
{
    let mut i: usize = 0;
    assert(words.deep_view().take(0) =~= Seq::empty());
    assert(text@ =~= old(text)@ + spaced(words.deep_view().take(0)));
    while i < words.len()
        invariant
            i <= words.len(),
            text@ == old(text)@ + spaced(words.deep_view().take(i as int)),
        decreases words.len() - i,
    {
        let ghost done = words.deep_view().take(i as int);
        text.append(" ");
        text.append(words[i].as_str());
        i += 1;
        proof {
            let now = words.deep_view().take(i as int);
            assert(now.drop_last() =~= done);
            assert(now.last() == words[i - 1]@);
            assert(text@ =~= old(text)@ + (spaced(done) + " "@ + now.last()));
        }
    }
    assert(words.deep_view().take(i as int) =~= words.deep_view());
}

fn append_assignments(text: &mut String, envs: &Vec<(String, String)>)
    ensures
        final(text)@ == old(text)@ + spaced(assignments(envs.deep_view())),
{
    let ghost all = assignments(envs.deep_view());
    let mut i: usize = 0;
    assert(all.take(0) =~= Seq::empty());
    assert(text@ =~= old(text)@ + spaced(all.take(0)));
    while i < envs.len()
        invariant
            i <= envs.len(),
            all == assignments(envs.deep_view()),
            text@ == old(text)@ + spaced(all.take(i as int)),
        decreases envs.len() - i,
    {
        let ghost done = all.take(i as int);
        let pair = &envs[i];
        assert(envs.deep_view()[i as int] == (pair.0@, pair.1@));
        text.append(" ");
        text.append(pair.0.as_str());
        text.append("=");
        text.append(pair.1.as_str());
        i += 1;
        proof {
            let now = all.take(i as int);
            assert(now.drop_last() =~= done);
            assert(now.last() == pair.0@ + "="@ + pair.1@);
            assert(text@ =~= old(text)@ + (spaced(done) + " "@ + now.last()));
        }
    }
    assert(all.take(i as int) =~= all);
}

fn header(name: &str, command: &Command) -> (text: String)
    ensures
        text@ == log_header(name@, command@),
{
    let mut text = String::from_str("Name: ");
    text.append(name);
    text.append("\nCommand:");
    append_assignments(&mut text, command.get_envs());
    text.append(" ");
    text.append(command.get_program());
    append_spaced(&mut text, command.get_args());
    text.append("\n");
    text
}

fn format_millis(millis: u64) -> (text: String)
    ensures
        text@ == formatted_duration(millis),
{
    let secs = millis / 1000;
    let minutes = secs / 60;
    let mut text = padded_decimal_string(minutes, 2);
    text.append("m");
    text.append(padded_decimal_string(secs % 60, 2).as_str());
    text.append("s");
    text.append(padded_decimal_string(millis % 1000, 3).as_str());
    text.append("ms");
    text
}

fn error_of_exit(reply: Reply) -> (error: Option<Error>)
    ensures
        error.deep_view() == exit_error(reply@),
{
    match reply {
        Reply::Exited(status) => {
            if status.success() {
                None
            } else {
                Some(
                    Error::ReturnCode(
                        match status.code {
                            Some(code) => code,
                            None => -1,
                        },
                    ),
                )
            }
        },
        Reply::Failed(e) => Some(Error::RunnerFinnish(e)),
        Reply::Unopened(e) => Some(Error::RunnerFinnish(e)),
        _ => Some(Error::RunnerFinnish(IoError::unexpected())),
    }
}

impl<S: View> Runner<S> {
    /// The job's index.
    pub fn index(&self) -> (r: usize)
        ensures
            r == self@.index,
    {
        self.index
    }

    /// The suite's display name.
    pub fn name(&self) -> (r: &str)
        ensures
            r@ == self@.name,
    {
        self.name.as_str()
    }

    /// The job's log directory.
    pub fn log_path(&self) -> (r: &str)
        ensures
            r@ == self@.log_path,
    {
        self.log_path.as_str()
    }
}

fn log_directory(log_path: &str, name: &str) -> (dir: String)
    ensures
        dir@ == joined(log_path@, directory_name(name@)),
{
    join_path(log_path, directory(name).as_str())
}

impl Runner<New> {
    /// The job of `suite` with index `index`, run in a machine of its own.
    /// Nothing is touched: the command and the machine are only described.
    pub fn new(
        index: usize,
        memory: u32,
        jobs: usize,
        timeout: &str,
        suite: &Suite,
        log_path: &str,
        arch: Arch,
    ) -> (r: Runner<New>)
        requires
            index + crate::vm::runner::NET_SUFFIX_OFFSET <= usize::MAX,
        ensures
            r@ == RunnerView::<NewView>::new(
                index,
                memory,
                jobs,
                timeout@,
                suite@,
                log_path@,
                arch,
            ),
    {
        let name = suite.name();
        let log_path = log_directory(log_path, name.as_str());

        let mut command = Command::new("/workspace/ovn/.ci/ci.sh");
        command.arg("--ovn-path=/workspace/ovn");
        command.arg("--ovs-path=/workspace/ovs");
        command.arg_pair("--jobs=", decimal_string(jobs as u64).as_str());
        command.arg("--archive-logs");
        command.arg_pair("--timeout=", timeout);
        command.envs(&suite.envs());

        let vm = RunnerVm::new(index, memory, jobs, log_path.as_str(), arch);

        Runner { index, name, log_path, state: New { command, vm: Some(vm) } }
    }

    /// The job of `suite` with index `index`, run on the orchestrator's own
    /// host, in the first source tree. Nothing is touched.
    pub fn local(
        index: usize,
        jobs: usize,
        image_name: Option<&str>,
        git: &Git,
        suite: &Suite,
        log_path: &str,
    ) -> (r: Runner<New>)
        ensures
            r@ == RunnerView::<NewView>::local(
                index,
                jobs,
                image_name.deep_view(),
                git@,
                suite@,
                log_path@,
            ),
    {
        let name = suite.name();
        let log_path = log_directory(log_path, name.as_str());

        let mut command = Command::new("./.ci/ci.sh");
        command.arg_pair("--ovn-path=", git.ovn_path());
        command.arg_pair("--ovs-path=", git.ovs_path());
        command.arg_pair("--jobs=", decimal_string(jobs as u64).as_str());
        if let Some(image_name) = image_name {
            command.arg_pair("--image-name=", image_name);
        }
        command.envs(&suite.envs());
        command.current_dir(git.ovn_path());

        Runner { index, name, log_path, state: New { command, vm: None } }
    }

    /// The line that announces the job's start.
    pub fn report_console(&self) -> (line: String)
        ensures
            line@ == self@.report_console(),
    {
        let mut line = String::from_str("The job \"");
        line.append(self.name.as_str());
        line.append("\" is starting, log file: ");
        line.append(self.log_path.as_str());
        line.append("/ovn-ci.log");
        line
    }

    /// Begins the job's start at time `now`. The start then proceeds by
    /// `action` and `advance` until the job is `Running`, or is ended
    /// because the start failed.
    pub fn run(self, now: u64) -> (r: Runner<Starting>)
        ensures
            r@ == self@.run(now),
    {
        Runner {
            index: self.index,
            name: self.name,
            log_path: self.log_path,
            state: Starting {
                command: self.state.command,
                vm: self.state.vm,
                start: now,
                phase: RunPhase::CreateLogDir,
            },
        }
    }
}

impl Runner<Starting> {
    fn fail(self, now: u64, error: Error) -> (r: Started)
        ensures
            r@ == self@.fail(now, error@),
    {
        let outcome = Finished {
            error: Some(error),
            duration: duration_between(self.state.start, now),
        };
        match self.state.vm {
            Some(vm) => Started::Failed(
                Runner {
                    index: self.index,
                    name: self.name,
                    log_path: self.log_path,
                    state: Finishing {
                        start: self.state.start,
                        vm: Some(vm),
                        phase: FinishPhase::Destroy,
                        outcome,
                        warning: String::new(),
                    },
                },
            ),
            None => Started::Finished(
                Runner {
                    index: self.index,
                    name: self.name,
                    log_path: self.log_path,
                    state: outcome,
                },
            ),
        }
    }

    fn at(self, phase: RunPhase) -> (r: Runner<Starting>)
        ensures
            r@ == self@.at(phase),
    {
        Runner {
            index: self.index,
            name: self.name,
            log_path: self.log_path,
            state: Starting {
                command: self.state.command,
                vm: self.state.vm,
                start: self.state.start,
                phase,
            },
        }
    }

    fn spawn(&self) -> (action: Action)
        ensures
            action@ == (ActionView::Spawn { job: self@.index, command: self@.spawn_command() }),
    {
        match &self.state.vm {
            Some(vm) => vm.command_spawn(self.index, &self.state.command),
            None => Action::Spawn { job: self.index, command: self.state.command.duplicate() },
        }
    }

    /// What is to be done next. `template` is the text of the machine
    /// description with its markers.
    pub fn action(&self, template: &str) -> (action: Action)
        ensures
            action@ == self@.action(template@),
    {
        match self.state.phase {
            RunPhase::CreateLogDir => Action::CreateDir {
                path: self.log_path.clone(),
                recursive: false,
            },
            RunPhase::OpenLog => Action::OpenLog {
                job: self.index,
                path: join_path(self.log_path.as_str(), "ovn-ci.log"),
            },
            RunPhase::WriteLog => Action::WriteLog {
                job: self.index,
                text: header(self.name.as_str(), &self.state.command),
            },
            RunPhase::Vm(phase) => match &self.state.vm {
                Some(vm) => vm.start_action(phase, template),
                None => self.spawn(),
            },
            RunPhase::Spawn => self.spawn(),
        }
    }

    fn spawned(self, now: u64, reply: Reply) -> (r: Started)
        ensures
            r@ == (match reply@ {
                ReplyView::Failed(e) => self@.fail(now, ErrorView::RunnerStart(e)),
                ReplyView::Unopened(e) => self@.fail(
                    now,
                    if self@.state.vm is Some {
                        ErrorView::Vm(RunnerVmErrorView::LogFileDescriptor(e))
                    } else {
                        ErrorView::LogFileDescriptor(e)
                    },
                ),
                _ => StartedView::Running(
                    self@.to(RunningView { start: self@.state.start, vm: self@.state.vm }),
                ),
            }),
    {
        match reply {
            Reply::Failed(e) => self.fail(now, Error::RunnerStart(e)),
            Reply::Unopened(e) => {
                if self.state.vm.is_some() {
                    self.fail(now, Error::Vm(RunnerVmError::LogFileDescriptor(e)))
                } else {
                    self.fail(now, Error::LogFileDescriptor(e))
                }
            },
            _ => Started::Running(
                Runner {
                    index: self.index,
                    name: self.name,
                    log_path: self.log_path,
                    state: Running { start: self.state.start, vm: self.state.vm },
                },
            ),
        }
    }

    /// Takes the reply to the pending action, given at time `now`.
    pub fn advance(self, now: u64, reply: Reply) -> (r: Started)
        ensures
            r@ == self@.advance(now, reply@),
    {
        match self.state.phase {
            RunPhase::CreateLogDir => match reply.unit() {
                Err(e) => self.fail(now, Error::LogDirectory(e)),
                Ok(()) => Started::Pending(self.at(RunPhase::OpenLog)),
            },
            RunPhase::OpenLog => match reply.unit() {
                Err(e) => self.fail(now, Error::LogFile(e)),
                Ok(()) => Started::Pending(self.at(RunPhase::WriteLog)),
            },
            RunPhase::WriteLog => match reply.unit() {
                Err(e) => self.fail(now, Error::LogWrite(e)),
                Ok(()) => {
                    if self.state.vm.is_some() {
                        Started::Pending(self.at(RunPhase::Vm(StartPhase::ListRunning)))
                    } else {
                        Started::Pending(self.at(RunPhase::Spawn))
                    }
                },
            },
            RunPhase::Vm(phase) => {
                if self.state.vm.is_none() {
                    return self.spawned(now, reply);
                }
                let next = match &self.state.vm {
                    Some(vm) => vm.start(phase, reply),
                    None => Ok(None),
                };
                match next {
                    Err(e) => self.fail(now, Error::Vm(e)),
                    Ok(Some(next)) => Started::Pending(self.at(RunPhase::Vm(next))),
                    Ok(None) => Started::Pending(self.at(RunPhase::Spawn)),
                }
            },
            RunPhase::Spawn => self.spawned(now, reply),
        }
    }
}

impl Runner<Running> {
    /// The action that asks, without blocking, whether the job's process
    /// has ended.
    pub fn poll(&self) -> (action: Action)
        ensures
            action@ == (ActionView::Poll { job: self@.index }),
    {
        Action::Poll { job: self.index }
    }

    /// Whether the job can be ended, given the reply to `poll`: it can
    /// unless its process is known to be running still. A poll that failed
    /// counts as ready, so that ending the job brings the cause to light.
    pub fn try_ready(&self, reply: &Reply) -> (ready: bool)
        ensures
            ready == !(reply@ is Pending),
    {
        match reply {
            Reply::Pending => false,
            _ => true,
        }
    }

    /// Begins the job's end. It then proceeds by `action` and `advance`
    /// until the job is `Finished`.
    pub fn finish(self) -> (r: Runner<Finishing>)
        ensures
            r@ == self@.finish(),
    {
        let phase = if self.state.vm.is_some() {
            FinishPhase::Retrieve
        } else {
            FinishPhase::Wait
        };
        Runner {
            index: self.index,
            name: self.name,
            log_path: self.log_path,
            state: Finishing {
                start: self.state.start,
                vm: self.state.vm,
                phase,
                outcome: Finished { error: None, duration: 0 },
                warning: String::new(),
            },
        }
    }
}

impl Runner<Finishing> {
    fn settle(self, now: u64, error: Option<Error>) -> (r: Ended)
        ensures
            r@ == self@.settle(now, error.deep_view()),
    {
        let outcome = Finished { error, duration: duration_between(self.state.start, now) };
        match self.state.vm {
            Some(vm) => Ended::Pending(
                Runner {
                    index: self.index,
                    name: self.name,
                    log_path: self.log_path,
                    state: Finishing {
                        start: self.state.start,
                        vm: Some(vm),
                        phase: FinishPhase::Destroy,
                        outcome,
                        warning: self.state.warning,
                    },
                },
            ),
            None => Ended::Finished(
                Runner {
                    index: self.index,
                    name: self.name,
                    log_path: self.log_path,
                    state: outcome,
                },
            ),
        }
    }

    fn done(self) -> (r: Runner<Finished>)
        ensures
            r@ == self@.to(self@.state.outcome),
    {
        Runner {
            index: self.index,
            name: self.name,
            log_path: self.log_path,
            state: self.state.outcome,
        }
    }

    fn at(self, phase: FinishPhase, warning: String) -> (r: Runner<Finishing>)
        ensures
            r@ == self@.to(FinishingView { phase, warning: warning@, ..self@.state }),
    {
        Runner {
            index: self.index,
            name: self.name,
            log_path: self.log_path,
            state: Finishing {
                start: self.state.start,
                vm: self.state.vm,
                phase,
                outcome: self.state.outcome,
                warning,
            },
        }
    }

    /// What is to be done next.
    pub fn action(&self) -> (action: Action)
        ensures
            action@ == self@.action(),
    {
        match &self.state.vm {
            None => Action::Wait { job: self.index },
            Some(vm) => match self.state.phase {
                FinishPhase::Retrieve => vm.retreive_artifacts(),
                FinishPhase::Wait => Action::Wait { job: self.index },
                FinishPhase::Destroy => vm.destroy(),
                FinishPhase::Warn => Action::Warn { line: self.state.warning.clone() },
            },
        }
    }

    /// Takes the reply to the pending action, given at time `now`.
    pub fn advance(self, now: u64, reply: Reply) -> (r: Ended)
        ensures
            r@ == self@.advance(now, reply@),
    {
        if self.state.vm.is_none() {
            return self.settle(now, error_of_exit(reply));
        }
        match self.state.phase {
            FinishPhase::Retrieve => match RunnerVm::artifacts_retrieved(reply) {
                Err(e) => self.settle(now, Some(Error::Vm(e))),
                Ok(()) => {
                    let warning = self.state.warning.clone();
                    Ended::Pending(self.at(FinishPhase::Wait, warning))
                },
            },
            FinishPhase::Wait => self.settle(now, error_of_exit(reply)),
            FinishPhase::Destroy => {
                let warning = match &self.state.vm {
                    Some(vm) => vm.destroyed(reply),
                    None => None,
                };
                match warning {
                    Some(line) => Ended::Pending(self.at(FinishPhase::Warn, line)),
                    None => Ended::Finished(self.done()),
                }
            },
            FinishPhase::Warn => Ended::Finished(self.done()),
        }
    }
}

impl Runner<Finished> {
    /// Whether the job succeeded: no error was recorded.
    pub fn success(&self) -> (r: bool)
        ensures
            r == self@.success(),
    {
        self.state.error.is_none()
    }

    /// The recorded error, if the job failed.
    pub fn error(&self) -> (r: &Option<Error>)
        ensures
            r.deep_view() == self@.state.error,
    {
        &self.state.error
    }

    /// The recorded duration in milliseconds.
    pub fn duration(&self) -> (r: u64)
        ensures
            r == self@.state.duration,
    {
        self.state.duration
    }

    /// The line that reports the job's end.
    pub fn report_console(&self) -> (line: String)
        ensures
            line@ == self@.report_console(),
    {
        let mut line = String::from_str("The job \"");
        line.append(self.name.as_str());
        line.append("\" is done. Duration: ");
        line.append(self.format_duration().as_str());
        line.append(", Status: ");
        let ghost head = line@;
        match &self.state.error {
            Some(e) => {
                line.append("Fail, ");
                line.append(e.message().as_str());
                assert(line@ =~= head + ("Fail, "@ + e@.message()));
            },
            None => {
                line.append("Ok");
            },
        }
        line
    }

    /// The job's row in the table of the report. `log_prefix` is the
    /// directory below which the run's logs are served by `host`.
    pub fn report_html(&self, host: &str, log_prefix: &str) -> (row: String)
        ensures
            row@ == self@.report_html(host@, log_prefix@),
    {
        match strip_prefix(self.log_path.as_str(), log_prefix) {
            Some(rest) => self.report_row(host, rest.as_str()),
            None => self.report_row(host, String::new().as_str()),
        }
    }

    /// The job's row in the table of the report, with the links to its log
    /// directory at `path` on `host`.
    pub fn report_row(&self, host: &str, path: &str) -> (row: String)
        ensures
            row@ == self@.report_row(host@, path@),
    {
        let success = self.success();
        let status = if success {
            "Ok"
        } else {
            "Fail"
        };
        let class = if success {
            "ok"
        } else {
            "fail"
        };
        let mut artifacts = String::new();
        if success {
            artifacts.append("-");
            assert(artifacts@ =~= "-"@);
        } else {
            artifacts.append("<a href=\"http://");
            artifacts.append(host);
            artifacts.append(":8080/");
            artifacts.append(path);
            artifacts.append("/logs.tgz\" target=\"_blank\">Artifacts</a>");
            assert(artifacts@ =~= "<a href=\"http://"@ + host@ + ":8080/"@ + path@
                + "/logs.tgz\" target=\"_blank\">Artifacts</a>"@);
        }
        let mut row = String::from_str("<tr><td>");
        row.append(self.name.as_str());
        row.append("</td><td class=\"");
        row.append(class);
        row.append("\">");
        row.append(status);
        row.append("</td><td>");
        row.append(self.format_duration().as_str());
        row.append("</td><td><a href=\"http://");
        row.append(host);
        row.append(":8080/");
        row.append(path);
        row.append("/ovn-ci.log\" target=\"_blank\">Log</a></td><td>");
        row.append(artifacts.as_str());
        row.append("</td></tr>");
        row
    }

    /// The recorded duration as minutes, seconds and milliseconds.
    pub fn format_duration(&self) -> (text: String)
        ensures
            text@ == formatted_duration(self@.state.duration),
    {
        format_millis(self.state.duration)
    }
}

impl RunPhase {
    /// The phase's place in the order of the start.
    pub open spec fn rank(self) -> nat {
        match self {
            RunPhase::CreateLogDir => 0,
            RunPhase::OpenLog => 1,
            RunPhase::WriteLog => 2,
            RunPhase::Vm(StartPhase::ListRunning) => 3,
            RunPhase::Vm(StartPhase::RemoveXml) => 4,
            RunPhase::Vm(StartPhase::RemoveNvram) => 5,
            RunPhase::Vm(StartPhase::RemoveImage) => 6,
            RunPhase::Vm(StartPhase::WriteXml) => 7,
            RunPhase::Vm(StartPhase::CreateImage) => 8,
            RunPhase::Vm(StartPhase::CreateVm) => 9,
            RunPhase::Vm(StartPhase::ReadyCheck) => 10,
            RunPhase::Spawn => 11,
        }
    }
}

impl FinishPhase {
    /// The phase's place in the order of the end.
    pub open spec fn rank(self) -> nat {
        match self {
            FinishPhase::Retrieve => 0,
            FinishPhase::Wait => 1,
            FinishPhase::Destroy => 2,
            FinishPhase::Warn => 3,
        }
    }
}

/// Every step of a start leads to exactly one thing: a later phase of the
/// same start, the running job, or the end of the job with an error
/// recorded, by way of the teardown of its machine if it has one. The job
/// stays the same job, and the start never goes back: after at most twelve
/// steps it is over.
pub proof fn lemma_start_moves_forward(r: RunnerView<StartingView>, now: u64, reply: ReplyView)
    ensures
        r.phase().rank() <= 11,
        match r.advance(now, reply) {
            StartedView::Pending(next) => {
                &&& next.same_job(r)
                &&& next.state.start == r.state.start
                &&& next.state.vm == r.state.vm
                &&& next.phase().rank() > r.phase().rank()
            },
            StartedView::Running(next) => {
                &&& next.same_job(r)
                &&& next.state.start == r.state.start
                &&& next.state.vm == r.state.vm
                &&& r.phase() == RunPhase::Spawn
            },
            StartedView::Failed(next) => {
                &&& next.same_job(r)
                &&& r.state.vm is Some
                &&& next.state.vm == r.state.vm
                &&& next.state.phase == FinishPhase::Destroy
                &&& next.state.outcome.error is Some
                &&& next.state.outcome.duration == elapsed(r.state.start, now)
            },
            StartedView::Finished(next) => {
                &&& next.same_job(r)
                &&& r.state.vm is None
                &&& next.state.error is Some
                &&& next.state.duration == elapsed(r.state.start, now)
            },
        },
{
}

/// A start that fails before its last step starts no process: the action
/// that starts the job's process belongs to the last phase alone.
pub proof fn lemma_only_the_last_phase_spawns(r: RunnerView<StartingView>, template: Seq<char>)
    ensures
        r.action(template) is Spawn <==> r.phase() == RunPhase::Spawn,
{
}

/// Every step of an end leads to a later phase of the same end or to the
/// finished job. A job with a machine is finished only by way of the
/// teardown of the machine, and the teardown does not change the outcome
/// that was settled before it.
pub proof fn lemma_end_moves_forward(r: RunnerView<FinishingView>, now: u64, reply: ReplyView)
    ensures
        r.state.phase.rank() <= 3,
        match r.advance(now, reply) {
            EndedView::Pending(next) => {
                &&& next.same_job(r)
                &&& r.state.vm is Some
                &&& next.state.vm == r.state.vm
                &&& next.state.phase.rank() > r.state.phase.rank()
                &&& r.state.phase.rank() >= 2 ==> next.state.outcome == r.state.outcome
            },
            EndedView::Finished(next) => {
                &&& next.same_job(r)
                &&& r.state.vm is Some ==> r.state.phase.rank() >= 2 && next.state
                    == r.state.outcome
            },
        },
{
}

/// No machine outlives its job: a job with a machine is finished only by a
/// step whose action was to destroy the machine, or to warn that the
/// attempt to destroy it failed; and the warning is only ever reached from
/// that attempt.
pub proof fn lemma_machine_is_destroyed_before_the_end(
    r: RunnerView<FinishingView>,
    now: u64,
    reply: ReplyView,
)
    requires
        r.state.vm is Some,
    ensures
        r.advance(now, reply) is Finished ==> r.state.phase == FinishPhase::Warn || (r.state.phase
            == FinishPhase::Destroy && r.action() == (ActionView::Run {
            command: r.state.vm->0.destroy_command(),
        })),
        r.advance(now, reply) matches EndedView::Pending(next) && next.state.phase
            == FinishPhase::Warn ==> r.state.phase == FinishPhase::Destroy,
{
}

impl EndedView {
    /// The outcome that a step of an end has led to.
    pub open spec fn outcome(self) -> FinishedView {
        match self {
            EndedView::Pending(next) => next.state.outcome,
            EndedView::Finished(next) => next.state,
        }
    }
}

/// When the wait for the job's process hands back an exit status, the
/// outcome is a success exactly if the exit code is zero, and otherwise
/// records the code.
pub proof fn lemma_success_iff_exit_zero(r: RunnerView<FinishingView>, now: u64, status: ExitStatus)
    requires
        r.state.vm is None || r.state.phase == FinishPhase::Wait,
    ensures
        r.advance(now, ReplyView::Exited(status)).outcome().error is None <==> status.code == Some(
            0i32,
        ),
        r.to(r.advance(now, ReplyView::Exited(status)).outcome()).success() <==> status.code
            == Some(0i32),
        forall|code: i32|
            status.code == Some(code) && code != 0 ==> r.advance(
                now,
                ReplyView::Exited(status),
            ).outcome().error == Some(ErrorView::ReturnCode(code)),
{
}

} // verus!

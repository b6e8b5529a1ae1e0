//! A whole run: the sources are brought up to date, the base image is
//! refreshed, the jobs are scheduled, and the outcome is reported.

use crate::cli_report::{complaint, CliReport, CliReportView};
use crate::clock::{Clock, ClockView};
use crate::config::{Configuration, ConfigurationView};
use crate::effect::{
    ignore_not_found, ignoring_not_found, Action, ActionView, IoError, IoErrorView, Reply,
    ReplyView,
};
use crate::email::{
    mail_command, sent, Error as EmailError, ErrorView as EmailErrorView, Report as EmailReport,
};
use crate::git::{
    commit_hash, commit_hash_command, Error as GitError, ErrorView as GitErrorView, Git,
    UpdatePhase as GitPhase, UpdatePhaseView as GitPhaseView,
};
use crate::runner::{Finished, FinishedView, Runner, RunnerView};
use crate::scheduler::{Scheduler, SchedulerView, Turn};
use crate::text::{decimal, decimal_string, join_path, joined, replace, replaced};
use crate::util::Arch;
use crate::vm::base::{
    ErrorView as BaseVmErrorView, RebuildPhase, RebuildPhaseView, UpdatePhase, UpdatePhaseView,
    VmView as BaseVmView,
};
use crate::vm::{BaseVm, BaseVmError};
use vstd::prelude::*;
use vstd::string::*;

verus! {

/// The day of the month on which the base image is rebuilt unasked.
pub const BUILD_AT_DAY: u32 = 1;

/// Why a run did not succeed.
#[derive(Debug)]
pub enum Error {
    Git(GitError),
    BaseVm(BaseVmError),
    LogDirectory(IoError),
    Failure,
    HtmlReport(IoError),
    EmailReport(EmailError),
}

/// An `Error` as contracts speak of it.
pub enum ErrorView {
    Git(GitErrorView),
    BaseVm(BaseVmErrorView),
    LogDirectory(IoErrorView),
    Failure,
    HtmlReport(IoErrorView),
    EmailReport(EmailErrorView),
}

impl View for Error {
    type V = ErrorView;

    open spec fn view(&self) -> ErrorView {
        match self {
            Error::Git(e) => ErrorView::Git(e@),
            Error::BaseVm(e) => ErrorView::BaseVm(e@),
            Error::LogDirectory(e) => ErrorView::LogDirectory(e@),
            Error::Failure => ErrorView::Failure,
            Error::HtmlReport(e) => ErrorView::HtmlReport(e@),
            Error::EmailReport(e) => ErrorView::EmailReport(e@),
        }
    }
}

impl DeepView for Error {
    type V = ErrorView;

    open spec fn deep_view(&self) -> ErrorView {
        self@
    }
}

impl ErrorView {
    /// The error as one line of text.
    pub open spec fn message(self) -> Seq<char> {
        match self {
            ErrorView::Git(e) => e.message(),
            ErrorView::BaseVm(e) => "Base VM error: "@ + e.message(),
            ErrorView::LogDirectory(e) => "Cannot create log directory structure: "@ + e.message,
            ErrorView::Failure => "At least one job failed"@,
            ErrorView::HtmlReport(e) => "Cannot create HTML report: "@ + e.message,
            ErrorView::EmailReport(e) => "Cannot send email report: "@ + e.message(),
        }
    }
}

impl Error {
    /// The error as one line of text.
    pub fn message(&self) -> (s: String)
        ensures
            s@ == self@.message(),
    {
        match self {
            Error::Git(e) => e.message(),
            Error::BaseVm(e) => {
                let mut s = String::from_str("Base VM error: ");
                s.append(e.message().as_str());
                s
            },
            Error::LogDirectory(e) => {
                let mut s = String::from_str("Cannot create log directory structure: ");
                s.append(e.message.as_str());
                s
            },
            Error::Failure => String::from_str("At least one job failed"),
            Error::HtmlReport(e) => {
                let mut s = String::from_str("Cannot create HTML report: ");
                s.append(e.message.as_str());
                s
            },
            Error::EmailReport(e) => {
                let mut s = String::from_str("Cannot send email report: ");
                s.append(e.message().as_str());
                s
            },
        }
    }
}

/// The texts with markers that a run fills in.
#[derive(Debug)]
pub struct Templates {
    /// The description of a job's machine.
    pub domain: String,
    /// The installer configuration of the base image.
    pub kickstart: String,
    /// The page of the report.
    pub report: String,
}

/// Where a run goes on after a warning was printed.
#[derive(Clone, Copy, Debug, PartialEq, Eq, Structural)]
pub enum After {
    /// After the sidecar was told of the start.
    Start,
    /// After the base machine's definition was removed.
    Destroy,
    /// After the sidecar was told of the end.
    Finish,
}

/// What a run is doing.
#[derive(Debug)]
pub enum Stage {
    /// Creating the run's log directory.
    CreateLogDir,
    /// Updating the first source tree.
    UpdateOvn(GitPhase),
    /// Updating the second source tree.
    UpdateOvs(GitPhase),
    /// Reading the first tree's commit, to see that it can be read.
    Hash,
    /// Reading the first tree's commit for the sidecar.
    StartHash,
    /// Telling the sidecar that the run of this commit begins.
    ReportStart(String),
    /// Announcing the rebuild of the base image.
    AnnounceRebuild,
    /// Rebuilding the base image.
    Rebuild(RebuildPhase),
    /// Announcing the update of the base image.
    AnnounceUpdate,
    /// Updating the base image.
    Update(UpdatePhase),
    /// Removing the base machine's definition.
    DestroyBase,
    /// Running the jobs.
    Schedule,
    /// Reading the first tree's commit for the report.
    OvnHash,
    /// Reading the second tree's commit for the report; the first is held.
    OvsHash(String),
    /// Writing the page of the report, which is held.
    WriteReport(String),
    /// Removing the link to the previous run's logs.
    RemoveLatest,
    /// Linking to this run's logs.
    Symlink,
    /// Mailing the report.
    Email,
    /// Telling the sidecar that the run is over.
    Finish,
    /// Printing a warning.
    Warn(String, After),
    /// Over.
    Done,
}

/// What a `Stage` holds, as contracts speak of it.
pub enum StageView {
    CreateLogDir,
    UpdateOvn(GitPhaseView),
    UpdateOvs(GitPhaseView),
    Hash,
    StartHash,
    ReportStart(Seq<char>),
    AnnounceRebuild,
    Rebuild(RebuildPhaseView),
    AnnounceUpdate,
    Update(UpdatePhaseView),
    DestroyBase,
    Schedule,
    OvnHash,
    OvsHash(Seq<char>),
    WriteReport(Seq<char>),
    RemoveLatest,
    Symlink,
    Email,
    Finish,
    Warn(Seq<char>, After),
    Done,
}

impl View for Stage {
    type V = StageView;

    open spec fn view(&self) -> StageView {
        match self {
            Stage::CreateLogDir => StageView::CreateLogDir,
            Stage::UpdateOvn(p) => StageView::UpdateOvn(p@),
            Stage::UpdateOvs(p) => StageView::UpdateOvs(p@),
            Stage::Hash => StageView::Hash,
            Stage::StartHash => StageView::StartHash,
            Stage::ReportStart(hash) => StageView::ReportStart(hash@),
            Stage::AnnounceRebuild => StageView::AnnounceRebuild,
            Stage::Rebuild(p) => StageView::Rebuild(p@),
            Stage::AnnounceUpdate => StageView::AnnounceUpdate,
            Stage::Update(p) => StageView::Update(p@),
            Stage::DestroyBase => StageView::DestroyBase,
            Stage::Schedule => StageView::Schedule,
            Stage::OvnHash => StageView::OvnHash,
            Stage::OvsHash(hash) => StageView::OvsHash(hash@),
            Stage::WriteReport(page) => StageView::WriteReport(page@),
            Stage::RemoveLatest => StageView::RemoveLatest,
            Stage::Symlink => StageView::Symlink,
            Stage::Email => StageView::Email,
            Stage::Finish => StageView::Finish,
            Stage::Warn(line, after) => StageView::Warn(line@, *after),
            Stage::Done => StageView::Done,
        }
    }
}

/// How many of `finished` succeeded.
pub open spec fn successes(finished: Seq<RunnerView<FinishedView>>) -> nat
    decreases finished.len(),
{
    if finished.len() == 0 {
        0
    } else {
        successes(finished.drop_last()) + if finished.last().success() {
            1nat
        } else {
            0nat
        }
    }
}

/// The heading of a report: the date, the architecture, and how many jobs
/// succeeded and failed.
pub open spec fn report_header(
    finished: Seq<RunnerView<FinishedView>>,
    date: Seq<char>,
    arch: Arch,
) -> Seq<char> {
    "OVN CI - "@ + date + " - "@ + arch.name_spec() + " - Success ("@ + decimal(
        successes(finished),
    ) + ") - Failure ("@ + decimal((finished.len() - successes(finished)) as nat) + ")"@
}

/// The rows of the report's table, one for each finished job.
pub open spec fn report_rows(
    finished: Seq<RunnerView<FinishedView>>,
    host: Seq<char>,
    log_prefix: Seq<char>,
) -> Seq<char>
    decreases finished.len(),
{
    if finished.len() == 0 {
        Seq::empty()
    } else {
        report_rows(finished.drop_last(), host, log_prefix) + finished.last().report_html(
            host,
            log_prefix,
        )
    }
}

/// The first twelve characters of a commit's name, or all of it when it is
/// shorter.
pub open spec fn short_hash(hash: Seq<char>) -> Seq<char> {
    if hash.len() > 12 {
        hash.take(12)
    } else {
        hash
    }
}

/// The page of the report: the template with the rows, the heading and the
/// commits filled in.
pub open spec fn html_report(
    template: Seq<char>,
    rows: Seq<char>,
    header: Seq<char>,
    ovn_hash: Seq<char>,
    ovs_hash: Seq<char>,
) -> Seq<char> {
    let t0 = replaced(template, "@ROWS@"@, rows);
    let t1 = replaced(t0, "@HEADER@"@, header);
    let t2 = replaced(t1, "@OVN_HASH@"@, ovn_hash);
    let t3 = replaced(t2, "@OVN_HASH_SHORT@"@, short_hash(ovn_hash));
    let t4 = replaced(t3, "@OVS_HASH@"@, ovs_hash);
    replaced(t4, "@OVS_HASH_SHORT@"@, short_hash(ovs_hash))
}

/// Whether a job among `finished` failed.
pub open spec fn any_failed(finished: Seq<RunnerView<FinishedView>>) -> bool {
    exists|i: int| 0 <= i < finished.len() && !(#[trigger] finished[i]).success()
}

/// The run's log directory and its name: the name is the time of the
/// run's beginning.
pub open spec fn log_path_at(path: Seq<char>, clock: ClockView) -> (Seq<char>, Seq<char>) {
    (joined(path, clock.stamp), clock.stamp)
}

/// The sidecar of a configuration, told where the logs of the run named
/// `log_name` are served.
pub open spec fn sidecar(config: ConfigurationView, log_name: Seq<char>) -> Option<CliReportView> {
    match config.cli_report_binary {
        Some(binary) => Some(
            CliReportView { binary, url: "http://"@ + config.host + ":8080/"@ + log_name },
        ),
        None => None,
    }
}

/// A run.
#[derive(Debug)]
pub struct ContinuousIntegration {
    config: Configuration,
    log_path: String,
    build_image: bool,
    scheduler: Scheduler,
    reporting: Option<CliReport>,
    arch: Arch,
    kickstart: String,
    report: String,
    stage: Stage,
    failure: Option<Error>,
    header: String,
}

/// What a `ContinuousIntegration` holds, as contracts speak of it.
pub struct ContinuousIntegrationView {
    pub config: ConfigurationView,
    /// The run's log directory.
    pub log_path: Seq<char>,
    /// Whether the base image is to be rebuilt whatever the date.
    pub build_image: bool,
    pub scheduler: SchedulerView,
    pub reporting: Option<CliReportView>,
    pub arch: Arch,
    /// The installer configuration with its markers.
    pub kickstart: Seq<char>,
    /// The page of the report with its markers.
    pub report: Seq<char>,
    pub stage: StageView,
    /// The error that ends the run, once there is one.
    pub failure: Option<ErrorView>,
    /// The heading of the report, once it is written.
    pub header: Seq<char>,
}

impl View for ContinuousIntegration {
    type V = ContinuousIntegrationView;

    closed spec fn view(&self) -> ContinuousIntegrationView {
        ContinuousIntegrationView {
            config: self.config@,
            log_path: self.log_path@,
            build_image: self.build_image,
            scheduler: self.scheduler@,
            reporting: self.reporting.deep_view(),
            arch: self.arch,
            kickstart: self.kickstart@,
            report: self.report@,
            stage: self.stage@,
            failure: self.failure.deep_view(),
            header: self.header@,
        }
    }
}

impl ContinuousIntegrationView {
    /// The invariant of a run: the scheduler keeps its own; a stage that
    /// speaks to the sidecar or mails the report is entered only when there
    /// is a sidecar or an address; and once an error is recorded the run
    /// only winds up.
    pub open spec fn wf(self) -> bool {
        &&& self.scheduler.wf()
        &&& self.failure is Some ==> match self.stage {
            StageView::DestroyBase => true,
            StageView::Finish => true,
            StageView::Done => true,
            StageView::Warn(_, after) => after != After::Start,
            _ => false,
        }
        &&& match self.stage {
            StageView::StartHash => self.reporting is Some,
            StageView::ReportStart(_) => self.reporting is Some,
            StageView::Finish => self.reporting is Some && (self.failure is None
                ==> self.all_succeeded()),
            StageView::Email => self.config.email is Some && self.scheduler.turn == Turn::Done,
            StageView::Schedule => self.scheduler.turn != Turn::Done && self.scheduler.turn
                != Turn::Start,
            StageView::OvnHash => self.scheduler.turn == Turn::Done,
            StageView::OvsHash(_) => self.scheduler.turn == Turn::Done,
            StageView::WriteReport(_) => self.scheduler.turn == Turn::Done,
            StageView::RemoveLatest => self.scheduler.turn == Turn::Done,
            StageView::Symlink => self.scheduler.turn == Turn::Done,
            StageView::Warn(_, After::Finish) => self.failure is None ==> self.all_succeeded(),
            StageView::Done => self.failure is None ==> self.all_succeeded(),
            _ => true,
        }
    }

    /// Whether every job of the run is finished and none of them failed.
    pub open spec fn all_succeeded(self) -> bool {
        &&& self.scheduler.turn == Turn::Done
        &&& !any_failed(self.scheduler.finished())
        &&& self.scheduler.finished().len() == self.scheduler.cpu_intensive.jobs()
            + self.scheduler.regular.jobs()
    }

    /// The run of a configuration that begins at the time `clock`.
    pub open spec fn new(
        config: ConfigurationView,
        build_image: bool,
        clock: ClockView,
        arch: Arch,
        domain: Seq<char>,
        kickstart: Seq<char>,
        report: Seq<char>,
    ) -> ContinuousIntegrationView {
        let (log_path, log_name) = log_path_at(config.log_path, clock);
        let reporting = sidecar(config, log_name);
        ContinuousIntegrationView {
            config,
            log_path,
            build_image,
            scheduler: SchedulerView::new(config, log_path, reporting, arch, domain),
            reporting,
            arch,
            kickstart,
            report,
            stage: StageView::CreateLogDir,
            failure: None,
            header: Seq::empty(),
        }
    }

    /// The same with another stage or phase.
    pub open spec fn at(self, stage: StageView) -> ContinuousIntegrationView {
        ContinuousIntegrationView { stage, ..self }
    }

    /// The base image of the run.
    pub open spec fn base(self) -> BaseVmView {
        BaseVmView::new(self.config, self.log_path, self.arch, self.kickstart)
    }

    /// The path of the report's page.
    pub open spec fn report_path(self) -> Seq<char> {
        joined(self.log_path, "report.html"@)
    }

    /// The path of the link to the latest run's logs.
    pub open spec fn latest_path(self) -> Seq<char> {
        joined(self.config.log_path, "latest"@)
    }

    /// The run ended before anything was begun that needs an end.
    pub open spec fn abort(self, error: ErrorView) -> ContinuousIntegrationView {
        ContinuousIntegrationView { failure: Some(error), stage: StageView::Done, ..self }
    }

    /// The end of the run: the sidecar, if there is one, is told.
    pub open spec fn finish(self) -> ContinuousIntegrationView {
        if self.reporting is Some {
            self.at(StageView::Finish)
        } else {
            self.at(StageView::Done)
        }
    }

    /// The run ended by `error`.
    pub open spec fn fail(self, error: ErrorView) -> ContinuousIntegrationView {
        ContinuousIntegrationView { failure: Some(error), ..self }.finish()
    }

    /// The base image failed: its machine's definition is still removed.
    pub open spec fn fail_image(self, error: BaseVmErrorView) -> ContinuousIntegrationView {
        ContinuousIntegrationView {
            failure: Some(ErrorView::BaseVm(error)),
            stage: StageView::DestroyBase,
            ..self
        }
    }

    /// The refresh of the base image begins: with a rebuild when one was
    /// asked for or the day has come, else with the update.
    pub open spec fn begin_image(self, clock: ClockView) -> ContinuousIntegrationView {
        if self.build_image || clock.day == BUILD_AT_DAY {
            self.at(StageView::AnnounceRebuild)
        } else {
            self.at(StageView::AnnounceUpdate)
        }
    }

    /// The jobs are run, unless there is none: the schedule is begun if it
    /// was not yet, and the report follows once it is done.
    pub open spec fn begin_schedule(self) -> ContinuousIntegrationView {
        let begun = ContinuousIntegrationView { scheduler: self.scheduler.begin(), ..self };
        if begun.scheduler.turn == Turn::Done {
            begun.at(StageView::OvnHash)
        } else {
            begun.at(StageView::Schedule)
        }
    }

    /// What follows the removal of the base machine's definition: the end of a run that has failed, else the jobs.
    pub open spec fn after_destroy(self) -> ContinuousIntegrationView {
        if self.failure is Some {
            self.finish()
        } else {
            self.begin_schedule()
        }
    }

    /// Whether the sidecar is told that the run came to its end in order:
    /// it did so also when jobs failed.
    pub open spec fn orderly(self) -> bool {
        match self.failure {
            None => true,
            Some(ErrorView::Failure) => true,
            _ => false,
        }
    }

    /// What is to be done next; nothing when the run is over.
    pub open spec fn action(self) -> Option<ActionView> {
        match self.stage {
            StageView::CreateLogDir => Some(
                ActionView::CreateDir { path: self.log_path, recursive: true },
            ),
            StageView::UpdateOvn(phase) => Some(
                crate::git::update_action(self.config.git.ovn_path, phase),
            ),
            StageView::UpdateOvs(phase) => Some(
                crate::git::update_action(self.config.git.ovs_path, phase),
            ),
            StageView::Hash => Some(
                ActionView::Run { command: commit_hash_command(self.config.git.ovn_path) },
            ),
            StageView::StartHash => Some(
                ActionView::Run { command: commit_hash_command(self.config.git.ovn_path) },
            ),
            StageView::ReportStart(hash) => match self.reporting {
                Some(reporting) => Some(ActionView::Run { command: reporting.start(hash, self.arch) }),
                None => None,
            },
            StageView::AnnounceRebuild => Some(
                ActionView::Print { line: "Creating new base image."@ },
            ),
            StageView::Rebuild(phase) => Some(self.base().rebuild_action(phase)),
            StageView::AnnounceUpdate => Some(ActionView::Print { line: "Updating base image."@ }),
            StageView::Update(phase) => Some(self.base().update_action(phase)),
            StageView::DestroyBase => Some(
                ActionView::Run { command: BaseVmView::destroy_command() },
            ),
            StageView::Schedule => self.scheduler.action(),
            StageView::OvnHash => Some(
                ActionView::Run { command: commit_hash_command(self.config.git.ovn_path) },
            ),
            StageView::OvsHash(_) => Some(
                ActionView::Run { command: commit_hash_command(self.config.git.ovs_path) },
            ),
            StageView::WriteReport(page) => Some(
                ActionView::WriteFile { path: self.report_path(), content: page },
            ),
            StageView::RemoveLatest => Some(ActionView::RemoveFile { path: self.latest_path() }),
            StageView::Symlink => Some(
                ActionView::Symlink { target: self.log_path, link: self.latest_path() },
            ),
            StageView::Email => match self.config.email {
                Some(email) => Some(
                    ActionView::Run {
                        command: mail_command(
                            email,
                            self.report_path(),
                            self.header,
                            self.config.host,
                        ),
                    },
                ),
                None => None,
            },
            StageView::Finish => match self.reporting {
                Some(reporting) => Some(
                    ActionView::Run { command: reporting.finish(self.orderly()) },
                ),
                None => None,
            },
            StageView::Warn(line, _) => Some(ActionView::Warn { line }),
            StageView::Done => None,
        }
    }

    /// A step of the first part of a run: the log directory, the source
    /// trees, and the word to the sidecar.
    pub open spec fn run_sources(self, clock: ClockView, reply: ReplyView) -> ContinuousIntegrationView {
        match self.stage {
            StageView::CreateLogDir => match reply.unit() {
                Err(e) => self.abort(ErrorView::LogDirectory(e)),
                Ok(_) => if self.config.git.update {
                    self.at(StageView::UpdateOvn(GitPhaseView::Parent))
                } else {
                    self.at(StageView::Hash)
                },
            },
            StageView::UpdateOvn(phase) => match crate::git::update(
                self.config.git.ovn_path,
                phase,
                reply,
            ) {
                Err(e) => self.abort(ErrorView::Git(e)),
                Ok(Some(next)) => self.at(StageView::UpdateOvn(next)),
                Ok(None) => self.at(StageView::UpdateOvs(GitPhaseView::Parent)),
            },
            StageView::UpdateOvs(phase) => match crate::git::update(
                self.config.git.ovs_path,
                phase,
                reply,
            ) {
                Err(e) => self.abort(ErrorView::Git(e)),
                Ok(Some(next)) => self.at(StageView::UpdateOvs(next)),
                Ok(None) => self.at(StageView::Hash),
            },
            StageView::Hash => match commit_hash(self.config.git.ovn_path, reply) {
                Err(e) => self.abort(ErrorView::Git(e)),
                Ok(_) => if self.reporting is Some {
                    self.at(StageView::StartHash)
                } else {
                    self.begin_image(clock)
                },
            },
            StageView::StartHash => match commit_hash(self.config.git.ovn_path, reply) {
                Err(e) => self.abort(ErrorView::Git(e)),
                Ok(hash) => self.at(StageView::ReportStart(hash)),
            },
            StageView::ReportStart(_) => match complaint("pipeline-start"@, reply) {
                Some(line) => self.at(StageView::Warn(line, After::Start)),
                None => self.begin_image(clock),
            },
            _ => self,
        }
    }

    /// A step of the refresh of the base image. Whether it succeeds or
    /// fails, the base machine's definition is removed at its end.
    pub open spec fn run_image(self, reply: ReplyView) -> ContinuousIntegrationView {
        match self.stage {
            StageView::AnnounceRebuild => self.at(
                StageView::Rebuild(RebuildPhaseView::CreateLogDir),
            ),
            StageView::Rebuild(phase) => match BaseVmView::rebuild(phase, reply) {
                Err(e) => self.fail_image(e),
                Ok(Some(next)) => self.at(StageView::Rebuild(next)),
                Ok(None) => self.at(StageView::AnnounceUpdate),
            },
            StageView::AnnounceUpdate => self.at(StageView::Update(UpdatePhaseView::CreateLogDir)),
            StageView::Update(phase) => match BaseVmView::update(phase, reply) {
                Err(e) => self.fail_image(e),
                Ok(Some(next)) => self.at(StageView::Update(next)),
                Ok(None) => self.at(StageView::DestroyBase),
            },
            StageView::DestroyBase => match BaseVmView::destroyed(reply) {
                Some(line) => self.at(StageView::Warn(line, After::Destroy)),
                None => self.after_destroy(),
            },
            _ => self,
        }
    }

    /// The run with its report written, at the date that `clock` shows.
    pub open spec fn write_report(
        self,
        clock: ClockView,
        ovn_hash: Seq<char>,
        ovs_hash: Seq<char>,
    ) -> ContinuousIntegrationView {
        let finished = self.scheduler.finished();
        let header = report_header(finished, clock.date, self.arch);
        ContinuousIntegrationView {
            header,
            stage: StageView::WriteReport(
                html_report(
                    self.report,
                    report_rows(finished, self.config.host, self.config.log_path),
                    header,
                    ovn_hash,
                    ovs_hash,
                ),
            ),
            ..self
        }
    }

    /// A step of the reporting: the report is written and linked, and
    /// mailed if a job failed; a failed job makes the run fail.
    pub open spec fn run_report(self, clock: ClockView, reply: ReplyView) -> ContinuousIntegrationView {
        match self.stage {
            StageView::OvnHash => match commit_hash(self.config.git.ovn_path, reply) {
                Err(e) => self.fail(ErrorView::Git(e)),
                Ok(hash) => self.at(StageView::OvsHash(hash)),
            },
            StageView::OvsHash(ovn_hash) => match commit_hash(self.config.git.ovs_path, reply) {
                Err(e) => self.fail(ErrorView::Git(e)),
                Ok(ovs_hash) => self.write_report(clock, ovn_hash, ovs_hash),
            },
            StageView::WriteReport(_) => match reply.unit() {
                Err(e) => self.fail(ErrorView::HtmlReport(e)),
                Ok(_) => self.at(StageView::RemoveLatest),
            },
            StageView::RemoveLatest => match ignoring_not_found(reply.unit()) {
                Err(e) => self.fail(ErrorView::LogDirectory(e)),
                Ok(_) => self.at(StageView::Symlink),
            },
            StageView::Symlink => match reply.unit() {
                Err(e) => self.fail(ErrorView::LogDirectory(e)),
                Ok(_) => if any_failed(self.scheduler.finished()) {
                    if self.config.email is Some {
                        self.at(StageView::Email)
                    } else {
                        self.fail(ErrorView::Failure)
                    }
                } else {
                    self.finish()
                },
            },
            StageView::Email => match sent(reply) {
                Err(e) => self.fail(ErrorView::EmailReport(e)),
                Ok(_) => self.fail(ErrorView::Failure),
            },
            _ => self,
        }
    }

    /// A step of the jobs' schedule.
    pub open spec fn run_schedule(self, clock: ClockView, reply: ReplyView) -> ContinuousIntegrationView {
        ContinuousIntegrationView {
            scheduler: self.scheduler.run(clock.millis, reply),
            ..self
        }.begin_schedule()
    }

    /// A step of the run's end, or the step after a warning.
    pub open spec fn run_end(self, clock: ClockView, reply: ReplyView) -> ContinuousIntegrationView {
        match self.stage {
            StageView::Finish => match complaint("pipeline-finish"@, reply) {
                Some(line) => self.at(StageView::Warn(line, After::Finish)),
                None => self.at(StageView::Done),
            },
            StageView::Warn(_, after) => match after {
                After::Start => self.begin_image(clock),
                After::Destroy => self.after_destroy(),
                After::Finish => self.at(StageView::Done),
            },
            _ => self,
        }
    }

    /// The run after its pending action was answered by `reply` at the
    /// time `clock`.
    pub open spec fn run(self, clock: ClockView, reply: ReplyView) -> ContinuousIntegrationView {
        match self.stage {
            StageView::CreateLogDir => self.run_sources(clock, reply),
            StageView::UpdateOvn(_) => self.run_sources(clock, reply),
            StageView::UpdateOvs(_) => self.run_sources(clock, reply),
            StageView::Hash => self.run_sources(clock, reply),
            StageView::StartHash => self.run_sources(clock, reply),
            StageView::ReportStart(_) => self.run_sources(clock, reply),
            StageView::AnnounceRebuild => self.run_image(reply),
            StageView::Rebuild(_) => self.run_image(reply),
            StageView::AnnounceUpdate => self.run_image(reply),
            StageView::Update(_) => self.run_image(reply),
            StageView::DestroyBase => self.run_image(reply),
            StageView::Schedule => self.run_schedule(clock, reply),
            StageView::OvnHash => self.run_report(clock, reply),
            StageView::OvsHash(_) => self.run_report(clock, reply),
            StageView::WriteReport(_) => self.run_report(clock, reply),
            StageView::RemoveLatest => self.run_report(clock, reply),
            StageView::Symlink => self.run_report(clock, reply),
            StageView::Email => self.run_report(clock, reply),
            StageView::Finish => self.run_end(clock, reply),
            StageView::Warn(_, _) => self.run_end(clock, reply),
            StageView::Done => self,
        }
    }

    /// The outcome of the run, once it is over: success when no job failed
    /// and no step failed.
    pub open spec fn result(self) -> Option<Result<(), ErrorView>> {
        if self.stage is Done {
            match self.failure {
                Some(e) => Some(Err(e)),
                None => Some(Ok(())),
            }
        } else {
            None
        }
    }
}

proof fn lemma_schedule_stage(ci: ContinuousIntegrationView, clock: ClockView, reply: ReplyView)
    requires
        ci.wf(),
        ci.stage is Schedule,
    ensures
        ci.run_schedule(clock, reply).wf(),
        ci.action() is Some,
        ci.run_schedule(clock, reply).failure == ci.failure,
{
    crate::scheduler::lemma_scheduler_run(ci.scheduler, clock.millis, reply);
    crate::scheduler::lemma_action_until_done(ci.scheduler);
    crate::scheduler::lemma_scheduler_begin(ci.scheduler.run(clock.millis, reply));
}

proof fn lemma_sources_stage(ci: ContinuousIntegrationView, clock: ClockView, reply: ReplyView)
    requires
        ci.wf(),
        ci.failure is None,
    ensures
        ci.run_sources(clock, reply).wf(),
{
}

proof fn lemma_image_stage(ci: ContinuousIntegrationView, reply: ReplyView)
    requires
        ci.wf(),
        ci.stage is AnnounceRebuild || ci.stage is Rebuild || ci.stage is AnnounceUpdate
            || ci.stage is Update || ci.stage is DestroyBase,
    ensures
        ci.run_image(reply).wf(),
        ci.failure is Some ==> ci.run_image(reply).failure == ci.failure,
{
    crate::scheduler::lemma_scheduler_begin(ci.scheduler);
    if ci.scheduler.begin().turn == Turn::Done {
        crate::scheduler::lemma_done_means_all_finished(ci.scheduler.begin());
    }
}

proof fn lemma_report_stage(ci: ContinuousIntegrationView, clock: ClockView, reply: ReplyView)
    requires
        ci.wf(),
        ci.failure is None,
        ci.scheduler.turn == Turn::Done,
    ensures
        ci.run_report(clock, reply).wf(),
{
    crate::scheduler::lemma_done_means_all_finished(ci.scheduler);
}

proof fn lemma_end_stage(ci: ContinuousIntegrationView, clock: ClockView, reply: ReplyView)
    requires
        ci.wf(),
        ci.stage is Finish || ci.stage is Warn,
    ensures
        ci.run_end(clock, reply).wf(),
        ci.failure is Some ==> ci.run_end(clock, reply).failure == ci.failure,
{
    crate::scheduler::lemma_scheduler_begin(ci.scheduler);
    if ci.scheduler.turn == Turn::Done {
        crate::scheduler::lemma_done_means_all_finished(ci.scheduler);
    }
    if ci.scheduler.begin().turn == Turn::Done {
        crate::scheduler::lemma_done_means_all_finished(ci.scheduler.begin());
    }
}

/// A run succeeds only if every one of its jobs is finished and none of
/// them failed.
pub proof fn lemma_success_means_all_jobs_succeeded(ci: ContinuousIntegrationView)
    requires
        ci.wf(),
        ci.result() == Some(Ok::<(), ErrorView>(())),
    ensures
        ci.all_succeeded(),
{
}

/// Whatever the reply, a step of a run keeps the invariant, and with it
/// that of the scheduler; there is something to do exactly until the run is
/// over; and an error once recorded is the run's outcome, whatever is
/// still done to wind the run up.
pub proof fn lemma_run(ci: ContinuousIntegrationView, clock: ClockView, reply: ReplyView)
    requires
        ci.wf(),
    ensures
        ci.run(clock, reply).wf(),
        ci.action() is None <==> ci.stage is Done,
        ci.failure is Some ==> ci.run(clock, reply).failure == ci.failure,
{
    match ci.stage {
        StageView::CreateLogDir => lemma_sources_stage(ci, clock, reply),
        StageView::UpdateOvn(_) => lemma_sources_stage(ci, clock, reply),
        StageView::UpdateOvs(_) => lemma_sources_stage(ci, clock, reply),
        StageView::Hash => lemma_sources_stage(ci, clock, reply),
        StageView::StartHash => lemma_sources_stage(ci, clock, reply),
        StageView::ReportStart(_) => lemma_sources_stage(ci, clock, reply),
        StageView::AnnounceRebuild => lemma_image_stage(ci, reply),
        StageView::Rebuild(_) => lemma_image_stage(ci, reply),
        StageView::AnnounceUpdate => lemma_image_stage(ci, reply),
        StageView::Update(_) => lemma_image_stage(ci, reply),
        StageView::DestroyBase => lemma_image_stage(ci, reply),
        StageView::Schedule => lemma_schedule_stage(ci, clock, reply),
        StageView::OvnHash => lemma_report_stage(ci, clock, reply),
        StageView::OvsHash(_) => lemma_report_stage(ci, clock, reply),
        StageView::WriteReport(_) => lemma_report_stage(ci, clock, reply),
        StageView::RemoveLatest => lemma_report_stage(ci, clock, reply),
        StageView::Symlink => lemma_report_stage(ci, clock, reply),
        StageView::Email => lemma_report_stage(ci, clock, reply),
        StageView::Finish => lemma_end_stage(ci, clock, reply),
        StageView::Warn(_, _) => lemma_end_stage(ci, clock, reply),
        StageView::Done => {},
    }
}

/// The run's log directory below `path` and its name, for a run that
/// begins at the time `clock`.
pub fn create_log_path(path: &str, clock: &Clock) -> (r: (String, String))
    ensures
        (r.0@, r.1@) == log_path_at(path@, clock@),
{
    (join_path(path, clock.stamp()), String::from_str(clock.stamp()))
}

fn count_successes(finished: &Vec<&Runner<Finished>>) -> (count: usize)
    ensures
        count == successes(finished.deep_view()),
        count <= finished.len(),
{
    let mut count: usize = 0;
    let mut i: usize = 0;
    assert(finished.deep_view().take(0) =~= Seq::empty());
    while i < finished.len()
        invariant
            i <= finished.len(),
            count <= i,
            count == successes(finished.deep_view().take(i as int)),
        decreases finished.len() - i,
    {
        let ghost done = finished.deep_view().take(i as int);
        if finished[i].success() {
            count += 1;
        }
        i += 1;
        proof {
            let now = finished.deep_view().take(i as int);
            assert(now.drop_last() =~= done);
            assert(now.last() == finished[i - 1]@);
        }
    }
    assert(finished.deep_view().take(i as int) =~= finished.deep_view());
    count
}

fn rows(finished: &Vec<&Runner<Finished>>, host: &str, log_prefix: &str) -> (text: String)
    ensures
        text@ == report_rows(finished.deep_view(), host@, log_prefix@),
{
    let mut text = String::new();
    let mut i: usize = 0;
    assert(finished.deep_view().take(0) =~= Seq::empty());
    while i < finished.len()
        invariant
            i <= finished.len(),
            text@ == report_rows(finished.deep_view().take(i as int), host@, log_prefix@),
        decreases finished.len() - i,
    {
        let ghost done = finished.deep_view().take(i as int);
        text.append(finished[i].report_html(host, log_prefix).as_str());
        i += 1;
        proof {
            let now = finished.deep_view().take(i as int);
            assert(now.drop_last() =~= done);
            assert(now.last() == finished[i - 1]@);
        }
    }
    assert(finished.deep_view().take(i as int) =~= finished.deep_view());
    text
}

fn short(hash: &str) -> (text: String)
    ensures
        text@ == short_hash(hash@),
{
    if hash.unicode_len() > 12 {
        String::from_str(hash.substring_char(0, 12))
    } else {
        String::from_str(hash)
    }
}

fn some_failed(finished: &Vec<&Runner<Finished>>) -> (r: bool)
    ensures
        r == any_failed(finished.deep_view()),
{
    let mut i: usize = 0;
    while i < finished.len()
        invariant
            i <= finished.len(),
            forall|j: int| 0 <= j < i ==> (#[trigger] finished.deep_view()[j]).success(),
        decreases finished.len() - i,
    {
        assert(finished.deep_view()[i as int] == finished[i as int]@);
        if !finished[i].success() {
            return true;
        }
        i += 1;
    }
    false
}

impl ContinuousIntegration {
    /// The run of `config` that begins at the time `clock`. With
    /// `build_image` the base image is rebuilt whatever the date.
    pub fn new(
        config: Configuration,
        build_image: bool,
        clock: &Clock,
        arch: Arch,
        templates: Templates,
    ) -> (ci: ContinuousIntegration)
        requires
            config@.suites.len() + crate::vm::runner::NET_SUFFIX_OFFSET <= usize::MAX,
        ensures
            ci@ == ContinuousIntegrationView::new(
                config@,
                build_image,
                clock@,
                arch,
                templates.domain@,
                templates.kickstart@,
                templates.report@,
            ),
            ci@.wf(),
    {
        let (log_path, log_name) = create_log_path(config.log_path(), clock);
        let reporting = match config.cli_report_binary() {
            Some(binary) => {
                let mut url = String::from_str("http://");
                url.append(config.host());
                url.append(":8080/");
                url.append(log_name.as_str());
                Some(CliReport::new(String::from_str(binary), url))
            },
            None => None,
        };
        let second = match &reporting {
            Some(r) => Some(r.duplicate()),
            None => None,
        };
        let scheduler = Scheduler::new(&config, log_path.as_str(), second, arch, templates.domain);
        ContinuousIntegration {
            config,
            log_path,
            build_image,
            scheduler,
            reporting,
            arch,
            kickstart: templates.kickstart,
            report: templates.report,
            stage: Stage::CreateLogDir,
            failure: None,
            header: String::new(),
        }
    }

    /// The scheduler of the run's jobs.
    pub fn scheduler(&self) -> (s: &Scheduler)
        ensures
            s@ == self@.scheduler,
    {
        &self.scheduler
    }

    /// The run's log directory.
    pub fn log_path(&self) -> (r: &str)
        ensures
            r@ == self@.log_path,
    {
        self.log_path.as_str()
    }

    /// The action that creates the run's log directory.
    fn create_log_directory(&self) -> (action: Action)
        ensures
            action@ == (ActionView::CreateDir { path: self@.log_path, recursive: true }),
    {
        Action::CreateDir { path: self.log_path.clone(), recursive: true }
    }

    /// Whether a job failed.
    pub fn should_fail(&self) -> (r: bool)
        ensures
            r == any_failed(self@.scheduler.finished()),
    {
        some_failed(&self.scheduler.finished())
    }

    /// The heading of the report, for the date that `clock` shows.
    pub fn report_header(&self, clock: &Clock) -> (header: String)
        ensures
            header@ == report_header(self@.scheduler.finished(), clock@.date, self@.arch),
    {
        let finished = self.scheduler.finished();
        let success = count_successes(&finished);
        let mut header = String::from_str("OVN CI - ");
        header.append(clock.date());
        header.append(" - ");
        header.append(self.arch.name());
        header.append(" - Success (");
        header.append(decimal_string(success as u64).as_str());
        header.append(") - Failure (");
        header.append(decimal_string((finished.len() - success) as u64).as_str());
        header.append(")");
        header
    }

    /// The page of the report under `header`, for the two trees' commits.
    fn save_html_report(&self, header: &str, ovn_hash: &str, ovs_hash: &str) -> (page: String)
        ensures
            page@ == html_report(
                self@.report,
                report_rows(
                    self@.scheduler.finished(),
                    self@.config.host,
                    self@.config.log_path,
                ),
                header@,
                ovn_hash@,
                ovs_hash@,
            ),
    {
        let finished = self.scheduler.finished();
        let rows = rows(&finished, self.config.host(), self.config.log_path());
        let page = replace(self.report.as_str(), "@ROWS@", rows.as_str());
        let page = replace(page.as_str(), "@HEADER@", header);
        let page = replace(page.as_str(), "@OVN_HASH@", ovn_hash);
        let page = replace(page.as_str(), "@OVN_HASH_SHORT@", short(ovn_hash).as_str());
        let page = replace(page.as_str(), "@OVS_HASH@", ovs_hash);
        replace(page.as_str(), "@OVS_HASH_SHORT@", short(ovs_hash).as_str())
    }

    /// The action that links `latest` to the run's log directory.
    fn create_latest_symlink(&self) -> (action: Action)
        ensures
            action@ == (ActionView::Symlink {
                target: self@.log_path,
                link: self@.latest_path(),
            }),
    {
        Action::Symlink {
            target: self.log_path.clone(),
            link: join_path(self.config.log_path(), "latest"),
        }
    }

    /// What is to be done next; nothing when the run is over.
    pub fn action(&self) -> (action: Option<Action>)
        requires
            self@.wf(),
        ensures
            action.deep_view() == self@.action(),
            action is None <==> self@.stage is Done,
    {
        proof {
            crate::scheduler::lemma_action_until_done(self@.scheduler);
        }
        match &self.stage {
            Stage::CreateLogDir => Some(self.create_log_directory()),
            Stage::UpdateOvn(phase) => Some(
                Git::new(self.config.git().ovn_path()).update_action(phase),
            ),
            Stage::UpdateOvs(phase) => Some(
                Git::new(self.config.git().ovs_path()).update_action(phase),
            ),
            Stage::Hash => Some(Git::new(self.config.git().ovn_path()).commit_hash()),
            Stage::StartHash => Some(Git::new(self.config.git().ovn_path()).commit_hash()),
            Stage::ReportStart(hash) => match &self.reporting {
                Some(reporting) => Some(reporting.start(hash.as_str(), self.arch)),
                None => None,
            },
            Stage::AnnounceRebuild => Some(
                Action::Print { line: String::from_str("Creating new base image.") },
            ),
            Stage::Rebuild(phase) => Some(
                BaseVm::new(
                    &self.config,
                    self.log_path.as_str(),
                    self.arch,
                    self.kickstart.as_str(),
                ).rebuild_action(phase),
            ),
            Stage::AnnounceUpdate => Some(
                Action::Print { line: String::from_str("Updating base image.") },
            ),
            Stage::Update(phase) => Some(
                BaseVm::new(
                    &self.config,
                    self.log_path.as_str(),
                    self.arch,
                    self.kickstart.as_str(),
                ).update_action(phase),
            ),
            Stage::DestroyBase => Some(
                BaseVm::new(
                    &self.config,
                    self.log_path.as_str(),
                    self.arch,
                    self.kickstart.as_str(),
                ).destroy(),
            ),
            Stage::Schedule => self.scheduler.action(),
            Stage::OvnHash => Some(Git::new(self.config.git().ovn_path()).commit_hash()),
            Stage::OvsHash(_) => Some(Git::new(self.config.git().ovs_path()).commit_hash()),
            Stage::WriteReport(page) => Some(
                Action::WriteFile {
                    path: join_path(self.log_path.as_str(), "report.html"),
                    content: page.clone(),
                },
            ),
            Stage::RemoveLatest => Some(
                Action::RemoveFile { path: join_path(self.config.log_path(), "latest") },
            ),
            Stage::Symlink => Some(self.create_latest_symlink()),
            Stage::Email => match self.config.email() {
                Some(email) => Some(
                    EmailReport::new(
                        email,
                        join_path(self.log_path.as_str(), "report.html").as_str(),
                        self.header.as_str(),
                        self.config.host(),
                    ).send(),
                ),
                None => None,
            },
            Stage::Finish => match &self.reporting {
                Some(reporting) => {
                    let orderly = match &self.failure {
                        None => true,
                        Some(Error::Failure) => true,
                        _ => false,
                    };
                    Some(reporting.finish(orderly))
                },
                None => None,
            },
            Stage::Warn(line, _) => Some(Action::Warn { line: line.clone() }),
            Stage::Done => None,
        }
    }

    fn at(self, stage: Stage) -> (ci: ContinuousIntegration)
        ensures
            ci@ == self@.at(stage@),
    {
        ContinuousIntegration {
            config: self.config,
            log_path: self.log_path,
            build_image: self.build_image,
            scheduler: self.scheduler,
            reporting: self.reporting,
            arch: self.arch,
            kickstart: self.kickstart,
            report: self.report,
            stage,
            failure: self.failure,
            header: self.header,
        }
    }

    fn failed(self, error: Error, stage: Stage) -> (ci: ContinuousIntegration)
        ensures
            ci@ == (ContinuousIntegrationView {
                failure: Some(error@),
                stage: stage@,
                ..self@
            }),
    {
        ContinuousIntegration {
            config: self.config,
            log_path: self.log_path,
            build_image: self.build_image,
            scheduler: self.scheduler,
            reporting: self.reporting,
            arch: self.arch,
            kickstart: self.kickstart,
            report: self.report,
            stage,
            failure: Some(error),
            header: self.header,
        }
    }

    fn finish(self) -> (ci: ContinuousIntegration)
        ensures
            ci@ == self@.finish(),
    {
        if self.reporting.is_some() {
            self.at(Stage::Finish)
        } else {
            self.at(Stage::Done)
        }
    }

    fn fail(self, error: Error) -> (ci: ContinuousIntegration)
        ensures
            ci@ == self@.fail(error@),
    {
        let stage = if self.reporting.is_some() {
            Stage::Finish
        } else {
            Stage::Done
        };
        self.failed(error, stage)
    }

    fn begin_image(self, clock: &Clock) -> (ci: ContinuousIntegration)
        ensures
            ci@ == self@.begin_image(clock@),
    {
        if self.build_image || clock.day() == BUILD_AT_DAY {
            self.at(Stage::AnnounceRebuild)
        } else {
            self.at(Stage::AnnounceUpdate)
        }
    }

    fn begin_schedule(self) -> (ci: ContinuousIntegration)
        requires
            self@.scheduler.wf(),
        ensures
            ci@ == self@.begin_schedule(),
    {
        let begun = ContinuousIntegration {
            config: self.config,
            log_path: self.log_path,
            build_image: self.build_image,
            scheduler: self.scheduler.begin(),
            reporting: self.reporting,
            arch: self.arch,
            kickstart: self.kickstart,
            report: self.report,
            stage: self.stage,
            failure: self.failure,
            header: self.header,
        };
        if begun.scheduler.is_done() {
            begun.at(Stage::OvnHash)
        } else {
            begun.at(Stage::Schedule)
        }
    }

    fn after_destroy(self) -> (ci: ContinuousIntegration)
        requires
            self@.scheduler.wf(),
        ensures
            ci@ == self@.after_destroy(),
    {
        if self.failure.is_some() {
            self.finish()
        } else {
            self.begin_schedule()
        }
    }

    fn schedule(self, now: u64, reply: Reply) -> (ci: ContinuousIntegration)
        requires
            self@.scheduler.wf(),
        ensures
            ci@ == (ContinuousIntegrationView {
                scheduler: self@.scheduler.run(now, reply@),
                ..self@
            }).begin_schedule(),
    {
        let ci = ContinuousIntegration {
            config: self.config,
            log_path: self.log_path,
            build_image: self.build_image,
            scheduler: self.scheduler.run(now, reply),
            reporting: self.reporting,
            arch: self.arch,
            kickstart: self.kickstart,
            report: self.report,
            stage: self.stage,
            failure: self.failure,
            header: self.header,
        };
        ci.begin_schedule()
    }

    fn write_report(self, clock: &Clock, ovn_hash: &str, ovs_hash: &str) -> (ci:
        ContinuousIntegration)
        ensures
            ci@ == self@.write_report(clock@, ovn_hash@, ovs_hash@),
    {
        let header = self.report_header(clock);
        let page = self.save_html_report(header.as_str(), ovn_hash, ovs_hash);
        ContinuousIntegration {
            config: self.config,
            log_path: self.log_path,
            build_image: self.build_image,
            scheduler: self.scheduler,
            reporting: self.reporting,
            arch: self.arch,
            kickstart: self.kickstart,
            report: self.report,
            stage: Stage::WriteReport(page),
            failure: self.failure,
            header,
        }
    }

    fn run_sources(self, stage: Stage, clock: &Clock, reply: Reply) -> (ci: ContinuousIntegration)
        ensures
            ci@ == self@.at(stage@).run_sources(clock@, reply@),
    {
        match stage {
            Stage::CreateLogDir => match reply.unit() {
                Err(e) => self.failed(Error::LogDirectory(e), Stage::Done),
                Ok(()) => {
                    if self.config.git().should_update() {
                        self.at(Stage::UpdateOvn(GitPhase::Parent))
                    } else {
                        self.at(Stage::Hash)
                    }
                },
            },
            Stage::UpdateOvn(phase) => {
                let next = Git::new(self.config.git().ovn_path()).update(phase, reply);
                match next {
                    Err(e) => self.failed(Error::Git(e), Stage::Done),
                    Ok(Some(next)) => self.at(Stage::UpdateOvn(next)),
                    Ok(None) => self.at(Stage::UpdateOvs(GitPhase::Parent)),
                }
            },
            Stage::UpdateOvs(phase) => {
                let next = Git::new(self.config.git().ovs_path()).update(phase, reply);
                match next {
                    Err(e) => self.failed(Error::Git(e), Stage::Done),
                    Ok(Some(next)) => self.at(Stage::UpdateOvs(next)),
                    Ok(None) => self.at(Stage::Hash),
                }
            },
            Stage::Hash => {
                let hash = Git::new(self.config.git().ovn_path()).commit_hash_of(reply);
                match hash {
                    Err(e) => self.failed(Error::Git(e), Stage::Done),
                    Ok(_) => {
                        if self.reporting.is_some() {
                            self.at(Stage::StartHash)
                        } else {
                            self.begin_image(clock)
                        }
                    },
                }
            },
            Stage::StartHash => {
                let hash = Git::new(self.config.git().ovn_path()).commit_hash_of(reply);
                match hash {
                    Err(e) => self.failed(Error::Git(e), Stage::Done),
                    Ok(hash) => self.at(Stage::ReportStart(hash)),
                }
            },
            Stage::ReportStart(_) => match CliReport::complain("pipeline-start", reply) {
                Some(line) => self.at(Stage::Warn(line, After::Start)),
                None => self.begin_image(clock),
            },
            other => self.at(other),
        }
    }

    fn run_image(self, stage: Stage, reply: Reply) -> (ci: ContinuousIntegration)
        requires
            self@.scheduler.wf(),
        ensures
            ci@ == self@.at(stage@).run_image(reply@),
    {
        match stage {
            Stage::AnnounceRebuild => self.at(Stage::Rebuild(RebuildPhase::CreateLogDir)),
            Stage::Rebuild(phase) => match BaseVm::rebuild(phase, reply) {
                Err(e) => self.failed(Error::BaseVm(e), Stage::DestroyBase),
                Ok(Some(next)) => self.at(Stage::Rebuild(next)),
                Ok(None) => self.at(Stage::AnnounceUpdate),
            },
            Stage::AnnounceUpdate => self.at(Stage::Update(UpdatePhase::CreateLogDir)),
            Stage::Update(phase) => match BaseVm::update(phase, reply) {
                Err(e) => self.failed(Error::BaseVm(e), Stage::DestroyBase),
                Ok(Some(next)) => self.at(Stage::Update(next)),
                Ok(None) => self.at(Stage::DestroyBase),
            },
            Stage::DestroyBase => match BaseVm::destroyed(reply) {
                Some(line) => self.at(Stage::Warn(line, After::Destroy)),
                None => self.after_destroy(),
            },
            other => self.at(other),
        }
    }

    fn run_report(self, stage: Stage, clock: &Clock, reply: Reply) -> (ci: ContinuousIntegration)
        ensures
            ci@ == self@.at(stage@).run_report(clock@, reply@),
    {
        match stage {
            Stage::OvnHash => {
                let hash = Git::new(self.config.git().ovn_path()).commit_hash_of(reply);
                match hash {
                    Err(e) => self.fail(Error::Git(e)),
                    Ok(hash) => self.at(Stage::OvsHash(hash)),
                }
            },
            Stage::OvsHash(ovn_hash) => {
                let hash = Git::new(self.config.git().ovs_path()).commit_hash_of(reply);
                match hash {
                    Err(e) => self.fail(Error::Git(e)),
                    Ok(ovs_hash) => self.write_report(clock, ovn_hash.as_str(), ovs_hash.as_str()),
                }
            },
            Stage::WriteReport(_) => match reply.unit() {
                Err(e) => self.fail(Error::HtmlReport(e)),
                Ok(()) => self.at(Stage::RemoveLatest),
            },
            Stage::RemoveLatest => match ignore_not_found(reply.unit()) {
                Err(e) => self.fail(Error::LogDirectory(e)),
                Ok(()) => self.at(Stage::Symlink),
            },
            Stage::Symlink => match reply.unit() {
                Err(e) => self.fail(Error::LogDirectory(e)),
                Ok(()) => {
                    if self.should_fail() {
                        if self.config.email().is_some() {
                            self.at(Stage::Email)
                        } else {
                            self.fail(Error::Failure)
                        }
                    } else {
                        self.finish()
                    }
                },
            },
            Stage::Email => match EmailReport::sent(reply) {
                Err(e) => self.fail(Error::EmailReport(e)),
                Ok(()) => self.fail(Error::Failure),
            },
            other => self.at(other),
        }
    }

    fn run_end(self, stage: Stage, clock: &Clock, reply: Reply) -> (ci: ContinuousIntegration)
        requires
            self@.scheduler.wf(),
        ensures
            ci@ == self@.at(stage@).run_end(clock@, reply@),
    {
        match stage {
            Stage::Finish => match CliReport::complain("pipeline-finish", reply) {
                Some(line) => self.at(Stage::Warn(line, After::Finish)),
                None => self.at(Stage::Done),
            },
            Stage::Warn(_, after) => match after {
                After::Start => self.begin_image(clock),
                After::Destroy => self.after_destroy(),
                After::Finish => self.at(Stage::Done),
            },
            other => self.at(other),
        }
    }

    /// Takes the reply to the pending action, given at the time `clock`,
    /// and brings the run to its next action or to its end.
    pub fn run(self, clock: &Clock, reply: Reply) -> (ci: ContinuousIntegration)
        requires
            self@.wf(),
        ensures
            ci@ == self@.run(clock@, reply@),
            ci@.wf(),
    {
        proof {
            lemma_run(self@, clock@, reply@);
        }
        let ContinuousIntegration {
            config,
            log_path,
            build_image,
            scheduler,
            reporting,
            arch,
            kickstart,
            report,
            stage,
            failure,
            header,
        } = self;
        let rest = ContinuousIntegration {
            config,
            log_path,
            build_image,
            scheduler,
            reporting,
            arch,
            kickstart,
            report,
            stage: Stage::Done,
            failure,
            header,
        };
        assert(rest@.at(stage@) == self@);
        match stage {
            Stage::CreateLogDir | Stage::UpdateOvn(_) | Stage::UpdateOvs(_) | Stage::Hash
            | Stage::StartHash | Stage::ReportStart(_) => rest.run_sources(stage, clock, reply),
            Stage::AnnounceRebuild | Stage::Rebuild(_) | Stage::AnnounceUpdate | Stage::Update(_)
            | Stage::DestroyBase => rest.run_image(stage, reply),
            Stage::Schedule => rest.schedule(clock.millis(), reply),
            Stage::OvnHash | Stage::OvsHash(_) | Stage::WriteReport(_) | Stage::RemoveLatest
            | Stage::Symlink | Stage::Email => rest.run_report(stage, clock, reply),
            Stage::Finish | Stage::Warn(_, _) => rest.run_end(stage, clock, reply),
            Stage::Done => rest,
        }
    }

    /// Whether the run is over.
    pub fn is_done(&self) -> (r: bool)
        ensures
            r == (self@.stage is Done),
    {
        match self.stage {
            Stage::Done => true,
            _ => false,
        }
    }

    /// The outcome of the run; `None` while it is not over.
    pub fn result(self) -> (r: Option<Result<(), Error>>)
        ensures
            match r {
                None => self@.result() is None,
                Some(Ok(_)) => self@.result() == Some(Ok::<(), ErrorView>(())),
                Some(Err(e)) => self@.result() == Some(Err::<(), ErrorView>(e@)),
            },
    {
        match self.stage {
            Stage::Done => match self.failure {
                Some(e) => Some(Err(e)),
                None => Some(Ok(())),
            },
            _ => None,
        }
    }
}

} // verus!

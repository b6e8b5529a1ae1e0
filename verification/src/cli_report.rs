//! The optional sidecar program that is told of the run's progress. Every
//! call is fire-and-forget: a failure is printed and goes no further.

use crate::command::{Command, CommandView};
use crate::effect::{Action, ActionView, Reply, ReplyView};
use crate::util::Arch;
use vstd::prelude::*;
use vstd::string::*;

verus! {

/// The sidecar program and the address of the run's logs.
#[derive(Debug)]
pub struct CliReport {
    binary: String,
    url: String,
}

/// What a `CliReport` holds, as contracts speak of it.
pub struct CliReportView {
    pub binary: Seq<char>,
    pub url: Seq<char>,
}

impl View for CliReport {
    type V = CliReportView;

    closed spec fn view(&self) -> CliReportView {
        CliReportView { binary: self.binary@, url: self.url@ }
    }
}

impl DeepView for CliReport {
    type V = CliReportView;

    open spec fn deep_view(&self) -> CliReportView {
        self@
    }
}

impl CliReportView {
    /// The sidecar invoked with nothing yet but its output on the
    /// orchestrator's terminal.
    pub open spec fn base(self) -> CommandView {
        CommandView::new(self.binary).inherit()
    }

    /// `pipeline-start <label> <hash> <url>`.
    pub open spec fn start(self, hash: Seq<char>, arch: Arch) -> CommandView {
        self.base().arg("pipeline-start"@).arg("ovn-ci ("@ + arch.name_spec() + ")"@).arg(hash).arg(
            self.url,
        )
    }

    /// `pipeline-finish [--error] <url>`.
    pub open spec fn finish(self, success: bool) -> CommandView {
        if success {
            self.base().arg("pipeline-finish"@).arg(self.url)
        } else {
            self.base().arg("pipeline-finish"@).arg("--error"@).arg(self.url)
        }
    }

    /// `pipeline-result [--failed] <url> <name>`.
    pub open spec fn test_result(self, name: Seq<char>, success: bool) -> CommandView {
        if success {
            self.base().arg("pipeline-result"@).arg(self.url).arg(name)
        } else {
            self.base().arg("pipeline-result"@).arg("--failed"@).arg(self.url).arg(name)
        }
    }
}

/// The warning for a call named `what` that could not be made, or nothing
/// when it was made.
pub open spec fn complaint(what: Seq<char>, reply: ReplyView) -> Option<Seq<char>> {
    match reply.output() {
        Err(e) => Some("Couldn't run cli report ("@ + what + "): "@ + e.message),
        Ok(_) => None,
    }
}

impl CliReport {
    pub fn new(binary: String, url: String) -> (r: CliReport)
        ensures
            r@ == (CliReportView { binary: binary@, url: url@ }),
    {
        CliReport { binary, url }
    }

    /// A second handle on the same sidecar.
    pub fn duplicate(&self) -> (r: CliReport)
        ensures
            r@ == self@,
    {
        CliReport { binary: self.binary.clone(), url: self.url.clone() }
    }

    fn base(&self) -> (c: Command)
        ensures
            c@ == self@.base(),
    {
        let mut c = Command::new(self.binary.as_str());
        c.inherit_output();
        c
    }

    /// The action that tells the sidecar that the run of the commit `hash`
    /// begins.
    pub fn start(&self, hash: &str, arch: Arch) -> (action: Action)
        ensures
            action@ == (ActionView::Run { command: self@.start(hash@, arch) }),
    {
        let mut c = self.base();
        c.arg("pipeline-start");
        let mut label = String::from_str("ovn-ci (");
        label.append(arch.name());
        label.append(")");
        c.arg(label.as_str());
        c.arg(hash);
        c.arg(self.url.as_str());
        Action::Run { command: c }
    }

    /// The action that tells the sidecar that the run is over; `success`
    /// says whether it came to its end without a fatal error.
    pub fn finish(&self, success: bool) -> (action: Action)
        ensures
            action@ == (ActionView::Run { command: self@.finish(success) }),
    {
        let mut c = self.base();
        c.arg("pipeline-finish");
        if !success {
            c.arg("--error");
        }
        c.arg(self.url.as_str());
        Action::Run { command: c }
    }

    /// The action that tells the sidecar how the job `name` went.
    pub fn test_result(&self, name: &str, success: bool) -> (action: Action)
        ensures
            action@ == (ActionView::Run { command: self@.test_result(name@, success) }),
    {
        let mut c = self.base();
        c.arg("pipeline-result");
        if !success {
            c.arg("--failed");
        }
        c.arg(self.url.as_str());
        c.arg(name);
        Action::Run { command: c }
    }

    /// The warning to print when the call named `what` could not be made.
    pub fn complain(what: &str, reply: Reply) -> (warning: Option<String>)
        ensures
            warning.deep_view() == complaint(what@, reply@),
    {
        match reply.output() {
            Err(e) => {
                let mut line = String::from_str("Couldn't run cli report (");
                line.append(what);
                line.append("): ");
                line.append(e.message.as_str());
                Some(line)
            },
            Ok(_) => None,
        }
    }
}

} // verus!

//! Mailing the report of a failed run.

use crate::command::{Command, CommandView};
use crate::config::{Email, EmailView};
use crate::effect::{Action, ActionView, IoError, IoErrorView, Reply, ReplyView};
use crate::text::{join_with, joined_with};
use crate::util::OutputExt;
use vstd::prelude::*;
use vstd::string::*;

verus! {

/// Why a report could not be mailed.
#[derive(Debug)]
pub enum Error {
    Command(IoError),
    Mailx(String),
    ReportFile(IoError),
}

/// An `Error` as contracts speak of it.
pub enum ErrorView {
    Command(IoErrorView),
    Mailx(Seq<char>),
    ReportFile(IoErrorView),
}

impl View for Error {
    type V = ErrorView;

    open spec fn view(&self) -> ErrorView {
        match self {
            Error::Command(e) => ErrorView::Command(e@),
            Error::Mailx(text) => ErrorView::Mailx(text@),
            Error::ReportFile(e) => ErrorView::ReportFile(e@),
        }
    }
}

impl ErrorView {
    /// The error as one line of text.
    pub open spec fn message(self) -> Seq<char> {
        match self {
            ErrorView::Command(e) => "Cannot execute \"mailx\": "@ + e.message,
            ErrorView::Mailx(text) => "\"mailx\" failed: "@ + text,
            ErrorView::ReportFile(e) => "Cannot open report file: "@ + e.message,
        }
    }
}

impl Error {
    /// The error as one line of text.
    pub fn message(&self) -> (s: String)
        ensures
            s@ == self@.message(),
    {
        match self {
            Error::Command(e) => {
                let mut s = String::from_str("Cannot execute \"mailx\": ");
                s.append(e.message.as_str());
                s
            },
            Error::Mailx(text) => {
                let mut s = String::from_str("\"mailx\" failed: ");
                s.append(text.as_str());
                s
            },
            Error::ReportFile(e) => {
                let mut s = String::from_str("Cannot open report file: ");
                s.append(e.message.as_str());
                s
            },
        }
    }
}

/// The result with its error viewed.
pub open spec fn result_view(r: Result<(), Error>) -> Result<(), ErrorView> {
    match r {
        Ok(_) => Ok(()),
        Err(e) => Err(e@),
    }
}

/// The mail that carries the report at `report_path` as its body: an HTML
/// mail with `header` as its subject, sent from the orchestrator's account
/// on `host` to the configured recipients.
pub open spec fn mail_command(
    config: EmailView,
    report_path: Seq<char>,
    header: Seq<char>,
    host: Seq<char>,
) -> CommandView {
    let addressed = CommandView::new("mailx"@).arg("-s"@).arg(
        header + "\r\nContent-Type: text/html"@,
    ).arg("-S"@).arg("smtp="@ + config.smtp).arg("-S"@).arg("replyto="@ + config.reply_to).arg(
        "-r"@,
    ).arg("OVN CI Automation <root@"@ + host + ">"@).stdin(report_path);
    (match config.cc {
        Some(cc) => addressed.arg("-c"@).arg(joined_with(cc, ","@)),
        None => addressed,
    }).arg(config.to)
}

/// Whether the mail went out, as the reply tells it.
pub open spec fn sent(reply: ReplyView) -> Result<(), ErrorView> {
    match reply {
        ReplyView::Unopened(e) => Err(ErrorView::ReportFile(e)),
        _ => match reply.output() {
            Err(e) => Err(ErrorView::Command(e)),
            Ok(out) => match out.status_ok() {
                Err(text) => Err(ErrorView::Mailx(text)),
                Ok(_) => Ok(()),
            },
        },
    }
}

/// A report ready to be mailed.
pub struct Report {
    command: Command,
}

impl View for Report {
    type V = CommandView;

    closed spec fn view(&self) -> CommandView {
        self.command@
    }
}

impl Report {
    /// The mail for the report at `report_path`. The file is opened only
    /// when the mail is sent.
    pub fn new(config: &Email, report_path: &str, header: &str, host: &str) -> (r: Report)
        ensures
            r@ == mail_command(config@, report_path@, header@, host@),
    {
        let mut command = Command::new("mailx");
        command.arg("-s");
        command.arg_pair(header, "\r\nContent-Type: text/html");
        command.arg("-S");
        command.arg_pair("smtp=", config.smtp());
        command.arg("-S");
        command.arg_pair("replyto=", config.reply_to());
        command.arg("-r");
        let mut from = String::from_str("OVN CI Automation <root@");
        from.append(host);
        from.append(">");
        command.arg(from.as_str());
        command.stdin(report_path);
        if let Some(cc) = config.cc() {
            let cc = join_with(cc, ",");
            command.arg("-c");
            command.arg(cc.as_str());
        }
        command.arg(config.to());
        Report { command }
    }

    /// The action that sends the mail.
    pub fn send(&self) -> (action: Action)
        ensures
            action@ == (ActionView::Run { command: self@ }),
    {
        Action::Run { command: self.command.duplicate() }
    }

    /// Judges the sending.
    pub fn sent(reply: Reply) -> (r: Result<(), Error>)
        ensures
            result_view(r) == sent(reply@),
    {
        match reply {
            Reply::Unopened(e) => Err(Error::ReportFile(e)),
            other => match other.output() {
                Err(e) => Err(Error::Command(e)),
                Ok(out) => match out.status_ok() {
                    Err(text) => Err(Error::Mailx(text)),
                    Ok(()) => Ok(()),
                },
            },
        }
    }
}

} // verus!

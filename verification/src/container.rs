//! Fetching a container image.

use crate::command::{Command, CommandView};
use crate::effect::{Action, ActionView, IoError, IoErrorView, Reply, ReplyView};
use crate::util::OutputExt;
use vstd::prelude::*;
use vstd::string::*;

verus! {

/// Why a container image could not be fetched.
#[derive(Debug)]
pub enum Error {
    Command(IoError),
    ImagePull(String, String),
}

/// An `Error` as contracts speak of it.
pub enum ErrorView {
    Command(IoErrorView),
    ImagePull(Seq<char>, Seq<char>),
}

impl View for Error {
    type V = ErrorView;

    open spec fn view(&self) -> ErrorView {
        match self {
            Error::Command(e) => ErrorView::Command(e@),
            Error::ImagePull(image, text) => ErrorView::ImagePull(image@, text@),
        }
    }
}

impl ErrorView {
    /// The error as one line of text.
    pub open spec fn message(self) -> Seq<char> {
        match self {
            ErrorView::Command(e) => "Container command failed: "@ + e.message,
            ErrorView::ImagePull(image, text) => "Cannot pull \""@ + image + "\": "@ + text,
        }
    }
}

impl Error {
    /// The error as one line of text.
    pub fn message(&self) -> (s: String)
        ensures
            s@ == self@.message(),
    {
        match self {
            Error::Command(e) => {
                let mut s = String::from_str("Container command failed: ");
                s.append(e.message.as_str());
                s
            },
            Error::ImagePull(image, text) => {
                let mut s = String::from_str("Cannot pull \"");
                s.append(image.as_str());
                s.append("\": ");
                s.append(text.as_str());
                s
            },
        }
    }
}

/// The result with its error viewed.
pub open spec fn result_view(r: Result<(), Error>) -> Result<(), ErrorView> {
    match r {
        Ok(_) => Ok(()),
        Err(e) => Err(e@),
    }
}

/// The command that pulls `image`.
pub open spec fn pull_command(image: Seq<char>) -> CommandView {
    CommandView::new("podman"@).arg("pull"@).arg(image)
}

/// Whether the pull of `image` went well, as the reply tells it.
pub open spec fn pulled(image: Seq<char>, reply: ReplyView) -> Result<(), ErrorView> {
    match reply.output() {
        Err(e) => Err(ErrorView::Command(e)),
        Ok(out) => match out.status_ok() {
            Err(text) => Err(ErrorView::ImagePull(image, text)),
            Ok(_) => Ok(()),
        },
    }
}

/// A container image by its name.
pub struct Container<'a> {
    image: &'a str,
}

impl<'a> View for Container<'a> {
    type V = Seq<char>;

    closed spec fn view(&self) -> Seq<char> {
        self.image@
    }
}

impl<'a> Container<'a> {
    pub fn new(image: &'a str) -> (c: Container<'a>)
        ensures
            c@ == image@,
    {
        Container { image }
    }

    /// The action that pulls the image.
    pub fn pull(&self) -> (action: Action)
        ensures
            action@ == (ActionView::Run { command: pull_command(self@) }),
    {
        let mut c = Command::new("podman");
        c.arg("pull");
        c.arg(self.image);
        Action::Run { command: c }
    }

    /// Judges the pull.
    pub fn pulled(&self, reply: Reply) -> (r: Result<(), Error>)
        ensures
            result_view(r) == pulled(self@, reply@),
    {
        match reply.output() {
            Err(e) => Err(Error::Command(e)),
            Ok(out) => match out.status_ok() {
                Err(text) => Err(Error::ImagePull(String::from_str(self.image), text)),
                Ok(()) => Ok(()),
            },
        }
    }
}

} // verus!

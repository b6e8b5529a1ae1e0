//! Bringing a source tree up to date and reading its commit.

use crate::command::{Command, CommandView};
use crate::effect::{Action, ActionView, IoError, IoErrorView, Reply, ReplyView};
use crate::text::{trim_end, trimmed_end};
use crate::util::OutputExt;
use vstd::prelude::*;
use vstd::string::*;

verus! {

/// Why a source tree could not be updated or read.
#[derive(Debug)]
pub enum Error {
    Command(IoError),
    SubmoduleParent(String, String),
    SubmoduleUpdate(String, String),
    Update(String, String),
    CommitHash(String, String),
}

/// An `Error` as contracts speak of it.
pub enum ErrorView {
    Command(IoErrorView),
    SubmoduleParent(Seq<char>, Seq<char>),
    SubmoduleUpdate(Seq<char>, Seq<char>),
    Update(Seq<char>, Seq<char>),
    CommitHash(Seq<char>, Seq<char>),
}

impl View for Error {
    type V = ErrorView;

    open spec fn view(&self) -> ErrorView {
        match self {
            Error::Command(e) => ErrorView::Command(e@),
            Error::SubmoduleParent(path, text) => ErrorView::SubmoduleParent(path@, text@),
            Error::SubmoduleUpdate(path, text) => ErrorView::SubmoduleUpdate(path@, text@),
            Error::Update(path, text) => ErrorView::Update(path@, text@),
            Error::CommitHash(path, text) => ErrorView::CommitHash(path@, text@),
        }
    }
}

impl ErrorView {
    /// The error as one line of text.
    pub open spec fn message(self) -> Seq<char> {
        match self {
            ErrorView::Command(e) => "Git command failed: "@ + e.message,
            ErrorView::SubmoduleParent(path, text) => "Cannot determine if \""@ + path
                + "\" is submodule: "@ + text,
            ErrorView::SubmoduleUpdate(path, text) => "Cannot update submodule \""@ + path
                + "\": "@ + text,
            ErrorView::Update(path, text) => "Cannot update project \""@ + path + "\": "@ + text,
            ErrorView::CommitHash(path, text) => "Cannot determine commit hash \""@ + path
                + "\": "@ + text,
        }
    }
}

fn quoted(head: &str, path: &str, middle: &str, text: &str) -> (s: String)
    ensures
        s@ == head@ + path@ + middle@ + text@,
{
    let mut s = String::from_str(head);
    s.append(path);
    s.append(middle);
    s.append(text);
    s
}

impl Error {
    /// The error as one line of text.
    pub fn message(&self) -> (s: String)
        ensures
            s@ == self@.message(),
    {
        match self {
            Error::Command(e) => {
                let mut s = String::from_str("Git command failed: ");
                s.append(e.message.as_str());
                s
            },
            Error::SubmoduleParent(path, text) => quoted(
                "Cannot determine if \"",
                path.as_str(),
                "\" is submodule: ",
                text.as_str(),
            ),
            Error::SubmoduleUpdate(path, text) => quoted(
                "Cannot update submodule \"",
                path.as_str(),
                "\": ",
                text.as_str(),
            ),
            Error::Update(path, text) => quoted(
                "Cannot update project \"",
                path.as_str(),
                "\": ",
                text.as_str(),
            ),
            Error::CommitHash(path, text) => quoted(
                "Cannot determine commit hash \"",
                path.as_str(),
                "\": ",
                text.as_str(),
            ),
        }
    }
}

/// The steps of an update, in the order in which they are taken.
#[derive(Debug)]
pub enum UpdatePhase {
    /// Ask whether the tree is a submodule, and of which project.
    Parent,
    /// The tree stands alone: pull it.
    Project,
    /// The tree is a submodule of the project at this path: update the
    /// project's submodules.
    Submodule(String),
}

/// What a `UpdatePhase` holds, as contracts speak of it.
pub enum UpdatePhaseView {
    Parent,
    Project,
    Submodule(Seq<char>),
}

impl View for UpdatePhase {
    type V = UpdatePhaseView;

    open spec fn view(&self) -> UpdatePhaseView {
        match self {
            UpdatePhase::Parent => UpdatePhaseView::Parent,
            UpdatePhase::Project => UpdatePhaseView::Project,
            UpdatePhase::Submodule(parent) => UpdatePhaseView::Submodule(parent@),
        }
    }
}

impl DeepView for UpdatePhase {
    type V = UpdatePhaseView;

    open spec fn deep_view(&self) -> UpdatePhaseView {
        self@
    }
}

/// The result with its texts viewed.
pub open spec fn text_view(r: Result<String, Error>) -> Result<Seq<char>, ErrorView> {
    match r {
        Ok(text) => Ok(text@),
        Err(e) => Err(e@),
    }
}

/// The result with its parts viewed.
pub open spec fn updated_view(r: Result<Option<UpdatePhase>, Error>) -> Result<
    Option<UpdatePhaseView>,
    ErrorView,
> {
    match r {
        Ok(next) => Ok(next.deep_view()),
        Err(e) => Err(e@),
    }
}

/// `git` run in the tree at `dir`.
pub open spec fn git_in(dir: Seq<char>) -> CommandView {
    CommandView::new("git"@).current_dir(dir)
}

/// The source tree at a path.
pub struct Git<'a> {
    path: &'a str,
}

impl<'a> View for Git<'a> {
    type V = Seq<char>;

    closed spec fn view(&self) -> Seq<char> {
        self.path@
    }
}

/// The command of the request for the commit of the tree at `path`.
pub open spec fn commit_hash_command(path: Seq<char>) -> CommandView {
    git_in(path).arg("rev-parse"@).arg("HEAD"@)
}

/// The command that asks which project the tree at `path` is a submodule of.
pub open spec fn submodule_parent_command(path: Seq<char>) -> CommandView {
    git_in(path).arg("rev-parse"@).arg("--show-superproject-working-tree"@)
}

/// The command that pulls the tree at `path`.
pub open spec fn update_project_command(path: Seq<char>) -> CommandView {
    git_in(path).arg("pull"@).arg("--rebase"@)
}

/// The command that updates the submodules of the project at `workdir`.
pub open spec fn update_submodule_command(workdir: Seq<char>) -> CommandView {
    git_in(workdir).arg("submodule"@).arg("update"@).arg("--init"@)
}

/// What a reply says of a command whose output is wanted: the output
/// without trailing white space, or the error that `failed` makes of the
/// command's error text.
pub open spec fn answer(
    reply: ReplyView,
    failed: spec_fn(Seq<char>) -> ErrorView,
) -> Result<Seq<char>, ErrorView> {
    match reply.output() {
        Err(e) => Err(ErrorView::Command(e)),
        Ok(out) => match out.stdout() {
            Err(text) => Err(failed(text)),
            Ok(text) => Ok(trimmed_end(text)),
        },
    }
}

/// The commit of the tree at `path`, as the reply gives it.
pub open spec fn commit_hash(path: Seq<char>, reply: ReplyView) -> Result<Seq<char>, ErrorView> {
    answer(reply, |text: Seq<char>| ErrorView::CommitHash(path, text))
}

/// The project that the tree at `path` is a submodule of, as the reply
/// gives it; empty when it stands alone.
pub open spec fn submodule_parent(path: Seq<char>, reply: ReplyView) -> Result<
    Seq<char>,
    ErrorView,
> {
    answer(reply, |text: Seq<char>| ErrorView::SubmoduleParent(path, text))
}

/// What is to be done in a phase of the update of the tree at `path`.
pub open spec fn update_action(path: Seq<char>, phase: UpdatePhaseView) -> ActionView {
    match phase {
        UpdatePhaseView::Parent => ActionView::Run { command: submodule_parent_command(path) },
        UpdatePhaseView::Project => ActionView::Run { command: update_project_command(path) },
        UpdatePhaseView::Submodule(parent) => ActionView::Run {
            command: update_submodule_command(parent),
        },
    }
}

/// What follows a phase of the update of the tree at `path`: a tree that
/// stands alone is pulled, a submodule is updated from its project.
pub open spec fn update(path: Seq<char>, phase: UpdatePhaseView, reply: ReplyView) -> Result<
    Option<UpdatePhaseView>,
    ErrorView,
> {
    match phase {
        UpdatePhaseView::Parent => match submodule_parent(path, reply) {
            Err(e) => Err(e),
            Ok(parent) => if parent.len() == 0 {
                Ok(Some(UpdatePhaseView::Project))
            } else {
                Ok(Some(UpdatePhaseView::Submodule(parent)))
            },
        },
        UpdatePhaseView::Project => match reply.output() {
            Err(e) => Err(ErrorView::Command(e)),
            Ok(out) => match out.status_ok() {
                Err(text) => Err(ErrorView::Update(path, text)),
                Ok(_) => Ok(None),
            },
        },
        UpdatePhaseView::Submodule(_) => match reply.output() {
            Err(e) => Err(ErrorView::Command(e)),
            Ok(out) => match out.status_ok() {
                Err(text) => Err(ErrorView::SubmoduleUpdate(path, text)),
                Ok(_) => Ok(None),
            },
        },
    }
}

fn git_command(dir: &str) -> (c: Command)
    ensures
        c@ == git_in(dir@),
{
    let mut c = Command::new("git");
    c.current_dir(dir);
    c
}

impl<'a> Git<'a> {
    pub fn new(path: &'a str) -> (g: Git<'a>)
        ensures
            g@ == path@,
    {
        Git { path }
    }

    /// The action of a phase of the update.
    pub fn update_action(&self, phase: &UpdatePhase) -> (action: Action)
        ensures
            action@ == update_action(self@, phase@),
    {
        match phase {
            UpdatePhase::Parent => {
                let mut c = git_command(self.path);
                c.arg("rev-parse");
                c.arg("--show-superproject-working-tree");
                Action::Run { command: c }
            },
            UpdatePhase::Project => Action::Run { command: self.update_project_command() },
            UpdatePhase::Submodule(parent) => Action::Run {
                command: self.update_submodule_command(parent.as_str()),
            },
        }
    }

    /// Decides what follows a phase of the update, given how its action
    /// went.
    pub fn update(&self, phase: UpdatePhase, reply: Reply) -> (r: Result<
        Option<UpdatePhase>,
        Error,
    >)
        ensures
            updated_view(r) == update(self@, phase@, reply@),
    {
        match phase {
            UpdatePhase::Parent => match self.submodule_parent(reply) {
                Err(e) => Err(e),
                Ok(parent) => {
                    if parent.as_str().is_empty() {
                        Ok(Some(UpdatePhase::Project))
                    } else {
                        Ok(Some(UpdatePhase::Submodule(parent)))
                    }
                },
            },
            UpdatePhase::Project => match reply.output() {
                Err(e) => Err(Error::Command(e)),
                Ok(out) => match out.status_ok() {
                    Err(text) => Err(Error::Update(String::from_str(self.path), text)),
                    Ok(()) => Ok(None),
                },
            },
            UpdatePhase::Submodule(_) => match reply.output() {
                Err(e) => Err(Error::Command(e)),
                Ok(out) => match out.status_ok() {
                    Err(text) => Err(Error::SubmoduleUpdate(String::from_str(self.path), text)),
                    Ok(()) => Ok(None),
                },
            },
        }
    }

    /// The action that asks for the tree's commit.
    pub fn commit_hash(&self) -> (action: Action)
        ensures
            action@ == (ActionView::Run { command: commit_hash_command(self@) }),
    {
        let mut c = git_command(self.path);
        c.arg("rev-parse");
        c.arg("HEAD");
        Action::Run { command: c }
    }

    /// Reads the tree's commit out of the reply.
    pub fn commit_hash_of(&self, reply: Reply) -> (r: Result<String, Error>)
        ensures
            text_view(r) == commit_hash(self@, reply@),
    {
        match reply.output() {
            Err(e) => Err(Error::Command(e)),
            Ok(out) => match out.stdout() {
                Err(text) => Err(Error::CommitHash(String::from_str(self.path), text)),
                Ok(text) => Ok(trim_end(text.as_str())),
            },
        }
    }

    /// Reads out of the reply the project that the tree is a submodule of.
    pub fn submodule_parent(&self, reply: Reply) -> (r: Result<String, Error>)
        ensures
            text_view(r) == submodule_parent(self@, reply@),
    {
        match reply.output() {
            Err(e) => Err(Error::Command(e)),
            Ok(out) => match out.stdout() {
                Err(text) => Err(Error::SubmoduleParent(String::from_str(self.path), text)),
                Ok(text) => Ok(trim_end(text.as_str())),
            },
        }
    }

    /// The command that updates the submodules of the project at `workdir`.
    pub fn update_submodule_command(&self, workdir: &str) -> (c: Command)
        ensures
            c@ == update_submodule_command(workdir@),
    {
        let mut c = git_command(workdir);
        c.arg("submodule");
        c.arg("update");
        c.arg("--init");
        c
    }

    /// The command that pulls the tree.
    pub fn update_project_command(&self) -> (c: Command)
        ensures
            c@ == update_project_command(self@),
    {
        let mut c = git_command(self.path);
        c.arg("pull");
        c.arg("--rebase");
        c
    }
}

} // verus!

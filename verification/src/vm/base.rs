//! The base image: the template that every job's machine is cloned from.
//! It is rebuilt from an installer now and then, and refreshed with the
//! current sources before every run.

use crate::command::{Command, CommandView};
use crate::config::{Configuration, ConfigurationView};
use crate::effect::{
    ignore_not_found, ignoring_not_found, Action, ActionView, IoError, IoErrorView, Reply,
    ReplyView,
};
use crate::text::{
    decimal, decimal_string, join_path, joined, lines, lines_of, replace, replaced, starts_with,
};
use crate::util::{Arch, OutputExt};
use crate::vm::{base_image_path, BASE_IMAGE, LIB_PATH};
use vstd::prelude::*;
use vstd::string::*;

verus! {

/// The file name of the installer configuration below the library
/// directory.
pub const KICKSTART_NAME: &'static str = "base.ks";

/// Why the base image could not be rebuilt or updated.
#[derive(Debug)]
pub enum Error {
    Command(&'static str, IoError),
    Kickstart(IoError),
    RemoveImage(IoError),
    CreateImage(String),
    BuildImage(String),
    UpdateImage(String),
    UpdateLog(String),
    LogDirectory(IoError),
    MirrorList(String),
}

/// An `Error` as contracts speak of it.
pub enum ErrorView {
    Command(Seq<char>, IoErrorView),
    Kickstart(IoErrorView),
    RemoveImage(IoErrorView),
    CreateImage(Seq<char>),
    BuildImage(Seq<char>),
    UpdateImage(Seq<char>),
    UpdateLog(Seq<char>),
    LogDirectory(IoErrorView),
    MirrorList(Seq<char>),
}

impl View for Error {
    type V = ErrorView;

    open spec fn view(&self) -> ErrorView {
        match self {
            Error::Command(name, e) => ErrorView::Command(name@, e@),
            Error::Kickstart(e) => ErrorView::Kickstart(e@),
            Error::RemoveImage(e) => ErrorView::RemoveImage(e@),
            Error::CreateImage(text) => ErrorView::CreateImage(text@),
            Error::BuildImage(text) => ErrorView::BuildImage(text@),
            Error::UpdateImage(text) => ErrorView::UpdateImage(text@),
            Error::UpdateLog(text) => ErrorView::UpdateLog(text@),
            Error::LogDirectory(e) => ErrorView::LogDirectory(e@),
            Error::MirrorList(text) => ErrorView::MirrorList(text@),
        }
    }
}

impl ErrorView {
    /// The error as one line of text.
    pub open spec fn message(self) -> Seq<char> {
        match self {
            ErrorView::Command(name, e) => "Cannot execute \""@ + name + "\": "@ + e.message,
            ErrorView::Kickstart(e) => "Cannot create kickstart: "@ + e.message,
            ErrorView::RemoveImage(e) => "Cannot remove old image: "@ + e.message,
            ErrorView::CreateImage(text) => "Cannot create empty image: "@ + text,
            ErrorView::BuildImage(text) => "Cannot build image: "@ + text,
            ErrorView::UpdateImage(text) => "Cannot update image: "@ + text,
            ErrorView::UpdateLog(text) => "Cannot get update log: "@ + text,
            ErrorView::LogDirectory(e) => "Cannot create log directory: "@ + e.message,
            ErrorView::MirrorList(text) => "Cannot retrieve mirror list: "@ + text,
        }
    }
}

fn prefixed(head: &str, tail: &str) -> (s: String)
    ensures
        s@ == head@ + tail@,
{
    let mut s = String::from_str(head);
    s.append(tail);
    s
}

impl Error {
    /// The error as one line of text.
    pub fn message(&self) -> (s: String)
        ensures
            s@ == self@.message(),
    {
        match self {
            Error::Command(name, e) => {
                let mut s = String::from_str("Cannot execute \"");
                s.append(name);
                s.append("\": ");
                s.append(e.message.as_str());
                s
            },
            Error::Kickstart(e) => prefixed("Cannot create kickstart: ", e.message.as_str()),
            Error::RemoveImage(e) => prefixed("Cannot remove old image: ", e.message.as_str()),
            Error::CreateImage(text) => prefixed("Cannot create empty image: ", text.as_str()),
            Error::BuildImage(text) => prefixed("Cannot build image: ", text.as_str()),
            Error::UpdateImage(text) => prefixed("Cannot update image: ", text.as_str()),
            Error::UpdateLog(text) => prefixed("Cannot get update log: ", text.as_str()),
            Error::LogDirectory(e) => prefixed("Cannot create log directory: ", e.message.as_str()),
            Error::MirrorList(text) => prefixed("Cannot retrieve mirror list: ", text.as_str()),
        }
    }
}

/// The result with its error viewed.
pub open spec fn result_view<T>(r: Result<T, Error>) -> Result<T, ErrorView> {
    match r {
        Ok(t) => Ok(t),
        Err(e) => Err(e@),
    }
}

/// The steps of rebuilding the base image, in the order in which they are
/// taken. From the second step on they carry the install mirror found.
#[derive(Debug)]
pub enum RebuildPhase {
    /// Create the log directory.
    CreateLogDir,
    /// Fetch the list of install mirrors.
    FindMirror,
    /// Write the installer configuration.
    WriteKickstart(String),
    /// Discard the previous image.
    RemoveImage(String),
    /// Create a fresh empty image.
    CreateImage(String),
    /// Run the unattended installer against it.
    Install(String),
}

/// What a `RebuildPhase` holds, as contracts speak of it.
pub enum RebuildPhaseView {
    CreateLogDir,
    FindMirror,
    WriteKickstart(Seq<char>),
    RemoveImage(Seq<char>),
    CreateImage(Seq<char>),
    Install(Seq<char>),
}

impl View for RebuildPhase {
    type V = RebuildPhaseView;

    open spec fn view(&self) -> RebuildPhaseView {
        match self {
            RebuildPhase::CreateLogDir => RebuildPhaseView::CreateLogDir,
            RebuildPhase::FindMirror => RebuildPhaseView::FindMirror,
            RebuildPhase::WriteKickstart(m) => RebuildPhaseView::WriteKickstart(m@),
            RebuildPhase::RemoveImage(m) => RebuildPhaseView::RemoveImage(m@),
            RebuildPhase::CreateImage(m) => RebuildPhaseView::CreateImage(m@),
            RebuildPhase::Install(m) => RebuildPhaseView::Install(m@),
        }
    }
}

impl DeepView for RebuildPhase {
    type V = RebuildPhaseView;

    open spec fn deep_view(&self) -> RebuildPhaseView {
        self@
    }
}

impl RebuildPhaseView {
    /// The phase's place in the order of the rebuild.
    pub open spec fn rank(self) -> nat {
        match self {
            RebuildPhaseView::CreateLogDir => 0,
            RebuildPhaseView::FindMirror => 1,
            RebuildPhaseView::WriteKickstart(_) => 2,
            RebuildPhaseView::RemoveImage(_) => 3,
            RebuildPhaseView::CreateImage(_) => 4,
            RebuildPhaseView::Install(_) => 5,
        }
    }
}

/// The steps of refreshing the base image, in the order in which they are
/// taken. The last carries the log that was read from the image.
#[derive(Debug)]
pub enum UpdatePhase {
    /// Create the log directory.
    CreateLogDir,
    /// Copy the sources and the key into the image.
    Customize,
    /// Read the log of that out of the image.
    ReadLog,
    /// Write it beside the run's logs.
    WriteLog(String),
}

/// What a `UpdatePhase` holds, as contracts speak of it.
pub enum UpdatePhaseView {
    CreateLogDir,
    Customize,
    ReadLog,
    WriteLog(Seq<char>),
}

impl View for UpdatePhase {
    type V = UpdatePhaseView;

    open spec fn view(&self) -> UpdatePhaseView {
        match self {
            UpdatePhase::CreateLogDir => UpdatePhaseView::CreateLogDir,
            UpdatePhase::Customize => UpdatePhaseView::Customize,
            UpdatePhase::ReadLog => UpdatePhaseView::ReadLog,
            UpdatePhase::WriteLog(text) => UpdatePhaseView::WriteLog(text@),
        }
    }
}

impl DeepView for UpdatePhase {
    type V = UpdatePhaseView;

    open spec fn deep_view(&self) -> UpdatePhaseView {
        self@
    }
}

impl UpdatePhaseView {
    /// The phase's place in the order of the update.
    pub open spec fn rank(self) -> nat {
        match self {
            UpdatePhaseView::CreateLogDir => 0,
            UpdatePhaseView::Customize => 1,
            UpdatePhaseView::ReadLog => 2,
            UpdatePhaseView::WriteLog(_) => 3,
        }
    }
}

/// The first of `lines` that begins with `https://`.
pub open spec fn first_https(lines: Seq<Seq<char>>) -> Option<Seq<char>>
    decreases lines.len(),
{
    if lines.len() == 0 {
        None
    } else if "https://"@.is_prefix_of(lines[0]) {
        Some(lines[0])
    } else {
        first_https(lines.skip(1))
    }
}

/// The base image of a configuration.
#[derive(Debug)]
pub struct Vm<'a> {
    config: &'a Configuration,
    log_path: String,
    base_image: String,
    kickstart: String,
    arch: Arch,
    template: &'a str,
}

/// What a `Vm` holds, as contracts speak of it.
pub struct VmView {
    pub config: ConfigurationView,
    /// The directory of the image's own logs.
    pub log_path: Seq<char>,
    pub base_image: Seq<char>,
    /// The path of the installer configuration.
    pub kickstart: Seq<char>,
    pub arch: Arch,
    /// The text of the installer configuration with its markers.
    pub template: Seq<char>,
}

impl<'a> View for Vm<'a> {
    type V = VmView;

    closed spec fn view(&self) -> VmView {
        VmView {
            config: self.config@,
            log_path: self.log_path@,
            base_image: self.base_image@,
            kickstart: self.kickstart@,
            arch: self.arch,
            template: self.template@,
        }
    }
}

impl VmView {
    /// The base image of a configuration, its logs below `log_path`.
    pub open spec fn new(
        config: ConfigurationView,
        log_path: Seq<char>,
        arch: Arch,
        template: Seq<char>,
    ) -> VmView {
        VmView {
            config,
            log_path: joined(log_path, "base-image"@),
            base_image: base_image_path(),
            kickstart: LIB_PATH@ + "/"@ + KICKSTART_NAME@,
            arch,
            template,
        }
    }

    /// The request for the list of install mirrors of the configured
    /// release and the architecture.
    pub open spec fn mirror_command(self) -> CommandView {
        CommandView::new("curl"@).arg(
            "https://mirrors.fedoraproject.org/mirrorlist?repo=fedora-"@ + self.config.vm.release
                + "&arch="@ + self.arch.target_spec(),
        )
    }

    /// The installer configuration: the template with the release and the
    /// architecture filled in.
    pub open spec fn kickstart_text(self) -> Seq<char> {
        replaced(
            replaced(self.template, "@RELEASE@"@, self.config.vm.release),
            "@ARCH@"@,
            self.arch.target_spec(),
        )
    }

    /// The command that creates the disk image.
    pub open spec fn create_image_command(self) -> CommandView {
        CommandView::new("qemu-img"@).arg("create"@).arg("-f"@).arg("qcow2"@).arg(
            self.base_image,
        ).arg("10G"@)
    }

    /// The unattended install from `mirror`, bounded in time.
    pub open spec fn install_command(self, mirror: Seq<char>) -> CommandView {
        CommandView::new("virt-install"@).arg("--name"@).arg("base"@).arg("--boot"@).arg(
            "uefi"@,
        ).arg("--memory"@).arg(decimal(self.config.vm.memory as nat)).arg("--vcpus"@).arg(
            decimal(self.config.jobs as nat),
        ).arg("--disk"@).arg("path="@ + self.base_image).arg("--location="@ + mirror).arg(
            "--os-variant"@,
        ).arg("fedora"@ + self.config.vm.release).arg("--hvm"@).arg("--graphics=vnc"@).arg(
            "--initrd-inject="@ + self.kickstart,
        ).arg("--extra-args=inst.ks=file:/base.ks console=ttyS0,115200"@).arg(
            "--serial=pty,log.file="@ + joined(self.log_path, "virt-install.log"@),
        ).arg("--noautoconsole"@).arg("--wait"@).arg("120"@).arg("--noreboot"@)
    }

    /// The part of the refresh that every run needs: the sources and the
    /// key are put into the image.
    pub open spec fn customize_sources(self) -> CommandView {
        CommandView::new("virt-customize"@).arg("-a"@).arg(self.base_image).arg("--delete"@).arg(
            "/tmp/builder.log"@,
        ).arg("--touch"@).arg("/tmp/builder.log"@).arg("--delete"@).arg("/workspace"@).arg(
            "--mkdir"@,
        ).arg("/workspace"@).arg("--copy-in"@).arg(self.config.git.ovn_path + ":/workspace"@).arg(
            "--copy-in"@,
        ).arg(self.config.git.ovs_path + ":/workspace"@).arg("--delete"@).arg(
            "/root/.ssh/authorized_keys"@,
        ).arg("--ssh-inject"@).arg("root:file:/etc/ovn-ci/id_ed25519.pub"@)
    }

    /// The refresh: with a container image configured, it is also pulled
    /// and tagged inside the base image.
    pub open spec fn customize_command(self) -> CommandView {
        match self.config.image_name {
            None => self.customize_sources(),
            Some(name) => self.customize_sources().arg("--delete"@).arg(
                "/run/containers/storage"@,
            ).arg("--delete"@).arg("/run/libpod"@).arg("--run-command"@).arg(
                "podman pull "@ + name,
            ).arg("--run-command"@).arg("podman tag "@ + name + " ovn-org/ovn-tests"@).arg(
                "--run-command"@,
            ).arg("podman image prune -f"@),
        }
    }

    /// The command that reads the log of the update out of the image.
    pub open spec fn read_log_command(self) -> CommandView {
        CommandView::new("virt-cat"@).arg("-a"@).arg(self.base_image).arg("/tmp/builder.log"@)
    }

    /// The command that has the hypervisor let go of the machine.
    pub open spec fn destroy_command() -> CommandView {
        CommandView::new("virsh"@).arg("undefine"@).arg("--nvram"@).arg("base"@)
    }

    /// The action that creates the image's log directory.
    pub open spec fn create_log_dir(self) -> ActionView {
        ActionView::CreateDir { path: self.log_path, recursive: true }
    }

    /// What is to be done in a phase of the rebuild.
    pub open spec fn rebuild_action(self, phase: RebuildPhaseView) -> ActionView {
        match phase {
            RebuildPhaseView::CreateLogDir => self.create_log_dir(),
            RebuildPhaseView::FindMirror => ActionView::Run { command: self.mirror_command() },
            RebuildPhaseView::WriteKickstart(_) => ActionView::WriteFile {
                path: self.kickstart,
                content: self.kickstart_text(),
            },
            RebuildPhaseView::RemoveImage(_) => ActionView::RemoveFile { path: self.base_image },
            RebuildPhaseView::CreateImage(_) => ActionView::Run {
                command: self.create_image_command(),
            },
            RebuildPhaseView::Install(mirror) => ActionView::Run {
                command: self.install_command(mirror),
            },
        }
    }

    /// The install mirror that the reply to the mirror list request names:
    /// the first `https` entry of the list, for the server variant.
    pub open spec fn find_mirror(reply: ReplyView) -> Result<Seq<char>, ErrorView> {
        match reply.output() {
            Err(e) => Err(ErrorView::Command("curl"@, e)),
            Ok(out) => match out.stdout() {
                Err(text) => Err(ErrorView::MirrorList(text)),
                Ok(text) => match first_https(lines_of(text)) {
                    None => Err(ErrorView::MirrorList("Couldn't find https mirror."@)),
                    Some(line) => Ok(replaced(line, "Everything"@, "Server"@)),
                },
            },
        }
    }

    /// What follows a phase of the rebuild, given how its action went: the
    /// next phase, `None` when the image is built, or the error that ends
    /// the rebuild. Nothing is tried twice.
    pub open spec fn rebuild(phase: RebuildPhaseView, reply: ReplyView) -> Result<
        Option<RebuildPhaseView>,
        ErrorView,
    > {
        match phase {
            RebuildPhaseView::CreateLogDir => match reply.unit() {
                Err(e) => Err(ErrorView::LogDirectory(e)),
                Ok(_) => Ok(Some(RebuildPhaseView::FindMirror)),
            },
            RebuildPhaseView::FindMirror => match Self::find_mirror(reply) {
                Err(e) => Err(e),
                Ok(mirror) => Ok(Some(RebuildPhaseView::WriteKickstart(mirror))),
            },
            RebuildPhaseView::WriteKickstart(mirror) => match reply.unit() {
                Err(e) => Err(ErrorView::Kickstart(e)),
                Ok(_) => Ok(Some(RebuildPhaseView::RemoveImage(mirror))),
            },
            RebuildPhaseView::RemoveImage(mirror) => match ignoring_not_found(reply.unit()) {
                Err(e) => Err(ErrorView::RemoveImage(e)),
                Ok(_) => Ok(Some(RebuildPhaseView::CreateImage(mirror))),
            },
            RebuildPhaseView::CreateImage(mirror) => match reply.output() {
                Err(e) => Err(ErrorView::Command("qemu-img"@, e)),
                Ok(out) => match out.status_ok() {
                    Err(text) => Err(ErrorView::CreateImage(text)),
                    Ok(_) => Ok(Some(RebuildPhaseView::Install(mirror))),
                },
            },
            RebuildPhaseView::Install(_) => match reply.output() {
                Err(e) => Err(ErrorView::Command("virt-install"@, e)),
                Ok(out) => match out.status_ok() {
                    Err(text) => Err(ErrorView::BuildImage(text)),
                    Ok(_) => Ok(None),
                },
            },
        }
    }

    /// What is to be done in a phase of the update.
    pub open spec fn update_action(self, phase: UpdatePhaseView) -> ActionView {
        match phase {
            UpdatePhaseView::CreateLogDir => self.create_log_dir(),
            UpdatePhaseView::Customize => ActionView::Run { command: self.customize_command() },
            UpdatePhaseView::ReadLog => ActionView::Run { command: self.read_log_command() },
            UpdatePhaseView::WriteLog(text) => ActionView::WriteFile {
                path: joined(self.log_path, "virt-customize.log"@),
                content: text,
            },
        }
    }

    /// What follows a phase of the update, given how its action went.
    pub open spec fn update(phase: UpdatePhaseView, reply: ReplyView) -> Result<
        Option<UpdatePhaseView>,
        ErrorView,
    > {
        match phase {
            UpdatePhaseView::CreateLogDir => match reply.unit() {
                Err(e) => Err(ErrorView::LogDirectory(e)),
                Ok(_) => Ok(Some(UpdatePhaseView::Customize)),
            },
            UpdatePhaseView::Customize => match reply.output() {
                Err(e) => Err(ErrorView::Command("virt-customize"@, e)),
                Ok(out) => match out.status_ok() {
                    Err(text) => Err(ErrorView::UpdateImage(text)),
                    Ok(_) => Ok(Some(UpdatePhaseView::ReadLog)),
                },
            },
            UpdatePhaseView::ReadLog => match reply.output() {
                Err(e) => Err(ErrorView::Command("virt-cat"@, e)),
                Ok(out) => match out.stdout() {
                    Err(text) => Err(ErrorView::UpdateLog(text)),
                    Ok(text) => Ok(Some(UpdatePhaseView::WriteLog(text))),
                },
            },
            UpdatePhaseView::WriteLog(_) => match reply.unit() {
                Err(e) => Err(ErrorView::UpdateLog(e.message)),
                Ok(_) => Ok(None),
            },
        }
    }

    /// The line of warning when the base machine's definition could not be
    /// removed.
    pub open spec fn destroyed(reply: ReplyView) -> Option<Seq<char>> {
        match reply.output() {
            Err(e) => Some("Couldn't destroy base VM: "@ + e.message),
            Ok(_) => None,
        }
    }
}

/// The result with its parts viewed.
pub open spec fn rebuilt_view(r: Result<Option<RebuildPhase>, Error>) -> Result<
    Option<RebuildPhaseView>,
    ErrorView,
> {
    match r {
        Ok(next) => Ok(next.deep_view()),
        Err(e) => Err(e@),
    }
}

/// The result with its parts viewed.
pub open spec fn updated_view(r: Result<Option<UpdatePhase>, Error>) -> Result<
    Option<UpdatePhaseView>,
    ErrorView,
> {
    match r {
        Ok(next) => Ok(next.deep_view()),
        Err(e) => Err(e@),
    }
}

/// The result with its parts viewed.
pub open spec fn mirror_view(r: Result<String, Error>) -> Result<Seq<char>, ErrorView> {
    match r {
        Ok(m) => Ok(m@),
        Err(e) => Err(e@),
    }
}

/// Both procedures only ever move on to a later phase.
pub proof fn lemma_base_image_moves_forward(
    rebuild: RebuildPhaseView,
    update: UpdatePhaseView,
    reply: ReplyView,
)
    ensures
        VmView::rebuild(rebuild, reply) matches Ok(Some(next)) ==> next.rank() == rebuild.rank()
            + 1,
        VmView::update(update, reply) matches Ok(Some(next)) ==> next.rank() == update.rank() + 1,
{
}

fn find_first_https(all: &Vec<String>) -> (r: Option<usize>)
    ensures
        match r {
            Some(i) => i < all.len() && first_https(all.deep_view()) == Some(all[i as int]@),
            None => first_https(all.deep_view()) is None,
        },
{
    let mut i: usize = 0;
    assert(all.deep_view().skip(0) =~= all.deep_view());
    while i < all.len()
        invariant
            i <= all.len(),
            first_https(all.deep_view()) == first_https(all.deep_view().skip(i as int)),
        decreases all.len() - i,
    {
        let ghost rest = all.deep_view().skip(i as int);
        assert(rest[0] == all[i as int]@);
        assert(rest.skip(1) =~= all.deep_view().skip(i + 1));
        if starts_with(all[i].as_str(), "https://") {
            return Some(i);
        }
        i += 1;
    }
    None
}

impl<'a> Vm<'a> {
    /// The base image of `config`, its logs below `log_path`. `template`
    /// is the text of the installer configuration with its markers.
    pub fn new(config: &'a Configuration, log_path: &str, arch: Arch, template: &'a str) -> (vm:
        Vm<'a>)
        ensures
            vm@ == VmView::new(config@, log_path@, arch, template@),
    {
        let mut kickstart = String::from_str(LIB_PATH);
        kickstart.append("/");
        kickstart.append(KICKSTART_NAME);
        let mut base_image = String::from_str(LIB_PATH);
        base_image.append("/");
        base_image.append(BASE_IMAGE);
        Vm {
            config,
            log_path: join_path(log_path, "base-image"),
            kickstart,
            base_image,
            arch,
            template,
        }
    }

    fn create_log_dir(&self) -> (action: Action)
        ensures
            action@ == self@.create_log_dir(),
    {
        Action::CreateDir { path: self.log_path.clone(), recursive: true }
    }

    fn install_command(&self, mirror: &str) -> (c: Command)
        ensures
            c@ == self@.install_command(mirror@),
    {
        let mut c = Command::new("virt-install");
        c.arg("--name");
        c.arg("base");
        c.arg("--boot");
        c.arg("uefi");
        c.arg("--memory");
        c.arg(decimal_string(self.config.vm().memory() as u64).as_str());
        c.arg("--vcpus");
        c.arg(decimal_string(self.config.jobs() as u64).as_str());
        c.arg("--disk");
        c.arg_pair("path=", self.base_image.as_str());
        c.arg_pair("--location=", mirror);
        c.arg("--os-variant");
        c.arg_pair("fedora", self.config.vm().release());
        c.arg("--hvm");
        c.arg("--graphics=vnc");
        c.arg_pair("--initrd-inject=", self.kickstart.as_str());
        c.arg("--extra-args=inst.ks=file:/base.ks console=ttyS0,115200");
        c.arg_pair(
            "--serial=pty,log.file=",
            join_path(self.log_path.as_str(), "virt-install.log").as_str(),
        );
        c.arg("--noautoconsole");
        c.arg("--wait");
        c.arg("120");
        c.arg("--noreboot");
        c
    }

    fn customize_command(&self) -> (c: Command)
        ensures
            c@ == self@.customize_command(),
    {
        let mut c = Command::new("virt-customize");
        c.arg("-a");
        c.arg(self.base_image.as_str());
        c.arg("--delete");
        c.arg("/tmp/builder.log");
        c.arg("--touch");
        c.arg("/tmp/builder.log");
        c.arg("--delete");
        c.arg("/workspace");
        c.arg("--mkdir");
        c.arg("/workspace");
        c.arg("--copy-in");
        c.arg_pair(self.config.git().ovn_path(), ":/workspace");
        c.arg("--copy-in");
        c.arg_pair(self.config.git().ovs_path(), ":/workspace");
        c.arg("--delete");
        c.arg("/root/.ssh/authorized_keys");
        c.arg("--ssh-inject");
        c.arg("root:file:/etc/ovn-ci/id_ed25519.pub");
        if let Some(image_name) = self.config.image_name() {
            c.arg("--delete");
            c.arg("/run/containers/storage");
            c.arg("--delete");
            c.arg("/run/libpod");
            c.arg("--run-command");
            c.arg_pair("podman pull ", image_name);
            c.arg("--run-command");
            let mut tag = String::from_str("podman tag ");
            tag.append(image_name);
            tag.append(" ovn-org/ovn-tests");
            c.arg(tag.as_str());
            c.arg("--run-command");
            c.arg("podman image prune -f");
        }
        c
    }

    /// The action of a phase of the rebuild.
    pub fn rebuild_action(&self, phase: &RebuildPhase) -> (action: Action)
        ensures
            action@ == self@.rebuild_action(phase@),
    {
        match phase {
            RebuildPhase::CreateLogDir => self.create_log_dir(),
            RebuildPhase::FindMirror => {
                let mut url = String::from_str(
                    "https://mirrors.fedoraproject.org/mirrorlist?repo=fedora-",
                );
                url.append(self.config.vm().release());
                url.append("&arch=");
                url.append(self.arch.target());
                let mut c = Command::new("curl");
                c.arg(url.as_str());
                Action::Run { command: c }
            },
            RebuildPhase::WriteKickstart(_) => {
                let text = replace(self.template, "@RELEASE@", self.config.vm().release());
                Action::WriteFile {
                    path: self.kickstart.clone(),
                    content: replace(text.as_str(), "@ARCH@", self.arch.target()),
                }
            },
            RebuildPhase::RemoveImage(_) => Action::RemoveFile { path: self.base_image.clone() },
            RebuildPhase::CreateImage(_) => {
                let mut c = Command::new("qemu-img");
                c.arg("create");
                c.arg("-f");
                c.arg("qcow2");
                c.arg(self.base_image.as_str());
                c.arg("10G");
                Action::Run { command: c }
            },
            RebuildPhase::Install(mirror) => Action::Run {
                command: self.install_command(mirror.as_str()),
            },
        }
    }

    /// Reads the install mirror out of the reply to the mirror list
    /// request.
    pub fn find_mirror(reply: Reply) -> (r: Result<String, Error>)
        ensures
            mirror_view(r) == VmView::find_mirror(reply@),
    {
        match reply.output() {
            Err(e) => Err(Error::Command("curl", e)),
            Ok(out) => match out.stdout() {
                Err(text) => Err(Error::MirrorList(text)),
                Ok(text) => {
                    let all = lines(text.as_str());
                    match find_first_https(&all) {
                        None => Err(
                            Error::MirrorList(String::from_str("Couldn't find https mirror.")),
                        ),
                        Some(i) => Ok(replace(all[i].as_str(), "Everything", "Server")),
                    }
                },
            },
        }
    }

    /// Decides what follows a phase of the rebuild, given how its action
    /// went.
    pub fn rebuild(phase: RebuildPhase, reply: Reply) -> (r: Result<Option<RebuildPhase>, Error>)
        ensures
            rebuilt_view(r) == VmView::rebuild(phase@, reply@),
    {
        match phase {
            RebuildPhase::CreateLogDir => match reply.unit() {
                Err(e) => Err(Error::LogDirectory(e)),
                Ok(()) => Ok(Some(RebuildPhase::FindMirror)),
            },
            RebuildPhase::FindMirror => match Vm::find_mirror(reply) {
                Err(e) => Err(e),
                Ok(mirror) => Ok(Some(RebuildPhase::WriteKickstart(mirror))),
            },
            RebuildPhase::WriteKickstart(mirror) => match reply.unit() {
                Err(e) => Err(Error::Kickstart(e)),
                Ok(()) => Ok(Some(RebuildPhase::RemoveImage(mirror))),
            },
            RebuildPhase::RemoveImage(mirror) => match ignore_not_found(reply.unit()) {
                Err(e) => Err(Error::RemoveImage(e)),
                Ok(()) => Ok(Some(RebuildPhase::CreateImage(mirror))),
            },
            RebuildPhase::CreateImage(mirror) => match reply.output() {
                Err(e) => Err(Error::Command("qemu-img", e)),
                Ok(out) => match out.status_ok() {
                    Err(text) => Err(Error::CreateImage(text)),
                    Ok(()) => Ok(Some(RebuildPhase::Install(mirror))),
                },
            },
            RebuildPhase::Install(_) => match reply.output() {
                Err(e) => Err(Error::Command("virt-install", e)),
                Ok(out) => match out.status_ok() {
                    Err(text) => Err(Error::BuildImage(text)),
                    Ok(()) => Ok(None),
                },
            },
        }
    }

    /// The action of a phase of the update.
    pub fn update_action(&self, phase: &UpdatePhase) -> (action: Action)
        ensures
            action@ == self@.update_action(phase@),
    {
        match phase {
            UpdatePhase::CreateLogDir => self.create_log_dir(),
            UpdatePhase::Customize => Action::Run { command: self.customize_command() },
            UpdatePhase::ReadLog => {
                let mut c = Command::new("virt-cat");
                c.arg("-a");
                c.arg(self.base_image.as_str());
                c.arg("/tmp/builder.log");
                Action::Run { command: c }
            },
            UpdatePhase::WriteLog(text) => Action::WriteFile {
                path: join_path(self.log_path.as_str(), "virt-customize.log"),
                content: text.clone(),
            },
        }
    }

    /// Decides what follows a phase of the update, given how its action
    /// went.
    pub fn update(phase: UpdatePhase, reply: Reply) -> (r: Result<Option<UpdatePhase>, Error>)
        ensures
            updated_view(r) == VmView::update(phase@, reply@),
    {
        match phase {
            UpdatePhase::CreateLogDir => match reply.unit() {
                Err(e) => Err(Error::LogDirectory(e)),
                Ok(()) => Ok(Some(UpdatePhase::Customize)),
            },
            UpdatePhase::Customize => match reply.output() {
                Err(e) => Err(Error::Command("virt-customize", e)),
                Ok(out) => match out.status_ok() {
                    Err(text) => Err(Error::UpdateImage(text)),
                    Ok(()) => Ok(Some(UpdatePhase::ReadLog)),
                },
            },
            UpdatePhase::ReadLog => match reply.output() {
                Err(e) => Err(Error::Command("virt-cat", e)),
                Ok(out) => match out.stdout() {
                    Err(text) => Err(Error::UpdateLog(text)),
                    Ok(text) => Ok(Some(UpdatePhase::WriteLog(text))),
                },
            },
            UpdatePhase::WriteLog(_) => match reply.unit() {
                Err(e) => Err(Error::UpdateLog(e.message)),
                Ok(()) => Ok(None),
            },
        }
    }

    /// The action that removes the definition that the installer left with
    /// the hypervisor.
    pub fn destroy(&self) -> (action: Action)
        ensures
            action@ == (ActionView::Run { command: VmView::destroy_command() }),
    {
        let mut c = Command::new("virsh");
        c.arg("undefine");
        c.arg("--nvram");
        c.arg("base");
        Action::Run { command: c }
    }

    /// The warning to print when the definition could not be removed; the
    /// failure goes no further.
    pub fn destroyed(reply: Reply) -> (warning: Option<String>)
        ensures
            warning.deep_view() == VmView::destroyed(reply@),
    {
        match reply.output() {
            Err(e) => Some(prefixed("Couldn't destroy base VM: ", e.message.as_str())),
            Ok(_) => None,
        }
    }
}

} // verus!

//! A disposable virtual machine for one job.

use crate::command::{Command, CommandView};
use crate::effect::{Action, ActionView, IoError, IoErrorView, Reply, ReplyView, ignore_not_found, ignoring_not_found};
use crate::text::{
    same, decimal, decimal_string, hexadecimal, lines, lines_of, padded_hex_string, replace, replaced,
    trim_end, trimmed_end, zero_padded,
};
use crate::util::{Arch, OutputExt};
use crate::vm::{base_image_path, BASE_IMAGE, LIB_PATH};
use vstd::prelude::*;
use vstd::string::*;

verus! {

/// What the name of every job's machine begins with.
pub const VM_PREFIX: &'static str = "ovn-ci-vm";

/// Added to a job's index to give the last part of its machine's addresses.
pub const NET_SUFFIX_OFFSET: usize = 10;

/// What a machine that is up answers to the ready check.
pub const READY_STRING: &'static str = "Ready!";

/// Why a job's machine could not be started or used.
#[derive(Debug)]
pub enum Error {
    Command(&'static str, IoError),
    AlreadyRunning(String),
    VmXml(IoError),
    Cleanup(String, IoError),
    CreateImage(String),
    CreateVm(String),
    VmReadyCheck(String, String),
    LogFileDescriptor(IoError),
}

/// An `Error` as contracts speak of it.
pub enum ErrorView {
    Command(Seq<char>, IoErrorView),
    AlreadyRunning(Seq<char>),
    VmXml(IoErrorView),
    Cleanup(Seq<char>, IoErrorView),
    CreateImage(Seq<char>),
    CreateVm(Seq<char>),
    VmReadyCheck(Seq<char>, Seq<char>),
    LogFileDescriptor(IoErrorView),
}

impl View for Error {
    type V = ErrorView;

    open spec fn view(&self) -> ErrorView {
        match self {
            Error::Command(name, e) => ErrorView::Command(name@, e@),
            Error::AlreadyRunning(name) => ErrorView::AlreadyRunning(name@),
            Error::VmXml(e) => ErrorView::VmXml(e@),
            Error::Cleanup(path, e) => ErrorView::Cleanup(path@, e@),
            Error::CreateImage(text) => ErrorView::CreateImage(text@),
            Error::CreateVm(text) => ErrorView::CreateVm(text@),
            Error::VmReadyCheck(name, text) => ErrorView::VmReadyCheck(name@, text@),
            Error::LogFileDescriptor(e) => ErrorView::LogFileDescriptor(e@),
        }
    }
}

impl ErrorView {
    /// The error as one line of text.
    pub open spec fn message(self) -> Seq<char> {
        match self {
            ErrorView::Command(name, e) => "Cannot execute \""@ + name + "\": "@ + e.message,
            ErrorView::AlreadyRunning(name) => "VM \""@ + name + "\" is already running"@,
            ErrorView::VmXml(e) => "Cannot create VM XML: "@ + e.message,
            ErrorView::Cleanup(path, e) => "Cannot remove old VM data ("@ + path + "): "@
                + e.message,
            ErrorView::CreateImage(text) => "Cannot create image from base: "@ + text,
            ErrorView::CreateVm(text) => "Cannot create VM: "@ + text,
            ErrorView::VmReadyCheck(name, text) => "VM \""@ + name + "\" ready check failed: "@
                + text,
            ErrorView::LogFileDescriptor(e) => "Cannot clone log file descriptor: "@ + e.message,
        }
    }
}

impl Error {
    /// The error as one line of text.
    pub fn message(&self) -> (s: String)
        ensures
            s@ == self@.message(),
    {
        match self {
            Error::Command(name, e) => {
                let mut s = String::from_str("Cannot execute \"");
                s.append(name);
                s.append("\": ");
                s.append(e.message.as_str());
                s
            },
            Error::AlreadyRunning(name) => {
                let mut s = String::from_str("VM \"");
                s.append(name.as_str());
                s.append("\" is already running");
                s
            },
            Error::VmXml(e) => {
                let mut s = String::from_str("Cannot create VM XML: ");
                s.append(e.message.as_str());
                s
            },
            Error::Cleanup(path, e) => {
                let mut s = String::from_str("Cannot remove old VM data (");
                s.append(path.as_str());
                s.append("): ");
                s.append(e.message.as_str());
                s
            },
            Error::CreateImage(text) => {
                let mut s = String::from_str("Cannot create image from base: ");
                s.append(text.as_str());
                s
            },
            Error::CreateVm(text) => {
                let mut s = String::from_str("Cannot create VM: ");
                s.append(text.as_str());
                s
            },
            Error::VmReadyCheck(name, text) => {
                let mut s = String::from_str("VM \"");
                s.append(name.as_str());
                s.append("\" ready check failed: ");
                s.append(text.as_str());
                s
            },
            Error::LogFileDescriptor(e) => {
                let mut s = String::from_str("Cannot clone log file descriptor: ");
                s.append(e.message.as_str());
                s
            },
        }
    }
}


/// The result with its error viewed.
pub open spec fn result_view<T>(r: Result<T, Error>) -> Result<T, ErrorView> {
    match r {
        Ok(t) => Ok(t),
        Err(e) => Err(e@),
    }
}

/// The steps of starting a machine, in the order in which they are taken.
#[derive(Clone, Copy, Debug, PartialEq, Eq, Structural)]
pub enum StartPhase {
    /// Ask the hypervisor which machines are running.
    ListRunning,
    /// Remove what an earlier machine of the same name left behind.
    RemoveXml,
    RemoveNvram,
    RemoveImage,
    /// Write the machine's description.
    WriteXml,
    /// Create the machine's disk on top of the base image.
    CreateImage,
    /// Have the hypervisor create the machine.
    CreateVm,
    /// Ask the machine to answer.
    ReadyCheck,
}

/// The shell statement that exports one binding on the remote side.
pub open spec fn export(key: Seq<char>, value: Option<Seq<char>>) -> Seq<char> {
    "export "@ + key + "="@ + (match value {
        Some(v) => v,
        None => Seq::empty(),
    }) + ";"@
}

/// The export statements for a command's bindings, in their order.
pub open spec fn exports(envs: Seq<(Seq<char>, Seq<char>)>) -> Seq<Seq<char>> {
    envs.map_values(|e: (Seq<char>, Seq<char>)| export(e.0, Some(e.1)))
}

/// The options of every remote connection: the fixed key, no host key
/// checking, a bounded connect timeout and retry count.
pub open spec fn with_ssh_options(c: CommandView) -> CommandView {
    c.arg("-4"@).arg("-i"@).arg("/etc/ovn-ci/id_ed25519"@).arg("-o"@).arg(
        "UserKnownHostsFile=/dev/null"@,
    ).arg("-o"@).arg("StrictHostKeyChecking=no"@).arg("-o"@).arg("ConnectTimeout=60"@).arg(
        "-o"@,
    ).arg("ConnectionAttempts=60"@)
}

fn ssh_options(c: &mut Command)
    ensures
        final(c)@ == with_ssh_options(old(c)@),
{
    c.arg("-4");
    c.arg("-i");
    c.arg("/etc/ovn-ci/id_ed25519");
    c.arg("-o");
    c.arg("UserKnownHostsFile=/dev/null");
    c.arg("-o");
    c.arg("StrictHostKeyChecking=no");
    c.arg("-o");
    c.arg("ConnectTimeout=60");
    c.arg("-o");
    c.arg("ConnectionAttempts=60");
}

/// Renders one environment binding as a remote export statement; a binding
/// without a value exports the empty text.
pub fn map_envs(key: &str, value: Option<&str>) -> (s: String)
    ensures
        s@ == export(key@, value.deep_view()),
{
    let mut s = String::from_str("export ");
    s.append(key);
    s.append("=");
    match value {
        Some(v) => {
            s.append(v);
        },
        None => {
            assert(s@ =~= s@ + Seq::<char>::empty());
        },
    }
    s.append(";");
    s
}

/// A disposable virtual machine, cloned from the base image for one job.
#[derive(Debug)]
pub struct Vm {
    memory: u32,
    vcpu: usize,
    image: String,
    name: String,
    log_path: String,
    arch: Arch,
    net_suffix: usize,
}

/// What a `Vm` holds, as contracts speak of it.
pub struct VmView {
    pub memory: u32,
    pub vcpu: usize,
    pub image: Seq<char>,
    pub name: Seq<char>,
    pub log_path: Seq<char>,
    pub arch: Arch,
    pub net_suffix: usize,
}

impl View for Vm {
    type V = VmView;

    closed spec fn view(&self) -> VmView {
        VmView {
            memory: self.memory,
            vcpu: self.vcpu,
            image: self.image@,
            name: self.name@,
            log_path: self.log_path@,
            arch: self.arch,
            net_suffix: self.net_suffix,
        }
    }
}

impl DeepView for Vm {
    type V = VmView;

    open spec fn deep_view(&self) -> VmView {
        self@
    }
}

impl VmView {
    /// The machine of the job with the given index.
    pub open spec fn new(
        index: usize,
        memory: u32,
        vcpu: usize,
        log_path: Seq<char>,
        arch: Arch,
    ) -> VmView {
        let name = VM_PREFIX@ + decimal(index as nat);
        VmView {
            memory,
            vcpu,
            image: LIB_PATH@ + "/"@ + name + ".qcow2"@,
            name,
            log_path,
            arch,
            net_suffix: (index + NET_SUFFIX_OFFSET) as usize,
        }
    }

    /// The path of the machine's description.
    pub open spec fn xml_path(self) -> Seq<char> {
        LIB_PATH@ + "/"@ + self.name + ".xml"@
    }

    /// The path of the machine's firmware variables.
    pub open spec fn nvram_path(self) -> Seq<char> {
        LIB_PATH@ + "/"@ + self.name + "_VARS.fd"@
    }

    /// The machine's description: the template with each of its markers
    /// replaced by the machine's own value.
    pub open spec fn domain_xml(self, template: Seq<char>) -> Seq<char> {
        let t0 = replaced(template, "@VM_NAME@"@, self.name);
        let t1 = replaced(t0, "@MEMSIZE@"@, decimal(self.memory as nat));
        let t2 = replaced(t1, "@VCPU_NUM@"@, decimal(self.vcpu as nat));
        let t3 = replaced(t2, "@ARCH@"@, self.arch.target_spec());
        let t4 = replaced(t3, "@MACHINE@"@, self.arch.machine_spec());
        let t5 = replaced(t4, "@ROOTDISK@"@, self.image);
        let t6 = replaced(
            t5,
            "@MAC_SUFFIX@"@,
            zero_padded(hexadecimal(self.net_suffix as nat), 2),
        );
        let t7 = replaced(t6, "@UEFI_CODE@"@, self.arch.uefi_code_spec());
        let t8 = replaced(t7, "@UEFI_VARS@"@, self.arch.uefi_vars_spec());
        let t9 = replaced(t8, "@NVRAM_PATH@"@, self.nvram_path());
        replaced(t9, "@LOG_PATH@"@, self.log_path + "/vm.log"@)
    }

    /// The account and address under which the machine is reached.
    pub open spec fn address(self) -> Seq<char> {
        "root@192.168.100."@ + decimal(self.net_suffix as nat)
    }

    /// `command` as run inside the machine: the remote shell is handed the
    /// command's bindings as export statements, then its program and
    /// arguments as they are.
    pub open spec fn ssh(self, command: CommandView) -> CommandView {
        with_ssh_options(CommandView::new("ssh"@)).arg(self.address()).args(
            exports(command.envs),
        ).arg(command.program).args(command.args)
    }

    /// The command that lists the running machines by name.
    pub open spec fn list_command() -> CommandView {
        CommandView::new("virsh"@).arg("list"@).arg("--name"@).arg("--state-running"@)
    }

    /// The command that creates the disk image.
    pub open spec fn create_image_command(self) -> CommandView {
        CommandView::new("qemu-img"@).arg("create"@).arg("-f"@).arg("qcow2"@).arg("-b"@).arg(
            base_image_path(),
        ).arg("-F"@).arg("qcow2"@).arg(self.image)
    }

    /// The command that creates the machine from its description.
    pub open spec fn create_vm_command(self) -> CommandView {
        CommandView::new("virsh"@).arg("create"@).arg(self.xml_path())
    }

    /// The command of the ready check.
    pub open spec fn ready_command(self) -> CommandView {
        self.ssh(CommandView::new("echo"@).arg(READY_STRING@))
    }

    /// The command that copies the job's artifacts out of the machine.
    pub open spec fn artifacts_command(self) -> CommandView {
        with_ssh_options(CommandView::new("scp"@)).arg(self.address() + ":/root/logs.tgz"@).arg(
            self.log_path,
        )
    }

    /// The command that has the hypervisor let go of the machine.
    pub open spec fn destroy_command(self) -> CommandView {
        CommandView::new("virsh"@).arg("destroy"@).arg(self.name)
    }

    /// What is to be done in a phase of the start.
    pub open spec fn start_action(self, phase: StartPhase, template: Seq<char>) -> ActionView {
        match phase {
            StartPhase::ListRunning => ActionView::Run { command: Self::list_command() },
            StartPhase::RemoveXml => ActionView::RemoveFile { path: self.xml_path() },
            StartPhase::RemoveNvram => ActionView::RemoveFile { path: self.nvram_path() },
            StartPhase::RemoveImage => ActionView::RemoveFile { path: self.image },
            StartPhase::WriteXml => ActionView::WriteFile {
                path: self.xml_path(),
                content: self.domain_xml(template),
            },
            StartPhase::CreateImage => ActionView::Run { command: self.create_image_command() },
            StartPhase::CreateVm => ActionView::Run { command: self.create_vm_command() },
            StartPhase::ReadyCheck => ActionView::Run { command: self.ready_command() },
        }
    }

    /// Whether the hypervisor's list of running machines, as the reply
    /// gives it, names this machine. A list that could not be had for want
    /// of a successful exit counts as empty.
    pub open spec fn is_running(self, reply: ReplyView) -> Result<bool, ErrorView> {
        match reply.output() {
            Err(e) => Err(ErrorView::Command("virsh-list"@, e)),
            Ok(out) => Ok(
                lines_of(
                    match out.stdout() {
                        Ok(text) => text,
                        Err(_) => Seq::empty(),
                    },
                ).contains(self.name),
            ),
        }
    }

    /// The outcome of removing the stale file `path`: that it was not there
    /// is no failure.
    pub open spec fn pre_run_cleanup(path: Seq<char>, reply: ReplyView) -> Result<(), ErrorView> {
        match ignoring_not_found(reply.unit()) {
            Ok(_) => Ok(()),
            Err(e) => Err(ErrorView::Cleanup(path, e)),
        }
    }

    /// The outcome of the ready check: the machine must have answered with
    /// the ready string, trailing white space aside.
    pub open spec fn wait_start(self, reply: ReplyView) -> Result<(), ErrorView> {
        match reply.output() {
            Err(e) => Err(ErrorView::Command("ssh"@, e)),
            Ok(out) => match out.stdout() {
                Err(text) => Err(ErrorView::VmReadyCheck(self.name, text)),
                Ok(text) => if trimmed_end(text) == READY_STRING@ {
                    Ok(())
                } else {
                    Err(ErrorView::VmReadyCheck(self.name, "The ready string didn't match!"@))
                },
            },
        }
    }

    /// What follows a phase of the start, given how its action went: the
    /// next phase, `None` when the machine is up, or the error that ends
    /// the start. After an error nothing more is done.
    pub open spec fn start(self, phase: StartPhase, reply: ReplyView) -> Result<
        Option<StartPhase>,
        ErrorView,
    > {
        match phase {
            StartPhase::ListRunning => match self.is_running(reply) {
                Err(e) => Err(e),
                Ok(true) => Err(ErrorView::AlreadyRunning(self.name)),
                Ok(false) => Ok(Some(StartPhase::RemoveXml)),
            },
            StartPhase::RemoveXml => match Self::pre_run_cleanup(self.xml_path(), reply) {
                Err(e) => Err(e),
                Ok(_) => Ok(Some(StartPhase::RemoveNvram)),
            },
            StartPhase::RemoveNvram => match Self::pre_run_cleanup(self.nvram_path(), reply) {
                Err(e) => Err(e),
                Ok(_) => Ok(Some(StartPhase::RemoveImage)),
            },
            StartPhase::RemoveImage => match Self::pre_run_cleanup(self.image, reply) {
                Err(e) => Err(e),
                Ok(_) => Ok(Some(StartPhase::WriteXml)),
            },
            StartPhase::WriteXml => match reply.unit() {
                Err(e) => Err(ErrorView::VmXml(e)),
                Ok(_) => Ok(Some(StartPhase::CreateImage)),
            },
            StartPhase::CreateImage => match reply.output() {
                Err(e) => Err(ErrorView::Command("qemu-img"@, e)),
                Ok(out) => match out.status_ok() {
                    Err(text) => Err(ErrorView::CreateImage(text)),
                    Ok(_) => Ok(Some(StartPhase::CreateVm)),
                },
            },
            StartPhase::CreateVm => match reply.output() {
                Err(e) => Err(ErrorView::Command("virsh-create"@, e)),
                Ok(out) => match out.status_ok() {
                    Err(text) => Err(ErrorView::CreateVm(text)),
                    Ok(_) => Ok(Some(StartPhase::ReadyCheck)),
                },
            },
            StartPhase::ReadyCheck => match self.wait_start(reply) {
                Err(e) => Err(e),
                Ok(_) => Ok(None),
            },
        }
    }

    /// The outcome of starting a job's process inside the machine.
    pub open spec fn spawned(reply: ReplyView) -> Result<(), ErrorView> {
        match reply {
            ReplyView::Unopened(e) => Err(ErrorView::LogFileDescriptor(e)),
            ReplyView::Failed(e) => Err(ErrorView::Command("ssh"@, e)),
            _ => Ok(()),
        }
    }

    /// The outcome of fetching the artifacts: only that the copy could not
    /// be run at all is an error.
    pub open spec fn artifacts_retrieved(reply: ReplyView) -> Result<(), ErrorView> {
        match reply.output() {
            Err(e) => Err(ErrorView::Command("virt-copy-out"@, e)),
            Ok(_) => Ok(()),
        }
    }

    /// The line of warning when the machine could not be destroyed.
    pub open spec fn destroyed(self, reply: ReplyView) -> Option<Seq<char>> {
        match reply.output() {
            Err(e) => Some("Couldn't destroy VM "@ + self.name + ": "@ + e.message),
            Ok(_) => None,
        }
    }
}

fn run_checked(reply: Reply, name: &'static str) -> (r: Result<Result<(), String>, Error>)
    ensures
        match reply@.output() {
            Err(e) => r matches Err(err) && err@ == ErrorView::Command(name@, e),
            Ok(out) => r matches Ok(status) && crate::util::status_view(status) == out.status_ok(),
        },
{
    match reply.output() {
        Err(e) => Err(Error::Command(name, e)),
        Ok(out) => Ok(out.status_ok()),
    }
}

impl Vm {
    /// The machine of the job with the given index; nothing is created yet.
    pub fn new(index: usize, memory: u32, vcpu: usize, log_path: &str, arch: Arch) -> (vm: Vm)
        requires
            index + NET_SUFFIX_OFFSET <= usize::MAX,
        ensures
            vm@ == VmView::new(index, memory, vcpu, log_path@, arch),
    {
        let mut name = String::from_str(VM_PREFIX);
        name.append(decimal_string(index as u64).as_str());
        let mut image = String::from_str(LIB_PATH);
        image.append("/");
        image.append(name.as_str());
        image.append(".qcow2");
        Vm {
            memory,
            vcpu,
            image,
            name,
            log_path: String::from_str(log_path),
            arch,
            net_suffix: index + NET_SUFFIX_OFFSET,
        }
    }

    pub fn name(&self) -> (r: &str)
        ensures
            r@ == self@.name,
    {
        self.name.as_str()
    }

    fn xml_path(&self) -> (r: String)
        ensures
            r@ == self@.xml_path(),
    {
        let mut r = String::from_str(LIB_PATH);
        r.append("/");
        r.append(self.name.as_str());
        r.append(".xml");
        r
    }

    fn nvram_path(&self) -> (r: String)
        ensures
            r@ == self@.nvram_path(),
    {
        let mut r = String::from_str(LIB_PATH);
        r.append("/");
        r.append(self.name.as_str());
        r.append("_VARS.fd");
        r
    }

    fn address(&self) -> (r: String)
        ensures
            r@ == self@.address(),
    {
        let mut r = String::from_str("root@192.168.100.");
        r.append(decimal_string(self.net_suffix as u64).as_str());
        r
    }

    fn domain_xml(&self, template: &str) -> (r: String)
        ensures
            r@ == self@.domain_xml(template@),
    {
        let t = replace(template, "@VM_NAME@", self.name.as_str());
        let t = replace(t.as_str(), "@MEMSIZE@", decimal_string(self.memory as u64).as_str());
        let t = replace(t.as_str(), "@VCPU_NUM@", decimal_string(self.vcpu as u64).as_str());
        let t = replace(t.as_str(), "@ARCH@", self.arch.target());
        let t = replace(t.as_str(), "@MACHINE@", self.arch.machine());
        let t = replace(t.as_str(), "@ROOTDISK@", self.image.as_str());
        let t = replace(
            t.as_str(),
            "@MAC_SUFFIX@",
            padded_hex_string(self.net_suffix as u64, 2).as_str(),
        );
        let t = replace(t.as_str(), "@UEFI_CODE@", self.arch.uefi_code());
        let t = replace(t.as_str(), "@UEFI_VARS@", self.arch.uefi_vars());
        let t = replace(t.as_str(), "@NVRAM_PATH@", self.nvram_path().as_str());
        let mut log = String::from_str(self.log_path.as_str());
        log.append("/vm.log");
        replace(t.as_str(), "@LOG_PATH@", log.as_str())
    }

    /// Wraps `command` so that it runs inside the machine.
    pub fn ssh(&self, command: &Command) -> (ssh: Command)
        ensures
            ssh@ == self@.ssh(command@),
    {
        let mut ssh = Command::new("ssh");
        ssh_options(&mut ssh);
        ssh.arg(self.address().as_str());
        let envs = command.get_envs();
        let ghost base = ssh@;
        let mut i: usize = 0;
        assert(base.args(exports(command@.envs).take(0)) == base) by {
            assert(base.args + exports(command@.envs).take(0) =~= base.args);
        }
        while i < envs.len()
            invariant
                i <= envs.len(),
                envs.deep_view() == command@.envs,
                ssh@ == base.args(exports(command@.envs).take(i as int)),
            decreases envs.len() - i,
        {
            let pair = &envs[i];
            assert(envs.deep_view()[i as int] == (pair.0@, pair.1@));
            ssh.arg(map_envs(pair.0.as_str(), Some(pair.1.as_str())).as_str());
            i += 1;
            assert(ssh@ == base.args(exports(command@.envs).take(i as int))) by {
                assert((base.args + exports(command@.envs).take(i - 1)).push(
                    exports(command@.envs)[i - 1],
                ) =~= base.args + exports(command@.envs).take(i as int));
            }
        }
        assert(exports(command@.envs).take(i as int) =~= exports(command@.envs));
        ssh.arg(command.get_program());
        ssh.args(command.get_args());
        ssh
    }

    /// The action of a phase of the start. `template` is the text of the
    /// machine description with its markers.
    pub fn start_action(&self, phase: StartPhase, template: &str) -> (action: Action)
        ensures
            action@ == self@.start_action(phase, template@),
    {
        match phase {
            StartPhase::ListRunning => {
                let mut c = Command::new("virsh");
                c.arg("list");
                c.arg("--name");
                c.arg("--state-running");
                Action::Run { command: c }
            },
            StartPhase::RemoveXml => Action::RemoveFile { path: self.xml_path() },
            StartPhase::RemoveNvram => Action::RemoveFile { path: self.nvram_path() },
            StartPhase::RemoveImage => Action::RemoveFile { path: self.image.clone() },
            StartPhase::WriteXml => Action::WriteFile {
                path: self.xml_path(),
                content: self.domain_xml(template),
            },
            StartPhase::CreateImage => {
                let mut base = String::from_str(LIB_PATH);
                base.append("/");
                base.append(BASE_IMAGE);
                let mut c = Command::new("qemu-img");
                c.arg("create");
                c.arg("-f");
                c.arg("qcow2");
                c.arg("-b");
                c.arg(base.as_str());
                c.arg("-F");
                c.arg("qcow2");
                c.arg(self.image.as_str());
                Action::Run { command: c }
            },
            StartPhase::CreateVm => {
                let mut c = Command::new("virsh");
                c.arg("create");
                c.arg(self.xml_path().as_str());
                Action::Run { command: c }
            },
            StartPhase::ReadyCheck => {
                let mut echo = Command::new("echo");
                echo.arg(READY_STRING);
                Action::Run { command: self.ssh(&echo) }
            },
        }
    }

    /// Reads the hypervisor's list of running machines.
    pub fn is_running(&self, reply: Reply) -> (r: Result<bool, Error>)
        ensures
            result_view(r) == self@.is_running(reply@),
    {
        let ghost asked = reply@;
        match reply.output() {
            Err(e) => Err(Error::Command("virsh-list", e)),
            Ok(out) => {
                let stdout = match out.stdout() {
                    Ok(text) => text,
                    Err(_) => String::new(),
                };
                let names = lines(stdout.as_str());
                let mut i: usize = 0;
                while i < names.len()
                    invariant
                        i <= names.len(),
                        asked == reply@,
                        self@.is_running(asked) == Ok::<bool, ErrorView>(
                            names.deep_view().contains(self@.name),
                        ),
                        forall|j: int| 0 <= j < i ==> names.deep_view()[j] != self@.name,
                    decreases names.len() - i,
                {
                    assert(names.deep_view()[i as int] == names[i as int]@);
                    if names[i] == self.name {
                        return Ok(true);
                    }
                    i += 1;
                }
                Ok(false)
            },
        }
    }

    /// Judges the removal of one stale file at `path`.
    pub fn pre_run_cleanup(path: String, reply: Reply) -> (r: Result<(), Error>)
        ensures
            result_view(r) == VmView::pre_run_cleanup(path@, reply@),
    {
        match ignore_not_found(reply.unit()) {
            Ok(()) => Ok(()),
            Err(e) => Err(Error::Cleanup(path, e)),
        }
    }

    /// Judges the ready check.
    pub fn wait_start(&self, reply: Reply) -> (r: Result<(), Error>)
        ensures
            result_view(r) == self@.wait_start(reply@),
    {
        match reply.output() {
            Err(e) => Err(Error::Command("ssh", e)),
            Ok(out) => match out.stdout() {
                Err(text) => Err(Error::VmReadyCheck(self.name.clone(), text)),
                Ok(text) => {
                    if same(trim_end(text.as_str()).as_str(), READY_STRING) {
                        Ok(())
                    } else {
                        Err(
                            Error::VmReadyCheck(
                                self.name.clone(),
                                String::from_str("The ready string didn't match!"),
                            ),
                        )
                    }
                },
            },
        }
    }

    /// Decides what follows a phase of the start, given how its action went.
    pub fn start(&self, phase: StartPhase, reply: Reply) -> (r: Result<Option<StartPhase>, Error>)
        ensures
            result_view(r) == self@.start(phase, reply@),
    {
        match phase {
            StartPhase::ListRunning => match self.is_running(reply) {
                Err(e) => Err(e),
                Ok(true) => Err(Error::AlreadyRunning(self.name.clone())),
                Ok(false) => Ok(Some(StartPhase::RemoveXml)),
            },
            StartPhase::RemoveXml => match Vm::pre_run_cleanup(self.xml_path(), reply) {
                Err(e) => Err(e),
                Ok(()) => Ok(Some(StartPhase::RemoveNvram)),
            },
            StartPhase::RemoveNvram => match Vm::pre_run_cleanup(self.nvram_path(), reply) {
                Err(e) => Err(e),
                Ok(()) => Ok(Some(StartPhase::RemoveImage)),
            },
            StartPhase::RemoveImage => match Vm::pre_run_cleanup(self.image.clone(), reply) {
                Err(e) => Err(e),
                Ok(()) => Ok(Some(StartPhase::WriteXml)),
            },
            StartPhase::WriteXml => match reply.unit() {
                Err(e) => Err(Error::VmXml(e)),
                Ok(()) => Ok(Some(StartPhase::CreateImage)),
            },
            StartPhase::CreateImage => match run_checked(reply, "qemu-img") {
                Err(e) => Err(e),
                Ok(Err(text)) => Err(Error::CreateImage(text)),
                Ok(Ok(())) => Ok(Some(StartPhase::CreateVm)),
            },
            StartPhase::CreateVm => match run_checked(reply, "virsh-create") {
                Err(e) => Err(e),
                Ok(Err(text)) => Err(Error::CreateVm(text)),
                Ok(Ok(())) => Ok(Some(StartPhase::ReadyCheck)),
            },
            StartPhase::ReadyCheck => match self.wait_start(reply) {
                Err(e) => Err(e),
                Ok(()) => Ok(None),
            },
        }
    }

    /// The action that runs `command` inside the machine to its end.
    pub fn command_output(&self, command: &Command) -> (action: Action)
        ensures
            action@ == (ActionView::Run { command: self@.ssh(command@) }),
    {
        Action::Run { command: self.ssh(command) }
    }

    /// The action that starts `command` inside the machine as the process
    /// of job `job`.
    pub fn command_spawn(&self, job: usize, command: &Command) -> (action: Action)
        ensures
            action@ == (ActionView::Spawn { job, command: self@.ssh(command@) }),
    {
        Action::Spawn { job, command: self.ssh(command) }
    }

    /// Judges the start of a job's process.
    pub fn spawned(reply: Reply) -> (r: Result<(), Error>)
        ensures
            result_view(r) == VmView::spawned(reply@),
    {
        match reply {
            Reply::Unopened(e) => Err(Error::LogFileDescriptor(e)),
            Reply::Failed(e) => Err(Error::Command("ssh", e)),
            _ => Ok(()),
        }
    }

    /// The action that copies the job's archive of artifacts out of the
    /// machine, into the job's log directory.
    pub fn retreive_artifacts(&self) -> (action: Action)
        ensures
            action@ == (ActionView::Run { command: self@.artifacts_command() }),
    {
        let mut c = Command::new("scp");
        ssh_options(&mut c);
        let mut source = self.address();
        source.append(":/root/logs.tgz");
        c.arg(source.as_str());
        c.arg(self.log_path.as_str());
        Action::Run { command: c }
    }

    /// Judges the copy of the artifacts.
    pub fn artifacts_retrieved(reply: Reply) -> (r: Result<(), Error>)
        ensures
            result_view(r) == VmView::artifacts_retrieved(reply@),
    {
        match reply.output() {
            Err(e) => Err(Error::Command("virt-copy-out", e)),
            Ok(_) => Ok(()),
        }
    }

    /// The action that has the hypervisor stop the machine by force.
    pub fn destroy(&self) -> (action: Action)
        ensures
            action@ == (ActionView::Run { command: self@.destroy_command() }),
    {
        let mut c = Command::new("virsh");
        c.arg("destroy");
        c.arg(self.name.as_str());
        Action::Run { command: c }
    }

    /// The warning to print when the machine could not be destroyed; the
    /// failure goes no further.
    pub fn destroyed(&self, reply: Reply) -> (warning: Option<String>)
        ensures
            warning.deep_view() == self@.destroyed(reply@),
    {
        match reply.output() {
            Err(e) => {
                let mut line = String::from_str("Couldn't destroy VM ");
                line.append(self.name.as_str());
                line.append(": ");
                line.append(e.message.as_str());
                Some(line)
            },
            Ok(_) => None,
        }
    }
}

} // verus!

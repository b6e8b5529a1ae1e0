use ovn_ci::command::{Command, ExitStatus, Output};
use ovn_ci::effect::{Action, IoError, IoErrorKind, Reply};
use ovn_ci::util::Arch;
use ovn_ci::vm::runner::{
    map_envs, Error, StartPhase, Vm, NET_SUFFIX_OFFSET, READY_STRING, VM_PREFIX,
};
use ovn_ci::vm::{RunnerVm, RunnerVmError, BASE_IMAGE, LIB_PATH};

const TEMPLATE: &str = "name=@VM_NAME@ mem=@MEMSIZE@ cpu=@VCPU_NUM@ arch=@ARCH@ \
machine=@MACHINE@ disk=@ROOTDISK@ mac=@MAC_SUFFIX@ code=@UEFI_CODE@ vars=@UEFI_VARS@ \
nvram=@NVRAM_PATH@ log=@LOG_PATH@ again=@VM_NAME@";

fn vm() -> Vm {
    Vm::new(3, 4096, 8, "/logs/job", Arch::X86_64)
}

fn ok(stdout: &str) -> Reply {
    Reply::Output(Output {
        status: ExitStatus { code: Some(0) },
        stdout: stdout.as_bytes().to_vec(),
        stderr: Vec::new(),
    })
}

fn failed(code: i32, stderr: &str) -> Reply {
    Reply::Output(Output {
        status: ExitStatus { code: Some(code) },
        stdout: b"ignored".to_vec(),
        stderr: stderr.as_bytes().to_vec(),
    })
}

fn io(kind: IoErrorKind, message: &str) -> Reply {
    Reply::Failed(IoError { kind, message: message.to_string() })
}

fn command(action: Action) -> Command {
    match action {
        Action::Run { command } => command,
        other => panic!("not a command: {:?}", other),
    }
}

fn words(c: &Command) -> Vec<String> {
    let mut all = vec![c.get_program().to_string()];
    all.extend(c.get_args().iter().cloned());
    all
}

fn ssh_prefix(address: &str) -> Vec<String> {
    vec![
        "ssh",
        "-4",
        "-i",
        "/etc/ovn-ci/id_ed25519",
        "-o",
        "UserKnownHostsFile=/dev/null",
        "-o",
        "StrictHostKeyChecking=no",
        "-o",
        "ConnectTimeout=60",
        "-o",
        "ConnectionAttempts=60",
        address,
    ]
    .into_iter()
    .map(String::from)
    .collect()
}

#[test]
fn constants() {
    assert_eq!(VM_PREFIX, "ovn-ci-vm");
    assert_eq!(NET_SUFFIX_OFFSET, 10);
    assert_eq!(READY_STRING, "Ready!");
    assert_eq!(LIB_PATH, "/var/lib/ovn-ci");
    assert_eq!(BASE_IMAGE, "base.qcow2");
}

#[test]
fn the_name_comes_from_the_index() {
    assert_eq!(vm().name(), "ovn-ci-vm3");
    assert_eq!(Vm::new(0, 1, 1, "", Arch::Arm64).name(), "ovn-ci-vm0");
    assert_eq!(Vm::new(120, 1, 1, "", Arch::Arm64).name(), "ovn-ci-vm120");
    let same: RunnerVm = Vm::new(7, 1, 1, "", Arch::Arm64);
    assert_eq!(same.name(), "ovn-ci-vm7");
}

#[test]
fn map_envs_renders_an_export() {
    assert_eq!(map_envs("CC", Some("gcc")), "export CC=gcc;");
    assert_eq!(map_envs("OPTS", Some("")), "export OPTS=;");
    assert_eq!(map_envs("GONE", None), "export GONE=;");
}

#[test]
fn start_begins_by_asking_for_the_running_machines() {
    let c = command(vm().start_action(StartPhase::ListRunning, TEMPLATE));
    assert_eq!(words(&c), vec!["virsh", "list", "--name", "--state-running"]);
}

#[test]
fn start_goes_through_its_phases_in_order() {
    let v = vm();
    assert_eq!(v.start(StartPhase::ListRunning, ok("other\n")).unwrap(), Some(StartPhase::RemoveXml));
    assert_eq!(v.start(StartPhase::RemoveXml, Reply::Done).unwrap(), Some(StartPhase::RemoveNvram));
    assert_eq!(v.start(StartPhase::RemoveNvram, Reply::Done).unwrap(), Some(StartPhase::RemoveImage));
    assert_eq!(v.start(StartPhase::RemoveImage, Reply::Done).unwrap(), Some(StartPhase::WriteXml));
    assert_eq!(v.start(StartPhase::WriteXml, Reply::Done).unwrap(), Some(StartPhase::CreateImage));
    assert_eq!(v.start(StartPhase::CreateImage, ok("")).unwrap(), Some(StartPhase::CreateVm));
    assert_eq!(v.start(StartPhase::CreateVm, ok("")).unwrap(), Some(StartPhase::ReadyCheck));
    assert_eq!(v.start(StartPhase::ReadyCheck, ok("Ready!\n")).unwrap(), None);
}

#[test]
fn start_refuses_a_machine_that_runs_already() {
    let v = vm();
    let r = v.start(StartPhase::ListRunning, ok("ovn-ci-vm1\novn-ci-vm3\novn-ci-vm5\n"));
    match r {
        Err(Error::AlreadyRunning(name)) => assert_eq!(name, "ovn-ci-vm3"),
        other => panic!("unexpected: {:?}", other),
    }
}

#[test]
fn a_second_start_of_a_running_machine_ends_at_once() {
    let v = vm();
    // The first start found nothing running and went on.
    assert!(matches!(v.start(StartPhase::ListRunning, ok("")), Ok(Some(StartPhase::RemoveXml))));
    // The second finds the machine in the list: an error, and no next phase
    // in which the hypervisor could be asked to create anything.
    let again = v.start(StartPhase::ListRunning, ok("ovn-ci-vm3\n"));
    assert!(matches!(again, Err(Error::AlreadyRunning(_))));
    assert_eq!(again.unwrap_err().message(), "VM \"ovn-ci-vm3\" is already running");
}

#[test]
fn is_running_wants_the_whole_name_on_a_line() {
    let v = vm();
    assert_eq!(v.is_running(ok("ovn-ci-vm3")).unwrap(), true);
    assert_eq!(v.is_running(ok("ovn-ci-vm3\r\n")).unwrap(), true);
    assert_eq!(v.is_running(ok("ovn-ci-vm33\n")).unwrap(), false);
    assert_eq!(v.is_running(ok(" ovn-ci-vm3\n")).unwrap(), false);
    assert_eq!(v.is_running(ok("")).unwrap(), false);
}

#[test]
fn a_list_that_failed_counts_as_empty() {
    let v = vm();
    let reply = Reply::Output(Output {
        status: ExitStatus { code: Some(1) },
        stdout: b"ovn-ci-vm3\n".to_vec(),
        stderr: b"ovn-ci-vm3\n".to_vec(),
    });
    assert_eq!(v.is_running(reply).unwrap(), false);
}

#[test]
fn a_list_that_could_not_be_asked_for_is_an_error() {
    let r = vm().start(StartPhase::ListRunning, io(IoErrorKind::NotFound, "no virsh"));
    match r {
        Err(Error::Command(name, e)) => {
            assert_eq!(name, "virsh-list");
            assert_eq!(e.message, "no virsh");
        },
        other => panic!("unexpected: {:?}", other),
    }
}

#[test]
fn cleanup_removes_the_three_stale_files() {
    let v = vm();
    let paths: Vec<String> = [StartPhase::RemoveXml, StartPhase::RemoveNvram, StartPhase::RemoveImage]
        .iter()
        .map(|p| match v.start_action(*p, TEMPLATE) {
            Action::RemoveFile { path } => path,
            other => panic!("unexpected: {:?}", other),
        })
        .collect();
    assert_eq!(
        paths,
        vec![
            "/var/lib/ovn-ci/ovn-ci-vm3.xml",
            "/var/lib/ovn-ci/ovn-ci-vm3_VARS.fd",
            "/var/lib/ovn-ci/ovn-ci-vm3.qcow2",
        ]
    );
}

#[test]
fn cleanup_ignores_missing_files_only() {
    let v = vm();
    assert_eq!(
        v.start(StartPhase::RemoveXml, io(IoErrorKind::NotFound, "gone")).unwrap(),
        Some(StartPhase::RemoveNvram)
    );
    match v.start(StartPhase::RemoveNvram, io(IoErrorKind::PermissionDenied, "denied")) {
        Err(Error::Cleanup(path, e)) => {
            assert_eq!(path, "/var/lib/ovn-ci/ovn-ci-vm3_VARS.fd");
            assert_eq!(e.kind, IoErrorKind::PermissionDenied);
        },
        other => panic!("unexpected: {:?}", other),
    }
    match v.start(StartPhase::RemoveImage, io(IoErrorKind::Other, "busy")) {
        Err(Error::Cleanup(path, _)) => assert_eq!(path, "/var/lib/ovn-ci/ovn-ci-vm3.qcow2"),
        other => panic!("unexpected: {:?}", other),
    }
    assert!(Vm::pre_run_cleanup("p".to_string(), Reply::Done).is_ok());
}

#[test]
fn the_description_fills_in_every_marker() {
    match vm().start_action(StartPhase::WriteXml, TEMPLATE) {
        Action::WriteFile { path, content } => {
            assert_eq!(path, "/var/lib/ovn-ci/ovn-ci-vm3.xml");
            assert_eq!(
                content,
                "name=ovn-ci-vm3 mem=4096 cpu=8 arch=x86_64 machine=q35 \
                 disk=/var/lib/ovn-ci/ovn-ci-vm3.qcow2 mac=0d \
                 code=/usr/share/OVMF/OVMF_CODE.fd vars=/usr/share/OVMF/OVMF_VARS.fd \
                 nvram=/var/lib/ovn-ci/ovn-ci-vm3_VARS.fd log=/logs/job/vm.log again=ovn-ci-vm3"
            );
        },
        other => panic!("unexpected: {:?}", other),
    }
}

#[test]
fn the_mac_suffix_is_two_hex_digits() {
    let v = Vm::new(245, 1, 1, "l", Arch::Arm64);
    match v.start_action(StartPhase::WriteXml, "@MAC_SUFFIX@ @ARCH@ @MACHINE@ @UEFI_CODE@") {
        Action::WriteFile { content, .. } => {
            assert_eq!(content, "ff aarch64 virt /usr/share/AAVMF/AAVMF_CODE.fd")
        },
        other => panic!("unexpected: {:?}", other),
    }
}

#[test]
fn a_description_that_cannot_be_written_is_an_error() {
    match vm().start(StartPhase::WriteXml, io(IoErrorKind::PermissionDenied, "ro")) {
        Err(Error::VmXml(e)) => assert_eq!(e.message, "ro"),
        other => panic!("unexpected: {:?}", other),
    }
}

#[test]
fn the_disk_is_created_on_top_of_the_base_image() {
    let c = command(vm().start_action(StartPhase::CreateImage, TEMPLATE));
    assert_eq!(
        words(&c),
        vec![
            "qemu-img",
            "create",
            "-f",
            "qcow2",
            "-b",
            "/var/lib/ovn-ci/base.qcow2",
            "-F",
            "qcow2",
            "/var/lib/ovn-ci/ovn-ci-vm3.qcow2",
        ]
    );
}

#[test]
fn failures_of_the_disk_creation() {
    match vm().start(StartPhase::CreateImage, failed(1, "no space")) {
        Err(Error::CreateImage(text)) => assert_eq!(text, "no space"),
        other => panic!("unexpected: {:?}", other),
    }
    match vm().start(StartPhase::CreateImage, io(IoErrorKind::NotFound, "missing")) {
        Err(Error::Command(name, _)) => assert_eq!(name, "qemu-img"),
        other => panic!("unexpected: {:?}", other),
    }
}

#[test]
fn the_machine_is_created_from_its_description() {
    let c = command(vm().start_action(StartPhase::CreateVm, TEMPLATE));
    assert_eq!(words(&c), vec!["virsh", "create", "/var/lib/ovn-ci/ovn-ci-vm3.xml"]);
}

#[test]
fn failures_of_the_machine_creation() {
    match vm().start(StartPhase::CreateVm, failed(1, "bad xml")) {
        Err(Error::CreateVm(text)) => assert_eq!(text, "bad xml"),
        other => panic!("unexpected: {:?}", other),
    }
    match vm().start(StartPhase::CreateVm, io(IoErrorKind::Other, "x")) {
        Err(Error::Command(name, _)) => assert_eq!(name, "virsh-create"),
        other => panic!("unexpected: {:?}", other),
    }
}

#[test]
fn the_ready_check_echoes_over_the_remote_channel() {
    let c = command(vm().start_action(StartPhase::ReadyCheck, TEMPLATE));
    let mut expected = ssh_prefix("root@192.168.100.13");
    expected.push("echo".to_string());
    expected.push("Ready!".to_string());
    assert_eq!(words(&c), expected);
}

#[test]
fn the_ready_check_wants_the_exact_answer() {
    let v = vm();
    assert!(v.wait_start(ok("Ready!")).is_ok());
    assert!(v.wait_start(ok("Ready!\n")).is_ok());
    assert!(v.wait_start(ok("Ready! \t\r\n")).is_ok());
    for wrong in ["", "ready!", " Ready!", "Ready", "Ready!!", "Not Ready!"] {
        match v.wait_start(ok(wrong)) {
            Err(Error::VmReadyCheck(name, text)) => {
                assert_eq!(name, "ovn-ci-vm3");
                assert_eq!(text, "The ready string didn't match!");
            },
            other => panic!("unexpected for {:?}: {:?}", wrong, other),
        }
    }
}

#[test]
fn failures_of_the_ready_check() {
    match vm().start(StartPhase::ReadyCheck, failed(255, "no route")) {
        Err(Error::VmReadyCheck(name, text)) => {
            assert_eq!(name, "ovn-ci-vm3");
            assert_eq!(text, "no route");
        },
        other => panic!("unexpected: {:?}", other),
    }
    match vm().start(StartPhase::ReadyCheck, io(IoErrorKind::Other, "x")) {
        Err(Error::Command(name, _)) => assert_eq!(name, "ssh"),
        other => panic!("unexpected: {:?}", other),
    }
}

#[test]
fn a_command_is_wrapped_with_its_bindings_program_and_arguments() {
    let mut job = Command::new("/workspace/ci.sh");
    job.arg("--jobs=4");
    job.arg("two words");
    job.env("OPTS", "a b");
    job.env("CC", "gcc");
    let ssh = vm().ssh(&job);
    let mut expected = ssh_prefix("root@192.168.100.13");
    for w in ["export CC=gcc;", "export OPTS=a b;", "/workspace/ci.sh", "--jobs=4", "two words"] {
        expected.push(w.to_string());
    }
    assert_eq!(words(&ssh), expected);
    assert!(ssh.get_envs().is_empty());
}

#[test]
fn command_output_and_spawn_use_the_wrapped_command() {
    let mut job = Command::new("true");
    job.arg("x");
    let wrapped = words(&vm().ssh(&job));
    assert_eq!(words(&command(vm().command_output(&job))), wrapped);
    match vm().command_spawn(9, &job) {
        Action::Spawn { job, command } => {
            assert_eq!(job, 9);
            assert_eq!(words(&command), wrapped);
        },
        other => panic!("unexpected: {:?}", other),
    }
}

#[test]
fn outcomes_of_a_spawn() {
    assert!(Vm::spawned(Reply::Done).is_ok());
    match Vm::spawned(io(IoErrorKind::Other, "fork")) {
        Err(Error::Command(name, e)) => {
            assert_eq!(name, "ssh");
            assert_eq!(e.message, "fork");
        },
        other => panic!("unexpected: {:?}", other),
    }
    let unopened = Reply::Unopened(IoError { kind: IoErrorKind::Other, message: "dup".to_string() });
    match Vm::spawned(unopened) {
        Err(Error::LogFileDescriptor(e)) => assert_eq!(e.message, "dup"),
        other => panic!("unexpected: {:?}", other),
    }
}

#[test]
fn artifacts_are_copied_into_the_log_directory() {
    let c = command(vm().retreive_artifacts());
    let mut expected = ssh_prefix("root@192.168.100.13:/root/logs.tgz");
    expected[0] = "scp".to_string();
    expected.push("/logs/job".to_string());
    assert_eq!(words(&c), expected);
}

#[test]
fn only_a_copy_that_could_not_run_is_an_error() {
    assert!(Vm::artifacts_retrieved(ok("")).is_ok());
    assert!(Vm::artifacts_retrieved(failed(1, "no such file")).is_ok());
    match Vm::artifacts_retrieved(io(IoErrorKind::NotFound, "no scp")) {
        Err(Error::Command(name, _)) => assert_eq!(name, "virt-copy-out"),
        other => panic!("unexpected: {:?}", other),
    }
}

#[test]
fn destroy_stops_the_machine_by_force() {
    let c = command(vm().destroy());
    assert_eq!(words(&c), vec!["virsh", "destroy", "ovn-ci-vm3"]);
}

#[test]
fn a_failed_destroy_is_only_a_warning() {
    assert_eq!(vm().destroyed(ok("")), None);
    assert_eq!(vm().destroyed(failed(1, "no domain")), None);
    assert_eq!(
        vm().destroyed(io(IoErrorKind::NotFound, "no virsh")),
        Some("Couldn't destroy VM ovn-ci-vm3: no virsh".to_string())
    );
}

#[test]
fn runner_vm_error_messages() {
    let e = |m: &str| IoError { kind: IoErrorKind::Other, message: m.to_string() };
    let s = |m: &str| m.to_string();
    assert_eq!(Error::Command("ssh", e("x")).message(), "Cannot execute \"ssh\": x");
    assert_eq!(Error::AlreadyRunning(s("vm")).message(), "VM \"vm\" is already running");
    assert_eq!(Error::VmXml(e("x")).message(), "Cannot create VM XML: x");
    assert_eq!(Error::Cleanup(s("/p"), e("x")).message(), "Cannot remove old VM data (/p): x");
    assert_eq!(Error::CreateImage(s("t")).message(), "Cannot create image from base: t");
    assert_eq!(Error::CreateVm(s("t")).message(), "Cannot create VM: t");
    assert_eq!(
        Error::VmReadyCheck(s("vm"), s("t")).message(),
        "VM \"vm\" ready check failed: t"
    );
    let last: RunnerVmError = Error::LogFileDescriptor(e("x"));
    assert_eq!(last.message(), "Cannot clone log file descriptor: x");
}

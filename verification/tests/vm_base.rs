use ovn_ci::command::{Command, ExitStatus, Output};
use ovn_ci::config::{Compiler, Configuration, Git, Suite, Vm as VmConfig};
use ovn_ci::effect::{Action, IoError, IoErrorKind, Reply};
use ovn_ci::util::Arch;
use ovn_ci::vm::base::{Error, RebuildPhase, UpdatePhase, Vm, KICKSTART_NAME};
use ovn_ci::vm::{BaseVm, BaseVmError};

fn config(image: Option<&str>) -> Configuration {
    Configuration::new(
        6,
        "/logs".to_string(),
        "host".to_string(),
        image.map(|i| i.to_string()),
        None,
        None,
        None,
        Git::new("/src/ovn".to_string(), "/src/ovs".to_string(), false),
        None,
        VmConfig::new(8192, "40".to_string()),
        vec![Suite::new("s".to_string(), Compiler::Gcc, None, None, false, None, None, false, false)],
    )
}

fn ok(stdout: &str) -> Reply {
    Reply::Output(Output {
        status: ExitStatus { code: Some(0) },
        stdout: stdout.as_bytes().to_vec(),
        stderr: Vec::new(),
    })
}

fn failed(stderr: &str) -> Reply {
    Reply::Output(Output {
        status: ExitStatus { code: Some(1) },
        stdout: b"https://ignored/Everything\n".to_vec(),
        stderr: stderr.as_bytes().to_vec(),
    })
}

fn io(kind: IoErrorKind, message: &str) -> Reply {
    Reply::Failed(IoError { kind, message: message.to_string() })
}

fn words(action: Action) -> Vec<String> {
    match action {
        Action::Run { command } => {
            let c: Command = command;
            let mut all = vec![c.get_program().to_string()];
            all.extend(c.get_args().iter().cloned());
            all
        },
        other => panic!("not a command: {:?}", other),
    }
}

const KICKSTART: &str = "url --mirrorlist=fedora-@RELEASE@&arch=@ARCH@\nrel=@RELEASE@";

#[test]
fn the_mirror_list_is_asked_for_the_release_and_architecture() {
    let c = config(None);
    let vm = Vm::new(&c, "/logs/run", Arch::Arm64, KICKSTART);
    assert_eq!(
        words(vm.rebuild_action(&RebuildPhase::FindMirror)),
        vec![
            "curl",
            "https://mirrors.fedoraproject.org/mirrorlist?repo=fedora-40&arch=aarch64"
        ]
    );
}

#[test]
fn the_first_https_mirror_is_taken_for_the_server_variant() {
    let list = "# comment\nhttp://plain/Everything/x\nhttps://a.example/Everything/40/\n\
                https://b.example/Everything/40/\n";
    assert_eq!(Vm::find_mirror(ok(list)).unwrap(), "https://a.example/Server/40/");
    assert_eq!(
        Vm::find_mirror(ok("https://m/Everything/Everything")).unwrap(),
        "https://m/Server/Server"
    );
    assert_eq!(Vm::find_mirror(ok("https://m/other\r\n")).unwrap(), "https://m/other");
}

#[test]
fn a_list_without_an_https_mirror_is_an_error() {
    for list in ["", "http://plain/\nftp://x\n", " https://indented\n"] {
        match Vm::find_mirror(ok(list)) {
            Err(Error::MirrorList(text)) => assert_eq!(text, "Couldn't find https mirror."),
            other => panic!("unexpected: {:?}", other),
        }
    }
}

#[test]
fn a_mirror_list_that_cannot_be_had_is_an_error() {
    match Vm::find_mirror(failed("timeout")) {
        Err(Error::MirrorList(text)) => assert_eq!(text, "timeout"),
        other => panic!("unexpected: {:?}", other),
    }
    match Vm::find_mirror(io(IoErrorKind::NotFound, "no curl")) {
        Err(Error::Command(name, e)) => {
            assert_eq!(name, "curl");
            assert_eq!(e.message, "no curl");
        },
        other => panic!("unexpected: {:?}", other),
    }
}

#[test]
fn the_rebuild_takes_its_steps_in_order() {
    let next = |phase, reply| Vm::rebuild(phase, reply).unwrap().unwrap();
    let p = next(RebuildPhase::CreateLogDir, Reply::Done);
    assert!(matches!(p, RebuildPhase::FindMirror));
    let p = next(p, ok("https://m/Everything\n"));
    assert!(matches!(&p, RebuildPhase::WriteKickstart(m) if m == "https://m/Server"));
    let p = next(p, Reply::Done);
    assert!(matches!(&p, RebuildPhase::RemoveImage(m) if m == "https://m/Server"));
    let p = next(p, io(IoErrorKind::NotFound, "no image yet"));
    assert!(matches!(&p, RebuildPhase::CreateImage(m) if m == "https://m/Server"));
    let p = next(p, ok(""));
    assert!(matches!(&p, RebuildPhase::Install(m) if m == "https://m/Server"));
    assert!(Vm::rebuild(p, ok("")).unwrap().is_none());
}

#[test]
fn the_actions_of_the_rebuild() {
    let c = config(None);
    let vm: BaseVm = Vm::new(&c, "/logs/run", Arch::X86_64, KICKSTART);
    let m = || "https://m/Server".to_string();
    match vm.rebuild_action(&RebuildPhase::CreateLogDir) {
        Action::CreateDir { path, recursive } => {
            assert_eq!(path, "/logs/run/base-image");
            assert!(recursive);
        },
        other => panic!("unexpected: {:?}", other),
    }
    match vm.rebuild_action(&RebuildPhase::WriteKickstart(m())) {
        Action::WriteFile { path, content } => {
            assert_eq!(path, "/var/lib/ovn-ci/base.ks");
            assert_eq!(content, "url --mirrorlist=fedora-40&arch=x86_64\nrel=40");
        },
        other => panic!("unexpected: {:?}", other),
    }
    match vm.rebuild_action(&RebuildPhase::RemoveImage(m())) {
        Action::RemoveFile { path } => assert_eq!(path, "/var/lib/ovn-ci/base.qcow2"),
        other => panic!("unexpected: {:?}", other),
    }
    assert_eq!(
        words(vm.rebuild_action(&RebuildPhase::CreateImage(m()))),
        vec!["qemu-img", "create", "-f", "qcow2", "/var/lib/ovn-ci/base.qcow2", "10G"]
    );
    assert_eq!(
        words(vm.rebuild_action(&RebuildPhase::Install(m()))),
        vec![
            "virt-install",
            "--name",
            "base",
            "--boot",
            "uefi",
            "--memory",
            "8192",
            "--vcpus",
            "6",
            "--disk",
            "path=/var/lib/ovn-ci/base.qcow2",
            "--location=https://m/Server",
            "--os-variant",
            "fedora40",
            "--hvm",
            "--graphics=vnc",
            "--initrd-inject=/var/lib/ovn-ci/base.ks",
            "--extra-args=inst.ks=file:/base.ks console=ttyS0,115200",
            "--serial=pty,log.file=/logs/run/base-image/virt-install.log",
            "--noautoconsole",
            "--wait",
            "120",
            "--noreboot",
        ]
    );
    assert_eq!(KICKSTART_NAME, "base.ks");
}

#[test]
fn the_failures_of_the_rebuild() {
    let m = || "m".to_string();
    assert!(matches!(
        Vm::rebuild(RebuildPhase::CreateLogDir, io(IoErrorKind::PermissionDenied, "x")),
        Err(Error::LogDirectory(_))
    ));
    assert!(matches!(
        Vm::rebuild(RebuildPhase::WriteKickstart(m()), io(IoErrorKind::Other, "x")),
        Err(Error::Kickstart(_))
    ));
    assert!(matches!(
        Vm::rebuild(RebuildPhase::RemoveImage(m()), io(IoErrorKind::PermissionDenied, "x")),
        Err(Error::RemoveImage(_))
    ));
    assert!(matches!(
        Vm::rebuild(RebuildPhase::CreateImage(m()), failed("full")),
        Err(Error::CreateImage(t)) if t == "full"
    ));
    assert!(matches!(
        Vm::rebuild(RebuildPhase::CreateImage(m()), io(IoErrorKind::Other, "x")),
        Err(Error::Command("qemu-img", _))
    ));
    assert!(matches!(
        Vm::rebuild(RebuildPhase::Install(m()), failed("timed out")),
        Err(Error::BuildImage(t)) if t == "timed out"
    ));
    assert!(matches!(
        Vm::rebuild(RebuildPhase::Install(m()), io(IoErrorKind::Other, "x")),
        Err(Error::Command("virt-install", _))
    ));
}

#[test]
fn the_update_takes_its_steps_in_order() {
    let next = |phase, reply| Vm::update(phase, reply).unwrap().unwrap();
    let p = next(UpdatePhase::CreateLogDir, Reply::Done);
    assert!(matches!(p, UpdatePhase::Customize));
    let p = next(p, ok("ignored"));
    assert!(matches!(p, UpdatePhase::ReadLog));
    let p = next(p, ok("builder log\n"));
    assert!(matches!(&p, UpdatePhase::WriteLog(t) if t == "builder log\n"));
    assert!(Vm::update(p, Reply::Done).unwrap().is_none());
}

#[test]
fn the_actions_of_the_update() {
    let c = config(None);
    let vm = Vm::new(&c, "/logs/run", Arch::X86_64, KICKSTART);
    assert!(matches!(
        vm.update_action(&UpdatePhase::CreateLogDir),
        Action::CreateDir { recursive: true, .. }
    ));
    assert_eq!(
        words(vm.update_action(&UpdatePhase::Customize)),
        vec![
            "virt-customize",
            "-a",
            "/var/lib/ovn-ci/base.qcow2",
            "--delete",
            "/tmp/builder.log",
            "--touch",
            "/tmp/builder.log",
            "--delete",
            "/workspace",
            "--mkdir",
            "/workspace",
            "--copy-in",
            "/src/ovn:/workspace",
            "--copy-in",
            "/src/ovs:/workspace",
            "--delete",
            "/root/.ssh/authorized_keys",
            "--ssh-inject",
            "root:file:/etc/ovn-ci/id_ed25519.pub",
        ]
    );
    assert_eq!(
        words(vm.update_action(&UpdatePhase::ReadLog)),
        vec!["virt-cat", "-a", "/var/lib/ovn-ci/base.qcow2", "/tmp/builder.log"]
    );
    match vm.update_action(&UpdatePhase::WriteLog("the log".to_string())) {
        Action::WriteFile { path, content } => {
            assert_eq!(path, "/logs/run/base-image/virt-customize.log");
            assert_eq!(content, "the log");
        },
        other => panic!("unexpected: {:?}", other),
    }
}

#[test]
fn a_container_image_is_pulled_and_tagged_inside_the_base_image() {
    let c = config(Some("quay.io/ovn:latest"));
    let vm = Vm::new(&c, "/logs/run", Arch::X86_64, KICKSTART);
    let all = words(vm.update_action(&UpdatePhase::Customize));
    assert_eq!(all.len(), 29);
    assert_eq!(
        &all[19..],
        &[
            "--delete",
            "/run/containers/storage",
            "--delete",
            "/run/libpod",
            "--run-command",
            "podman pull quay.io/ovn:latest",
            "--run-command",
            "podman tag quay.io/ovn:latest ovn-org/ovn-tests",
            "--run-command",
            "podman image prune -f",
        ]
    );
}

#[test]
fn the_failures_of_the_update() {
    assert!(matches!(
        Vm::update(UpdatePhase::CreateLogDir, io(IoErrorKind::Other, "x")),
        Err(Error::LogDirectory(_))
    ));
    assert!(matches!(
        Vm::update(UpdatePhase::Customize, failed("bad")),
        Err(Error::UpdateImage(t)) if t == "bad"
    ));
    assert!(matches!(
        Vm::update(UpdatePhase::Customize, io(IoErrorKind::Other, "x")),
        Err(Error::Command("virt-customize", _))
    ));
    assert!(matches!(
        Vm::update(UpdatePhase::ReadLog, failed("no log")),
        Err(Error::UpdateLog(t)) if t == "no log"
    ));
    assert!(matches!(
        Vm::update(UpdatePhase::ReadLog, io(IoErrorKind::Other, "x")),
        Err(Error::Command("virt-cat", _))
    ));
    assert!(matches!(
        Vm::update(UpdatePhase::WriteLog("l".to_string()), io(IoErrorKind::Other, "disk full")),
        Err(Error::UpdateLog(t)) if t == "disk full"
    ));
}

#[test]
fn the_base_machine_is_undefined_at_the_end() {
    let c = config(None);
    let vm = Vm::new(&c, "/logs/run", Arch::X86_64, KICKSTART);
    assert_eq!(words(vm.destroy()), vec!["virsh", "undefine", "--nvram", "base"]);
    assert_eq!(Vm::destroyed(ok("")), None);
    assert_eq!(Vm::destroyed(failed("no domain")), None);
    assert_eq!(
        Vm::destroyed(io(IoErrorKind::NotFound, "no virsh")),
        Some("Couldn't destroy base VM: no virsh".to_string())
    );
}

#[test]
fn base_vm_error_messages() {
    let e = |m: &str| IoError { kind: IoErrorKind::Other, message: m.to_string() };
    let s = |m: &str| m.to_string();
    assert_eq!(Error::Command("curl", e("x")).message(), "Cannot execute \"curl\": x");
    assert_eq!(Error::Kickstart(e("x")).message(), "Cannot create kickstart: x");
    assert_eq!(Error::RemoveImage(e("x")).message(), "Cannot remove old image: x");
    assert_eq!(Error::CreateImage(s("t")).message(), "Cannot create empty image: t");
    assert_eq!(Error::BuildImage(s("t")).message(), "Cannot build image: t");
    assert_eq!(Error::UpdateImage(s("t")).message(), "Cannot update image: t");
    assert_eq!(Error::UpdateLog(s("t")).message(), "Cannot get update log: t");
    assert_eq!(Error::LogDirectory(e("x")).message(), "Cannot create log directory: x");
    let last: BaseVmError = Error::MirrorList(s("t"));
    assert_eq!(last.message(), "Cannot retrieve mirror list: t");
}

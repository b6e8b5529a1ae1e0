use ovn_ci::command::{ExitStatus, Output};
use ovn_ci::effect::{ignore_not_found, IoError, IoErrorKind, Reply};
use ovn_ci::util::{Arch, OutputExt};

fn output(code: Option<i32>, stdout: &[u8], stderr: &[u8]) -> Output {
    Output { status: ExitStatus { code }, stdout: stdout.to_vec(), stderr: stderr.to_vec() }
}

fn io(kind: IoErrorKind, message: &str) -> IoError {
    IoError { kind, message: message.to_string() }
}

#[test]
fn arch_of_a_target() {
    assert_eq!(Arch::get("x86_64"), Arch::X86_64);
    assert_eq!(Arch::get("aarch64"), Arch::Arm64);
    assert_eq!(Arch::get("riscv64"), Arch::Unknown);
    assert_eq!(Arch::get(""), Arch::Unknown);
    assert_eq!(Arch::get("x86_64 "), Arch::Unknown);
}

#[test]
fn arch_names() {
    assert_eq!(Arch::Arm64.name(), "ARM64");
    assert_eq!(Arch::X86_64.name(), "x86_64");
    assert_eq!(Arch::Unknown.name(), "Unknown");
    assert_eq!(Arch::Arm64.target(), "aarch64");
    assert_eq!(Arch::X86_64.target(), "x86_64");
    assert_eq!(Arch::Unknown.target(), "unknown");
    assert_eq!(Arch::Arm64.machine(), "virt");
    assert_eq!(Arch::X86_64.machine(), "q35");
    assert_eq!(Arch::Unknown.machine(), "unknown");
}

#[test]
fn arch_firmware() {
    assert_eq!(Arch::Arm64.uefi_code(), "/usr/share/AAVMF/AAVMF_CODE.fd");
    assert_eq!(Arch::Arm64.uefi_vars(), "/usr/share/AAVMF/AAVMF_VARS.fd");
    assert_eq!(Arch::X86_64.uefi_code(), "/usr/share/OVMF/OVMF_CODE.fd");
    assert_eq!(Arch::X86_64.uefi_vars(), "/usr/share/OVMF/OVMF_VARS.fd");
    assert_eq!(Arch::Unknown.uefi_code(), "");
    assert_eq!(Arch::Unknown.uefi_vars(), "");
}

#[test]
fn status_ok_of_a_success() {
    assert_eq!(output(Some(0), b"out", b"err").status_ok(), Ok(()));
}

#[test]
fn status_ok_of_a_failure_is_the_error_text() {
    assert_eq!(output(Some(2), b"out", b"err").status_ok(), Err("err".to_string()));
    assert_eq!(output(None, b"out", b"killed").status_ok(), Err("killed".to_string()));
}

#[test]
fn stdout_of_a_success() {
    assert_eq!(output(Some(0), b"out\n", b"err").stdout(), Ok("out\n".to_string()));
}

#[test]
fn stdout_of_a_failure_is_the_error_text() {
    assert_eq!(output(Some(1), b"out", b"err").stdout(), Err("err".to_string()));
}

#[test]
fn invalid_bytes_are_replaced() {
    assert_eq!(output(Some(0), b"a\xffb", b"").stdout(), Ok("a\u{fffd}b".to_string()));
    assert_eq!(output(Some(1), b"", b"\xf0\x9f").status_ok(), Err("\u{fffd}".to_string()));
}

#[test]
fn a_missing_file_is_no_failure() {
    assert!(ignore_not_found(Err(io(IoErrorKind::NotFound, "gone"))).is_ok());
    assert!(ignore_not_found(Ok(())).is_ok());
}

#[test]
fn other_failures_stay() {
    let r = ignore_not_found(Err(io(IoErrorKind::PermissionDenied, "denied")));
    assert_eq!(r.unwrap_err().message, "denied");
    let r = ignore_not_found(Err(io(IoErrorKind::Other, "other")));
    assert_eq!(r.unwrap_err().kind, IoErrorKind::Other);
    let r = ignore_not_found(Err(io(IoErrorKind::AlreadyExists, "exists")));
    assert_eq!(r.unwrap_err().kind, IoErrorKind::AlreadyExists);
}

#[test]
fn a_reply_read_as_a_plain_outcome() {
    assert!(Reply::Done.unit().is_ok());
    assert!(Reply::Pending.unit().is_ok());
    assert!(Reply::Exited(ExitStatus { code: Some(1) }).unit().is_ok());
    assert!(Reply::Output(output(Some(1), b"", b"")).unit().is_ok());
    assert_eq!(Reply::Failed(io(IoErrorKind::Other, "x")).unit().unwrap_err().message, "x");
    assert_eq!(Reply::Unopened(io(IoErrorKind::Other, "y")).unit().unwrap_err().message, "y");
}

#[test]
fn a_reply_read_as_a_command_outcome() {
    let out = Reply::Output(output(Some(0), b"o", b"")).output().unwrap();
    assert_eq!(out.stdout, b"o".to_vec());
    assert_eq!(Reply::Failed(io(IoErrorKind::NotFound, "x")).output().unwrap_err().message, "x");
    assert_eq!(Reply::Unopened(io(IoErrorKind::Other, "y")).output().unwrap_err().message, "y");
    let e = Reply::Done.output().unwrap_err();
    assert_eq!(e.kind, IoErrorKind::Other);
    assert_eq!(e.message, "unexpected reply");
    assert_eq!(Reply::Pending.output().unwrap_err().message, "unexpected reply");
    assert_eq!(IoError::unexpected().message, "unexpected reply");
}

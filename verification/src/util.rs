//! The machine's architecture, and how a finished command is judged.

use crate::command::{Output, OutputView};
use crate::text::{from_utf8_lossy, same, utf8_lossy};
use vstd::prelude::*;

verus! {

/// The result with its error text viewed.
pub open spec fn status_view(r: Result<(), String>) -> Result<(), Seq<char>> {
    match r {
        Ok(_) => Ok(()),
        Err(e) => Err(e@),
    }
}

/// The result with its texts viewed.
pub open spec fn text_view(r: Result<String, String>) -> Result<Seq<char>, Seq<char>> {
    match r {
        Ok(s) => Ok(s@),
        Err(e) => Err(e@),
    }
}

impl OutputView {
    /// Success, or what the command wrote to standard error.
    pub open spec fn status_ok(self) -> Result<(), Seq<char>> {
        if self.status.success() {
            Ok(())
        } else {
            Err(utf8_lossy(self.stderr))
        }
    }

    /// What the command wrote to standard output, or on failure what it
    /// wrote to standard error.
    pub open spec fn stdout(self) -> Result<Seq<char>, Seq<char>> {
        if self.status.success() {
            Ok(utf8_lossy(self.stdout))
        } else {
            Err(utf8_lossy(self.stderr))
        }
    }
}

/// Judging a finished command by its exit status.
pub trait OutputExt {
    spec fn status_ok_spec(&self) -> Result<(), Seq<char>>;

    spec fn stdout_spec(&self) -> Result<Seq<char>, Seq<char>>;

    /// `Ok` when the command succeeded, else its error text.
    fn status_ok(&self) -> (r: Result<(), String>)
        ensures
            status_view(r) == self.status_ok_spec(),
    ;

    /// The command's output when it succeeded, else its error text.
    fn stdout(&self) -> (r: Result<String, String>)
        ensures
            text_view(r) == self.stdout_spec(),
    ;
}

impl OutputExt for Output {
    open spec fn status_ok_spec(&self) -> Result<(), Seq<char>> {
        self@.status_ok()
    }

    open spec fn stdout_spec(&self) -> Result<Seq<char>, Seq<char>> {
        self@.stdout()
    }

    fn status_ok(&self) -> (r: Result<(), String>) {
        if self.status.success() {
            Ok(())
        } else {
            Err(from_utf8_lossy(&self.stderr))
        }
    }

    fn stdout(&self) -> (r: Result<String, String>) {
        if self.status.success() {
            Ok(from_utf8_lossy(&self.stdout))
        } else {
            Err(from_utf8_lossy(&self.stderr))
        }
    }
}

/// The processor architecture that the virtual machines are built for.
#[derive(Debug, Copy, Clone, Eq, PartialEq, Structural)]
pub enum Arch {
    Arm64,
    X86_64,
    Unknown,
}

impl Arch {
    /// The architecture that a target name stands for.
    pub open spec fn of(target: Seq<char>) -> Arch {
        if target == "x86_64"@ {
            Arch::X86_64
        } else if target == "aarch64"@ {
            Arch::Arm64
        } else {
            Arch::Unknown
        }
    }

    /// The name shown in reports.
    pub open spec fn name_spec(self) -> Seq<char> {
        match self {
            Arch::Arm64 => "ARM64"@,
            Arch::X86_64 => "x86_64"@,
            Arch::Unknown => "Unknown"@,
        }
    }

    /// The name by which installers and the hypervisor know the architecture.
    pub open spec fn target_spec(self) -> Seq<char> {
        match self {
            Arch::Arm64 => "aarch64"@,
            Arch::X86_64 => "x86_64"@,
            Arch::Unknown => "unknown"@,
        }
    }

    /// The machine type of a virtual machine of the architecture.
    pub open spec fn machine_spec(self) -> Seq<char> {
        match self {
            Arch::Arm64 => "virt"@,
            Arch::X86_64 => "q35"@,
            Arch::Unknown => "unknown"@,
        }
    }

    /// The firmware code image; empty where none is known.
    pub open spec fn uefi_code_spec(self) -> Seq<char> {
        match self {
            Arch::Arm64 => "/usr/share/AAVMF/AAVMF_CODE.fd"@,
            Arch::X86_64 => "/usr/share/OVMF/OVMF_CODE.fd"@,
            Arch::Unknown => ""@,
        }
    }

    /// The firmware variables template; empty where none is known.
    pub open spec fn uefi_vars_spec(self) -> Seq<char> {
        match self {
            Arch::Arm64 => "/usr/share/AAVMF/AAVMF_VARS.fd"@,
            Arch::X86_64 => "/usr/share/OVMF/OVMF_VARS.fd"@,
            Arch::Unknown => ""@,
        }
    }

    /// The architecture named by `target`, the name under which the
    /// toolchain knows the processor the program was built for.
    pub fn get(target: &str) -> (arch: Arch)
        ensures
            arch == Arch::of(target@),
    {
        if same(target, "x86_64") {
            Arch::X86_64
        } else if same(target, "aarch64") {
            Arch::Arm64
        } else {
            Arch::Unknown
        }
    }

    /// The name shown in reports.
    pub fn name(&self) -> (r: &'static str)
        ensures
            r@ == self.name_spec(),
    {
        match self {
            Arch::Arm64 => "ARM64",
            Arch::X86_64 => "x86_64",
            Arch::Unknown => "Unknown",
        }
    }

    /// The name by which installers and the hypervisor know it.
    pub fn target(&self) -> (r: &'static str)
        ensures
            r@ == self.target_spec(),
    {
        match self {
            Arch::Arm64 => "aarch64",
            Arch::X86_64 => "x86_64",
            Arch::Unknown => "unknown",
        }
    }

    /// The machine type of a virtual machine of this architecture.
    pub fn machine(&self) -> (r: &'static str)
        ensures
            r@ == self.machine_spec(),
    {
        match self {
            Arch::Arm64 => "virt",
            Arch::X86_64 => "q35",
            Arch::Unknown => "unknown",
        }
    }

    /// The firmware code image; empty where none is known.
    pub fn uefi_code(&self) -> (r: &'static str)
        ensures
            r@ == self.uefi_code_spec(),
    {
        match self {
            Arch::Arm64 => "/usr/share/AAVMF/AAVMF_CODE.fd",
            Arch::X86_64 => "/usr/share/OVMF/OVMF_CODE.fd",
            Arch::Unknown => "",
        }
    }

    /// The firmware variables template; empty where none is known.
    pub fn uefi_vars(&self) -> (r: &'static str)
        ensures
            r@ == self.uefi_vars_spec(),
    {
        match self {
            Arch::Arm64 => "/usr/share/AAVMF/AAVMF_VARS.fd",
            Arch::X86_64 => "/usr/share/OVMF/OVMF_VARS.fd",
            Arch::Unknown => "",
        }
    }
}

} // verus!

//! The virtual machines that jobs run in: the shared base image and the
//! disposable machines cloned from it.

pub mod base;
pub mod runner;

pub use base::{Error as BaseVmError, Vm as BaseVm};
pub use runner::{Error as RunnerVmError, Vm as RunnerVm};

use vstd::prelude::*;

verus! {

/// The directory that holds the images and machine descriptions.
pub const LIB_PATH: &'static str = "/var/lib/ovn-ci";

/// The file name of the base image below `LIB_PATH`.
pub const BASE_IMAGE: &'static str = "base.qcow2";

/// The path of the base image.
pub open spec fn base_image_path() -> Seq<char> {
    LIB_PATH@ + "/"@ + BASE_IMAGE@
}

} // verus!

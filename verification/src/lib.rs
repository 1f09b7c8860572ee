//! Build-and-launch orchestration for a QEMU pflash demo kernel.
//!
//! For each supported target architecture this library knows the exact
//! per-architecture facts (toolchain target, platform tag, flash bank size,
//! flash physical address, drive unit), constructs the flash device image
//! with its fixed layout (a 4-byte magic marker at offset 0, erased bytes
//! `0xFF` elsewhere, and on x86 a firmware blob at the tail), and assembles
//! the precise QEMU command line for that architecture.
//!
//! The library itself performs no I/O: callers run the external tools
//! (compiler, objcopy, QEMU) and the filesystem operations, handing the
//! library plain values and receiving plain values back.

use vstd::prelude::*;

pub mod arch;
pub mod image;
pub mod locator;
pub mod orchestrator;
pub mod pipeline;
pub mod qemu;

verus! {

/// Every way an invocation of the tool can fail.
///
/// Each failure is terminal at the point of detection: there is no retry
/// and no partial-success mode.
#[derive(Clone, Copy, Debug, PartialEq, Eq, Structural)]
pub enum XtaskError {
    /// The requested architecture name is not in the supported set.
    UnsupportedArchitecture,
    /// The per-architecture config source file is absent.
    ConfigNotFound,
    /// The cross compiler exited with the given non-zero code.
    CompileFailed(i32),
    /// The ELF-flattening tool exited with the given non-zero code.
    FlattenFailed(i32),
    /// No firmware blob was found at any of the known locations.
    FirmwareNotFound,
    /// The firmware blob does not fit in the flash image beside the marker.
    FirmwareTooLarge,
    /// The emulator executable could not be spawned.
    EmulatorLaunchFailed,
}

impl XtaskError {
    /// The process exit code this failure maps to: a failing external
    /// tool's own exit code is propagated verbatim, every other failure
    /// exits with 1.
    pub fn exit_code(&self) -> (r: i32)
        ensures
            r == match *self {
                XtaskError::CompileFailed(c) => c,
                XtaskError::FlattenFailed(c) => c,
                _ => 1i32,
            },
    {
        match *self {
            XtaskError::CompileFailed(c) => c,
            XtaskError::FlattenFailed(c) => c,
            _ => 1,
        }
    }
}

} // verus!

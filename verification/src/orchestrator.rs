//! The orchestrator: turns a subcommand and an architecture profile into
//! the exact ordered list of steps an invocation performs. The caller
//! executes the steps in order, stopping at the first failure; every path,
//! argument list and executable name a step needs is carried in the step.

use vstd::prelude::*;
use crate::arch::{Arch, ArchProfile};
use crate::locator::{seabios_candidates, spec_seabios_candidates};
use crate::pipeline::{
    active_config_path, bin_path, cargo_build_args, config_source_path, elf_path, manifest_path,
    objcopy_args, pflash_image_path, spec_active_config_path, spec_bin_path,
    spec_cargo_build_args, spec_config_source_path, spec_elf_path, spec_manifest_path,
    spec_objcopy_args, spec_pflash_image_path,
};
use crate::qemu::{EmulatorInvocation, spec_qemu_args, spec_qemu_program};

verus! {

/// The two subcommands of the tool.
#[derive(Clone, Copy, Debug, PartialEq, Eq, Structural)]
pub enum Cmd {
    /// Build the kernel for an architecture.
    Build,
    /// Build the kernel, then run it under the emulator.
    Run,
}

/// One step of an invocation. Each step is a single external effect; its
/// fields carry everything the effect needs.
pub enum Step {
    /// Copy the architecture's config source over the active config file;
    /// fails with `ConfigNotFound` when the source is absent.
    InstallConfig {
        /// The per-architecture config source file.
        src: String,
        /// The fixed-name active config destination.
        dst: String,
    },
    /// Run the cross compiler with these arguments; a non-zero exit is
    /// `CompileFailed` with the tool's code.
    Compile {
        /// The compiler's argument list.
        args: Vec<String>,
    },
    /// Run the ELF-flattening tool with these arguments; a non-zero exit
    /// is `FlattenFailed` with the tool's code.
    Flatten {
        /// The flattening tool's argument list.
        args: Vec<String>,
    },
    /// Search these locations, in order, for the boot ROM; finding none is
    /// `FirmwareNotFound`.
    LocateFirmware {
        /// The well-known locations, in search order.
        candidates: Vec<String>,
    },
    /// Construct the flash image and write it to this path.
    WriteImage {
        /// The image file's path in the working root.
        path: String,
    },
    /// Spawn the emulator and wait for it; a spawn failure is
    /// `EmulatorLaunchFailed`, and the emulator's own exit code is
    /// propagated.
    Launch {
        /// The emulator executable's name.
        program: String,
        /// The emulator's argument list.
        args: Vec<String>,
    },
}

/// `s` installs the config for architecture `a` under `root`.
pub open spec fn step_is_install_config(s: Step, root: Seq<char>, a: Arch) -> bool {
    &&& s matches Step::InstallConfig { src, dst }
    &&& s->InstallConfig_src@ == spec_config_source_path(root, a)
    &&& s->InstallConfig_dst@ == spec_active_config_path(root)
}

/// `s` compiles for architecture `a` under `root`.
pub open spec fn step_is_compile(s: Step, root: Seq<char>, a: Arch) -> bool {
    &&& s matches Step::Compile { args }
    &&& s->Compile_args.deep_view() == spec_cargo_build_args(a, spec_manifest_path(root))
}

/// `s` flattens the ELF for architecture `a` under `root`.
pub open spec fn step_is_flatten(s: Step, root: Seq<char>, a: Arch) -> bool {
    &&& s matches Step::Flatten { args }
    &&& s->Flatten_args.deep_view() == spec_objcopy_args(
        a,
        spec_elf_path(root, a),
        spec_bin_path(root, a),
    )
}

/// `s` searches the fixed boot ROM locations.
pub open spec fn step_is_locate_firmware(s: Step) -> bool {
    &&& s matches Step::LocateFirmware { candidates }
    &&& s->LocateFirmware_candidates.deep_view() == spec_seabios_candidates()
}

/// `s` writes the flash image under `root`.
pub open spec fn step_is_write_image(s: Step, root: Seq<char>) -> bool {
    &&& s matches Step::WriteImage { path }
    &&& s->WriteImage_path@ == spec_pflash_image_path(root)
}

/// `s` launches the emulator for architecture `a` under `root`.
pub open spec fn step_is_launch(s: Step, root: Seq<char>, a: Arch) -> bool {
    &&& s matches Step::Launch { program, args }
    &&& s->Launch_program@ == spec_qemu_program(a)
    &&& s->Launch_args.deep_view() == spec_qemu_args(
        a,
        spec_elf_path(root, a),
        spec_bin_path(root, a),
        spec_pflash_image_path(root),
    )
}

/// The ordered steps of one invocation: `build` installs the config and
/// compiles; `run` additionally flattens the ELF (non-x86) or locates the
/// firmware (x86), writes the flash image, and launches the emulator.
/// Firmware location always precedes the image write, so a failed search
/// leaves the image file unwritten.
pub fn plan(cmd: Cmd, profile: &ArchProfile, root: &str) -> (r: Vec<Step>)
    requires
        profile.wf(),
    ensures
        step_is_install_config(r@[0], root@, profile.arch),
        step_is_compile(r@[1], root@, profile.arch),
        cmd == Cmd::Build ==> r@.len() == 2,
        cmd == Cmd::Run ==> {
            &&& r@.len() == 5
            &&& (profile.arch != Arch::X86_64 ==> step_is_flatten(r@[2], root@, profile.arch))
            &&& (profile.arch == Arch::X86_64 ==> step_is_locate_firmware(r@[2]))
            &&& step_is_write_image(r@[3], root@)
            &&& step_is_launch(r@[4], root@, profile.arch)
        },
{
    let mut steps: Vec<Step> = Vec::new();
    steps.push(
        Step::InstallConfig {
            src: config_source_path(root, profile),
            dst: active_config_path(root),
        },
    );
    let manifest = manifest_path(root);
    steps.push(Step::Compile { args: cargo_build_args(profile, manifest.as_str()) });
    if let Cmd::Run = cmd {
        let elf = elf_path(root, profile);
        let bin = bin_path(root, profile);
        let image = pflash_image_path(root);
        if profile.arch != Arch::X86_64 {
            steps.push(
                Step::Flatten { args: objcopy_args(profile, elf.as_str(), bin.as_str()) },
            );
        } else {
            steps.push(Step::LocateFirmware { candidates: seabios_candidates() });
        }
        steps.push(Step::WriteImage { path: pflash_image_path(root) });
        let inv = EmulatorInvocation::build(profile, elf.as_str(), bin.as_str(), image.as_str());
        steps.push(Step::Launch { program: inv.program, args: inv.args });
    }
    steps
}

} // verus!

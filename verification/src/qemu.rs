//! The emulator invocation builder: assembles, exactly, the QEMU
//! executable name and argument list for a target architecture, a build
//! artifact and a flash image path.

use vstd::prelude::*;
use crate::arch::{Arch, ArchProfile};

verus! {

/// The emulator executable's name: `qemu-system-<arch>`.
pub open spec fn spec_qemu_program(a: Arch) -> Seq<char> {
    "qemu-system-"@ + a.spec_name()
}

/// The `-drive` value attaching the flash image: the data image sits in
/// unit 1 (unit 0 is reserved for firmware) on every architecture but
/// x86, where the combined image occupies unit 0.
pub open spec fn spec_drive_spec(a: Arch, image: Seq<char>) -> Seq<char> {
    if a == Arch::X86_64 {
        "if=pflash,format=raw,unit=0,file="@ + image + ",readonly=on"@
    } else {
        "if=pflash,format=raw,unit=1,file="@ + image + ",readonly=on"@
    }
}

/// The full QEMU argument list for one run: the common flags (fixed memory
/// size, single core, no graphical console), then the architecture's
/// machine/CPU flags, kernel parameter (the flattened binary everywhere
/// but on x86, which boots the ELF) and drive spec, in the exact order the
/// emulator is given them.
pub open spec fn spec_qemu_args(a: Arch, elf: Seq<char>, bin: Seq<char>, image: Seq<char>) -> Seq<
    Seq<char>,
> {
    seq!["-m"@, "128M"@, "-smp"@, "1"@, "-nographic"@] + match a {
        Arch::Riscv64 => seq![
            "-machine"@,
            "virt"@,
            "-bios"@,
            "default"@,
            "-kernel"@,
            bin,
            "-drive"@,
            spec_drive_spec(a, image),
        ],
        Arch::Aarch64 => seq![
            "-cpu"@,
            "cortex-a72"@,
            "-machine"@,
            "virt"@,
            "-kernel"@,
            bin,
            "-drive"@,
            spec_drive_spec(a, image),
        ],
        Arch::X86_64 => seq![
            "-machine"@,
            "q35"@,
            "-drive"@,
            spec_drive_spec(a, image),
            "-kernel"@,
            elf,
        ],
        Arch::Loongarch64 => seq![
            "-machine"@,
            "virt"@,
            "-drive"@,
            spec_drive_spec(a, image),
            "-kernel"@,
            bin,
        ],
    }
}

/// A ready-to-spawn emulator command: executable name plus ordered
/// argument list. Built fresh per run; never persisted.
pub struct EmulatorInvocation {
    /// The emulator executable's name.
    pub program: String,
    /// The arguments, in order.
    pub args: Vec<String>,
}

/// Executable counterpart of [`spec_drive_spec`].
pub fn drive_spec(a: Arch, image: &str) -> (r: String)
    ensures
        r@ == spec_drive_spec(a, image@),
{
    let prefix = if a == Arch::X86_64 {
        "if=pflash,format=raw,unit=0,file="
    } else {
        "if=pflash,format=raw,unit=1,file="
    };
    prefix.to_owned().concat(image).concat(",readonly=on")
}

impl EmulatorInvocation {
    /// Assemble the invocation for `profile`, given the paths of the ELF
    /// artifact, the flattened binary and the flash image.
    pub fn build(profile: &ArchProfile, elf: &str, bin: &str, image: &str) -> (r:
        EmulatorInvocation)
        requires
            profile.wf(),
        ensures
            r.program@ == spec_qemu_program(profile.arch),
            r.args.deep_view() == spec_qemu_args(profile.arch, elf@, bin@, image@),
    {
        let program = "qemu-system-".to_owned().concat(profile.name);
        let mut args: Vec<String> = Vec::new();
        args.push("-m".to_owned());
        args.push("128M".to_owned());
        args.push("-smp".to_owned());
        args.push("1".to_owned());
        args.push("-nographic".to_owned());
        match profile.arch {
            Arch::Riscv64 => {
                args.push("-machine".to_owned());
                args.push("virt".to_owned());
                args.push("-bios".to_owned());
                args.push("default".to_owned());
                args.push("-kernel".to_owned());
                args.push(bin.to_owned());
                args.push("-drive".to_owned());
                args.push(drive_spec(profile.arch, image));
            },
            Arch::Aarch64 => {
                args.push("-cpu".to_owned());
                args.push("cortex-a72".to_owned());
                args.push("-machine".to_owned());
                args.push("virt".to_owned());
                args.push("-kernel".to_owned());
                args.push(bin.to_owned());
                args.push("-drive".to_owned());
                args.push(drive_spec(profile.arch, image));
            },
            Arch::X86_64 => {
                args.push("-machine".to_owned());
                args.push("q35".to_owned());
                args.push("-drive".to_owned());
                args.push(drive_spec(profile.arch, image));
                args.push("-kernel".to_owned());
                args.push(elf.to_owned());
            },
            Arch::Loongarch64 => {
                args.push("-machine".to_owned());
                args.push("virt".to_owned());
                args.push("-drive".to_owned());
                args.push(drive_spec(profile.arch, image));
                args.push("-kernel".to_owned());
                args.push(bin.to_owned());
            },
        }
        assert(args.deep_view() =~~= spec_qemu_args(profile.arch, elf@, bin@, image@));
        EmulatorInvocation { program, args }
    }
}

/// Map the emulator's exit status to the invocation's outcome: a
/// successful run ends the invocation normally, any other exit propagates
/// the emulator's own code, 1 standing in where the process died without
/// one.
pub fn launch_result(success: bool, code: Option<i32>) -> (r: Option<i32>)
    ensures
        r == if success {
            None::<i32>
        } else {
            Some(
                match code {
                    Some(c) => c,
                    None => 1i32,
                },
            )
        },
{
    if success {
        None
    } else {
        match code {
            Some(c) => Some(c),
            None => Some(1),
        }
    }
}

/// A sequence `s` has `sub` as a contiguous part.
pub open spec fn seq_contains_sub(s: Seq<char>, sub: Seq<char>) -> bool {
    exists|i: int|
        0 <= i && i + sub.len() <= s.len() && #[trigger] s.subrange(i, i + sub.len() as int)
            == sub
}

/// Law: whatever the image path, the drive spec for every non-x86
/// architecture contains `unit=1`, and the x86 drive spec contains
/// `unit=0`.
pub proof fn lemma_drive_spec_unit(a: Arch, image: Seq<char>)
    ensures
        a != Arch::X86_64 ==> seq_contains_sub(spec_drive_spec(a, image), "unit=1"@),
        a == Arch::X86_64 ==> seq_contains_sub(spec_drive_spec(a, image), "unit=0"@),
{
    reveal_strlit("if=pflash,format=raw,unit=0,file=");
    reveal_strlit("if=pflash,format=raw,unit=1,file=");
    reveal_strlit("unit=0");
    reveal_strlit("unit=1");
    let s = spec_drive_spec(a, image);
    if a == Arch::X86_64 {
        let sub = "unit=0"@;
        assert(s.subrange(21, 21 + sub.len() as int) =~= sub);
    } else {
        let sub = "unit=1"@;
        assert(s.subrange(21, 21 + sub.len() as int) =~= sub);
    }
}

} // verus!

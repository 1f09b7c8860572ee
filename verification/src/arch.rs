//! The architecture profile registry: a static mapping from architecture
//! name to every per-architecture fact the rest of the tool consults.

use vstd::prelude::*;
use crate::XtaskError;

verus! {

/// One mebibyte, the unit the flash bank sizes are stated in.
pub const MIB: usize = 1024 * 1024;

/// The closed set of supported target architectures.
#[derive(Clone, Copy, Debug, PartialEq, Eq, Structural)]
pub enum Arch {
    Riscv64,
    Aarch64,
    X86_64,
    Loongarch64,
}

impl Arch {
    /// The canonical name of the architecture, as accepted on the command
    /// line and used in the emulator executable's name.
    pub open spec fn spec_name(self) -> Seq<char> {
        match self {
            Arch::Riscv64 => "riscv64"@,
            Arch::Aarch64 => "aarch64"@,
            Arch::X86_64 => "x86_64"@,
            Arch::Loongarch64 => "loongarch64"@,
        }
    }

    /// The toolchain target identifier handed to the cross compiler.
    pub open spec fn spec_compile_target(self) -> Seq<char> {
        match self {
            Arch::Riscv64 => "riscv64gc-unknown-none-elf"@,
            Arch::Aarch64 => "aarch64-unknown-none-softfloat"@,
            Arch::X86_64 => "x86_64-unknown-none"@,
            Arch::Loongarch64 => "loongarch64-unknown-none"@,
        }
    }

    /// The logical platform tag used to select the config file's contents.
    pub open spec fn spec_machine_platform(self) -> Seq<char> {
        match self {
            Arch::Riscv64 => "riscv64-qemu-virt"@,
            Arch::Aarch64 => "aarch64-qemu-virt"@,
            Arch::X86_64 => "x86-pc"@,
            Arch::Loongarch64 => "loongarch64-qemu-virt"@,
        }
    }

    /// The architecture identifier passed to the ELF-flattening tool.
    pub open spec fn spec_conversion_arch(self) -> Seq<char> {
        match self {
            Arch::Riscv64 => "riscv64"@,
            Arch::Aarch64 => "aarch64"@,
            Arch::X86_64 => "x86_64"@,
            Arch::Loongarch64 => "loongarch64"@,
        }
    }

    /// The exact flash bank size the emulated machine expects: 32 MiB on
    /// riscv64 virt and 64 MiB on aarch64 virt (fixed by the machine
    /// model), 4 MiB on x86_64 q35 and loongarch64 virt (flexible; this
    /// tool uses 4 MiB).
    pub open spec fn spec_flash_size_bytes(self) -> int {
        match self {
            Arch::Riscv64 => 32 * MIB,
            Arch::Aarch64 => 64 * MIB,
            Arch::X86_64 => 4 * MIB,
            Arch::Loongarch64 => 4 * MIB,
        }
    }

    /// The physical address at which the data-carrying flash bank appears
    /// in the emulated address space.
    pub open spec fn spec_flash_load_phys_addr(self) -> usize {
        match self {
            Arch::Riscv64 => 0x2200_0000,
            Arch::Aarch64 => 0x0400_0000,
            Arch::X86_64 => 0xFFC0_0000,
            Arch::Loongarch64 => 0x1d00_0000,
        }
    }

    /// Which flash-bank slot carries the data image: unit 0 is reserved
    /// for firmware everywhere but on x86, where the data image is itself
    /// the firmware-slot image.
    pub open spec fn spec_drive_unit(self) -> u8 {
        match self {
            Arch::X86_64 => 0u8,
            _ => 1u8,
        }
    }

    /// Executable counterpart of [`Arch::spec_name`].
    pub fn name(self) -> (r: &'static str)
        ensures
            r@ == self.spec_name(),
    {
        match self {
            Arch::Riscv64 => "riscv64",
            Arch::Aarch64 => "aarch64",
            Arch::X86_64 => "x86_64",
            Arch::Loongarch64 => "loongarch64",
        }
    }

    /// Parse an architecture name. Returns the architecture whose
    /// canonical name equals `name`, and `None` for every other string.
    pub fn from_name(name: &str) -> (r: Option<Arch>)
        ensures
            r == spec_arch_of_name(name@),
    {
        let owned = name.to_owned();
        if owned == "riscv64".to_owned() {
            Some(Arch::Riscv64)
        } else if owned == "aarch64".to_owned() {
            Some(Arch::Aarch64)
        } else if owned == "x86_64".to_owned() {
            Some(Arch::X86_64)
        } else if owned == "loongarch64".to_owned() {
            Some(Arch::Loongarch64)
        } else {
            None
        }
    }
}

/// The architecture, if any, whose canonical name is `s`.
pub open spec fn spec_arch_of_name(s: Seq<char>) -> Option<Arch> {
    if s == "riscv64"@ {
        Some(Arch::Riscv64)
    } else if s == "aarch64"@ {
        Some(Arch::Aarch64)
    } else if s == "x86_64"@ {
        Some(Arch::X86_64)
    } else if s == "loongarch64"@ {
        Some(Arch::Loongarch64)
    } else {
        None
    }
}

/// All per-architecture facts, looked up once per invocation and never
/// mutated afterwards.
#[derive(Debug)]
pub struct ArchProfile {
    /// Which architecture this profile describes.
    pub arch: Arch,
    /// Canonical architecture name.
    pub name: &'static str,
    /// Toolchain target identifier for the cross compiler.
    pub compile_target: &'static str,
    /// Logical platform tag used for config selection.
    pub machine_platform: &'static str,
    /// Architecture identifier passed to the flattening tool.
    pub conversion_arch: &'static str,
    /// Exact flash bank size demanded by the emulated machine.
    pub flash_size_bytes: usize,
    /// Physical address of the data-carrying flash bank.
    pub flash_load_phys_addr: usize,
    /// Flash-bank slot (0 or 1) that carries the data image.
    pub drive_unit: u8,
}

impl ArchProfile {
    /// Every field agrees with the registry's facts for `self.arch`.
    pub open spec fn wf(self) -> bool {
        &&& self.name@ == self.arch.spec_name()
        &&& self.compile_target@ == self.arch.spec_compile_target()
        &&& self.machine_platform@ == self.arch.spec_machine_platform()
        &&& self.conversion_arch@ == self.arch.spec_conversion_arch()
        &&& self.flash_size_bytes == self.arch.spec_flash_size_bytes()
        &&& self.flash_load_phys_addr == self.arch.spec_flash_load_phys_addr()
        &&& self.drive_unit == self.arch.spec_drive_unit()
    }
}

/// Registry lookup: the profile of the architecture named `arch`, or
/// `UnsupportedArchitecture` for any string outside the supported set.
pub fn arch_info(arch: &str) -> (r: Result<ArchProfile, XtaskError>)
    ensures
        match spec_arch_of_name(arch@) {
            Some(a) => r matches Ok(p) && p.arch == a && p.wf(),
            None => r == Err::<ArchProfile, XtaskError>(XtaskError::UnsupportedArchitecture),
        },
{
    match Arch::from_name(arch) {
        Some(a) => Ok(profile_of(a)),
        None => Err(XtaskError::UnsupportedArchitecture),
    }
}

/// The profile of a known architecture.
pub fn profile_of(a: Arch) -> (p: ArchProfile)
    ensures
        p.arch == a,
        p.wf(),
{
    match a {
        Arch::Riscv64 => ArchProfile {
            arch: a,
            name: "riscv64",
            compile_target: "riscv64gc-unknown-none-elf",
            machine_platform: "riscv64-qemu-virt",
            conversion_arch: "riscv64",
            flash_size_bytes: 32 * MIB,
            flash_load_phys_addr: 0x2200_0000,
            drive_unit: 1,
        },
        Arch::Aarch64 => ArchProfile {
            arch: a,
            name: "aarch64",
            compile_target: "aarch64-unknown-none-softfloat",
            machine_platform: "aarch64-qemu-virt",
            conversion_arch: "aarch64",
            flash_size_bytes: 64 * MIB,
            flash_load_phys_addr: 0x0400_0000,
            drive_unit: 1,
        },
        Arch::X86_64 => ArchProfile {
            arch: a,
            name: "x86_64",
            compile_target: "x86_64-unknown-none",
            machine_platform: "x86-pc",
            conversion_arch: "x86_64",
            flash_size_bytes: 4 * MIB,
            flash_load_phys_addr: 0xFFC0_0000,
            drive_unit: 0,
        },
        Arch::Loongarch64 => ArchProfile {
            arch: a,
            name: "loongarch64",
            compile_target: "loongarch64-unknown-none",
            machine_platform: "loongarch64-qemu-virt",
            conversion_arch: "loongarch64",
            flash_size_bytes: 4 * MIB,
            flash_load_phys_addr: 0x1d00_0000,
            drive_unit: 1,
        },
    }
}

/// Law: every supported architecture's flash bank has room for the 4-byte
/// marker, so the image constructor's size precondition holds for every
/// profile the registry hands out.
pub proof fn lemma_flash_size_has_room_for_marker(a: Arch)
    ensures
        a.spec_flash_size_bytes() >= 4,
{
}

/// The flash image size for an architecture name. A name outside the
/// supported set is a hard failure, never a default: no size exists for
/// an unsupported architecture.
pub fn pflash_size(arch: &str) -> (r: Result<usize, XtaskError>)
    ensures
        match spec_arch_of_name(arch@) {
            Some(a) => r matches Ok(s) && s as int == a.spec_flash_size_bytes(),
            None => r == Err::<usize, XtaskError>(XtaskError::UnsupportedArchitecture),
        },
{
    match Arch::from_name(arch) {
        Some(a) => match a {
            Arch::Riscv64 => Ok(32 * MIB),
            Arch::Aarch64 => Ok(64 * MIB),
            Arch::X86_64 => Ok(4 * MIB),
            Arch::Loongarch64 => Ok(4 * MIB),
        },
        None => Err(XtaskError::UnsupportedArchitecture),
    }
}

/// The working root of the build: callers supply the manifest directory
/// they resolved, and every generated path is anchored under it.
pub fn project_root(manifest_dir: &str) -> (r: String)
    ensures
        r@ == manifest_dir@,
{
    manifest_dir.to_owned()
}

} // verus!

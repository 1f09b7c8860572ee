use pflash_xtask::arch::{profile_of, Arch};
use pflash_xtask::qemu::{drive_spec, launch_result, EmulatorInvocation};

#[test]
fn riscv64_invocation() {
    let p = profile_of(Arch::Riscv64);
    let inv = EmulatorInvocation::build(&p, "k.elf", "k.bin", "pflash.img");
    assert_eq!(inv.program, "qemu-system-riscv64");
    assert_eq!(
        inv.args,
        vec![
            "-m",
            "128M",
            "-smp",
            "1",
            "-nographic",
            "-machine",
            "virt",
            "-bios",
            "default",
            "-kernel",
            "k.bin",
            "-drive",
            "if=pflash,format=raw,unit=1,file=pflash.img,readonly=on",
        ]
    );
}

#[test]
fn aarch64_invocation() {
    let p = profile_of(Arch::Aarch64);
    let inv = EmulatorInvocation::build(&p, "k.elf", "k.bin", "pflash.img");
    assert_eq!(inv.program, "qemu-system-aarch64");
    assert_eq!(
        inv.args,
        vec![
            "-m",
            "128M",
            "-smp",
            "1",
            "-nographic",
            "-cpu",
            "cortex-a72",
            "-machine",
            "virt",
            "-kernel",
            "k.bin",
            "-drive",
            "if=pflash,format=raw,unit=1,file=pflash.img,readonly=on",
        ]
    );
}

#[test]
fn x86_64_invocation() {
    let p = profile_of(Arch::X86_64);
    let inv = EmulatorInvocation::build(&p, "k.elf", "k.bin", "pflash.img");
    assert_eq!(inv.program, "qemu-system-x86_64");
    assert_eq!(
        inv.args,
        vec![
            "-m",
            "128M",
            "-smp",
            "1",
            "-nographic",
            "-machine",
            "q35",
            "-drive",
            "if=pflash,format=raw,unit=0,file=pflash.img,readonly=on",
            "-kernel",
            "k.elf",
        ]
    );
}

#[test]
fn loongarch64_invocation() {
    let p = profile_of(Arch::Loongarch64);
    let inv = EmulatorInvocation::build(&p, "k.elf", "k.bin", "pflash.img");
    assert_eq!(inv.program, "qemu-system-loongarch64");
    assert_eq!(
        inv.args,
        vec![
            "-m",
            "128M",
            "-smp",
            "1",
            "-nographic",
            "-machine",
            "virt",
            "-drive",
            "if=pflash,format=raw,unit=1,file=pflash.img,readonly=on",
            "-kernel",
            "k.bin",
        ]
    );
}

#[test]
fn drive_spec_unit_numbers() {
    for a in [Arch::Riscv64, Arch::Aarch64, Arch::Loongarch64] {
        let d = drive_spec(a, "some/dir/pflash.img");
        assert!(d.contains("unit=1"));
        assert!(!d.contains("unit=0"));
    }
    let d = drive_spec(Arch::X86_64, "some/dir/pflash.img");
    assert!(d.contains("unit=0"));
    assert!(!d.contains("unit=1"));
}

#[test]
fn emulator_exit_status_is_propagated() {
    assert_eq!(launch_result(true, Some(0)), None);
    assert_eq!(launch_result(true, None), None);
    assert_eq!(launch_result(false, Some(137)), Some(137));
    assert_eq!(launch_result(false, None), Some(1));
}

#[test]
fn drive_spec_exact() {
    assert_eq!(
        drive_spec(Arch::Riscv64, "/w/pflash.img"),
        "if=pflash,format=raw,unit=1,file=/w/pflash.img,readonly=on"
    );
    assert_eq!(
        drive_spec(Arch::X86_64, "/w/pflash.img"),
        "if=pflash,format=raw,unit=0,file=/w/pflash.img,readonly=on"
    );
}

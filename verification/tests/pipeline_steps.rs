use pflash_xtask::arch::{profile_of, Arch};
use pflash_xtask::locator::{locate_firmware, seabios_candidates};
use pflash_xtask::orchestrator::{plan, Cmd, Step};
use pflash_xtask::pipeline::{
    active_config_path, bin_path, cargo_build_args, compile_result, config_install_result,
    config_source_path, elf_path, flatten_result, manifest_path, needs_flatten, objcopy_args,
    pflash_image_path, BuildArtifact,
};
use pflash_xtask::XtaskError;

#[test]
fn pipeline_paths() {
    let p = profile_of(Arch::Riscv64);
    assert_eq!(config_source_path("/w", &p), "/w/configs/riscv64.toml");
    assert_eq!(active_config_path("/w"), "/w/.axconfig.toml");
    assert_eq!(manifest_path("/w"), "/w/Cargo.toml");
    assert_eq!(
        elf_path("/w", &p),
        "/w/target/riscv64gc-unknown-none-elf/release/arceos-readpflash"
    );
    assert_eq!(
        bin_path("/w", &p),
        "/w/target/riscv64gc-unknown-none-elf/release/arceos-readpflash.bin"
    );
    assert_eq!(pflash_image_path("/w"), "/w/pflash.img");
}

#[test]
fn compiler_arguments() {
    let p = profile_of(Arch::Aarch64);
    assert_eq!(
        cargo_build_args(&p, "/w/Cargo.toml"),
        vec![
            "build",
            "--release",
            "--target",
            "aarch64-unknown-none-softfloat",
            "--manifest-path",
            "/w/Cargo.toml",
        ]
    );
}

#[test]
fn objcopy_arguments() {
    let p = profile_of(Arch::Loongarch64);
    assert_eq!(
        objcopy_args(&p, "/w/k.elf", "/w/k.bin"),
        vec![
            "--binary-architecture=loongarch64",
            "/w/k.elf",
            "--strip-all",
            "-O",
            "binary",
            "/w/k.bin",
        ]
    );
}

#[test]
fn flattening_is_skipped_on_x86_only() {
    assert!(needs_flatten(Arch::Riscv64));
    assert!(needs_flatten(Arch::Aarch64));
    assert!(needs_flatten(Arch::Loongarch64));
    assert!(!needs_flatten(Arch::X86_64));
}

#[test]
fn build_artifact_paths() {
    let p = profile_of(Arch::X86_64);
    let a = BuildArtifact::new("/w", &p);
    assert_eq!(a.elf_path, "/w/target/x86_64-unknown-none/release/arceos-readpflash");
    assert_eq!(a.bin_path, None);
    let p = profile_of(Arch::Riscv64);
    let a = BuildArtifact::new("/w", &p);
    assert_eq!(
        a.bin_path.as_deref(),
        Some("/w/target/riscv64gc-unknown-none-elf/release/arceos-readpflash.bin")
    );
}

#[test]
fn tool_exit_codes_are_propagated() {
    assert_eq!(compile_result(true, Some(0)), Ok(()));
    let e = compile_result(false, Some(101)).unwrap_err();
    assert_eq!(e, XtaskError::CompileFailed(101));
    assert_eq!(e.exit_code(), 101);
    assert_eq!(compile_result(false, None).unwrap_err(), XtaskError::CompileFailed(1));
    assert_eq!(flatten_result(true, None), Ok(()));
    assert_eq!(flatten_result(false, Some(7)).unwrap_err(), XtaskError::FlattenFailed(7));
    assert_eq!(flatten_result(false, None).unwrap_err(), XtaskError::FlattenFailed(1));
}

#[test]
fn config_install_needs_the_source() {
    assert_eq!(config_install_result(true), Ok(()));
    assert_eq!(config_install_result(false).unwrap_err(), XtaskError::ConfigNotFound);
}

#[test]
fn seabios_candidate_list() {
    assert_eq!(
        seabios_candidates(),
        vec![
            "/usr/share/qemu/bios-256k.bin",
            "/usr/share/seabios/bios-256k.bin",
            "/usr/local/share/qemu/bios-256k.bin",
            "/usr/share/qemu/bios.bin",
            "/usr/share/seabios/bios.bin",
        ]
    );
}

#[test]
fn firmware_location_picks_the_first_match() {
    assert_eq!(locate_firmware(&vec![false, false, true, true, false]), Ok(2));
    assert_eq!(locate_firmware(&vec![true, false, false, false, false]), Ok(0));
    assert_eq!(
        locate_firmware(&vec![false, false, false, false, false]).unwrap_err(),
        XtaskError::FirmwareNotFound
    );
    assert_eq!(locate_firmware(&vec![]).unwrap_err(), XtaskError::FirmwareNotFound);
}

#[test]
fn build_plan_stops_after_the_compile() {
    let p = profile_of(Arch::Riscv64);
    let steps = plan(Cmd::Build, &p, "/w");
    assert_eq!(steps.len(), 2);
    match &steps[0] {
        Step::InstallConfig { src, dst } => {
            assert_eq!(src, "/w/configs/riscv64.toml");
            assert_eq!(dst, "/w/.axconfig.toml");
        }
        other => panic!("expected InstallConfig, got {:?}", step_name(other)),
    }
    match &steps[1] {
        Step::Compile { args } => assert_eq!(args[0], "build"),
        other => panic!("expected Compile, got {:?}", step_name(other)),
    }
}

#[test]
fn run_plan_for_riscv64_flattens_then_images_then_launches() {
    let p = profile_of(Arch::Riscv64);
    let steps = plan(Cmd::Run, &p, "/w");
    assert_eq!(steps.len(), 5);
    assert_eq!(step_name(&steps[0]), "InstallConfig");
    assert_eq!(step_name(&steps[1]), "Compile");
    assert_eq!(step_name(&steps[2]), "Flatten");
    assert_eq!(step_name(&steps[3]), "WriteImage");
    assert_eq!(step_name(&steps[4]), "Launch");
    match &steps[4] {
        Step::Launch { program, args } => {
            assert_eq!(program, "qemu-system-riscv64");
            assert!(args.contains(&"-nographic".to_string()));
        }
        _ => unreachable!(),
    }
}

#[test]
fn run_plan_for_x86_64_locates_firmware_before_writing_the_image() {
    let p = profile_of(Arch::X86_64);
    let steps = plan(Cmd::Run, &p, "/w");
    assert_eq!(steps.len(), 5);
    let locate = steps.iter().position(|s| step_name(s) == "LocateFirmware").unwrap();
    let write = steps.iter().position(|s| step_name(s) == "WriteImage").unwrap();
    assert!(locate < write);
    assert!(!steps.iter().any(|s| step_name(s) == "Flatten"));
    match &steps[locate] {
        Step::LocateFirmware { candidates } => {
            assert_eq!(candidates.len(), 5);
            assert_eq!(candidates[0], "/usr/share/qemu/bios-256k.bin");
        }
        _ => unreachable!(),
    }
    match &steps[write] {
        Step::WriteImage { path } => assert_eq!(path, "/w/pflash.img"),
        _ => unreachable!(),
    }
}

fn step_name(s: &Step) -> &'static str {
    match s {
        Step::InstallConfig { .. } => "InstallConfig",
        Step::Compile { .. } => "Compile",
        Step::Flatten { .. } => "Flatten",
        Step::LocateFirmware { .. } => "LocateFirmware",
        Step::WriteImage { .. } => "WriteImage",
        Step::Launch { .. } => "Launch",
    }
}

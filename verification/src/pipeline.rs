//! The build pipeline: config install → cross-compile → (conditional)
//! binary flattening. This module computes every path and argument list
//! the pipeline's external tools are given, and maps each tool's outcome
//! to the pipeline's typed result; running the tools and touching the
//! filesystem is the caller's part.

use vstd::prelude::*;
use crate::XtaskError;
use crate::arch::{Arch, ArchProfile};

verus! {

/// Path of the architecture-specific config source: `<root>/configs/<name>.toml`.
pub open spec fn spec_config_source_path(root: Seq<char>, a: Arch) -> Seq<char> {
    root + "/configs/"@ + a.spec_name() + ".toml"@
}

/// Path of the fixed-name active config the source is copied to.
pub open spec fn spec_active_config_path(root: Seq<char>) -> Seq<char> {
    root + "/.axconfig.toml"@
}

/// Path of the manifest handed to the cross compiler.
pub open spec fn spec_manifest_path(root: Seq<char>) -> Seq<char> {
    root + "/Cargo.toml"@
}

/// Path of the compiled ELF artifact for a target.
pub open spec fn spec_elf_path(root: Seq<char>, a: Arch) -> Seq<char> {
    root + "/target/"@ + a.spec_compile_target() + "/release/arceos-readpflash"@
}

/// Path of the flattened raw binary beside the ELF.
pub open spec fn spec_bin_path(root: Seq<char>, a: Arch) -> Seq<char> {
    spec_elf_path(root, a) + ".bin"@
}

/// Path of the generated flash image file in the working root.
pub open spec fn spec_pflash_image_path(root: Seq<char>) -> Seq<char> {
    root + "/pflash.img"@
}

/// The cross compiler's argument list: a release build of the manifest for
/// the profile's target.
pub open spec fn spec_cargo_build_args(a: Arch, manifest: Seq<char>) -> Seq<Seq<char>> {
    seq![
        "build"@,
        "--release"@,
        "--target"@,
        a.spec_compile_target(),
        "--manifest-path"@,
        manifest,
    ]
}

/// The flattening tool's argument list: strip the ELF and emit it as a raw
/// binary for the profile's architecture.
pub open spec fn spec_objcopy_args(a: Arch, elf: Seq<char>, bin: Seq<char>) -> Seq<Seq<char>> {
    seq![
        "--binary-architecture="@ + a.spec_conversion_arch(),
        elf,
        "--strip-all"@,
        "-O"@,
        "binary"@,
        bin,
    ]
}

/// Executable counterpart of [`spec_config_source_path`].
pub fn config_source_path(root: &str, profile: &ArchProfile) -> (r: String)
    requires
        profile.wf(),
    ensures
        r@ == spec_config_source_path(root@, profile.arch),
{
    root.to_owned().concat("/configs/").concat(profile.name).concat(".toml")
}

/// Executable counterpart of [`spec_active_config_path`].
pub fn active_config_path(root: &str) -> (r: String)
    ensures
        r@ == spec_active_config_path(root@),
{
    root.to_owned().concat("/.axconfig.toml")
}

/// Executable counterpart of [`spec_manifest_path`].
pub fn manifest_path(root: &str) -> (r: String)
    ensures
        r@ == spec_manifest_path(root@),
{
    root.to_owned().concat("/Cargo.toml")
}

/// Executable counterpart of [`spec_elf_path`].
pub fn elf_path(root: &str, profile: &ArchProfile) -> (r: String)
    requires
        profile.wf(),
    ensures
        r@ == spec_elf_path(root@, profile.arch),
{
    root.to_owned().concat("/target/").concat(profile.compile_target).concat(
        "/release/arceos-readpflash",
    )
}

/// Executable counterpart of [`spec_bin_path`].
pub fn bin_path(root: &str, profile: &ArchProfile) -> (r: String)
    requires
        profile.wf(),
    ensures
        r@ == spec_bin_path(root@, profile.arch),
{
    elf_path(root, profile).concat(".bin")
}

/// Executable counterpart of [`spec_pflash_image_path`].
pub fn pflash_image_path(root: &str) -> (r: String)
    ensures
        r@ == spec_pflash_image_path(root@),
{
    root.to_owned().concat("/pflash.img")
}

/// Executable counterpart of [`spec_cargo_build_args`].
pub fn cargo_build_args(profile: &ArchProfile, manifest: &str) -> (r: Vec<String>)
    requires
        profile.wf(),
    ensures
        r.deep_view() == spec_cargo_build_args(profile.arch, manifest@),
{
    let mut args: Vec<String> = Vec::new();
    args.push("build".to_owned());
    args.push("--release".to_owned());
    args.push("--target".to_owned());
    args.push(profile.compile_target.to_owned());
    args.push("--manifest-path".to_owned());
    args.push(manifest.to_owned());
    assert(args.deep_view() =~~= spec_cargo_build_args(profile.arch, manifest@));
    args
}

/// Executable counterpart of [`spec_objcopy_args`].
pub fn objcopy_args(profile: &ArchProfile, elf: &str, bin: &str) -> (r: Vec<String>)
    requires
        profile.wf(),
    ensures
        r.deep_view() == spec_objcopy_args(profile.arch, elf@, bin@),
{
    let mut args: Vec<String> = Vec::new();
    args.push("--binary-architecture=".to_owned().concat(profile.conversion_arch));
    args.push(elf.to_owned());
    args.push("--strip-all".to_owned());
    args.push("-O".to_owned());
    args.push("binary".to_owned());
    args.push(bin.to_owned());
    assert(args.deep_view() =~~= spec_objcopy_args(profile.arch, elf@, bin@));
    args
}

/// Whether the architecture's boot path needs the ELF flattened to a raw
/// binary: every profile but x86, whose machine boots the ELF directly.
pub fn needs_flatten(a: Arch) -> (r: bool)
    ensures
        r == (a != Arch::X86_64),
{
    a != Arch::X86_64
}

/// Map the config source's presence to the install step's outcome: the
/// copy may only proceed when the source file exists.
pub fn config_install_result(src_exists: bool) -> (r: Result<(), XtaskError>)
    ensures
        r == if src_exists {
            Ok::<(), XtaskError>(())
        } else {
            Err::<(), XtaskError>(XtaskError::ConfigNotFound)
        },
{
    if src_exists {
        Ok(())
    } else {
        Err(XtaskError::ConfigNotFound)
    }
}

/// Map the cross compiler's exit status to the compile step's outcome: the
/// tool's own exit code is kept verbatim, 1 standing in where the process
/// died without one.
pub fn compile_result(success: bool, code: Option<i32>) -> (r: Result<(), XtaskError>)
    ensures
        r == if success {
            Ok::<(), XtaskError>(())
        } else {
            Err::<(), XtaskError>(
                XtaskError::CompileFailed(
                    match code {
                        Some(c) => c,
                        None => 1i32,
                    },
                ),
            )
        },
{
    if success {
        Ok(())
    } else {
        match code {
            Some(c) => Err(XtaskError::CompileFailed(c)),
            None => Err(XtaskError::CompileFailed(1)),
        }
    }
}

/// Map the flattening tool's exit status to the flatten step's outcome,
/// exactly as [`compile_result`] does for the compiler.
pub fn flatten_result(success: bool, code: Option<i32>) -> (r: Result<(), XtaskError>)
    ensures
        r == if success {
            Ok::<(), XtaskError>(())
        } else {
            Err::<(), XtaskError>(
                XtaskError::FlattenFailed(
                    match code {
                        Some(c) => c,
                        None => 1i32,
                    },
                ),
            )
        },
{
    if success {
        Ok(())
    } else {
        match code {
            Some(c) => Err(XtaskError::FlattenFailed(c)),
            None => Err(XtaskError::FlattenFailed(1)),
        }
    }
}

/// What one build invocation produces: the ELF path, and the flattened
/// binary's path on the architectures whose boot path needs one. Never
/// mutated after creation.
pub struct BuildArtifact {
    /// Path of the compiled ELF.
    pub elf_path: String,
    /// Path of the flattened raw binary, absent on x86.
    pub bin_path: Option<String>,
}

impl BuildArtifact {
    /// The artifact the pipeline produces for `profile` under `root`.
    pub fn new(root: &str, profile: &ArchProfile) -> (r: BuildArtifact)
        requires
            profile.wf(),
        ensures
            r.elf_path@ == spec_elf_path(root@, profile.arch),
            profile.arch != Arch::X86_64 ==> (r.bin_path matches Some(b) && b@ == spec_bin_path(
                root@,
                profile.arch,
            )),
            profile.arch == Arch::X86_64 ==> r.bin_path is None,
    {
        let elf = elf_path(root, profile);
        if needs_flatten(profile.arch) {
            let bin = bin_path(root, profile);
            BuildArtifact { elf_path: elf, bin_path: Some(bin) }
        } else {
            BuildArtifact { elf_path: elf, bin_path: None }
        }
    }
}

} // verus!

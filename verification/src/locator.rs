//! The firmware locator's decision logic: the fixed ordered list of
//! well-known locations of a legacy-BIOS boot ROM, and the choice of the
//! first location that exists. Probing the filesystem is the caller's
//! part: it hands in one existence flag per candidate.

use vstd::prelude::*;
use crate::XtaskError;

verus! {

/// The well-known locations searched for the boot ROM, in search order.
pub open spec fn spec_seabios_candidates() -> Seq<Seq<char>> {
    seq![
        "/usr/share/qemu/bios-256k.bin"@,
        "/usr/share/seabios/bios-256k.bin"@,
        "/usr/local/share/qemu/bios-256k.bin"@,
        "/usr/share/qemu/bios.bin"@,
        "/usr/share/seabios/bios.bin"@,
    ]
}

/// Executable counterpart of [`spec_seabios_candidates`].
pub fn seabios_candidates() -> (r: Vec<String>)
    ensures
        r.deep_view() == spec_seabios_candidates(),
{
    let mut v: Vec<String> = Vec::new();
    v.push("/usr/share/qemu/bios-256k.bin".to_owned());
    v.push("/usr/share/seabios/bios-256k.bin".to_owned());
    v.push("/usr/local/share/qemu/bios-256k.bin".to_owned());
    v.push("/usr/share/qemu/bios.bin".to_owned());
    v.push("/usr/share/seabios/bios.bin".to_owned());
    assert(v.deep_view() =~~= spec_seabios_candidates());
    v
}

/// Pick the firmware location: given one existence flag per candidate, in
/// candidate order, return the index of the first location that exists,
/// or `FirmwareNotFound` when none does.
pub fn locate_firmware(exists: &Vec<bool>) -> (r: Result<usize, XtaskError>)
    ensures
        r matches Ok(i) ==> i < exists@.len() && exists@[i as int] && (forall|j: int|
            0 <= j < i ==> !exists@[j]),
        r matches Err(e) ==> e == XtaskError::FirmwareNotFound && (forall|j: int|
            0 <= j < exists@.len() ==> !exists@[j]),
        (exists|j: int| 0 <= j < exists@.len() && exists@[j]) <==> r is Ok,
{
    let mut i: usize = 0;
    while i < exists.len()
        invariant
            i <= exists@.len(),
            forall|j: int| 0 <= j < i ==> !exists@[j],
        decreases exists@.len() - i,
    {
        if exists[i] {
            return Ok(i);
        }
        i += 1;
    }
    Err(XtaskError::FirmwareNotFound)
}

} // verus!

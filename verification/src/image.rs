//! The flash image constructor: builds the byte image for a given
//! architecture, with the erased-flash fill, the magic marker at offset 0
//! and, where a firmware blob is supplied, that blob at the tail.

use vstd::prelude::*;
use crate::XtaskError;
use crate::arch::ArchProfile;

verus! {

/// The byte flash hardware reads where nothing has been programmed.
pub const ERASED: u8 = 0xFF;

/// The 4-byte ASCII marker `"PFLA"` that sits at offset 0 of every image,
/// letting the read-side program confirm it addresses the intended device.
pub open spec fn spec_magic() -> Seq<u8> {
    seq![0x50u8, 0x46u8, 0x4Cu8, 0x41u8]
}

/// The full contents of a flash image of `size` bytes: the magic marker at
/// offset 0, the firmware blob (when present) in the final `f.len()` bytes,
/// and the erased byte everywhere else.
pub open spec fn spec_flash_image(size: nat, firmware: Option<Seq<u8>>) -> Seq<u8> {
    Seq::new(
        size,
        |i: int|
            if i < 4 {
                spec_magic()[i]
            } else if firmware is Some && size - firmware->Some_0.len() <= i {
                firmware->Some_0[i - (size - firmware->Some_0.len())]
            } else {
                ERASED
            },
    )
}

/// A flash device image: a byte buffer of exactly the architecture's flash
/// bank size, later written verbatim to the image file.
#[derive(Debug)]
pub struct FlashImage {
    /// The raw image contents.
    pub bytes: Vec<u8>,
}

impl FlashImage {
    /// Build the image for `profile`. A firmware blob is supplied on the
    /// x86 path only, where the single usable bank doubles as boot ROM and
    /// data device; it must leave the 4 marker bytes intact, else the
    /// construction fails with `FirmwareTooLarge` and nothing is produced.
    pub fn build(profile: &ArchProfile, firmware: Option<&Vec<u8>>) -> (r: Result<
        FlashImage,
        XtaskError,
    >)
        requires
            profile.flash_size_bytes >= 4,
        ensures
            match firmware {
                Some(f) => {
                    &&& (r is Ok <==> f@.len() + 4 <= profile.flash_size_bytes)
                    &&& (r matches Ok(img) ==> img.bytes@ == spec_flash_image(
                        profile.flash_size_bytes as nat,
                        Some(f@),
                    ))
                    &&& (r matches Err(e) ==> e == XtaskError::FirmwareTooLarge)
                },
                None => r matches Ok(img) && img.bytes@ == spec_flash_image(
                    profile.flash_size_bytes as nat,
                    None,
                ),
            },
    {
        let size = profile.flash_size_bytes;
        if let Some(f) = firmware {
            if f.len() > size - 4 {
                return Err(XtaskError::FirmwareTooLarge);
            }
        }
        let mut bytes: Vec<u8> = Vec::new();
        while bytes.len() < size
            invariant
                bytes@.len() <= size,
                forall|i: int| 0 <= i < bytes@.len() ==> bytes@[i] == ERASED,
            decreases size - bytes@.len(),
        {
            bytes.push(ERASED);
        }
        bytes.set(0, 0x50);
        bytes.set(1, 0x46);
        bytes.set(2, 0x4C);
        bytes.set(3, 0x41);
        if let Some(f) = firmware {
            let fw_len = f.len();
            let start = size - fw_len;
            let mut j: usize = 0;
            while j < fw_len
                invariant
                    fw_len == f@.len(),
                    start == size - fw_len,
                    4 + fw_len <= size,
                    j <= fw_len,
                    bytes@.len() == size,
                    bytes@[0] == 0x50u8,
                    bytes@[1] == 0x46u8,
                    bytes@[2] == 0x4Cu8,
                    bytes@[3] == 0x41u8,
                    forall|i: int| 4 <= i < start ==> bytes@[i] == ERASED,
                    forall|i: int| start <= i < start + j ==> bytes@[i] == f@[i - start],
                    forall|i: int| start + j <= i < size ==> bytes@[i] == ERASED,
                decreases fw_len - j,
            {
                bytes.set(start + j, f[j]);
                j += 1;
            }
            assert(bytes@ =~= spec_flash_image(size as nat, Some(f@)));
        } else {
            assert(bytes@ =~= spec_flash_image(size as nat, None));
        }
        Ok(FlashImage { bytes })
    }

    /// The image size in bytes.
    pub fn len(&self) -> (r: usize)
        ensures
            r == self.bytes@.len(),
    {
        self.bytes.len()
    }
}

/// Law: an image of `size` bytes has length exactly `size`, and its first
/// four bytes are the magic marker, whatever firmware was embedded.
pub proof fn lemma_flash_image_layout(size: nat, firmware: Option<Seq<u8>>)
    requires
        size >= 4,
    ensures
        spec_flash_image(size, firmware).len() == size,
        spec_flash_image(size, firmware).subrange(0, 4) == spec_magic(),
{
    assert(spec_flash_image(size, firmware).subrange(0, 4) =~= spec_magic());
}

/// Law: when a firmware blob of `f.len() <= size - 4` bytes is embedded,
/// the final `f.len()` bytes of the image equal the blob byte for byte,
/// and every byte between the marker and the blob is still erased.
pub proof fn lemma_flash_image_firmware_tail(size: nat, f: Seq<u8>)
    requires
        f.len() + 4 <= size,
    ensures
        spec_flash_image(size, Some(f)).subrange(size - f.len(), size as int) == f,
        forall|i: int|
            4 <= i < size - f.len() ==> spec_flash_image(size, Some(f))[i] == ERASED,
{
    assert(spec_flash_image(size, Some(f)).subrange(size - f.len(), size as int) =~= f);
}

/// Law: image construction is deterministic — two images built from the
/// same size and the same firmware input are byte-identical.
pub proof fn lemma_flash_image_deterministic(
    a: FlashImage,
    b: FlashImage,
    size: nat,
    firmware: Option<Seq<u8>>,
)
    requires
        a.bytes@ == spec_flash_image(size, firmware),
        b.bytes@ == spec_flash_image(size, firmware),
    ensures
        a.bytes@ == b.bytes@,
{
}

} // verus!

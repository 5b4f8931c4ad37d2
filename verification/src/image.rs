//! The layout of a vbmeta image, as far as patching needs it, and the effect
//! of a patch on the bytes of an image.

use vstd::prelude::*;
use crate::flags::{lemma_patched_flags_idempotent, patched_flags};

verus! {

/// Length of the magic signature at the start of an image.
pub const MAGIC_LEN: usize = 4;

/// Offset of the flags byte from the start of an image.
pub const FLAGS_OFFSET: u64 = 123;

/// The magic signature: the ASCII characters `AVB0`.
pub open spec fn magic() -> Seq<u8> {
    seq![0x41u8, 0x56u8, 0x42u8, 0x30u8]
}

/// Whether an image starts with the magic signature. An image shorter than
/// the signature does not.
pub open spec fn has_magic(image: Seq<u8>) -> bool {
    image.len() >= MAGIC_LEN && image.subrange(0, MAGIC_LEN as int) == magic()
}

/// Whether `bytes` are exactly the magic signature.
pub fn is_magic(bytes: &[u8]) -> (yes: bool)
    ensures
        yes == (bytes@ == magic()),
{
    let yes = bytes.len() == MAGIC_LEN && bytes[0] == 0x41 && bytes[1] == 0x56 && bytes[2] == 0x42
        && bytes[3] == 0x30;
    proof {
        if yes {
            assert(bytes@ =~= magic());
        }
    }
    yes
}

/// Why an image could not be patched.
#[derive(Clone, Copy, Debug, PartialEq, Eq, Structural)]
pub enum PatchError {
    /// The file could not be opened for reading and writing.
    Access,
    /// The file does not start with the magic signature.
    InvalidImage,
    /// The flags byte could not be read or written.
    PatchFailed,
}

/// The effect of a patch on the bytes of an image.
///
/// An image without the magic signature is rejected; one that ends before
/// the flags byte cannot be patched; otherwise the flags byte, and nothing
/// else, changes.
pub open spec fn patch_result(image: Seq<u8>, mask: u8) -> Result<Seq<u8>, PatchError> {
    if !has_magic(image) {
        Err(PatchError::InvalidImage)
    } else if image.len() <= FLAGS_OFFSET {
        Err(PatchError::PatchFailed)
    } else {
        Ok(image.update(FLAGS_OFFSET as int, patched_flags(image[FLAGS_OFFSET as int], mask)))
    }
}

/// An image that starts with the magic signature and reaches the flags byte
/// is patched: it keeps its length and its signature, its flags byte gets
/// the mask, and every other byte stays as it was.
pub proof fn lemma_patch_valid_image(image: Seq<u8>, mask: u8)
    requires
        has_magic(image),
        image.len() > FLAGS_OFFSET,
    ensures
        patch_result(image, mask) is Ok,
        patch_result(image, mask)->Ok_0.len() == image.len(),
        has_magic(patch_result(image, mask)->Ok_0),
        patch_result(image, mask)->Ok_0[FLAGS_OFFSET as int] == patched_flags(
            image[FLAGS_OFFSET as int],
            mask,
        ),
        forall|i: int|
            0 <= i < image.len() && i != FLAGS_OFFSET ==> patch_result(image, mask)->Ok_0[i]
                == image[i],
{
    let patched = patch_result(image, mask)->Ok_0;
    assert(patched.subrange(0, MAGIC_LEN as int) =~= image.subrange(0, MAGIC_LEN as int));
}

/// An image without the magic signature, be it too short to hold one, is
/// rejected as invalid, whatever the mask.
pub proof fn lemma_patch_invalid_image(image: Seq<u8>, mask: u8)
    requires
        image.len() < MAGIC_LEN || image.subrange(0, MAGIC_LEN as int) != magic(),
    ensures
        patch_result(image, mask) == Err::<Seq<u8>, PatchError>(PatchError::InvalidImage),
{
}

/// Patching an image twice with one mask leaves the bytes that patching it
/// once leaves.
pub proof fn lemma_patch_idempotent(image: Seq<u8>, mask: u8)
    requires
        patch_result(image, mask) is Ok,
    ensures
        patch_result(patch_result(image, mask)->Ok_0, mask) == patch_result(image, mask),
{
    let once = patch_result(image, mask)->Ok_0;
    lemma_patch_valid_image(image, mask);
    lemma_patched_flags_idempotent(image[FLAGS_OFFSET as int], mask);
    assert(patch_result(once, mask)->Ok_0 =~= once);
}

} // verus!

//! The flags byte of a vbmeta header and the masks applied to it.

use vstd::prelude::*;

verus! {

/// Bit of the flags byte that disables dm-verity.
pub const FLAG_DISABLE_VERITY: u8 = 0x01;

/// Bit of the flags byte that disables verification.
pub const FLAG_DISABLE_VERIFICATION: u8 = 0x02;

/// The mask requested by a pair of switches: each switch contributes its bit.
pub open spec fn mask_of(disable_verity: bool, disable_verification: bool) -> u8 {
    if disable_verity && disable_verification {
        0x03u8
    } else if disable_verity {
        0x01u8
    } else if disable_verification {
        0x02u8
    } else {
        0x00u8
    }
}

/// Builds the bit mask for the requested switches.
pub fn flags_mask(disable_verity: bool, disable_verification: bool) -> (mask: u8)
    ensures
        mask == mask_of(disable_verity, disable_verification),
{
    let mut mask: u8 = 0;
    if disable_verity {
        mask = mask | FLAG_DISABLE_VERITY;
    }
    if disable_verification {
        mask = mask | FLAG_DISABLE_VERIFICATION;
    }
    assert(0u8 | 0x01u8 == 0x01u8) by (bit_vector);
    assert(0u8 | 0x02u8 == 0x02u8) by (bit_vector);
    assert(0x01u8 | 0x02u8 == 0x03u8) by (bit_vector);
    mask
}

/// The flags byte after a patch: the bits of `mask` are set, and no bit is
/// ever cleared.
pub open spec fn patched_flags(flags: u8, mask: u8) -> u8 {
    flags | mask
}

/// Computes the flags byte after a patch.
pub fn apply_mask(flags: u8, mask: u8) -> (patched: u8)
    ensures
        patched == patched_flags(flags, mask),
{
    flags | mask
}

/// A patch sets every bit of the mask and leaves every other bit of the
/// flags byte as it was.
pub proof fn lemma_patched_flags_bits(flags: u8, mask: u8)
    ensures
        patched_flags(flags, mask) & mask == mask,
        patched_flags(flags, mask) & !mask == flags & !mask,
{
    assert((flags | mask) & mask == mask) by (bit_vector);
    assert((flags | mask) & !mask == flags & !mask) by (bit_vector);
}

/// A patch never clears a bit that was set.
pub proof fn lemma_patched_flags_keep_set_bits(flags: u8, mask: u8)
    ensures
        patched_flags(flags, mask) & flags == flags,
{
    assert((flags | mask) & flags == flags) by (bit_vector);
}

/// Applying a mask a second time changes nothing.
pub proof fn lemma_patched_flags_idempotent(flags: u8, mask: u8)
    ensures
        patched_flags(patched_flags(flags, mask), mask) == patched_flags(flags, mask),
{
    assert(((flags | mask) | mask) == (flags | mask)) by (bit_vector);
}

/// What a request does to each bit of the flags byte: a requested bit is
/// set, the other of the two keeps its value, and so do the six bits that
/// mean something else.
pub proof fn lemma_requested_bits(flags: u8, disable_verity: bool, disable_verification: bool)
    ensures
        ({
            let patched = patched_flags(flags, mask_of(disable_verity, disable_verification));
            &&& (patched & FLAG_DISABLE_VERITY != 0) <==> (disable_verity || flags
                & FLAG_DISABLE_VERITY != 0)
            &&& (patched & FLAG_DISABLE_VERIFICATION != 0) <==> (disable_verification || flags
                & FLAG_DISABLE_VERIFICATION != 0)
            &&& patched & 0xfc == flags & 0xfc
        }),
{
    assert((flags | 0x00u8) & 0x01u8 == flags & 0x01u8 && (flags | 0x00u8) & 0x02u8 == flags
        & 0x02u8 && (flags | 0x00u8) & 0xfc == flags & 0xfc) by (bit_vector);
    assert((flags | 0x01u8) & 0x01u8 != 0 && (flags | 0x01u8) & 0x02u8 == flags & 0x02u8 && (flags
        | 0x01u8) & 0xfc == flags & 0xfc) by (bit_vector);
    assert((flags | 0x02u8) & 0x02u8 != 0 && (flags | 0x02u8) & 0x01u8 == flags & 0x01u8 && (flags
        | 0x02u8) & 0xfc == flags & 0xfc) by (bit_vector);
    assert((flags | 0x03u8) & 0x01u8 != 0 && (flags | 0x03u8) & 0x02u8 != 0 && (flags | 0x03u8)
        & 0xfc == flags & 0xfc) by (bit_vector);
}

} // verus!

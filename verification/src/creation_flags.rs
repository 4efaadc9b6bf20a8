//! The creation-flags mask and the one flag this crate sets in it.

use vstd::prelude::*;
use crate::platform::Platform;

verus! {

/// The Windows process-creation flag under which the new process neither gets
/// a console window of its own nor inherits the console of its parent.
pub const CREATE_NO_WINDOW: u32 = 0x08000000;

/// Whether every bit of `flag` is set in `mask`.
pub open spec fn has_flag(mask: u32, flag: u32) -> bool {
    mask & flag == flag
}

/// The mask that a builder for `platform` holds once its console window is
/// hidden, given that it held `mask` before.
///
/// On Windows the flag is OR-ed in, so that what the caller had set stays
/// set; elsewhere the mask is not touched.
pub open spec fn hidden_mask(platform: Platform, mask: u32) -> u32 {
    if platform.reads_creation_flags() {
        mask | CREATE_NO_WINDOW
    } else {
        mask
    }
}

/// Computes the mask with the console window hidden.
pub fn hide_in_mask(platform: Platform, mask: u32) -> (hidden: u32)
    ensures
        hidden == hidden_mask(platform, mask),
        platform.reads_creation_flags() ==> has_flag(hidden, CREATE_NO_WINDOW),
        forall|flag: u32| has_flag(mask, flag) ==> #[trigger] has_flag(hidden, flag),
{
    proof {
        lemma_hidden_mask_has_no_window(mask);
        assert forall|flag: u32| has_flag(mask, flag) implies #[trigger] has_flag(
            hidden_mask(platform, mask),
            flag,
        ) by {
            lemma_hidden_mask_keeps_flags(platform, mask, flag);
        }
    }
    if platform.is_windows() {
        mask | CREATE_NO_WINDOW
    } else {
        mask
    }
}

/// On Windows the hidden mask holds `CREATE_NO_WINDOW`, whatever it held before.
pub proof fn lemma_hidden_mask_has_no_window(mask: u32)
    ensures
        has_flag(hidden_mask(Platform::Windows, mask), CREATE_NO_WINDOW),
{
    assert((mask | 0x08000000u32) & 0x08000000u32 == 0x08000000u32) by (bit_vector);
}

/// Hiding the console window clears nothing: a flag that was set in the mask
/// is set in the hidden mask, on every platform.
pub proof fn lemma_hidden_mask_keeps_flags(platform: Platform, mask: u32, flag: u32)
    requires
        has_flag(mask, flag),
    ensures
        has_flag(hidden_mask(platform, mask), flag),
{
    assert(mask & flag == flag ==> (mask | 0x08000000u32) & flag == flag) by (bit_vector);
}

/// Hiding the console window twice gives the mask that hiding it once gives.
pub proof fn lemma_hidden_mask_idempotent(platform: Platform, mask: u32)
    ensures
        hidden_mask(platform, hidden_mask(platform, mask)) == hidden_mask(platform, mask),
{
    assert((mask | 0x08000000u32) | 0x08000000u32 == mask | 0x08000000u32) by (bit_vector);
}

/// Hiding the console window sets no flag but `CREATE_NO_WINDOW`: a flag that
/// shares no bit with it is set afterwards exactly if it was set before.
pub proof fn lemma_hidden_mask_sets_nothing_else(platform: Platform, mask: u32, flag: u32)
    requires
        flag & CREATE_NO_WINDOW == 0,
    ensures
        has_flag(hidden_mask(platform, mask), flag) == has_flag(mask, flag),
{
    assert(flag & 0x08000000u32 == 0 ==> ((mask | 0x08000000u32) & flag == flag) == (mask & flag
        == flag)) by (bit_vector);
}

} // verus!

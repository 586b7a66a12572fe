use vstd::prelude::*;

verus! {

/// Length, in ledger sequences, of the window in which mutations are counted.
pub const RATE_LIMIT_WINDOW_SEQUENCES: u32 = 20;

/// Mutations that one address may make in one window.
pub const MAX_MUTATIONS_PER_WINDOW: u32 = 30;

/// Length, in ledger sequences, of the window in which KYC submissions are counted.
pub const KYC_RATE_LIMIT_WINDOW_SEQUENCES: u32 = 10;

/// KYC submissions that one participant may make in one window.
pub const MAX_KYC_SUBMISSIONS_PER_WINDOW: u32 = 3;

/// Largest accepted description, in bytes.
pub const MAX_INPUT_DESCRIPTION_BYTES: u32 = 4_096;

/// Largest accepted KYC payload, in bytes.
pub const MAX_INPUT_KYC_DATA_BYTES: u32 = 8_192;

/// Largest accepted rating comment, in bytes.
pub const MAX_INPUT_RATING_COMMENT_BYTES: u32 = 2_048;

/// Most tags on one item.
pub const MAX_INPUT_TAGS: u32 = 50;

/// Most items in one batch request.
pub const MAX_INPUT_BATCH_SIZE: u32 = 25;

/// Most items in one status-update batch.
pub const MAX_INPUT_STATUS_BATCH_SIZE: u32 = 100;

/// Most line items on one invoice.
pub const MAX_INPUT_LINE_ITEMS: u32 = 50;

/// Every limit is positive, and a participant's KYC budget per window is no
/// larger than an address's mutation budget per window.
pub proof fn lemma_limits_are_consistent()
    ensures
        MAX_INPUT_DESCRIPTION_BYTES > 0,
        MAX_INPUT_KYC_DATA_BYTES > 0,
        MAX_INPUT_RATING_COMMENT_BYTES > 0,
        MAX_INPUT_TAGS > 0,
        MAX_INPUT_BATCH_SIZE > 0,
        MAX_INPUT_STATUS_BATCH_SIZE > 0,
        MAX_INPUT_LINE_ITEMS > 0,
        RATE_LIMIT_WINDOW_SEQUENCES > 0,
        MAX_MUTATIONS_PER_WINDOW > 0,
        KYC_RATE_LIMIT_WINDOW_SEQUENCES > 0,
        MAX_KYC_SUBMISSIONS_PER_WINDOW > 0,
        MAX_KYC_SUBMISSIONS_PER_WINDOW <= MAX_MUTATIONS_PER_WINDOW,
{
}

} // verus!

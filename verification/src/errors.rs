use vstd::prelude::*;

verus! {

/// The errors that the protocol limits can report.
#[derive(Debug, Clone, Copy, PartialEq, Eq, Structural)]
pub enum QuickLendXError {
    /// The caller has used up its budget of operations in the current window.
    MutationLimitExceeded,
    /// An input holds more bytes than its bound allows.
    InputTooLarge,
}

} // verus!

use vstd::prelude::*;

use soroban_sdk::Bytes;

use crate::errors::QuickLendXError;

verus! {

#[verifier::external_type_specification]
#[verifier::external_body]
pub struct ExBytes(Bytes);

/// The bytes that a `soroban_sdk::Bytes` value holds. A `Bytes` value is a
/// handle to an immutable host object, so its contents are fixed by the value.
pub uninterp spec fn bytes_contents(data: Bytes) -> Seq<u8>;

/// Calls `soroban_sdk::Bytes::len`, which returns the number of bytes that the
/// value holds.
#[verifier::external_body]
fn bytes_len(data: &Bytes) -> (len: u32)
    ensures
        len == bytes_contents(*data).len(),
{
    data.len()
}

/// The answer to whether an input of `len` bytes fits a bound of `max` bytes.
pub open spec fn bound_result(len: int, max: u32) -> Result<(), QuickLendXError> {
    if len > max {
        Err(QuickLendXError::InputTooLarge)
    } else {
        Ok(())
    }
}

/// Accepts a length of at most `max` bytes and refuses a longer one.
pub fn check_input_len(len: u32, max: u32) -> (result: Result<(), QuickLendXError>)
    ensures
        result == bound_result(len as int, max),
        result is Ok == (len <= max),
        result is Err ==> result == Err::<(), QuickLendXError>(QuickLendXError::InputTooLarge),
{
    if len > max {
        return Err(QuickLendXError::InputTooLarge);
    }
    Ok(())
}

/// Accepts `data` when it holds at most `max` bytes and refuses it with
/// `InputTooLarge` otherwise.
pub fn require_bound(data: &Bytes, max: u32) -> (result: Result<(), QuickLendXError>)
    ensures
        result == bound_result(bytes_contents(*data).len() as int, max),
        result is Ok == (bytes_contents(*data).len() <= max),
        result is Err ==> result == Err::<(), QuickLendXError>(QuickLendXError::InputTooLarge),
{
    let len = bytes_len(data);
    check_input_len(len, max)
}

/// An input is accepted exactly when it holds at most `max` bytes, and a
/// longer one is refused with `InputTooLarge`; the answer only gets stricter as
/// the length grows and looser as the bound grows.
pub proof fn lemma_bound_accepts_exactly_up_to_max(len: int, longer: int, max: u32, larger: u32)
    ensures
        bound_result(len, max) is Ok == (len <= max),
        bound_result(len, max) is Err ==> bound_result(len, max) == Err::<(), QuickLendXError>(
            QuickLendXError::InputTooLarge,
        ),
        bound_result(longer, max) is Ok && len <= longer ==> bound_result(len, max) is Ok,
        bound_result(len, max) is Ok && max <= larger ==> bound_result(len, larger) is Ok,
{
}

} // verus!

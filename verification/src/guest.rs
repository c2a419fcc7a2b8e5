//! What the `wapc` guest's entry point computes.

use crate::memory::{to_unsigned, unsigned};
use vstd::prelude::*;

verus! {

/// The effect of one call of the guest's entry point.
#[derive(Clone, Copy, Debug, PartialEq, Eq, Structural)]
pub struct GuestCall {
    /// The key that the guest passes on to the host's `__passing_key`.
    pub passed_key: u32,
    /// The value that the guest returns.
    pub result: u32,
}

/// Whether the guest can double `key`, read as unsigned, in 32 bits.
pub open spec fn doubles(key: i32) -> bool {
    2 * unsigned(key) <= u32::MAX
}

/// The guest's entry point: it hands its key, read as unsigned, to the host
/// and returns twice the key.
pub fn guest_call(key: i32) -> (call: GuestCall)
    requires
        doubles(key),
    ensures
        call.passed_key == unsigned(key),
        call.result == 2 * unsigned(key),
{
    let passed_key = to_unsigned(key);
    GuestCall { passed_key, result: passed_key * 2 }
}

/// The guest's entry point for any key: `None` where twice the key does not
/// fit, else what [`guest_call`] gives.
pub fn try_guest_call(key: i32) -> (call: Option<GuestCall>)
    ensures
        call.is_some() == doubles(key),
        call matches Some(c) ==> c.passed_key == unsigned(key) && c.result == 2 * unsigned(key),
{
    if to_unsigned(key) <= u32::MAX / 2 {
        Some(guest_call(key))
    } else {
        None
    }
}

} // verus!

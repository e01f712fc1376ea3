use vstd::prelude::*;

verus! {

/// What the host hands a callback about the call it waited on.
#[derive(Debug)]
pub enum CallResult {
    /// The call returned these bytes, JSON text.
    Successful(Vec<u8>),
    /// The call failed.
    Failed,
}

/// A callback's view of a call that should have returned an amount.
#[derive(Clone, Copy, Debug, PartialEq, Eq, Structural)]
pub enum Reported {
    Amount(u128),
    /// The call returned, but not a JSON string holding an amount.
    Unreadable,
    Failed,
}

/// The amount that JSON text `b` holds as a decimal string, if it holds one.
pub uninterp spec fn json_u128_of(b: Seq<u8>) -> Option<u128>;

/// Relies on serde_json::from_slice into near_sdk::json_types::U128, which reads a
/// JSON string and parses it as a decimal u128; the result depends on the bytes alone.
#[verifier::external_body]
fn parse_json_u128(b: &[u8]) -> (r: Option<u128>)
    ensures
        r == json_u128_of(b@),
{
    serde_json::from_slice::<near_sdk::json_types::U128>(b).ok().map(|v| v.0)
}

/// What a callback learns from `result`.
pub open spec fn reported_of(result: CallResult) -> Reported {
    match result {
        CallResult::Successful(b) => match json_u128_of(b@) {
            Some(v) => Reported::Amount(v),
            None => Reported::Unreadable,
        },
        CallResult::Failed => Reported::Failed,
    }
}

pub fn read_reported(result: &CallResult) -> (r: Reported)
    ensures
        r == reported_of(*result),
{
    match result {
        CallResult::Successful(b) => match parse_json_u128(b.as_slice()) {
            Some(v) => Reported::Amount(v),
            None => Reported::Unreadable,
        },
        CallResult::Failed => Reported::Failed,
    }
}

} // verus!

//! Reading the ledger's reply to a submitted operation.

use vstd::prelude::*;

verus! {

/// The unsigned integer that `serde_json` finds in the JSON document `text` at
/// `document[outer][middle][inner]`; `None` where `text` is no JSON document or
/// no unsigned integer stands there.
pub uninterp spec fn json_u64_at(
    text: Seq<char>,
    outer: Seq<char>,
    middle: Seq<char>,
    inner: Seq<char>,
) -> Option<u64>;

/// Parses `text` with `serde_json::from_str` into a `serde_json::Value`, indexes
/// the value by the three keys in turn and reads the result with
/// `serde_json::Value::as_u64`. The contract only names the outcome: it is a
/// function of the four strings, and nothing more is claimed of it.
#[verifier::external_body]
fn parse_u64_at(text: &str, outer: &str, middle: &str, inner: &str) -> (found: Option<u64>)
    ensures
        found == json_u64_at(text@, outer@, middle@, inner@),
{
    match serde_json::from_str::<serde_json::Value>(text) {
        Ok(document) => document[outer][middle][inner].as_u64(),
        Err(_) => None,
    }
}

/// The sequence number that the ledger's reply `reply` assigns to the written
/// transaction, as the JSON document holds it.
pub open spec fn reply_sequence_number(reply: Seq<char>) -> Option<u64> {
    json_u64_at(reply, "result"@, "txnMetadata"@, "seqNo"@)
}

/// A sequence number as later operations carry it: its low 32 bits.
pub open spec fn spec_narrow(number: Option<u64>) -> Option<u32> {
    match number {
        Some(n) => Some((n % 0x1_0000_0000) as u32),
        None => None,
    }
}

/// A sequence number as later operations carry it: its low 32 bits.
pub fn narrow(number: Option<u64>) -> (narrowed: Option<u32>)
    ensures
        narrowed == spec_narrow(number),
{
    match number {
        Some(n) => {
            let low: u64 = n % 0x1_0000_0000;
            Some(low as u32)
        },
        None => None,
    }
}

/// The sequence number of the transaction that `reply` acknowledges, or `None`
/// where the reply holds none.
pub fn sequence_number(reply: &str) -> (number: Option<u32>)
    ensures
        number == spec_narrow(reply_sequence_number(reply@)),
{
    narrow(parse_u64_at(reply, "result", "txnMetadata", "seqNo"))
}

} // verus!

//! A block's log summary (a 2048-bit bloom filter) and the topic of the
//! contract's phase-change event.

use vstd::prelude::*;
use eth_state_fold_types::ethabi::{long_signature, ParamType};
use eth_state_fold_types::ethereum_types::{Bloom, BloomInput};

verus! {

/// Whether a log summary reports `item` as possibly present.
pub uninterp spec fn bloom_reports(bloom: Seq<u8>, item: Seq<u8>) -> bool;

/// The topic of the ABI event `name(uint<bits>)`.
pub uninterp spec fn abi_event_topic(name: Seq<char>, bits: usize) -> Seq<u8>;

/// Bytes in a log summary.
pub const BLOOM_BYTES: usize = 256;

/// Relies on ethbloom's `Bloom::from_slice` (which panics unless given 256
/// bytes) and `Bloom::contains_input` with a raw input: whether the summary
/// may contain the keccak hash of `item`. The answer depends on the bytes
/// alone.
#[verifier::external_body]
pub(crate) fn bloom_contains(bloom: &[u8], item: &[u8]) -> (r: bool)
    requires
        bloom@.len() == BLOOM_BYTES,
    ensures
        r == bloom_reports(bloom@, item@),
{
    Bloom::from_slice(bloom).contains_input(BloomInput::Raw(item))
}

/// Relies on ethabi's `long_signature`: the 32-byte keccak hash of the text
/// `name(uint<bits>)`, which depends on its arguments alone.
#[verifier::external_body]
pub(crate) fn uint_event_topic(name: &str, bits: usize) -> (r: Vec<u8>)
    ensures
        r@ == abi_event_topic(name@, bits),
        r@.len() == 32,
{
    long_signature(name, &[ParamType::Uint(bits)]).as_bytes().to_vec()
}

} // verus!

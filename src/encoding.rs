//! Byte encodings handed to outside modules: public inputs and transfer descriptors are
//! lists of 256-bit words, serialized with postcard.

use vstd::prelude::*;

use crate::error::{map_calldata_ser_error, CoreError};
use crate::scalar::U256;

verus! {

#[verifier::external_type_specification]
#[verifier::external_body]
pub struct ExPostcardError(postcard::Error);

/// The limbs of each word, least significant first.
pub open spec fn limb_tuples(words: Seq<U256>) -> Seq<(u64, u64, u64, u64)> {
    words.map_values(|w: U256| (w.l0, w.l1, w.l2, w.l3))
}

/// The LEB128 varint postcard writes for an unsigned integer: seven bits per byte, least
/// significant group first, the high bit set on every byte but the last.
pub open spec fn varint(n: nat) -> Seq<u8>
    decreases n,
{
    if n < 128 {
        seq![n as u8]
    } else {
        seq![(n % 128 + 128) as u8] + varint(n / 128)
    }
}

/// The bytes of one four-limb tuple: the varint of each limb, in order.
pub open spec fn tuple_bytes(t: (u64, u64, u64, u64)) -> Seq<u8> {
    varint(t.0 as nat) + varint(t.1 as nat) + varint(t.2 as nat) + varint(t.3 as nat)
}

/// The bytes of a run of four-limb tuples, one after the other.
pub open spec fn tuples_bytes(ts: Seq<(u64, u64, u64, u64)>) -> Seq<u8>
    decreases ts.len(),
{
    if ts.len() == 0 {
        Seq::empty()
    } else {
        tuples_bytes(ts.drop_last()) + tuple_bytes(ts.last())
    }
}

/// What postcard gives for a sequence of four-limb tuples: the varint of its length, then
/// each tuple.
pub open spec fn postcard_of_limbs(limbs: Seq<(u64, u64, u64, u64)>) -> Seq<u8> {
    varint(limbs.len()) + tuples_bytes(limbs)
}

/// The encoding of a list of words.
pub open spec fn encoded(words: Seq<U256>) -> Seq<u8> {
    postcard_of_limbs(limb_tuples(words))
}

/// Relies on postcard::to_allocvec to serialize the words as a sequence of four-limb
/// tuples. Into an `AllocVec` it cannot fail: that flavour's pushes and `finalize` always
/// succeed, and a `Vec` always gives its length.
#[verifier::external_body]
fn postcard_words(words: &Vec<U256>) -> (r: Result<Vec<u8>, postcard::Error>)
    ensures
        r is Ok,
        r->Ok_0@ == postcard_of_limbs(limb_tuples(words@)),
{
    let limbs: Vec<(u64, u64, u64, u64)> = words.iter().map(|w| (w.l0, w.l1, w.l2, w.l3)).collect();
    postcard::to_allocvec(&limbs)
}

/// Serializes a list of words into calldata bytes.
pub fn postcard_serialize(words: &Vec<U256>) -> (r: Result<Vec<u8>, CoreError>)
    ensures
        r is Ok,
        r->Ok_0@ == encoded(words@),
{
    match postcard_words(words) {
        Ok(bytes) => Ok(bytes),
        Err(e) => Err(map_calldata_ser_error(e)),
    }
}

} // verus!

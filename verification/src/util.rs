//! Fresh identifiers and text hashes.

use vstd::prelude::*;
use vstd::string::*;
use vstd::std_specs::hash::DefaultHasherAdditionalSpecFns;
use std::collections::hash_map::DefaultHasher;
use std::hash::{Hash, Hasher};
use crate::digits::{hex_text, is_hex_digit, lemma_hex_text_u64, lower_hex};

verus! {

/// `uuid::Uuid::new_v4` written out by `to_string`: a random identifier in
/// its hyphenated form, which is 36 characters long. Nothing else is
/// claimed of it; two calls may return anything.
#[verifier::external_body]
pub fn new_uuid() -> (id: String)
    ensures
        id@.len() == 36,
{
    uuid::Uuid::new_v4().to_string()
}

/// What hashing the text `text` writes to a hasher.
pub uninterp spec fn text_writes(text: Seq<char>) -> Seq<Seq<u8>>;

/// The number that the standard library's default hasher, freshly made,
/// gives for the text `text`.
pub open spec fn text_hash(text: Seq<char>) -> u64 {
    DefaultHasher::spec_finish(Seq::<Seq<u8>>::empty() + text_writes(text))
}

/// `Hash::hash` of a `str`: writes to `state` what the text alone
/// determines. What that is is named, not stated.
#[verifier::external_body]
fn feed_text(text: &str, state: &mut DefaultHasher)
    ensures
        final(state)@ == old(state)@ + text_writes(text@),
{
    text.hash(state)
}

/// The hash of `text` under the standard library's default hasher, as
/// lower-case hexadecimal without leading zeros. Equal texts have equal
/// hashes; which number a text has the standard library does not promise.
pub fn hash_str(text: &str) -> (out: String)
    ensures
        out@ == hex_text(text_hash(text@) as nat),
        1 <= out@.len() <= 16,
        forall|i: int| 0 <= i < out@.len() ==> is_hex_digit(#[trigger] out@[i]),
{
    let mut hasher = DefaultHasher::new();
    feed_text(text, &mut hasher);
    let hash_value = hasher.finish();
    proof {
        lemma_hex_text_u64(hash_value);
    }
    lower_hex(hash_value)
}

} // verus!

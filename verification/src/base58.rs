//! Base58 text, decoded by the `bs58` crate.

use vstd::prelude::*;

verus! {

/// The error of `bs58`'s decoder, carried through unread.
#[verifier::external_type_specification]
#[verifier::external_body]
pub struct ExBase58DecodeError(bs58::decode::Error);

/// The bytes that a text stands for in base58 with the Bitcoin alphabet, as
/// `bs58` decodes it; `None` for a text that `bs58` rejects.
pub uninterp spec fn base58_decoded(text: Seq<char>) -> Option<Seq<u8>>;

/// Calls `bs58::decode(text).into_vec()`, with the default (Bitcoin)
/// alphabet and no checksum. Not proved: that the outcome depends on the
/// text alone, so that it is the value named `base58_decoded`; the bytes on
/// success, and no value where the decoder reports an error.
#[verifier::external_body]
pub(crate) fn decode_base58(text: &str) -> (r: Result<Vec<u8>, bs58::decode::Error>)
    ensures
        match r {
            Ok(bytes) => base58_decoded(text@) == Some(bytes@),
            Err(_) => base58_decoded(text@).is_none(),
        },
{
    bs58::decode(text).into_vec()
}

} // verus!

//! Fixed-length digests and the textual form of a transaction identifier.

use vstd::prelude::*;
use crate::base58::{base58_decoded, decode_base58};
use crate::failure::Failure;

verus! {

/// Number of bytes in a digest.
pub const DIGEST_LENGTH: usize = 32;

/// An opaque digest of `DIGEST_LENGTH` bytes. It identifies a transaction or
/// commits to its effects.
#[derive(Clone, Copy, Debug, PartialEq, Eq, Hash)]
pub struct Digest {
    pub bytes: [u8; 32],
}

impl View for Digest {
    type V = Seq<u8>;

    open spec fn view(&self) -> Seq<u8> {
        self.bytes@
    }
}

/// The digest that a decoded identifier stands for: the decoded bytes, if
/// there are exactly `DIGEST_LENGTH` of them.
pub open spec fn digest_of_decoded(decoded: Option<Seq<u8>>) -> Option<Seq<u8>> {
    match decoded {
        Some(bytes) => if bytes.len() == DIGEST_LENGTH { Some(bytes) } else { None },
        None => None,
    }
}

/// The digest that an identifier's text stands for, if it is well formed:
/// base58 text that decodes to exactly `DIGEST_LENGTH` bytes.
pub open spec fn parsed_digest(text: Seq<char>) -> Option<Seq<u8>> {
    digest_of_decoded(base58_decoded(text))
}

impl Digest {
    /// Wraps `DIGEST_LENGTH` bytes.
    pub fn new(bytes: [u8; 32]) -> (d: Digest)
        ensures
            d.bytes == bytes,
            d@ == bytes@,
    {
        Digest { bytes }
    }

    /// Reads a digest from a byte string, which must be exactly
    /// `DIGEST_LENGTH` bytes long.
    pub fn from_bytes(bytes: &[u8]) -> (r: Result<Digest, Failure>)
        ensures
            match r {
                Ok(d) => digest_of_decoded(Some(bytes@)) == Some(d@),
                Err(e) => e == Failure::InvalidInput && digest_of_decoded(Some(bytes@)).is_none(),
            },
    {
        if bytes.len() != DIGEST_LENGTH {
            return Err(Failure::InvalidInput);
        }
        let mut out: [u8; 32] = [0u8; 32];
        let mut i: usize = 0;
        while i < DIGEST_LENGTH
            invariant
                i <= DIGEST_LENGTH,
                bytes@.len() == DIGEST_LENGTH,
                forall|k: int| 0 <= k < i ==> out@[k] == bytes@[k],
            decreases DIGEST_LENGTH - i,
        {
            out[i] = bytes[i];
            i += 1;
        }
        assert(out@ =~= bytes@);
        Ok(Digest { bytes: out })
    }

    /// Parses the textual form of a transaction identifier.
    pub fn parse(text: &str) -> (r: Result<Digest, Failure>)
        ensures
            match r {
                Ok(d) => parsed_digest(text@) == Some(d@),
                Err(e) => e == Failure::InvalidInput && parsed_digest(text@).is_none(),
            },
    {
        match decode_base58(text) {
            Ok(bytes) => Digest::from_bytes(bytes.as_slice()),
            Err(_) => Err(Failure::InvalidInput),
        }
    }

    /// Whether two digests hold the same bytes.
    pub fn same_as(&self, other: &Digest) -> (same: bool)
        ensures
            same == (self@ == other@),
    {
        let mut i: usize = 0;
        while i < DIGEST_LENGTH
            invariant
                i <= DIGEST_LENGTH,
                forall|k: int| 0 <= k < i ==> self.bytes@[k] == other.bytes@[k],
            decreases DIGEST_LENGTH - i,
        {
            if self.bytes[i] != other.bytes[i] {
                return false;
            }
            i += 1;
        }
        assert(self@ =~= other@);
        true
    }

    /// The digest's bytes.
    pub fn to_vec(&self) -> (out: Vec<u8>)
        ensures
            out@ == self@,
    {
        let mut out: Vec<u8> = Vec::new();
        let mut i: usize = 0;
        while i < DIGEST_LENGTH
            invariant
                i <= DIGEST_LENGTH,
                out@.len() == i,
                forall|k: int| 0 <= k < i ==> out@[k] == self.bytes@[k],
            decreases DIGEST_LENGTH - i,
        {
            out.push(self.bytes[i]);
            i += 1;
        }
        assert(out@ =~= self@);
        out
    }
}

} // verus!

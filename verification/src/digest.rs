//! The one-way digest applied to secrets before they are stored or compared.

use sha1::Digest;
use vstd::prelude::*;

verus! {

/// The hex-encoded SHA-1 digest of a string, as computed by the `sha1` crate.
/// The digest is a pure function of the input characters, so it is given a
/// name here rather than an algorithm; nothing in this crate depends on which
/// hash it is, only on it being deterministic.
pub uninterp spec fn sha1_hex_of(s: Seq<char>) -> Seq<char>;

/// Relies on `sha1::Sha1` (through the `sha1::Digest` trait): the digest
/// depends on the input bytes alone, and `{:x}` formats it as lowercase hex.
#[verifier::external_body]
pub fn sha1_hex(s: &str) -> (r: String)
    ensures
        r@ == sha1_hex_of(s@),
{
    let mut hasher = sha1::Sha1::new();
    hasher.update(s.as_bytes());
    format!("{:x}", hasher.finalize())
}

} // verus!

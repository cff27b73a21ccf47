//! Content checksums over migration bodies.
//!
//! A digest of the raw, unmodified body text is persisted with each tracking
//! record so that a post-hoc edit of a shipped migration can be detected by
//! inspection. The checksum is informational: the engine records it but does
//! not re-verify stored checksums on later startups.

use vstd::prelude::*;
use sha2::Digest;
use sha2::Sha256;

verus! {

/// The hex digest that the checksum primitive assigns to a body text. The
/// digest is a function of the text alone; nothing further is assumed of it.
pub uninterp spec fn sha256_hex(body: Seq<char>) -> Seq<char>;

/// Relies on sha2::Sha256 (through the Digest trait) and the LowerHex
/// rendering of its output: the digest depends on the input bytes alone and
/// is rendered as 64 lower-case hex digits, two per digest byte.
#[verifier::external_body]
pub fn checksum_of(body: &str) -> (r: String)
    ensures
        r@ == sha256_hex(body@),
        r@.len() == 64,
{
    let mut hasher = Sha256::new();
    hasher.update(body.as_bytes());
    format!("{:x}", hasher.finalize())
}

/// Law: the checksum is deterministic — hashing identical body text yields
/// the identical digest, on every run and on every machine.
pub proof fn lemma_checksum_deterministic(a: Seq<char>, b: Seq<char>)
    requires
        a == b,
    ensures
        sha256_hex(a) == sha256_hex(b),
{
}

} // verus!

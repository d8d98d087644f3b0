//! Randomness and password hashing, both from `ring`.
use vstd::prelude::*;

verus! {

/// Length in bytes of a salt and of a password hash (the SHA-512 output length).
pub const CREDENTIAL_LEN: usize = 64;

/// PBKDF2 iteration count used for every password.
pub const PBKDF2_ITERATIONS: u32 = 100000;

/// The key that PBKDF2 with HMAC-SHA512 (RFC 2898) derives from a password
/// `secret`, a `salt` and an iteration count, `out_len` bytes long.
pub uninterp spec fn pbkdf2_hmac_sha512(
    iterations: u32,
    salt: Seq<u8>,
    secret: Seq<u8>,
    out_len: usize,
) -> Seq<u8>;

/// `ring::pbkdf2::derive` with `PBKDF2_HMAC_SHA512`: fills an `out_len`-byte
/// buffer with the derived key. The result is named by `pbkdf2_hmac_sha512`
/// over all the inputs; nothing else is claimed of it. `ring` panics on an
/// output longer than `u32::MAX` digests and on inputs too large for SHA-512,
/// and `NonZeroU32::new(..).unwrap()` panics on zero iterations.
#[verifier::external_body]
pub(crate) fn derive_pbkdf2_hmac_sha512(
    iterations: u32,
    salt: &[u8],
    secret: &[u8],
    out_len: usize,
) -> (r: Vec<u8>)
    requires
        iterations > 0,
        out_len as int <= 0xFFFF_FFFF * 64,
    ensures
        r@ == pbkdf2_hmac_sha512(iterations, salt@, secret@, out_len),
        r@.len() == out_len,
{
    let mut out = vec![0u8; out_len];
    ring::pbkdf2::derive(
        ring::pbkdf2::PBKDF2_HMAC_SHA512,
        core::num::NonZeroU32::new(iterations).unwrap(),
        salt,
        secret,
        &mut out,
    );
    out
}

/// `ring::rand::SystemRandom::fill` on a fresh `len`-byte buffer: the bytes
/// come from the operating system, so only the length is claimed. When the
/// operating system refuses to give random bytes the call panics, as
/// `unwrap` does on `ring`'s error.
#[verifier::external_body]
pub(crate) fn random_bytes(len: usize) -> (r: Vec<u8>)
    ensures
        r@.len() == len,
{
    let mut out = vec![0u8; len];
    ring::rand::SecureRandom::fill(&ring::rand::SystemRandom::new(), &mut out).unwrap();
    out
}

} // verus!

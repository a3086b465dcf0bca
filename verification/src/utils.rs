//! Hashing.

use vstd::prelude::*;

verus! {

/// The SHA-512 digest of a byte string.
pub uninterp spec fn sha512(data: Seq<u8>) -> Seq<u8>;

/// Computes the SHA-512 digest of `input` with `ring::digest::Context`:
/// one `update` with the whole input, then `finish`. The contract claims that
/// the 64 bytes returned are the SHA-512 digest of the input, a function of
/// the input bytes alone.
#[verifier::external_body]
pub fn hash_sha512(input: Vec<u8>) -> (digest: [u8; 64])
    ensures
        digest@ == sha512(input@),
{
    let mut context = ring::digest::Context::new(&ring::digest::SHA512);
    context.update(input.as_ref());
    let mut output = [0u8; 64];
    output.copy_from_slice(context.finish().as_ref());
    output
}

/// Whether `signature` is a valid ASN.1 encoded ECDSA signature of `message`
/// with the curve P-256 and SHA-256 under `public_key`.
pub uninterp spec fn ecdsa_p256_sha256_valid(
    public_key: Seq<u8>,
    message: Seq<u8>,
    signature: Seq<u8>,
) -> bool;

/// Verifies a signature with `ring::signature::UnparsedPublicKey::verify`
/// for the algorithm `ECDSA_P256_SHA256_ASN1`. The contract claims that the
/// answer is a function of the three byte strings alone; a key or a
/// signature that is malformed gives `false`.
#[verifier::external_body]
pub(crate) fn verify_ecdsa_p256_sha256(
    public_key: &[u8],
    message: &[u8],
    signature: &[u8],
) -> (valid: bool)
    ensures
        valid == ecdsa_p256_sha256_valid(public_key@, message@, signature@),
{
    let algorithm = &ring::signature::ECDSA_P256_SHA256_ASN1;
    let key = ring::signature::UnparsedPublicKey::new(algorithm, public_key);
    key.verify(message, signature).is_ok()
}

} // verus!

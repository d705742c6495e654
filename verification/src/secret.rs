//! The shared secret.
use vstd::prelude::*;
use vstd::utf8::encode_utf8;

use crate::tunnel::Secret;

verus! {

/// The BLAKE3 hash of some bytes.
pub uninterp spec fn blake3_hash(bytes: Seq<u8>) -> Seq<u8>;

/// `blake3::hash`: the hash of the bytes. What the hash is, is left to the name.
#[verifier::external_body]
fn hash(bytes: &[u8]) -> (h: [u8; 32])
    ensures
        h@ == blake3_hash(bytes@),
{
    *blake3::hash(bytes).as_bytes()
}

/// Whether this is the secret that a passphrase stands for.
pub open spec fn is_secret_of(secret: Secret, passphrase: Seq<char>) -> bool {
    secret@ == blake3_hash(encode_utf8(passphrase))
}

/// What both sides make of the secret that they were configured with.
pub fn secret_of(passphrase: &str) -> (s: Secret)
    ensures
        is_secret_of(s, passphrase@),
{
    hash(passphrase.as_bytes())
}

/// Both sides make the same secret of the same passphrase: the hash of its bytes.
pub proof fn law_same_passphrase_same_secret(a: &str, b: &str, x: Secret, y: Secret)
    requires
        call_ensures(secret_of, (a,), x),
        call_ensures(secret_of, (b,), y),
        a@ == b@,
    ensures
        x@ == y@,
        x@ == blake3_hash(encode_utf8(a@)),
{
}

} // verus!

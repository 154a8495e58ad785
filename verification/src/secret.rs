//! Secret bytes that are erased from memory when they are dropped.

use vstd::prelude::*;
use zeroize::Zeroizing;

verus! {

/// Bytes held in a `zeroize::Zeroizing<Vec<u8>>`.
///
/// The wrapper's generic parameter is bounded by a trait of the `zeroize` crate, so the value is
/// kept in a private field and spoken of through [`secret_bytes`] alone.
#[verifier::external_body]
pub struct SecretBytes {
    inner: Zeroizing<Vec<u8>>,
}

/// The bytes that a [`SecretBytes`] holds.
pub uninterp spec fn secret_bytes(secret: SecretBytes) -> Seq<u8>;

/// `zeroize::Zeroizing::new`: moves the bytes into the wrapper, which then holds exactly them.
#[verifier::external_body]
fn zeroizing_new(bytes: Vec<u8>) -> (secret: SecretBytes)
    ensures
        secret_bytes(secret) == bytes@,
{
    SecretBytes { inner: Zeroizing::new(bytes) }
}

/// `Deref::deref` of `zeroize::Zeroizing`: lends the bytes that the wrapper holds.
#[verifier::external_body]
fn zeroizing_deref(secret: &SecretBytes) -> (bytes: &[u8])
    ensures
        bytes@ == secret_bytes(*secret),
{
    &secret.inner
}

impl View for SecretBytes {
    type V = Seq<u8>;

    open spec fn view(&self) -> Seq<u8> {
        secret_bytes(*self)
    }
}

impl SecretBytes {
    /// Takes bytes into custody.
    pub fn new(bytes: Vec<u8>) -> (secret: SecretBytes)
        ensures
            secret@ == bytes@,
    {
        zeroizing_new(bytes)
    }

    /// Lends the bytes.
    pub fn as_slice(&self) -> (bytes: &[u8])
        ensures
            bytes@ == self@,
    {
        zeroizing_deref(self)
    }
}

/// Contracts speak of exactly the bytes that the wrapper holds.
pub proof fn law_secret_is_seen_whole(secret: SecretBytes)
    ensures
        secret@ == secret_bytes(secret),
{
}

} // verus!

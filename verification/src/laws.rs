//! What the capabilities promise together
//!
//! Each law is proved from the contracts of the traits alone, so it holds of
//! every key type that meets them. The result of a method is spoken of as
//! any value that the method's contract admits for the given arguments.

use crate::buffer::SecretBytes;
use crate::error::{Error, ErrorKind};
use crate::repr::{
    export_outcome, same_capability_state, secret_well_formed, shows_public, shows_secret, KeyGen,
    KeyPublicBytes, KeySecretBytes, KeypairBytes, Seed, ToPublicBytes, ToSecretBytes,
};
use vstd::prelude::*;

verus! {

/// The length that `secret_bytes_length` reports is the declared size of
/// the secret bytes, and it is the length of the secret bytes that an access
/// shows, whenever it shows any.
pub proof fn lemma_secret_length_is_view_length<K: KeySecretBytes>(
    key: &K,
    length: Result<usize, Error>,
    view: Option<&[u8]>,
)
    requires
        call_ensures(<K as ToSecretBytes>::secret_bytes_length, (key,), length),
        shows_secret(key, view),
    ensures
        length matches Ok(n) && n == K::KEY_SIZE && (view matches Some(bytes) ==> bytes@.len()
            == n),
{
}

/// The length that `public_bytes_length` reports is the declared size of
/// the public bytes, and it is the length of the public bytes that an access
/// shows.
pub proof fn lemma_public_length_is_view_length<K: KeyPublicBytes>(
    key: &K,
    length: Result<usize, Error>,
    view: &[u8],
)
    requires
        call_ensures(<K as ToPublicBytes>::public_bytes_length, (key,), length),
        shows_public(key, view),
    ensures
        length matches Ok(n) && n == K::PUBLIC_KEY_SIZE && view@.len() == n,
{
}

/// A key made by `from_secret_bytes` from the bytes that an export of a key
/// with a secret has written holds that same secret, so that its own export
/// writes the same bytes.
///
/// The export has written `exported`: it has turned the content `before` of
/// its target into `after`, and `exported` is what it has added.
pub proof fn lemma_secret_bytes_round_trip<K: KeySecretBytes>(
    key: &K,
    capacity: Option<nat>,
    before: Seq<u8>,
    after: Seq<u8>,
    exported: &[u8],
    rebuilt: Result<K, Error>,
)
    requires
        secret_well_formed(key),
        key.secret_export() is Some,
        export_outcome(key.secret_export(), capacity, before, Ok(()), after),
        exported@ == after.skip(before.len() as int),
        call_ensures(K::from_secret_bytes, (exported,), rebuilt),
    ensures
        rebuilt matches Ok(again) && again.secret_export() == Some(exported@)
            && again.secret_export() == key.secret_export(),
{
    let bytes = key.secret_export().unwrap();
    assert((before + bytes).skip(before.len() as int) == bytes);
}

/// On an instance without a secret both allocating exports fail, and with
/// the same error: `MissingSecretKey`, without a message.
pub proof fn lemma_public_only_exports_fail<K: KeySecretBytes + KeypairBytes>(
    key: &K,
    secret: Result<SecretBytes, Error>,
    keypair: Result<SecretBytes, Error>,
)
    requires
        same_capability_state(key),
        key.secret_bytes_view() is None,
        call_ensures(<K as ToSecretBytes>::to_secret_bytes, (key,), secret),
        call_ensures(<K as KeypairBytes>::to_keypair_bytes, (key,), keypair),
    ensures
        secret matches Err(e) && e.kind == ErrorKind::MissingSecretKey && e.message is None,
        keypair matches Err(e) && e.kind == ErrorKind::MissingSecretKey && e.message is None,
        secret matches Err(a) && (keypair matches Err(b) && a == b),
{
}

/// Two keys that `from_seed` makes from the same seed bytes by the same
/// method are the same key.
pub proof fn lemma_from_seed_is_deterministic<K: KeyGen>(
    one: Seed<'_>,
    other: Seed<'_>,
    first: Result<K, Error>,
    second: Result<K, Error>,
)
    requires
        one.bytes() == other.bytes(),
        one.method() == other.method(),
        call_ensures(K::from_seed, (one,), first),
        call_ensures(K::from_seed, (other,), second),
    ensures
        first matches Ok(a) ==> (second matches Ok(b) ==> a == b),
{
}

} // verus!

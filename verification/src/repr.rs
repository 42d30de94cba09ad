//! Traits for exposing key data representations
//!
//! The model of a key is what its capabilities let a caller observe: the
//! secret bytes that it holds, if it holds any
//! ([`KeySecretBytes::secret_bytes_view`]), its public bytes
//! ([`KeyPublicBytes::public_bytes_view`]) and the two in one layout
//! ([`KeypairBytes::keypair_bytes_view`]). A key type written in Verus
//! defines these functions and proves its methods against the contracts of
//! the traits. The functions have bodies that say nothing, so that a key
//! type written outside Verus can take the traits as they are.

use crate::buffer::{write_outcome, SecretBytes, WriteBuffer};
use crate::error::{Error, ErrorKind};
use vstd::prelude::*;

verus! {

/// Supported deterministic key methods
#[derive(Clone, Copy, Debug, PartialEq, Eq, Structural)]
pub enum SeedMethod {
    /// Use the preferred method for the current key algorithm
    Preferred,
    /// Generate a BLS key according to bls-signatures-draft-04
    BlsKeyGenDraft4,
    /// Random bytes compatible with libsodium's randombytes_buf_deterministic.
    /// The seed must be 32 bytes in length
    RandomDet,
}

/// A seed used in key generation
#[derive(Debug, PartialEq, Eq)]
pub enum Seed<'d> {
    /// A seed byte string with a selected generation method
    Bytes(&'d [u8], SeedMethod),
}

impl<'d> Seed<'d> {
    /// The seed bytes, as a sequence.
    pub open spec fn bytes(&self) -> Seq<u8> {
        match self {
            Seed::Bytes(bytes, _) => bytes@,
        }
    }

    /// The generation method selected with the seed.
    pub open spec fn method(&self) -> SeedMethod {
        match self {
            Seed::Bytes(_, method) => *method,
        }
    }
}

impl<'d> Clone for Seed<'d> {
    fn clone(&self) -> (seed: Self)
        ensures
            seed == *self,
    {
        match self {
            Seed::Bytes(bytes, method) => Seed::Bytes(*bytes, *method),
        }
    }
}

impl<'d> vstd::std_specs::convert::FromSpecImpl<&'d [u8]> for Seed<'d> {
    open spec fn obeys_from_spec() -> bool {
        true
    }

    open spec fn from_spec(seed: &'d [u8]) -> Self {
        Seed::Bytes(seed, SeedMethod::Preferred)
    }
}

impl<'d> From<&'d [u8]> for Seed<'d> {
    /// A bare byte string selects the preferred method of the key type.
    fn from(seed: &'d [u8]) -> (s: Self) {
        Seed::Bytes(seed, SeedMethod::Preferred)
    }
}

/// For concrete secret key types
pub trait KeyMeta {
    /// The size of the key secret bytes
    const KEY_SIZE: usize;
}

/// For concrete secret + public key types
///
/// By convention `KEYPAIR_SIZE` is the sum of the two other sizes. The
/// traits do not ask for it, and no contract here rests on it.
pub trait KeypairMeta: KeyMeta {
    /// The size of the key public bytes
    const PUBLIC_KEY_SIZE: usize;

    /// The size of the secret bytes and public bytes combined
    const KEYPAIR_SIZE: usize;
}

/// Key generation operations
pub trait KeyGen {
    /// Whether the key type derives keys from seed bytes like these by this
    /// method. A key type that overrides `from_seed` in Verus states it
    /// here; otherwise it is left unspecified.
    open spec fn accepts_seed(bytes: Seq<u8>, method: SeedMethod) -> bool {
        arbitrary()
    }

    /// The key that the key type derives from these seed bytes by this
    /// method. A key type that overrides `from_seed` in Verus states it
    /// here; otherwise it is left unspecified.
    open spec fn seeded_key(bytes: Seq<u8>, method: SeedMethod) -> Self where Self: Sized {
        arbitrary()
    }

    /// Generate a new random key.
    fn generate() -> (result: Result<Self, Error>) where Self: Sized
        ensures
            result matches Err(e) ==> e.kind == ErrorKind::KeyGeneration,
    ;

    /// Generate a new deterministic key.
    ///
    /// Unless a key type overrides it, this fails with `Unsupported` on
    /// every seed: no key type produces a key from a seed that it has not
    /// said how to use. An override fails on a seed whose length or method
    /// it does not accept, and the key that it produces is a function of
    /// the seed alone.
    fn from_seed(seed: Seed<'_>) -> (result: Result<Self, Error>) where Self: Sized
        ensures
            result matches Ok(key) ==> key == Self::seeded_key(seed.bytes(), seed.method()),
            !Self::accepts_seed(seed.bytes(), seed.method()) ==> {
                &&& result matches Err(e)
                &&& e.kind == ErrorKind::InvalidKeyData || e.kind == ErrorKind::Unsupported
            },
        default_ensures
            result matches Err(e) && e.kind == ErrorKind::Unsupported && e.message == Some(
                "Key generation from seed not supported",
            ),
    {
        Err(Error::from_msg(ErrorKind::Unsupported, "Key generation from seed not supported"))
    }
}

/// The capacity that an allocating export asks for at first. Most keys fit;
/// the buffer grows for one that does not.
const EXPORT_CAPACITY: usize = 128;

/// The sequence of bytes under an optional slice.
pub open spec fn optional_view(view: Option<&[u8]>) -> Option<Seq<u8>> {
    match view {
        Some(bytes) => Some(bytes@),
        None => None,
    }
}

/// What an export of optional secret bytes does to its target: it writes
/// the bytes where there are any, with the outcome of that one write, and
/// otherwise fails with `MissingSecretKey`, without a message, and writes
/// nothing.
pub open spec fn export_outcome(
    secret: Option<Seq<u8>>,
    capacity: Option<nat>,
    before: Seq<u8>,
    result: Result<(), Error>,
    after: Seq<u8>,
) -> bool {
    match secret {
        Some(bytes) => write_outcome(capacity, before, bytes, result, after),
        None => {
            &&& result matches Err(e)
            &&& e.kind == ErrorKind::MissingSecretKey
            &&& e.message is None
            &&& after == before
        },
    }
}

/// Write the bytes of an optional view of secret bytes to a buffer: the
/// step that an export takes inside the scope of its access.
pub fn write_optional_bytes<B: WriteBuffer + ?Sized>(
    view: Option<&[u8]>,
    out: &mut B,
) -> (result: Result<(), Error>)
    ensures
        final(out).capacity() == old(out).capacity(),
        export_outcome(
            optional_view(view),
            old(out).capacity(),
            old(out).written(),
            result,
            final(out).written(),
        ),
{
    if let Some(bytes) = view {
        out.buffer_write(bytes)
    } else {
        Err(Error::from_kind(ErrorKind::MissingSecretKey))
    }
}

/// The target of one export, held by value so that the callback of a scoped
/// access can own it.
struct Target<'a, B: WriteBuffer + ?Sized> {
    out: &'a mut B,
}

impl<'a, B: WriteBuffer + ?Sized> Target<'a, B> {
    fn write_optional(self, view: Option<&[u8]>) -> (result: Result<(), Error>)
        ensures
            final(self.out).capacity() == old(self.out).capacity(),
            export_outcome(
                optional_view(view),
                old(self.out).capacity(),
                old(self.out).written(),
                result,
                final(self.out).written(),
            ),
    {
        write_optional_bytes(view, self.out)
    }

    fn write(self, view: &[u8]) -> (result: Result<(), Error>)
        ensures
            final(self.out).capacity() == old(self.out).capacity(),
            write_outcome(
                old(self.out).capacity(),
                old(self.out).written(),
                view@,
                result,
                final(self.out).written(),
            ),
    {
        self.out.buffer_write(view)
    }
}

/// Convert between key instance and key secret bytes
pub trait KeySecretBytes: KeyMeta {
    /// The secret bytes that the instance holds, or `None` for an instance
    /// that holds only public data. A key type written in Verus states
    /// them here; otherwise they are left unspecified.
    open spec fn secret_bytes_view(&self) -> Option<Seq<u8>> {
        arbitrary()
    }

    /// Whether the content of a byte string of the declared size is a secret
    /// key of this type. A key type written in Verus states it here;
    /// otherwise it is left unspecified.
    open spec fn secret_bytes_valid(key: Seq<u8>) -> bool {
        arbitrary()
    }

    /// Create a new key instance from a slice of key secret bytes.
    ///
    /// The bytes are accepted if and only if they have the declared size and
    /// a valid content, and the instance then holds exactly these bytes as
    /// its secret.
    fn from_secret_bytes(key: &[u8]) -> (result: Result<Self, Error>) where Self: Sized
        ensures
            match result {
                Ok(instance) => {
                    &&& key@.len() == Self::KEY_SIZE
                    &&& Self::secret_bytes_valid(key@)
                    &&& instance.secret_bytes_view() == Some(key@)
                },
                Err(e) => {
                    &&& !(key@.len() == Self::KEY_SIZE && Self::secret_bytes_valid(key@))
                    &&& e.kind == ErrorKind::InvalidKeyData
                },
            },
    ;

    /// Access a temporary slice of the key secret bytes, if any.
    ///
    /// The callback is handed the secret that the instance holds, which has
    /// the declared size and a valid content, or `None` where it holds none,
    /// and its result is returned. The callback must accept any such view.
    fn with_secret_bytes<O, F: FnOnce(Option<&[u8]>) -> O>(&self, f: F) -> (output: O)
        requires
            forall|view: Option<&[u8]>|
                #![trigger call_requires(f, (view,))]
                {
                    &&& optional_view(view) == self.secret_bytes_view()
                    &&& view matches Some(bytes) ==> bytes@.len() == Self::KEY_SIZE
                        && Self::secret_bytes_valid(bytes@)
                } ==> call_requires(f, (view,)),
        ensures
            exists|view: Option<&[u8]>|
                #![trigger call_ensures(f, (view,), output)]
                {
                    &&& optional_view(view) == self.secret_bytes_view()
                    &&& view matches Some(bytes) ==> bytes@.len() == Self::KEY_SIZE
                        && Self::secret_bytes_valid(bytes@)
                    &&& call_ensures(f, (view,), output)
                },
    ;
}

/// Whether `view` is what an access to the secret bytes of `key` shows: the
/// secret that the instance holds, of the declared size and with a valid
/// content, or nothing where it holds none.
pub open spec fn shows_secret<K: KeySecretBytes + ?Sized>(key: &K, view: Option<&[u8]>) -> bool {
    &&& optional_view(view) == key.secret_bytes_view()
    &&& view matches Some(bytes) ==> bytes@.len() == K::KEY_SIZE && K::secret_bytes_valid(bytes@)
}

/// Whether the secret that the instance holds, if it holds one, has the
/// declared size and a valid content, so that `from_secret_bytes` accepts
/// it. Every access to the secret bytes shows as much.
pub open spec fn secret_well_formed<K: KeySecretBytes + ?Sized>(key: &K) -> bool {
    key.secret_bytes_view() matches Some(bytes) ==> bytes.len() == K::KEY_SIZE
        && K::secret_bytes_valid(bytes)
}

/// Object-safe trait for exporting key secret bytes
///
/// Every type with the secret-bytes capability has it.
pub trait ToSecretBytes {
    /// The secret bytes that an export writes, or `None` where the instance
    /// holds no secret. For a key type with the secret-bytes capability
    /// these are the secret bytes that it holds.
    open spec fn secret_export(&self) -> Option<Seq<u8>> {
        arbitrary()
    }

    /// The declared size of the secret bytes.
    open spec fn secret_export_size(&self) -> nat {
        arbitrary()
    }

    /// Get the length of a secret key
    fn secret_bytes_length(&self) -> (result: Result<usize, Error>)
        ensures
            result matches Ok(n) && n == self.secret_export_size(),
    ;

    /// Write the key secret bytes to a buffer.
    ///
    /// An instance without a secret fails with `MissingSecretKey`; with a
    /// secret, the outcome is that of writing it to the buffer.
    fn write_secret_bytes(&self, out: &mut dyn WriteBuffer) -> (result: Result<(), Error>)
        ensures
            final(out).capacity() == old(out).capacity(),
            export_outcome(
                self.secret_export(),
                old(out).capacity(),
                old(out).written(),
                result,
                final(out).written(),
            ),
    ;

    /// Write the key secret bytes to a new allocated buffer.
    fn to_secret_bytes(&self) -> (result: Result<SecretBytes, Error>)
        ensures
            match result {
                Ok(buf) => self.secret_export() == Some(buf@),
                Err(e) => {
                    &&& self.secret_export() is None
                    &&& e.kind == ErrorKind::MissingSecretKey
                    &&& e.message is None
                },
            },
    ;
}

/// Write the secret bytes of a key to a target of any type, inside one
/// scoped access to them.
pub fn export_secret_bytes<K: KeySecretBytes, B: WriteBuffer + ?Sized>(
    key: &K,
    out: &mut B,
) -> (result: Result<(), Error>)
    ensures
        secret_well_formed(key),
        final(out).capacity() == old(out).capacity(),
        export_outcome(
            key.secret_bytes_view(),
            old(out).capacity(),
            old(out).written(),
            result,
            final(out).written(),
        ),
{
    let ghost capacity = out.capacity();
    let ghost before = out.written();
    let target = Target { out };
    let write = move |view: Option<&[u8]>| -> (result: Result<(), Error>)
        ensures
            final(target.out).capacity() == capacity,
            export_outcome(
                optional_view(view),
                capacity,
                before,
                result,
                final(target.out).written(),
            ),
        {
            target.write_optional(view)
        };
    key.with_secret_bytes(write)
}

impl<K> ToSecretBytes for K where K: KeySecretBytes {
    open spec fn secret_export(&self) -> Option<Seq<u8>> {
        self.secret_bytes_view()
    }

    open spec fn secret_export_size(&self) -> nat {
        K::KEY_SIZE as nat
    }

    fn secret_bytes_length(&self) -> (result: Result<usize, Error>)
        ensures
            result matches Ok(n) && n == K::KEY_SIZE,
    {
        Ok(K::KEY_SIZE)
    }

    fn write_secret_bytes(&self, out: &mut dyn WriteBuffer) -> (result: Result<(), Error>) {
        export_secret_bytes(self, out)
    }

    fn to_secret_bytes(&self) -> (result: Result<SecretBytes, Error>) {
        let mut buf = SecretBytes::with_capacity(EXPORT_CAPACITY);
        match export_secret_bytes(self, &mut buf) {
            Ok(_) => Ok(buf),
            Err(e) => Err(e),
        }
    }
}

/// Convert between key instance and key public bytes.
pub trait KeyPublicBytes: KeypairMeta {
    /// The public bytes of the instance. A key type written in Verus states
    /// them here; otherwise they are left unspecified.
    open spec fn public_bytes_view(&self) -> Seq<u8> {
        arbitrary()
    }

    /// Whether the content of a byte string of the declared size is a public
    /// key of this type. A key type written in Verus states it here;
    /// otherwise it is left unspecified.
    open spec fn public_bytes_valid(key: Seq<u8>) -> bool {
        arbitrary()
    }

    /// Create a new key instance from a slice of public key bytes.
    ///
    /// The bytes are accepted if and only if they have the declared size and
    /// a valid content, and the instance then has exactly these public
    /// bytes.
    fn from_public_bytes(key: &[u8]) -> (result: Result<Self, Error>) where Self: Sized
        ensures
            match result {
                Ok(instance) => {
                    &&& key@.len() == Self::PUBLIC_KEY_SIZE
                    &&& Self::public_bytes_valid(key@)
                    &&& instance.public_bytes_view() == key@
                },
                Err(e) => {
                    &&& !(key@.len() == Self::PUBLIC_KEY_SIZE && Self::public_bytes_valid(key@))
                    &&& e.kind == ErrorKind::InvalidKeyData
                },
            },
    ;

    /// Access a temporary slice of the key public bytes.
    ///
    /// The callback is handed the public bytes of the instance, which are
    /// always there and have the declared size and a valid content, and its
    /// result is returned. The callback must accept any such view.
    fn with_public_bytes<O, F: FnOnce(&[u8]) -> O>(&self, f: F) -> (output: O)
        requires
            forall|view: &[u8]|
                #![trigger call_requires(f, (view,))]
                {
                    &&& view@ == self.public_bytes_view()
                    &&& view@.len() == Self::PUBLIC_KEY_SIZE
                    &&& Self::public_bytes_valid(view@)
                } ==> call_requires(f, (view,)),
        ensures
            exists|view: &[u8]|
                #![trigger call_ensures(f, (view,), output)]
                {
                    &&& view@ == self.public_bytes_view()
                    &&& view@.len() == Self::PUBLIC_KEY_SIZE
                    &&& Self::public_bytes_valid(view@)
                    &&& call_ensures(f, (view,), output)
                },
    ;
}

/// Whether `view` is what an access to the public bytes of `key` shows: the
/// public bytes of the instance, of the declared size and with a valid
/// content.
pub open spec fn shows_public<K: KeyPublicBytes + ?Sized>(key: &K, view: &[u8]) -> bool {
    &&& view@ == key.public_bytes_view()
    &&& view@.len() == K::PUBLIC_KEY_SIZE
    &&& K::public_bytes_valid(view@)
}

/// Whether the public bytes of the instance have the declared size and a
/// valid content, so that `from_public_bytes` accepts them. Every access to
/// the public bytes shows as much.
pub open spec fn public_well_formed<K: KeyPublicBytes + ?Sized>(key: &K) -> bool {
    key.public_bytes_view().len() == K::PUBLIC_KEY_SIZE && K::public_bytes_valid(
        key.public_bytes_view(),
    )
}

/// Object-safe trait for exporting key public bytes
///
/// Every type with the public-bytes capability has it.
pub trait ToPublicBytes {
    /// The public bytes that an export writes. For a key type with the
    /// public-bytes capability these are its public bytes.
    open spec fn public_export(&self) -> Seq<u8> {
        arbitrary()
    }

    /// The declared size of the public bytes.
    open spec fn public_export_size(&self) -> nat {
        arbitrary()
    }

    /// Get the length of a public key
    fn public_bytes_length(&self) -> (result: Result<usize, Error>)
        ensures
            result matches Ok(n) && n == self.public_export_size(),
    ;

    /// Write the key public bytes to a buffer.
    ///
    /// The outcome is that of writing the public bytes to the buffer: public
    /// bytes are never missing.
    fn write_public_bytes(&self, out: &mut dyn WriteBuffer) -> (result: Result<(), Error>)
        ensures
            final(out).capacity() == old(out).capacity(),
            write_outcome(
                old(out).capacity(),
                old(out).written(),
                self.public_export(),
                result,
                final(out).written(),
            ),
    ;

    /// Write the key public bytes to a new allocated buffer.
    fn to_public_bytes(&self) -> (result: Result<SecretBytes, Error>)
        ensures
            result matches Ok(buf) && buf@ == self.public_export(),
    ;
}

/// Write the public bytes of a key to a target of any type, inside one
/// scoped access to them.
pub fn export_public_bytes<K: KeyPublicBytes, B: WriteBuffer + ?Sized>(
    key: &K,
    out: &mut B,
) -> (result: Result<(), Error>)
    ensures
        public_well_formed(key),
        final(out).capacity() == old(out).capacity(),
        write_outcome(
            old(out).capacity(),
            old(out).written(),
            key.public_bytes_view(),
            result,
            final(out).written(),
        ),
{
    let ghost capacity = out.capacity();
    let ghost before = out.written();
    let target = Target { out };
    let write = move |view: &[u8]| -> (result: Result<(), Error>)
        ensures
            final(target.out).capacity() == capacity,
            write_outcome(capacity, before, view@, result, final(target.out).written()),
        {
            target.write(view)
        };
    key.with_public_bytes(write)
}

impl<K> ToPublicBytes for K where K: KeyPublicBytes {
    open spec fn public_export(&self) -> Seq<u8> {
        self.public_bytes_view()
    }

    open spec fn public_export_size(&self) -> nat {
        K::PUBLIC_KEY_SIZE as nat
    }

    fn public_bytes_length(&self) -> (result: Result<usize, Error>)
        ensures
            result matches Ok(n) && n == K::PUBLIC_KEY_SIZE,
    {
        Ok(K::PUBLIC_KEY_SIZE)
    }

    fn write_public_bytes(&self, out: &mut dyn WriteBuffer) -> (result: Result<(), Error>) {
        export_public_bytes(self, out)
    }

    fn to_public_bytes(&self) -> (result: Result<SecretBytes, Error>) {
        let mut buf = SecretBytes::with_capacity(EXPORT_CAPACITY);
        match export_public_bytes(self, &mut buf) {
            Ok(_) => Ok(buf),
            Err(e) => Err(e),
        }
    }
}

/// Convert between keypair instance and keypair (secret and public) bytes
pub trait KeypairBytes {
    /// The keypair bytes of the instance, its secret bytes followed by its
    /// public bytes, or `None` for an instance that holds only public data.
    /// A key type written in Verus states them here; otherwise they are left
    /// unspecified.
    open spec fn keypair_bytes_view(&self) -> Option<Seq<u8>> {
        arbitrary()
    }

    /// Whether a byte string is a keypair of this type, in size and content.
    /// A key type written in Verus states it here; otherwise it is left
    /// unspecified.
    open spec fn keypair_bytes_valid(key: Seq<u8>) -> bool {
        arbitrary()
    }

    /// Create a new key instance from a slice of keypair bytes.
    ///
    /// The bytes are accepted if and only if they are a valid keypair, and
    /// the instance then holds exactly these bytes as its keypair.
    fn from_keypair_bytes(key: &[u8]) -> (result: Result<Self, Error>) where Self: Sized
        ensures
            match result {
                Ok(instance) => {
                    &&& Self::keypair_bytes_valid(key@)
                    &&& instance.keypair_bytes_view() == Some(key@)
                },
                Err(e) => !Self::keypair_bytes_valid(key@) && e.kind == ErrorKind::InvalidKeyData,
            },
    ;

    /// Access a temporary slice of the keypair bytes, if any.
    ///
    /// The callback is handed the keypair bytes of the instance, which are
    /// a valid keypair, or `None` where it holds no secret, and its result
    /// is returned. The callback must accept any such view.
    fn with_keypair_bytes<O, F: FnOnce(Option<&[u8]>) -> O>(&self, f: F) -> (output: O)
        requires
            forall|view: Option<&[u8]>|
                #![trigger call_requires(f, (view,))]
                {
                    &&& optional_view(view) == self.keypair_bytes_view()
                    &&& view matches Some(bytes) ==> Self::keypair_bytes_valid(bytes@)
                } ==> call_requires(f, (view,)),
        ensures
            exists|view: Option<&[u8]>|
                #![trigger call_ensures(f, (view,), output)]
                {
                    &&& optional_view(view) == self.keypair_bytes_view()
                    &&& view matches Some(bytes) ==> Self::keypair_bytes_valid(bytes@)
                    &&& call_ensures(f, (view,), output)
                },
    ;

    /// Write the keypair bytes to a buffer.
    ///
    /// An instance without a secret fails with `MissingSecretKey`; with a
    /// secret, the outcome is that of writing the keypair bytes to the
    /// buffer.
    fn to_keypair_bytes_buffer<B: WriteBuffer>(&self, out: &mut B) -> (result: Result<(), Error>)
        ensures
            final(out).capacity() == old(out).capacity(),
            export_outcome(
                self.keypair_bytes_view(),
                old(out).capacity(),
                old(out).written(),
                result,
                final(out).written(),
            ),
    {
        let ghost capacity = out.capacity();
        let ghost before = out.written();
        let target = Target { out };
        let write = move |view: Option<&[u8]>| -> (result: Result<(), Error>)
            ensures
                final(target.out).capacity() == capacity,
                export_outcome(
                    optional_view(view),
                    capacity,
                    before,
                    result,
                    final(target.out).written(),
                ),
            {
                target.write_optional(view)
            };
        self.with_keypair_bytes(write)
    }

    /// Write the keypair bytes to a new allocated buffer.
    fn to_keypair_bytes(&self) -> (result: Result<SecretBytes, Error>)
        ensures
            match result {
                Ok(buf) => self.keypair_bytes_view() == Some(buf@),
                Err(e) => {
                    &&& self.keypair_bytes_view() is None
                    &&& e.kind == ErrorKind::MissingSecretKey
                    &&& e.message is None
                },
            },
    {
        let mut buf = SecretBytes::with_capacity(EXPORT_CAPACITY);
        match self.to_keypair_bytes_buffer(&mut buf) {
            Ok(_) => Ok(buf),
            Err(e) => Err(e),
        }
    }
}

/// Whether the instance holds its keypair bytes exactly when it holds its
/// secret bytes: a key is made with a secret or without, and stays so.
pub open spec fn same_capability_state<K: KeySecretBytes + KeypairBytes + ?Sized>(
    key: &K,
) -> bool {
    key.secret_bytes_view() is None <==> key.keypair_bytes_view() is None
}

} // verus!

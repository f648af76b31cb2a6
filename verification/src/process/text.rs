//! The signing core: the BLAKE3 keyed-hash variant and the Ed25519
//! signature variant behind one algorithm-agnostic surface. Keys are
//! validated byte buffers; signatures are fixed-length byte buffers that
//! cross the boundary in the URL-safe unpadded base64 form.

use crate::cli::text::TextSignFormat;
use crate::errors::TextError;
use crate::process::b64::{b64url_of, decode_signature, encode_signature};
use crate::process::gen_pass::{allowed_char, gen_pass_bytes};
use ed25519_dalek::Signer;
use ed25519_dalek::Verifier;
use vstd::prelude::*;
use vstd::slice::slice_to_vec;

verus! {

/// The 32-byte keyed BLAKE3 hash of a buffer under a 32-byte key; a
/// function of key and buffer alone.
pub uninterp spec fn blake3_keyed_hash_of(key: Seq<u8>, data: Seq<u8>) -> Seq<u8>;

/// The 64-byte Ed25519 signature over a buffer under a 32-byte seed;
/// Ed25519 signing is deterministic, so this is a function of seed and
/// buffer alone.
pub uninterp spec fn ed25519_signature_of(seed: Seq<u8>, data: Seq<u8>) -> Seq<u8>;

/// The 32-byte public key derived from a 32-byte Ed25519 seed.
pub uninterp spec fn ed25519_public_key_of(seed: Seq<u8>) -> Seq<u8>;

/// Whether 32 bytes encode a valid Ed25519 public key.
pub uninterp spec fn ed25519_valid_public_key(pk: Seq<u8>) -> bool;

/// Whether Ed25519 verification accepts a 64-byte signature over a buffer
/// under a valid public key; a function of the three buffers alone.
pub uninterp spec fn ed25519_accepts(pk: Seq<u8>, data: Seq<u8>, sig: Seq<u8>) -> bool;

/// Relies on `blake3::keyed_hash`: a deterministic 32-byte keyed hash of
/// the input bytes under the 32-byte key.
#[verifier::external_body]
fn blake3_hash(key: &[u8], data: &[u8]) -> (r: Vec<u8>)
    requires
        key@.len() == 32,
    ensures
        r@ == blake3_keyed_hash_of(key@, data@),
        r@.len() == 32,
{
    let k: &[u8; 32] = key.try_into().unwrap();
    blake3::keyed_hash(k, data).as_bytes().to_vec()
}

/// Relies on `ed25519_dalek::SigningKey::from_bytes` (any 32 bytes are a
/// seed) and `Signer::sign`: the 64-byte signature is deterministic in seed
/// and message, and verification under the verifying key derived from the
/// same seed accepts it.
#[verifier::external_body]
fn ed25519_sign(seed: &[u8], data: &[u8]) -> (r: Vec<u8>)
    requires
        seed@.len() == 32,
    ensures
        r@ == ed25519_signature_of(seed@, data@),
        r@.len() == 64,
        ed25519_accepts(ed25519_public_key_of(seed@), data@, r@),
{
    let s: &[u8; 32] = seed.try_into().unwrap();
    let sk = ed25519_dalek::SigningKey::from_bytes(s);
    sk.sign(data).to_bytes().to_vec()
}

/// Relies on `ed25519_dalek::SigningKey::from_bytes` and
/// `SigningKey::verifying_key`: the verifying key is a function of the seed
/// alone, and its 32-byte encoding is a valid public key.
#[verifier::external_body]
fn ed25519_derive_public(seed: &[u8]) -> (r: Vec<u8>)
    requires
        seed@.len() == 32,
    ensures
        r@ == ed25519_public_key_of(seed@),
        r@.len() == 32,
        ed25519_valid_public_key(r@),
{
    let s: &[u8; 32] = seed.try_into().unwrap();
    let sk = ed25519_dalek::SigningKey::from_bytes(s);
    sk.verifying_key().to_bytes().to_vec()
}

/// Relies on `ed25519_dalek::VerifyingKey::from_bytes`: it succeeds exactly
/// on byte strings that encode a valid public key.
#[verifier::external_body]
fn ed25519_check_public(pk: &[u8]) -> (r: bool)
    requires
        pk@.len() == 32,
    ensures
        r == ed25519_valid_public_key(pk@),
{
    let p: &[u8; 32] = pk.try_into().unwrap();
    ed25519_dalek::VerifyingKey::from_bytes(p).is_ok()
}

/// Relies on `ed25519_dalek::VerifyingKey::from_bytes` and
/// `Verifier::verify`: acceptance is a deterministic function of public
/// key, message and signature bytes.
#[verifier::external_body]
fn ed25519_verify_sig(pk: &[u8], data: &[u8], sig: &[u8]) -> (r: bool)
    requires
        pk@.len() == 32,
        ed25519_valid_public_key(pk@),
        sig@.len() == 64,
    ensures
        r == ed25519_accepts(pk@, data@, sig@),
{
    let p: &[u8; 32] = pk.try_into().unwrap();
    let key = ed25519_dalek::VerifyingKey::from_bytes(p).unwrap();
    let s: &[u8; 64] = sig.try_into().unwrap();
    let signature = ed25519_dalek::Signature::from_bytes(s);
    key.verify(data, &signature).is_ok()
}

/// Relies on `ed25519_dalek::SigningKey::generate` with `rand::rngs::OsRng`:
/// a fresh 32-byte seed from the operating system's secure random source.
/// Nothing is assumed of its value.
#[verifier::external_body]
fn ed25519_generate_seed() -> (r: Vec<u8>)
    ensures
        r@.len() == 32,
{
    let mut csprng = rand::rngs::OsRng;
    ed25519_dalek::SigningKey::generate(&mut csprng).to_bytes().to_vec()
}

/// Byte-for-byte equality of two buffers of the same length, accumulated
/// bitwise so the running time does not depend on where the first mismatch
/// sits.
fn ct_eq(a: &[u8], b: &[u8]) -> (r: bool)
    requires
        a@.len() == b@.len(),
    ensures
        r == (a@ == b@),
{
    let mut acc: u8 = 0;
    let mut i: usize = 0;
    while i < a.len()
        invariant
            a@.len() == b@.len(),
            i <= a@.len(),
            acc == 0 <==> (forall|j: int| 0 <= j < i ==> a@[j] == b@[j]),
        decreases a@.len() - i,
    {
        let x = a[i];
        let y = b[i];
        let d = x ^ y;
        proof {
            assert((x ^ y) == 0 <==> x == y) by (bit_vector);
            assert((acc | d) == 0 <==> acc == 0 && d == 0) by (bit_vector);
        }
        acc = acc | d;
        i = i + 1;
    }
    proof {
        if acc == 0 {
            assert(a@ =~= b@);
        }
    }
    acc == 0
}

/// A signer: assigns signature bytes to a byte buffer.
pub trait TextSign {
    /// The signature bytes this signer assigns to a buffer.
    spec fn signature_spec(&self, data: Seq<u8>) -> Seq<u8>;

    /// The fixed length of every signature this signer produces.
    spec fn signature_len_spec(&self) -> int;

    /// Whether the matching verifier accepts `sig` over `data`.
    spec fn accepted_spec(&self, data: Seq<u8>, sig: Seq<u8>) -> bool;

    /// Sign the buffer; the result is exactly the signature this signer
    /// assigns to it, and the matching verifier accepts it.
    fn sign(&self, data: &[u8]) -> (r: Result<Vec<u8>, TextError>)
        ensures
            r matches Ok(v) && v@ == self.signature_spec(data@) && v@.len()
                == self.signature_len_spec() && self.accepted_spec(data@, v@),
    ;
}

/// A verifier: decides whether signature bytes match a byte buffer.
pub trait TextVerify {
    /// The fixed signature length this verifier demands.
    spec fn sig_len_spec(&self) -> int;

    /// Whether this verifier accepts the signature over the data.
    spec fn accepts_spec(&self, data: Seq<u8>, sig: Seq<u8>) -> bool;

    /// Check the signature: a wrong length is an error, reported before any
    /// cryptographic comparison; a well-formed non-match is `Ok(false)`.
    fn verify(&self, data: &[u8], sig: &[u8]) -> (r: Result<bool, TextError>)
        ensures
            sig@.len() == self.sig_len_spec() ==> (r matches Ok(b) && b == self.accepts_spec(
                data@,
                sig@,
            )),
            sig@.len() != self.sig_len_spec() ==> r == Err::<bool, TextError>(
                TextError::SignatureLengthError,
            ),
    ;
}

/// Builds a signer or verifier from raw key material.
pub trait KeyLoader: Sized + View<V = Seq<u8>> {
    /// Whether this raw key material is acceptable.
    spec fn key_acceptable_spec(key: Seq<u8>) -> bool;

    /// The key the loaded value holds, for acceptable material.
    spec fn loaded_key_spec(key: Seq<u8>) -> Seq<u8>;

    /// The error reported for unacceptable material.
    spec fn load_error_spec(key: Seq<u8>) -> TextError;

    /// Validate the raw key material and build the value.
    fn load(key: &[u8]) -> (r: Result<Self, TextError>)
        ensures
            Self::key_acceptable_spec(key@) ==> (r matches Ok(t) && t@ == Self::loaded_key_spec(
                key@,
            )),
            !Self::key_acceptable_spec(key@) ==> r == Err::<Self, TextError>(
                Self::load_error_spec(key@),
            ),
    ;
}

/// Produces fresh key material: an ordered bundle of raw byte buffers.
pub trait KeyGenerator {
    /// What holds of every bundle this generator returns.
    spec fn bundle_ok_spec(bundle: Seq<Seq<u8>>) -> bool;

    /// Generate a fresh key bundle.
    fn generate() -> (r: Result<Vec<Vec<u8>>, TextError>)
        ensures
            r matches Ok(v) && Self::bundle_ok_spec(v.deep_view()),
    ;
}

/// The BLAKE3 variant: a 32-byte symmetric key for a keyed hash.
pub struct Blake3 {
    key: Vec<u8>,
}

/// The Ed25519 signing variant: a 32-byte secret seed.
pub struct Ed2519Signer {
    key: Vec<u8>,
}

/// The Ed25519 verifying variant: a 32-byte valid public key.
pub struct Ed2519Verify {
    key: Vec<u8>,
}

impl View for Blake3 {
    type V = Seq<u8>;

    closed spec fn view(&self) -> Seq<u8> {
        self.key@
    }
}

impl View for Ed2519Signer {
    type V = Seq<u8>;

    closed spec fn view(&self) -> Seq<u8> {
        self.key@
    }
}

impl View for Ed2519Verify {
    type V = Seq<u8>;

    closed spec fn view(&self) -> Seq<u8> {
        self.key@
    }
}

impl Blake3 {
    #[verifier::type_invariant]
    spec fn wf(self) -> bool {
        self.key@.len() == 32
    }

    /// Wrap an exact 32-byte key.
    pub fn new(key: [u8; 32]) -> (r: Self)
        ensures
            r@ == key@,
    {
        Blake3 { key: slice_to_vec(key.as_slice()) }
    }

    /// Accept key material of at least 32 bytes and keep exactly the first
    /// 32 as the key; shorter material is a `KeyLengthError`.
    pub fn try_new(key: &[u8]) -> (r: Result<Self, TextError>)
        ensures
            key@.len() >= 32 ==> (r matches Ok(b) && b@ == key@.subrange(0, 32)),
            key@.len() < 32 ==> r == Err::<Self, TextError>(TextError::KeyLengthError),
    {
        if key.len() < 32 {
            return Err(TextError::KeyLengthError);
        }
        let mut v: Vec<u8> = Vec::new();
        let mut i: usize = 0;
        while i < 32
            invariant
                i <= 32,
                key@.len() >= 32,
                v@ == key@.subrange(0, i as int),
            decreases 32 - i,
        {
            v.push(key[i]);
            proof {
                assert(key@.subrange(0, i + 1 as int) =~= key@.subrange(0, i as int).push(
                    key@[i as int],
                ));
            }
            i = i + 1;
        }
        Ok(Blake3 { key: v })
    }
}

impl TextSign for Blake3 {
    open spec fn signature_spec(&self, data: Seq<u8>) -> Seq<u8> {
        blake3_keyed_hash_of(self@, data)
    }

    open spec fn signature_len_spec(&self) -> int {
        32
    }

    open spec fn accepted_spec(&self, data: Seq<u8>, sig: Seq<u8>) -> bool {
        sig == blake3_keyed_hash_of(self@, data)
    }

    fn sign(&self, data: &[u8]) -> (r: Result<Vec<u8>, TextError>) {
        proof {
            use_type_invariant(self);
        }
        Ok(blake3_hash(self.key.as_slice(), data))
    }
}

impl TextVerify for Blake3 {
    open spec fn sig_len_spec(&self) -> int {
        32
    }

    open spec fn accepts_spec(&self, data: Seq<u8>, sig: Seq<u8>) -> bool {
        sig == blake3_keyed_hash_of(self@, data)
    }

    fn verify(&self, data: &[u8], sig: &[u8]) -> (r: Result<bool, TextError>) {
        proof {
            use_type_invariant(self);
        }
        if sig.len() != 32 {
            return Err(TextError::SignatureLengthError);
        }
        let hash = blake3_hash(self.key.as_slice(), data);
        Ok(ct_eq(hash.as_slice(), sig))
    }
}

impl KeyLoader for Blake3 {
    open spec fn key_acceptable_spec(key: Seq<u8>) -> bool {
        key.len() >= 32
    }

    open spec fn loaded_key_spec(key: Seq<u8>) -> Seq<u8> {
        key.subrange(0, 32)
    }

    open spec fn load_error_spec(key: Seq<u8>) -> TextError {
        TextError::KeyLengthError
    }

    fn load(key: &[u8]) -> (r: Result<Self, TextError>) {
        Blake3::try_new(key)
    }
}

impl KeyGenerator for Blake3 {
    open spec fn bundle_ok_spec(bundle: Seq<Seq<u8>>) -> bool {
        &&& bundle.len() == 1
        &&& bundle[0].len() == 32
        &&& forall|i: int|
            0 <= i < bundle[0].len() ==> allowed_char(
                true,
                true,
                true,
                true,
                #[trigger] bundle[0][i] as int,
            )
    }

    fn generate() -> (r: Result<Vec<Vec<u8>>, TextError>) {
        let key = gen_pass_bytes(32, true, true, true, true);
        let mut bundle: Vec<Vec<u8>> = Vec::new();
        bundle.push(key);
        Ok(bundle)
    }
}

impl Ed2519Signer {
    #[verifier::type_invariant]
    spec fn wf(self) -> bool {
        self.key@.len() == 32
    }

    /// Wrap an exact 32-byte seed.
    pub fn new(key: Vec<u8>) -> (r: Self)
        requires
            key@.len() == 32,
        ensures
            r@ == key@,
    {
        Ed2519Signer { key }
    }

    /// Accept exactly 32 bytes of seed material; anything else is a
    /// `KeyLengthError`.
    pub fn try_new(key: &[u8]) -> (r: Result<Self, TextError>)
        ensures
            key@.len() == 32 ==> (r matches Ok(s) && s@ == key@),
            key@.len() != 32 ==> r == Err::<Self, TextError>(TextError::KeyLengthError),
    {
        if key.len() != 32 {
            return Err(TextError::KeyLengthError);
        }
        Ok(Ed2519Signer::new(slice_to_vec(key)))
    }
}

impl TextSign for Ed2519Signer {
    open spec fn signature_spec(&self, data: Seq<u8>) -> Seq<u8> {
        ed25519_signature_of(self@, data)
    }

    open spec fn signature_len_spec(&self) -> int {
        64
    }

    open spec fn accepted_spec(&self, data: Seq<u8>, sig: Seq<u8>) -> bool {
        ed25519_accepts(ed25519_public_key_of(self@), data, sig)
    }

    fn sign(&self, data: &[u8]) -> (r: Result<Vec<u8>, TextError>) {
        proof {
            use_type_invariant(self);
        }
        Ok(ed25519_sign(self.key.as_slice(), data))
    }
}

impl KeyLoader for Ed2519Signer {
    open spec fn key_acceptable_spec(key: Seq<u8>) -> bool {
        key.len() == 32
    }

    open spec fn loaded_key_spec(key: Seq<u8>) -> Seq<u8> {
        key
    }

    open spec fn load_error_spec(key: Seq<u8>) -> TextError {
        TextError::KeyLengthError
    }

    fn load(key: &[u8]) -> (r: Result<Self, TextError>) {
        Ed2519Signer::try_new(key)
    }
}

impl KeyGenerator for Ed2519Signer {
    open spec fn bundle_ok_spec(bundle: Seq<Seq<u8>>) -> bool {
        &&& bundle.len() == 2
        &&& bundle[0].len() == 32
        &&& bundle[1] == ed25519_public_key_of(bundle[0])
        &&& bundle[1].len() == 32
        &&& ed25519_valid_public_key(bundle[1])
    }

    fn generate() -> (r: Result<Vec<Vec<u8>>, TextError>) {
        let seed = ed25519_generate_seed();
        let public = ed25519_derive_public(seed.as_slice());
        let mut bundle: Vec<Vec<u8>> = Vec::new();
        bundle.push(seed);
        bundle.push(public);
        proof {
            assert(bundle.deep_view().len() == 2);
            assert(bundle.deep_view()[0] =~= bundle@[0]@);
            assert(bundle.deep_view()[1] =~= bundle@[1]@);
        }
        Ok(bundle)
    }
}

impl Ed2519Verify {
    #[verifier::type_invariant]
    spec fn wf(self) -> bool {
        self.key@.len() == 32 && ed25519_valid_public_key(self.key@)
    }

    /// Wrap an exact 32-byte valid public key.
    pub fn new(key: Vec<u8>) -> (r: Self)
        requires
            key@.len() == 32,
            ed25519_valid_public_key(key@),
        ensures
            r@ == key@,
    {
        Ed2519Verify { key }
    }

    /// Accept exactly 32 bytes that encode a valid public key; a wrong
    /// length is a `KeyLengthError`, 32 bytes that are no valid key are a
    /// `CryptoConstructionError`.
    pub fn try_new(key: &[u8]) -> (r: Result<Self, TextError>)
        ensures
            key@.len() == 32 && ed25519_valid_public_key(key@) ==> (r matches Ok(v) && v@
                == key@),
            key@.len() != 32 ==> r == Err::<Self, TextError>(TextError::KeyLengthError),
            key@.len() == 32 && !ed25519_valid_public_key(key@) ==> r == Err::<Self, TextError>(
                TextError::CryptoConstructionError,
            ),
    {
        if key.len() != 32 {
            return Err(TextError::KeyLengthError);
        }
        if !ed25519_check_public(key) {
            return Err(TextError::CryptoConstructionError);
        }
        Ok(Ed2519Verify::new(slice_to_vec(key)))
    }
}

impl TextVerify for Ed2519Verify {
    open spec fn sig_len_spec(&self) -> int {
        64
    }

    open spec fn accepts_spec(&self, data: Seq<u8>, sig: Seq<u8>) -> bool {
        ed25519_accepts(self@, data, sig)
    }

    fn verify(&self, data: &[u8], sig: &[u8]) -> (r: Result<bool, TextError>) {
        proof {
            use_type_invariant(self);
        }
        if sig.len() != 64 {
            return Err(TextError::SignatureLengthError);
        }
        Ok(ed25519_verify_sig(self.key.as_slice(), data, sig))
    }
}

impl KeyLoader for Ed2519Verify {
    open spec fn key_acceptable_spec(key: Seq<u8>) -> bool {
        key.len() == 32 && ed25519_valid_public_key(key)
    }

    open spec fn loaded_key_spec(key: Seq<u8>) -> Seq<u8> {
        key
    }

    open spec fn load_error_spec(key: Seq<u8>) -> TextError {
        if key.len() != 32 {
            TextError::KeyLengthError
        } else {
            TextError::CryptoConstructionError
        }
    }

    fn load(key: &[u8]) -> (r: Result<Self, TextError>) {
        Ed2519Verify::try_new(key)
    }
}

/// Sign a byte buffer with the key material under the chosen algorithm and
/// return the URL-safe unpadded base64 form of the signature.
///
/// For Ed25519 the contract also records that the produced signature is
/// accepted under the public key derived from the same seed; for BLAKE3 the
/// signature is the keyed hash itself, which the verifier compares against.
pub fn process_text_sign(data: &[u8], key: &[u8], format: TextSignFormat) -> (r: Result<
    String,
    TextError,
>)
    ensures
        match format {
            TextSignFormat::Blake3 => {
                &&& key@.len() >= 32 ==> (r matches Ok(s) && s@ == b64url_of(
                    blake3_keyed_hash_of(key@.subrange(0, 32), data@),
                ) && blake3_keyed_hash_of(key@.subrange(0, 32), data@).len() == 32)
                &&& key@.len() < 32 ==> r == Err::<String, TextError>(TextError::KeyLengthError)
            },
            TextSignFormat::Ed2519 => {
                &&& key@.len() == 32 ==> (r matches Ok(s) && s@ == b64url_of(
                    ed25519_signature_of(key@, data@),
                ) && ed25519_signature_of(key@, data@).len() == 64 && ed25519_accepts(
                    ed25519_public_key_of(key@),
                    data@,
                    ed25519_signature_of(key@, data@),
                ))
                &&& key@.len() != 32 ==> r == Err::<String, TextError>(TextError::KeyLengthError)
            },
        },
{
    let signed = match format {
        TextSignFormat::Blake3 => {
            let signer = match Blake3::load(key) {
                Ok(s) => s,
                Err(e) => {
                    return Err(e);
                },
            };
            match signer.sign(data) {
                Ok(v) => v,
                Err(e) => {
                    return Err(e);
                },
            }
        },
        TextSignFormat::Ed2519 => {
            let signer = match Ed2519Signer::load(key) {
                Ok(s) => s,
                Err(e) => {
                    return Err(e);
                },
            };
            match signer.sign(data) {
                Ok(v) => v,
                Err(e) => {
                    return Err(e);
                },
            }
        },
    };
    Ok(encode_signature(signed.as_slice()))
}

/// Verify an encoded signature over a byte buffer with the key material
/// under the chosen algorithm.
///
/// The signature text is decoded first (`EncodingError` if it is not the
/// encoding of any buffer), then the key is validated, then the decoded
/// signature's length is checked against the algorithm's fixed length
/// (`SignatureLengthError`), and only then is the cryptographic check made;
/// a well-formed non-match is `Ok(false)`, not an error.
pub fn process_text_verify(data: &[u8], key: &[u8], format: TextSignFormat, sig: &str) -> (r:
    Result<bool, TextError>)
    ensures
        (forall|b: Seq<u8>| sig@ != b64url_of(b)) ==> r == Err::<bool, TextError>(
            TextError::EncodingError,
        ),
        match format {
            TextSignFormat::Blake3 => {
                &&& forall|b: Seq<u8>|
                    sig@ == b64url_of(b) && key@.len() < 32 ==> r == Err::<bool, TextError>(
                        TextError::KeyLengthError,
                    )
                &&& forall|b: Seq<u8>|
                    sig@ == b64url_of(b) && key@.len() >= 32 && b.len() != 32 ==> r == Err::<
                        bool,
                        TextError,
                    >(TextError::SignatureLengthError)
                &&& forall|b: Seq<u8>|
                    sig@ == b64url_of(b) && key@.len() >= 32 && b.len() == 32 ==> r == Ok::<
                        bool,
                        TextError,
                    >(b == blake3_keyed_hash_of(key@.subrange(0, 32), data@))
            },
            TextSignFormat::Ed2519 => {
                &&& forall|b: Seq<u8>|
                    sig@ == b64url_of(b) && key@.len() != 32 ==> r == Err::<bool, TextError>(
                        TextError::KeyLengthError,
                    )
                &&& forall|b: Seq<u8>|
                    sig@ == b64url_of(b) && key@.len() == 32 && !ed25519_valid_public_key(key@)
                        ==> r == Err::<bool, TextError>(TextError::CryptoConstructionError)
                &&& forall|b: Seq<u8>|
                    sig@ == b64url_of(b) && key@.len() == 32 && ed25519_valid_public_key(key@)
                        && b.len() != 64 ==> r == Err::<bool, TextError>(
                        TextError::SignatureLengthError,
                    )
                &&& forall|b: Seq<u8>|
                    sig@ == b64url_of(b) && key@.len() == 32 && ed25519_valid_public_key(key@)
                        && b.len() == 64 ==> r == Ok::<bool, TextError>(
                        ed25519_accepts(key@, data@, b),
                    )
            },
        },
{
    let sig_bytes = match decode_signature(sig) {
        Ok(v) => v,
        Err(e) => {
            return Err(e);
        },
    };
    match format {
        TextSignFormat::Blake3 => {
            let verifier = match Blake3::load(key) {
                Ok(v) => v,
                Err(e) => {
                    return Err(e);
                },
            };
            verifier.verify(data, sig_bytes.as_slice())
        },
        TextSignFormat::Ed2519 => {
            let verifier = match Ed2519Verify::load(key) {
                Ok(v) => v,
                Err(e) => {
                    return Err(e);
                },
            };
            verifier.verify(data, sig_bytes.as_slice())
        },
    }
}

/// Generate fresh key material for the chosen algorithm: one 32-byte
/// symmetric key for BLAKE3, or the 32-byte secret seed followed by the
/// 32-byte public key for Ed25519.
pub fn process_generate(format: TextSignFormat) -> (r: Result<Vec<Vec<u8>>, TextError>)
    ensures
        r matches Ok(v) && match format {
            TextSignFormat::Blake3 => Blake3::bundle_ok_spec(v.deep_view()),
            TextSignFormat::Ed2519 => Ed2519Signer::bundle_ok_spec(v.deep_view()),
        },
{
    match format {
        TextSignFormat::Blake3 => Blake3::generate(),
        TextSignFormat::Ed2519 => Ed2519Signer::generate(),
    }
}

/// The BLAKE3 verifier accepts exactly the keyed hash of the data under the
/// same key: verifying what `sign` produced under the key it was produced
/// with yields `true`.
pub proof fn lemma_blake3_sign_verify(signer: Blake3, data: Seq<u8>)
    ensures
        signer.accepted_spec(data, signer.signature_spec(data)),
        TextVerify::accepts_spec(&signer, data, TextSign::signature_spec(&signer, data)),
{
}

} // verus!


//! The primitives of the suite: X25519 scalar multiplication, HMAC-SHA256,
//! HKDF-SHA256 and AES-128 in counter mode.
//!
//! None of them is computed here. Each is called in its crate, and contracts
//! speak of what it returns by a name: a function of the arguments of which
//! nothing more is known than what is said beside it.
use vstd::prelude::*;
use crate::constants::{CURVE_POINT_SIZE, KEYED_HMAC_SIZE, STREAM_CIPHER_KEY_SIZE};
use aes::cipher::{KeyIvInit, StreamCipher};
use hmac::Mac;
use rand::RngCore;

verus! {

/// A scalar as 32 little-endian bytes. Every value is accepted; it stands for
/// the integer it encodes, reduced modulo the order of the group.
pub type Scalar = [u8; CURVE_POINT_SIZE];

/// A curve point by the 32 bytes of its Montgomery u-coordinate.
pub type PublicKey = [u8; CURVE_POINT_SIZE];

/// The group element a header carries.
pub type SharedSecret = [u8; CURVE_POINT_SIZE];

/// The outcome of one hop's Diffie-Hellman exchange.
pub type SharedKey = [u8; CURVE_POINT_SIZE];

/// The encoding of `scalar` times the base point.
pub uninterp spec fn spec_scalar_mul_base(scalar: Seq<u8>) -> Seq<u8>;

/// The encoding of `scalar` times `point`.
pub uninterp spec fn spec_scalar_mul_point(scalar: Seq<u8>, point: Seq<u8>) -> Seq<u8>;

/// The canonical encoding of the product of two scalars.
pub uninterp spec fn spec_scalar_product(a: Seq<u8>, b: Seq<u8>) -> Seq<u8>;

/// HMAC-SHA256 of `data` under `key`.
pub uninterp spec fn spec_keyed_hmac(key: Seq<u8>, data: Seq<u8>) -> Seq<u8>;

/// HKDF-SHA256 without salt: `length` bytes expanded from `ikm` under `info`.
pub uninterp spec fn spec_hkdf_expand(ikm: Seq<u8>, info: Seq<u8>, length: nat) -> Seq<u8>;

/// The first `length` bytes of the AES-128-CTR key stream for `key` and `iv`.
pub uninterp spec fn spec_key_stream(key: Seq<u8>, iv: Seq<u8>, length: nat) -> Seq<u8>;

/// Calls curve25519-dalek: `Scalar::from_bytes_mod_order` on the scalar, the
/// Montgomery ladder `&X25519_BASEPOINT * &Scalar`, and `to_bytes` on the
/// product. The contract only names the result.
#[verifier::external_body]
pub(crate) fn scalar_mul_base(scalar: &Scalar) -> (point: PublicKey)
    ensures
        point@ == spec_scalar_mul_base(scalar@),
{
    let s = curve25519_dalek::scalar::Scalar::from_bytes_mod_order(*scalar);
    (&curve25519_dalek::constants::X25519_BASEPOINT * &s).to_bytes()
}

/// Calls curve25519-dalek: `Scalar::from_bytes_mod_order` on the scalar, the
/// Montgomery ladder `&MontgomeryPoint * &Scalar` on the point with the given
/// bytes, and `to_bytes` on the product. The contract only names the result.
#[verifier::external_body]
pub(crate) fn scalar_mul_point(scalar: &Scalar, point: &PublicKey) -> (product: PublicKey)
    ensures
        product@ == spec_scalar_mul_point(scalar@, point@),
{
    let s = curve25519_dalek::scalar::Scalar::from_bytes_mod_order(*scalar);
    (&curve25519_dalek::montgomery::MontgomeryPoint(*point) * &s).to_bytes()
}

/// Calls curve25519-dalek: `Scalar::from_bytes_mod_order` on both arguments,
/// the product of the two `Scalar`s, and `to_bytes`. The contract only names
/// the result.
#[verifier::external_body]
pub(crate) fn scalar_product(a: &Scalar, b: &Scalar) -> (product: Scalar)
    ensures
        product@ == spec_scalar_product(a@, b@),
{
    let x = curve25519_dalek::scalar::Scalar::from_bytes_mod_order(*a);
    let y = curve25519_dalek::scalar::Scalar::from_bytes_mod_order(*b);
    (x * y).to_bytes()
}

/// Calls `Hmac::<Sha256>`: `new_from_slice`, which for this construction
/// accepts a key of any length, `update` and `finalize`. The tag is the 32
/// bytes of a SHA-256 output; the contract names them.
#[verifier::external_body]
pub(crate) fn hmac_sha256(key: &[u8], data: &[u8]) -> (tag: [u8; KEYED_HMAC_SIZE])
    ensures
        tag@ == spec_keyed_hmac(key@, data@),
{
    let mut mac = <hmac::Hmac<sha2::Sha256> as Mac>::new_from_slice(key)
        .expect("HMAC accepts keys of any length");
    mac.update(data);
    mac.finalize().into_bytes().into()
}

/// Calls `Hkdf::<Sha256>::new` without salt and `expand` into `N` bytes.
/// `expand` fails only when asked for more than 255 hash outputs, which the
/// precondition leaves out. The contract names the result.
#[verifier::external_body]
pub(crate) fn hkdf_sha256<const N: usize>(ikm: &[u8], info: &[u8]) -> (okm: [u8; N])
    requires
        N <= 8160,
    ensures
        okm@ == spec_hkdf_expand(ikm@, info@, N as nat),
{
    let mut okm = [0u8; N];
    hkdf::Hkdf::<sha2::Sha256>::new(None, ikm)
        .expand(info, &mut okm)
        .expect("at most 255 blocks are requested");
    okm
}

/// Calls `Ctr128BE::<Aes128>`: `new` with the key and the initialisation
/// vector, then `apply_keystream` on `length` zero bytes, which leaves the key
/// stream itself. The contract names the result and gives its length.
#[verifier::external_body]
pub(crate) fn aes128_ctr_key_stream(
    key: &[u8; STREAM_CIPHER_KEY_SIZE],
    iv: &[u8; 16],
    length: usize,
) -> (stream: Vec<u8>)
    ensures
        stream@ == spec_key_stream(key@, iv@, length as nat),
        stream@.len() == length,
{
    let mut stream = vec![0u8; length];
    let mut cipher = ctr::Ctr128BE::<aes::Aes128>::new(key.into(), iv.into());
    cipher.apply_keystream(&mut stream);
    stream
}

/// Calls `OsRng::try_fill_bytes` on 32 bytes. Nothing is promised of what
/// comes back; `None` means that the operating system gave no randomness.
#[verifier::external_body]
pub(crate) fn os_random_bytes() -> (bytes: Option<[u8; CURVE_POINT_SIZE]>)
{
    let mut bytes = [0u8; CURVE_POINT_SIZE];
    match rand::rngs::OsRng.try_fill_bytes(&mut bytes) {
        Ok(()) => Some(bytes),
        Err(_) => None,
    }
}

/// The public key that belongs to `secret`.
pub fn public_key(secret: &Scalar) -> (key: PublicKey)
    ensures
        key@ == spec_scalar_mul_base(secret@),
{
    scalar_mul_base(secret)
}

/// A fresh random scalar, or `None` where the system has no randomness to give.
pub fn generate_secret() -> (secret: Option<Scalar>)
{
    os_random_bytes()
}

/// What holds of a key pair: the public key belongs to the secret.
pub open spec fn is_key_pair(secret: Scalar, key: PublicKey) -> bool {
    key@ == spec_scalar_mul_base(secret@)
}

/// Turns the outcome of a draw of a secret into a key pair.
pub fn keygen_from(drawn: Option<Scalar>) -> (pair: Option<(Scalar, PublicKey)>)
    ensures
        drawn is None ==> pair is None,
        drawn is Some ==> pair is Some && pair.unwrap().0 == drawn.unwrap() && is_key_pair(
            pair.unwrap().0,
            pair.unwrap().1,
        ),
{
    match drawn {
        Some(secret) => {
            let key = scalar_mul_base(&secret);
            Some((secret, key))
        },
        None => None,
    }
}

/// A fresh key pair, or `None` where the system has no randomness to give.
pub fn keygen() -> (pair: Option<(Scalar, PublicKey)>)
    ensures
        pair is Some ==> is_key_pair(pair.unwrap().0, pair.unwrap().1),
{
    keygen_from(generate_secret())
}

/// Whether `key` is the public key of some secret: a multiple of the base
/// point.
pub open spec fn is_public_key(key: PublicKey) -> bool {
    exists|secret: Scalar| is_key_pair(secret, key)
}

/// The public half of the outcome of a key generation.
pub fn public_half(pair: Option<(Scalar, PublicKey)>) -> (point: Option<PublicKey>)
    ensures
        pair is None ==> point is None,
        pair is Some ==> point == Some(pair.unwrap().1),
{
    match pair {
        Some(pair) => Some(pair.1),
        None => None,
    }
}

/// A random curve point, or `None` where the system has no randomness to
/// give. The point is the public half of a fresh key pair whose secret is
/// dropped.
pub fn generate_random_curve_point() -> (point: Option<PublicKey>)
    ensures
        point is Some ==> is_public_key(point.unwrap()),
{
    let pair = keygen();
    proof {
        if pair is Some {
            assert(is_key_pair(pair.unwrap().0, pair.unwrap().1));
        }
    }
    public_half(pair)
}

/// The keyed hash of `data` under `key`.
pub fn compute_keyed_hmac(key: &[u8], data: &[u8]) -> (tag: [u8; KEYED_HMAC_SIZE])
    ensures
        tag@ == spec_keyed_hmac(key@, data@),
{
    hmac_sha256(key, data)
}

/// `length` pseudorandom bytes for `key` and `iv`.
pub fn generate_pseudorandom_bytes(
    key: &[u8; STREAM_CIPHER_KEY_SIZE],
    iv: &[u8; 16],
    length: usize,
) -> (stream: Vec<u8>)
    ensures
        stream@ == spec_key_stream(key@, iv@, length as nat),
        stream@.len() == length,
{
    aes128_ctr_key_stream(key, iv, length)
}

} // verus!

//! The cryptographic primitives the encrypted adapters call, each behind
//! a small trusted wrapper whose contract says what the outside crate
//! promises of it.
use vstd::prelude::*;
use chacha20poly1305::aead::Aead;
use chacha20poly1305::KeyInit;
use rand::RngCore;
use rsa::Error as RsaError;
use chacha20poly1305::aead::Error as AeadError;
use crate::rsa_keys::{rsa_public_ok, seqs_of, significant_len};

verus! {

#[verifier::external_type_specification]
#[verifier::external_body]
pub struct ExRsaError(RsaError);

#[verifier::external_type_specification]
#[verifier::external_body]
pub struct ExAeadError(AeadError);

/// Length of an X25519 secret, public key and shared secret.
pub const KEY_LEN: usize = 32;

/// Length of a ChaCha20-Poly1305 nonce.
pub const NONCE_LEN: usize = 12;

/// The result of `x25519_dalek::x25519` on a scalar and a point (both 32 bytes).
pub uninterp spec fn x25519_value(scalar: Seq<u8>, point: Seq<u8>) -> Seq<u8>;

/// The ciphertext (with its tag) that ChaCha20-Poly1305 produces for a key,
/// a nonce and a plaintext, with no associated data.
pub uninterp spec fn chacha_seal(key: Seq<u8>, nonce: Seq<u8>, plaintext: Seq<u8>) -> Seq<u8>;

/// The plaintext that ChaCha20-Poly1305 recovers from a ciphertext under a
/// key and a nonce, with no associated data, or `None` if it is not authentic.
pub uninterp spec fn chacha_open(key: Seq<u8>, nonce: Seq<u8>, ciphertext: Seq<u8>) -> Option<Seq<u8>>;

/// The X25519 base point, u = 9 (RFC 7748).
pub open spec fn basepoint() -> Seq<u8> {
    seq![9u8] + Seq::new(31, |i: int| 0u8)
}

/// The X25519 public key of a secret scalar.
pub open spec fn public_key_of(secret: Seq<u8>) -> Seq<u8> {
    x25519_value(secret, basepoint())
}

/// Builds the base point as bytes.
pub fn basepoint_bytes() -> (out: Vec<u8>)
    ensures
        out@ == basepoint(),
        out@.len() == KEY_LEN,
        out@[0] == 9,
        forall|i: int| 1 <= i < KEY_LEN ==> out@[i] == 0,
{
    let mut out: Vec<u8> = Vec::new();
    out.push(9);
    let mut i: usize = 1;
    while i < KEY_LEN
        invariant
            1 <= i <= KEY_LEN,
            out@ == seq![9u8] + Seq::new((i - 1) as nat, |j: int| 0u8),
        decreases KEY_LEN - i,
    {
        out.push(0);
        assert(seq![9u8] + Seq::new(i as nat, |j: int| 0u8)
            =~= (seq![9u8] + Seq::new((i - 1) as nat, |j: int| 0u8)).push(0u8));
        i = i + 1;
    }
    proof { lemma_basepoint_is_nine(); }
    out
}

/// The X25519 base point is u = 9 written little-endian in 32 bytes: a 9
/// followed by 31 zero bytes.
pub proof fn lemma_basepoint_is_nine()
    ensures
        basepoint().len() == KEY_LEN,
        basepoint()[0] == 9,
        forall|i: int| 1 <= i < KEY_LEN ==> basepoint()[i] == 0,
{
}

/// Calls `x25519_dalek::x25519`, the byte-oriented X25519 function of
/// RFC 7748. Claimed: the 32-byte result is the function's value on the
/// given scalar and point; and, as the crate's documentation shows for two
/// parties that exchanged public keys made with the base point, when the
/// point is the public key of another 32-byte secret, the result is the
/// value that other secret computes on this scalar's public key.
#[verifier::external_body]
pub(crate) fn x25519(scalar: &[u8], point: &[u8]) -> (out: Vec<u8>)
    requires
        scalar@.len() == KEY_LEN,
        point@.len() == KEY_LEN,
    ensures
        out@ == x25519_value(scalar@, point@),
        out@.len() == KEY_LEN,
        forall|other: Seq<u8>|
            other.len() == KEY_LEN && point@ == #[trigger] public_key_of(other)
                ==> out@ == x25519_value(other, public_key_of(scalar@)),
{
    let k: [u8; 32] = scalar.try_into().unwrap();
    let u: [u8; 32] = point.try_into().unwrap();
    x25519_dalek::x25519(k, u).to_vec()
}

/// Calls `Aead::encrypt` of `chacha20poly1305::ChaCha20Poly1305` (keyed with
/// `KeyInit::new`) with no associated data. Claimed, as its source shows:
/// it fails exactly when the plaintext reaches `u32::MAX` blocks of 64
/// bytes; otherwise the ciphertext is the plaintext's length plus the
/// 16-byte tag, it is the value of the cipher on these arguments, and
/// decrypting it under the same key and nonce gives the plaintext back
/// (the correctness of the AEAD).
#[verifier::external_body]
pub(crate) fn chacha_encrypt(key: &[u8], nonce: &[u8], plaintext: &[u8]) -> (res: Result<Vec<u8>, AeadError>)
    requires
        key@.len() == KEY_LEN,
        nonce@.len() == NONCE_LEN,
    ensures
        res is Ok <==> plaintext@.len() / 64 < u32::MAX,
        res matches Ok(c) ==> {
            &&& c@ == chacha_seal(key@, nonce@, plaintext@)
            &&& c@.len() == plaintext@.len() + 16
            &&& chacha_open(key@, nonce@, c@) == Some(plaintext@)
        },
{
    let cipher = chacha20poly1305::ChaCha20Poly1305::new(chacha20poly1305::Key::from_slice(key));
    cipher.encrypt(chacha20poly1305::Nonce::from_slice(nonce), plaintext)
}

/// Calls `Aead::decrypt` of `chacha20poly1305::ChaCha20Poly1305` (keyed with
/// `KeyInit::new`) with no associated data. Claimed: it succeeds exactly
/// when the cipher opens the ciphertext, and then returns that plaintext.
#[verifier::external_body]
pub(crate) fn chacha_decrypt(key: &[u8], nonce: &[u8], ciphertext: &[u8]) -> (res: Result<Vec<u8>, AeadError>)
    requires
        key@.len() == KEY_LEN,
        nonce@.len() == NONCE_LEN,
    ensures
        res is Ok <==> chacha_open(key@, nonce@, ciphertext@) is Some,
        res matches Ok(p) ==> chacha_open(key@, nonce@, ciphertext@) == Some(p@),
{
    let cipher = chacha20poly1305::ChaCha20Poly1305::new(chacha20poly1305::Key::from_slice(key));
    cipher.decrypt(chacha20poly1305::Nonce::from_slice(nonce), ciphertext)
}

/// Whether `ciphertext` is one of the ciphertexts that RSA PKCS#1 v1.5
/// encryption (`rsa::RsaPublicKey::encrypt` with `rsa::Pkcs1v15Encrypt`)
/// can produce for `msg` under the public key with modulus `n` and exponent
/// `e`, for some choice of its random padding.
pub uninterp spec fn rsa_pkcs1_sealed(n: Seq<u8>, e: Seq<u8>, msg: Seq<u8>, ciphertext: Seq<u8>) -> bool;

/// What RSA PKCS#1 v1.5 decryption (`rsa::RsaPrivateKey::decrypt` with
/// `rsa::Pkcs1v15Encrypt`, no blinding) gives for a ciphertext under the
/// private key built by `rsa::RsaPrivateKey::from_components` from the
/// modulus, the public and private exponents and the primes: the plaintext,
/// or `None` if the key is refused or decryption fails.
pub uninterp spec fn rsa_pkcs1_open(n: Seq<u8>, e: Seq<u8>, d: Seq<u8>, primes: Seq<Seq<u8>>, ciphertext: Seq<u8>) -> Option<Seq<u8>>;

/// Builds `rsa::RsaPublicKey::new` from the big-endian modulus and exponent
/// and calls its `encrypt` with `rsa::Pkcs1v15Encrypt` padding and
/// `rand::rngs::OsRng`. Claimed, as the source shows (`check_public`, the
/// 4096-bit limit of `new`, and `pkcs1v15_encrypt_pad`): it succeeds exactly
/// when the key is accepted and the message is at least 11 bytes shorter
/// than the modulus; the ciphertext is then as long as the modulus and is
/// one of the possible encryptions of the message. Which one depends on the
/// random padding.
#[verifier::external_body]
pub(crate) fn rsa_encrypt(n: &[u8], e: &[u8], msg: &[u8]) -> (res: Result<Vec<u8>, RsaError>)
    ensures
        res is Ok <==> (rsa_public_ok(n@, e@) && msg@.len() + 11 <= significant_len(n@)),
        res matches Ok(ct) ==> {
            &&& ct@.len() == significant_len(n@)
            &&& rsa_pkcs1_sealed(n@, e@, msg@, ct@)
        },
{
    let key = rsa::RsaPublicKey::new(rsa::BigUint::from_bytes_be(n), rsa::BigUint::from_bytes_be(e))?;
    key.encrypt(&mut rand::rngs::OsRng, rsa::Pkcs1v15Encrypt, msg)
}

/// Builds the private key with `rsa::RsaPrivateKey::from_components` from the
/// big-endian modulus, exponents and (at least two, so that no prime
/// recovery runs) primes, and calls its `decrypt` with
/// `rsa::Pkcs1v15Encrypt` padding. Claimed: it is deterministic; it
/// succeeds exactly when the named decryption does, and then returns that
/// plaintext.
#[verifier::external_body]
pub(crate) fn rsa_decrypt(n: &[u8], e: &[u8], d: &[u8], primes: &Vec<Vec<u8>>, ciphertext: &[u8]) -> (res: Result<Vec<u8>, RsaError>)
    requires
        primes@.len() >= 2,
    ensures
        res is Ok <==> rsa_pkcs1_open(n@, e@, d@, seqs_of(primes@), ciphertext@) is Some,
        res matches Ok(p) ==> rsa_pkcs1_open(n@, e@, d@, seqs_of(primes@), ciphertext@) == Some(p@),
{
    let primes: Vec<rsa::BigUint> = primes.iter().map(|p| rsa::BigUint::from_bytes_be(p)).collect();
    let key = rsa::RsaPrivateKey::from_components(
        rsa::BigUint::from_bytes_be(n),
        rsa::BigUint::from_bytes_be(e),
        rsa::BigUint::from_bytes_be(d),
        primes,
    )?;
    key.decrypt(rsa::Pkcs1v15Encrypt, ciphertext)
}

/// Calls `RngCore::fill_bytes` of `rand::rngs::OsRng` on the bytes of
/// `buf`. Claimed: the length stays; the bytes are random.
#[verifier::external_body]
pub(crate) fn fill_random(buf: &mut Vec<u8>)
    ensures
        final(buf)@.len() == old(buf)@.len(),
{
    rand::rngs::OsRng.fill_bytes(buf.as_mut_slice())
}

/// Calls `ToString::to_string` on a `rsa::Error` (its `Display` text).
/// Nothing is claimed of the text.
#[verifier::external_body]
pub(crate) fn rsa_error_text(e: &RsaError) -> (text: String) {
    e.to_string()
}

/// Calls `ToString::to_string` on a `chacha20poly1305::aead::Error` (its
/// `Display` text). Nothing is claimed of the text.
#[verifier::external_body]
pub(crate) fn aead_error_text(e: &AeadError) -> (text: String) {
    e.to_string()
}

/// Draws `n` random bytes.
pub fn random_bytes(n: usize) -> (out: Vec<u8>)
    ensures
        out@.len() == n,
{
    let mut out: Vec<u8> = vec![0u8; n];
    fill_random(&mut out);
    out
}

} // verus!

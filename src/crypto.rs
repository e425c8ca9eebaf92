//! At-rest envelope of the stored proxy list: a 12-byte random nonce
//! followed by the AES-256-GCM ciphertext.

use vstd::prelude::*;

use aes_gcm::aead::rand_core::RngCore;
use aes_gcm::aead::{Aead, KeyInit, OsRng};
use aes_gcm::{Aes256Gcm, Nonce};

verus! {

#[verifier::external_type_specification]
#[verifier::external_body]
pub struct ExIoError(std::io::Error);

/// Why sealing or opening an envelope failed.
#[derive(Debug)]
pub enum CryptoError {
    /// Reading or writing the key failed.
    Io(std::io::Error),
    /// Encryption or decryption failed, or the envelope is malformed.
    GcmError,
}

/// Length of the nonce that starts an envelope.
pub const NONCE_LEN: usize = 12;

/// Length of an AES-256 key.
pub const KEY_LEN: usize = 32;

/// The AES-256-GCM ciphertext (with tag) of `plaintext` under `key` and
/// `nonce`, or `None` where the cipher refuses it.
pub uninterp spec fn aes256_gcm_seal(key: Seq<u8>, nonce: Seq<u8>, plaintext: Seq<u8>) -> Option<Seq<u8>>;

/// The AES-256-GCM plaintext of `ciphertext` under `key` and `nonce`, or
/// `None` where authentication fails.
pub uninterp spec fn aes256_gcm_open(key: Seq<u8>, nonce: Seq<u8>, ciphertext: Seq<u8>) -> Option<Seq<u8>>;

/// Relies on `Aes256Gcm::new_from_slice` and `Aead::encrypt`: the
/// ciphertext of `plaintext`, a function of the key, nonce and plaintext.
#[verifier::external_body]
fn gcm_encrypt(key: &[u8], nonce: &[u8], plaintext: &[u8]) -> (r: Option<Vec<u8>>)
    requires
        key@.len() == KEY_LEN,
        nonce@.len() == NONCE_LEN,
    ensures
        match r {
            Some(c) => aes256_gcm_seal(key@, nonce@, plaintext@) == Some(c@),
            None => aes256_gcm_seal(key@, nonce@, plaintext@) is None,
        },
{
    let cipher = Aes256Gcm::new_from_slice(key).ok()?;
    cipher.encrypt(Nonce::from_slice(nonce), plaintext).ok()
}

/// Relies on `Aes256Gcm::new_from_slice` and `Aead::decrypt`: the plaintext
/// of `ciphertext`, or `None` where authentication fails.
#[verifier::external_body]
fn gcm_decrypt(key: &[u8], nonce: &[u8], ciphertext: &[u8]) -> (r: Option<Vec<u8>>)
    requires
        key@.len() == KEY_LEN,
        nonce@.len() == NONCE_LEN,
    ensures
        match r {
            Some(p) => aes256_gcm_open(key@, nonce@, ciphertext@) == Some(p@),
            None => aes256_gcm_open(key@, nonce@, ciphertext@) is None,
        },
{
    let cipher = Aes256Gcm::new_from_slice(key).ok()?;
    cipher.decrypt(Nonce::from_slice(nonce), ciphertext).ok()
}

/// Relies on `OsRng::try_fill_bytes`: twelve bytes from the operating
/// system's generator, or `None` when it fails.
#[verifier::external_body]
fn random_nonce() -> (r: Option<Vec<u8>>)
    ensures
        r matches Some(n) ==> n@.len() == NONCE_LEN,
{
    let mut n = [0u8; 12];
    OsRng.try_fill_bytes(&mut n).ok()?;
    Some(n.to_vec())
}

/// The key made of stored key bytes: the first 32 bytes, zero-padded when
/// fewer are stored.
pub open spec fn key_of(stored: Seq<u8>) -> Seq<u8> {
    Seq::new(KEY_LEN as nat, |i: int| if i < stored.len() { stored[i] } else { 0u8 })
}

/// The key made of stored key bytes.
pub fn key_from_bytes(stored: &[u8]) -> (r: Vec<u8>)
    ensures
        r@ == key_of(stored@),
{
    let mut key: Vec<u8> = Vec::new();
    let mut i: usize = 0;
    while i < KEY_LEN
        invariant
            i <= KEY_LEN,
            key@.len() == i,
            forall|j: int| 0 <= j < i ==> key@[j] == key_of(stored@)[j],
        decreases KEY_LEN - i,
    {
        if i < stored.len() {
            key.push(stored[i]);
        } else {
            key.push(0u8);
        }
        i = i + 1;
    }
    assert(key@ =~= key_of(stored@));
    key
}

/// The envelope of `plaintext` under `key` with the given `nonce`: the
/// nonce followed by the ciphertext.
pub fn seal_with_nonce(key: &[u8], nonce: &[u8], plaintext: &[u8]) -> (r: Result<Vec<u8>, CryptoError>)
    requires
        key@.len() == KEY_LEN,
        nonce@.len() == NONCE_LEN,
    ensures
        match aes256_gcm_seal(key@, nonce@, plaintext@) {
            Some(c) => r matches Ok(out) && out@ == nonce@ + c,
            None => r matches Err(CryptoError::GcmError),
        },
{
    match gcm_encrypt(key, nonce, plaintext) {
        Some(c) => {
            let mut out: Vec<u8> = Vec::new();
            let mut i: usize = 0;
            while i < nonce.len()
                invariant
                    i <= nonce@.len(),
                    out@ == nonce@.subrange(0, i as int),
                decreases nonce@.len() - i,
            {
                out.push(nonce[i]);
                i = i + 1;
                assert(out@ =~= nonce@.subrange(0, i as int));
            }
            let mut j: usize = 0;
            while j < c.len()
                invariant
                    j <= c@.len(),
                    out@ == nonce@ + c@.subrange(0, j as int),
                decreases c@.len() - j,
            {
                out.push(c[j]);
                j = j + 1;
                assert(out@ =~= nonce@ + c@.subrange(0, j as int));
            }
            assert(c@.subrange(0, c@.len() as int) =~= c@);
            assert(nonce@.subrange(0, nonce@.len() as int) =~= nonce@);
            Ok(out)
        },
        None => Err(CryptoError::GcmError),
    }
}

/// Encrypts `plaintext` under `key` with a fresh random nonce: the nonce
/// followed by the ciphertext.
pub fn encrypt_proxies(key: &[u8], plaintext: &[u8]) -> (r: Result<Vec<u8>, CryptoError>)
    requires
        key@.len() == KEY_LEN,
    ensures
        r matches Ok(out) ==> out@.len() >= NONCE_LEN && aes256_gcm_seal(
            key@,
            out@.subrange(0, NONCE_LEN as int),
            plaintext@,
        ) == Some(out@.subrange(NONCE_LEN as int, out@.len() as int)),
        r is Err ==> r matches Err(CryptoError::GcmError),
{
    match random_nonce() {
        Some(nonce) => {
            let r = seal_with_nonce(key, nonce.as_slice(), plaintext);
            proof {
                if r is Ok {
                    let out = r->Ok_0;
                    let c = aes256_gcm_seal(key@, nonce@, plaintext@)->0;
                    assert(out@.subrange(0, NONCE_LEN as int) =~= nonce@);
                    assert(out@.subrange(NONCE_LEN as int, out@.len() as int) =~= c);
                }
            }
            r
        },
        None => Err(CryptoError::GcmError),
    }
}

/// Opens an envelope: envelopes shorter than a nonce, and those whose
/// ciphertext fails authentication, are refused.
pub fn decrypt_proxies(key: &[u8], data: &[u8]) -> (r: Result<Vec<u8>, CryptoError>)
    requires
        key@.len() == KEY_LEN,
    ensures
        data@.len() < NONCE_LEN ==> r matches Err(CryptoError::GcmError),
        data@.len() >= NONCE_LEN ==> match aes256_gcm_open(
            key@,
            data@.subrange(0, NONCE_LEN as int),
            data@.subrange(NONCE_LEN as int, data@.len() as int),
        ) {
            Some(p) => r matches Ok(out) && out@ == p,
            None => r matches Err(CryptoError::GcmError),
        },
{
    if data.len() < NONCE_LEN {
        return Err(CryptoError::GcmError);
    }
    let (nonce, ciphertext) = data.split_at(NONCE_LEN);
    match gcm_decrypt(key, nonce, ciphertext) {
        Some(p) => Ok(p),
        None => Err(CryptoError::GcmError),
    }
}

} // verus!

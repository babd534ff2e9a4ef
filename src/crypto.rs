//! Sealing and opening whole buffers with AES-256-GCM.

use vstd::prelude::*;

use aes_gcm::aead::generic_array::GenericArray;
use aes_gcm::aead::{AeadCore, AeadInPlace, KeyInit, OsRng};
use aes_gcm::Aes256Gcm;

use crate::error::StashError;
use crate::secret::{wipe, Secret, KEY_LEN, NONCE_LEN};

verus! {

/// Length of the authentication tag appended to a sealed buffer.
pub const TAG_LEN: usize = 16;

/// The longest plaintext that AES-GCM seals, in bytes.
pub const MAX_PLAINTEXT_LEN: u64 = 68719476736;

/// What AES-256-GCM makes of `plain` under `key` and `nonce`, with empty
/// associated data: the ciphertext followed by the tag.
pub uninterp spec fn sealed(key: Seq<u8>, nonce: Seq<u8>, plain: Seq<u8>) -> Seq<u8>;

/// What AES-256-GCM recovers from `sealed` under `key` and `nonce`, with
/// empty associated data: the plaintext when the tag authenticates, nothing
/// otherwise.
pub uninterp spec fn opened(key: Seq<u8>, nonce: Seq<u8>, sealed: Seq<u8>) -> Option<Seq<u8>>;

#[verifier::external_type_specification]
#[verifier::external_body]
pub struct ExAeadError(aes_gcm::Error);

/// Relies on `KeyInit::generate_key` of `Aes256Gcm`, drawing from `OsRng`:
/// a fresh random key of 32 bytes.
#[verifier::external_body]
pub(crate) fn random_key() -> (r: Vec<u8>)
    ensures
        r@.len() == KEY_LEN,
{
    Aes256Gcm::generate_key(OsRng).to_vec()
}

/// Relies on `AeadCore::generate_nonce` of `Aes256Gcm`, drawing from
/// `OsRng`: a fresh random nonce of 12 bytes.
#[verifier::external_body]
pub(crate) fn random_nonce() -> (r: Vec<u8>)
    ensures
        r@.len() == NONCE_LEN,
{
    Aes256Gcm::generate_nonce(OsRng).to_vec()
}

/// Relies on `AeadInPlace::encrypt_in_place` of `Aes256Gcm`, with empty
/// associated data: it refuses a plaintext longer than 2^36 bytes and leaves
/// the buffer alone; otherwise it encrypts the buffer and appends the 16-byte
/// tag, and what it wrote opens under the same key and nonce to the plaintext.
#[verifier::external_body]
fn seal_in_place(key: &Vec<u8>, nonce: &Vec<u8>, buffer: &mut Vec<u8>) -> (r: Result<(), aes_gcm::Error>)
    requires
        key@.len() == KEY_LEN,
        nonce@.len() == NONCE_LEN,
    ensures
        r is Ok <==> old(buffer)@.len() <= MAX_PLAINTEXT_LEN,
        r is Ok ==> final(buffer)@ == sealed(key@, nonce@, old(buffer)@),
        r is Ok ==> final(buffer)@.len() == old(buffer)@.len() + TAG_LEN,
        r is Ok ==> opened(key@, nonce@, final(buffer)@) == Some(old(buffer)@),
        r is Err ==> final(buffer)@ == old(buffer)@,
{
    let cipher = Aes256Gcm::new(GenericArray::from_slice(key));
    cipher.encrypt_in_place(GenericArray::from_slice(nonce), b"", buffer)
}

/// Relies on `AeadInPlace::decrypt_in_place` of `Aes256Gcm`, with empty
/// associated data: when the trailing tag authenticates, the buffer becomes
/// the plaintext, 16 bytes shorter; otherwise, and always for a buffer
/// shorter than a tag, it fails and leaves the buffer alone.
#[verifier::external_body]
fn open_in_place(key: &Vec<u8>, nonce: &Vec<u8>, buffer: &mut Vec<u8>) -> (r: Result<(), aes_gcm::Error>)
    requires
        key@.len() == KEY_LEN,
        nonce@.len() == NONCE_LEN,
    ensures
        r is Ok <==> opened(key@, nonce@, old(buffer)@) is Some,
        r is Ok ==> opened(key@, nonce@, old(buffer)@) == Some(final(buffer)@),
        r is Ok ==> final(buffer)@.len() + TAG_LEN == old(buffer)@.len(),
        r is Err ==> final(buffer)@ == old(buffer)@,
        old(buffer)@.len() < TAG_LEN ==> r is Err,
{
    let cipher = Aes256Gcm::new(GenericArray::from_slice(key));
    cipher.decrypt_in_place(GenericArray::from_slice(nonce), b"", buffer)
}

/// Seals `buffer` in place under `secret`. What it leaves opens under the
/// same secret to the bytes it was given. A buffer too long for AES-GCM is left
/// alone and reported as a cipher failure.
pub fn encrypt(buffer: &mut Vec<u8>, secret: &Secret) -> (r: Result<(), StashError>)
    ensures
        r is Ok <==> old(buffer)@.len() <= MAX_PLAINTEXT_LEN,
        r is Ok ==> final(buffer)@ == sealed(secret@.0, secret@.1, old(buffer)@),
        r is Ok ==> final(buffer)@.len() == old(buffer)@.len() + TAG_LEN,
        r is Ok ==> opened(secret@.0, secret@.1, final(buffer)@) == Some(old(buffer)@),
        r is Err ==> r == Err::<(), StashError>(StashError::CryptoError) && final(buffer)@ == old(buffer)@,
{
    let (mut key, mut nonce) = secret.split();
    let sealed_ok = seal_in_place(&key, &nonce, buffer).is_ok();
    wipe(&mut key);
    wipe(&mut nonce);
    if sealed_ok {
        Ok(())
    } else {
        Err(StashError::CryptoError)
    }
}

/// Opens `buffer` in place under `secret`. A buffer whose tag does not
/// authenticate (a wrong secret, or altered bytes) is left alone and
/// reported as an authentication failure.
pub fn decrypt(buffer: &mut Vec<u8>, secret: &Secret) -> (r: Result<(), StashError>)
    ensures
        r is Ok <==> opened(secret@.0, secret@.1, old(buffer)@) is Some,
        r is Ok ==> opened(secret@.0, secret@.1, old(buffer)@) == Some(final(buffer)@),
        r is Ok ==> final(buffer)@.len() + TAG_LEN == old(buffer)@.len(),
        old(buffer)@.len() < TAG_LEN ==> r is Err,
        r is Err ==> r == Err::<(), StashError>(StashError::AuthenticationFailed) && final(buffer)@ == old(buffer)@,
{
    let (mut key, mut nonce) = secret.split();
    let opened_ok = open_in_place(&key, &nonce, buffer).is_ok();
    wipe(&mut key);
    wipe(&mut nonce);
    if opened_ok {
        Ok(())
    } else {
        Err(StashError::AuthenticationFailed)
    }
}

} // verus!

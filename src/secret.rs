use vstd::prelude::*;

use crate::crypto::{random_key, random_nonce};
use crate::error::StashError;

verus! {

/// Length of an AES-256 key, in bytes.
pub const KEY_LEN: usize = 32;

/// Length of an AES-GCM nonce, in bytes.
pub const NONCE_LEN: usize = 12;

/// Length of a stored secret blob: the key followed by the nonce.
pub const SECRET_LEN: usize = 44;

/// The stored form of a secret: its key followed by its nonce.
pub open spec fn secret_bytes(key: Seq<u8>, nonce: Seq<u8>) -> Seq<u8> {
    key + nonce
}

/// What a stored blob reads as: a key and a nonce when it has the length of
/// a secret, nothing otherwise.
pub open spec fn parse_secret(blob: Seq<u8>) -> Option<(Seq<u8>, Seq<u8>)> {
    if blob.len() == SECRET_LEN {
        Some((blob.subrange(0, KEY_LEN as int), blob.subrange(KEY_LEN as int, SECRET_LEN as int)))
    } else {
        None
    }
}

/// Whether a key and a nonce have the lengths that AES-256-GCM asks for.
pub open spec fn valid_secret(v: (Seq<u8>, Seq<u8>)) -> bool {
    v.0.len() == KEY_LEN && v.1.len() == NONCE_LEN
}

/// A key and a nonce for sealing one file.
#[derive(Debug)]
pub struct Secret {
    key: Vec<u8>,
    nonce: Vec<u8>,
}

impl View for Secret {
    type V = (Seq<u8>, Seq<u8>);

    closed spec fn view(&self) -> (Seq<u8>, Seq<u8>) {
        (self.key@, self.nonce@)
    }
}

/// A copy of `src[start..end]`.
fn copy_range(src: &[u8], start: usize, end: usize) -> (r: Vec<u8>)
    requires
        start <= end <= src@.len(),
    ensures
        r@ == src@.subrange(start as int, end as int),
{
    let mut r: Vec<u8> = Vec::new();
    let mut i: usize = start;
    while i < end
        invariant
            start <= i <= end <= src@.len(),
            r@ == src@.subrange(start as int, i as int),
        decreases end - i,
    {
        r.push(src[i]);
        i = i + 1;
    }
    r
}

/// Relies on `slice::fill`: every byte of the vector becomes zero, and its
/// length stays.
#[verifier::external_body]
fn zero_fill(bytes: &mut Vec<u8>)
    ensures
        final(bytes)@.len() == old(bytes)@.len(),
        forall|i: int| 0 <= i < final(bytes)@.len() ==> final(bytes)@[i] == 0,
    opens_invariants none
    no_unwind
{
    bytes.fill(0);
}

/// Relies on `std::hint::black_box`: the bytes count as read, so that the
/// writes before it are not dropped as dead stores.
#[verifier::external_body]
fn keep_written(bytes: &Vec<u8>)
    opens_invariants none
    no_unwind
{
    std::hint::black_box(bytes);
}

/// Overwrites every byte of `bytes` with zero, and keeps the writes.
pub(crate) fn wipe(bytes: &mut Vec<u8>)
    ensures
        final(bytes)@.len() == old(bytes)@.len(),
        forall|i: int| 0 <= i < final(bytes)@.len() ==> final(bytes)@[i] == 0,
    opens_invariants none
    no_unwind
{
    zero_fill(bytes);
    keep_written(bytes);
}

impl Secret {
    #[verifier::type_invariant]
    spec fn well_formed(&self) -> bool {
        self.key@.len() == KEY_LEN && self.nonce@.len() == NONCE_LEN
    }

    /// A fresh secret: a random key and a random nonce.
    pub fn new() -> (r: Secret)
        ensures
            valid_secret(r@),
    {
        Secret { key: random_key(), nonce: random_nonce() }
    }

    /// Reads a secret from its stored form: the first 32 bytes are the key,
    /// the last 12 the nonce. A blob of any other length than 44 bytes is
    /// corrupt.
    pub fn from(secret: &[u8]) -> (r: Result<Secret, StashError>)
        ensures
            match r {
                Ok(s) => parse_secret(secret@) == Some(s@),
                Err(e) => parse_secret(secret@) is None && e == StashError::CorruptSecret,
            },
    {
        if secret.len() != SECRET_LEN {
            return Err(StashError::CorruptSecret);
        }
        let key = copy_range(secret, 0, KEY_LEN);
        let nonce = copy_range(secret, KEY_LEN, SECRET_LEN);
        Ok(Secret { key, nonce })
    }

    /// The stored form of the secret: the key followed by the nonce.
    pub fn join(&self) -> (r: Vec<u8>)
        ensures
            r@ == secret_bytes(self@.0, self@.1),
            r@.len() == SECRET_LEN,
            valid_secret(self@),
    {
        proof {
            use_type_invariant(self);
        }
        let mut secret: Vec<u8> = Vec::with_capacity(SECRET_LEN);
        let mut i: usize = 0;
        while i < KEY_LEN
            invariant
                self.key@.len() == KEY_LEN,
                i <= KEY_LEN,
                secret@ == self.key@.subrange(0, i as int),
            decreases KEY_LEN - i,
        {
            secret.push(self.key[i]);
            i = i + 1;
        }
        let mut j: usize = 0;
        while j < NONCE_LEN
            invariant
                self.key@.len() == KEY_LEN,
                self.nonce@.len() == NONCE_LEN,
                j <= NONCE_LEN,
                secret@ == self.key@ + self.nonce@.subrange(0, j as int),
            decreases NONCE_LEN - j,
        {
            secret.push(self.nonce[j]);
            j = j + 1;
        }
        assert(self.key@.subrange(0, KEY_LEN as int) == self.key@);
        assert(self.nonce@.subrange(0, NONCE_LEN as int) == self.nonce@);
        secret
    }

    /// The key and the nonce, apart.
    pub fn split(&self) -> (r: (Vec<u8>, Vec<u8>))
        ensures
            r.0@ == self@.0,
            r.1@ == self@.1,
            valid_secret(self@),
    {
        proof {
            use_type_invariant(self);
        }
        (copy_range(self.key.as_slice(), 0, KEY_LEN), copy_range(self.nonce.as_slice(), 0, NONCE_LEN))
    }
}

impl Drop for Secret {
    /// Overwrites the key and the nonce before their memory is released.
    fn drop(&mut self)
        opens_invariants none
        no_unwind
    {
        proof {
            use_type_invariant(&*self);
        }
        wipe(&mut self.key);
        wipe(&mut self.nonce);
    }
}

/// Reading back the stored form of a secret gives the same key and nonce.
pub proof fn lemma_secret_round_trip(key: Seq<u8>, nonce: Seq<u8>)
    requires
        valid_secret((key, nonce)),
    ensures
        parse_secret(secret_bytes(key, nonce)) == Some((key, nonce)),
{
    let b = secret_bytes(key, nonce);
    assert(b.subrange(0, KEY_LEN as int) =~= key);
    assert(b.subrange(KEY_LEN as int, SECRET_LEN as int) =~= nonce);
}

} // verus!

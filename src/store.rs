//! The two tiers that hold secrets: a durable `sled` store, which is the
//! source of truth, and an optional mirror in the kernel's session keyring.

use vstd::prelude::*;

use linux_keyutils::{Key, KeyError, KeyRing, KeyRingIdentifier};
use vstd::utf8::encode_utf8;

use crate::error::StashError;
use crate::secret::{parse_secret, secret_bytes, valid_secret, wipe, Secret};

verus! {

#[verifier::external_type_specification]
#[verifier::external_body]
pub struct ExDb(sled::Db);

#[verifier::external_type_specification]
#[verifier::external_body]
pub struct ExSledError(sled::Error);

#[verifier::external_type_specification]
#[verifier::external_body]
pub struct ExKeyRing(KeyRing);

#[verifier::external_type_specification]
#[verifier::external_body]
pub struct ExKey(Key);

#[verifier::external_type_specification]
#[verifier::external_body]
pub struct ExKeyError(KeyError);

/// The key under which a description's secret is stored: its UTF-8 bytes.
pub open spec fn entry_key(description: Seq<char>) -> Seq<u8> {
    encode_utf8(description)
}

/// What a `sled` database holds: each key's bytes mapped to its value's bytes.
pub uninterp spec fn store_entries(db: sled::Db) -> Map<Seq<u8>, Seq<u8>>;

/// Relies on `sled::open`: opens the database at `path`, creating it when
/// absent.
#[verifier::external_body]
fn open_db(path: &str) -> (r: Result<sled::Db, sled::Error>) {
    sled::open(path)
}

/// Relies on `sled::Tree::insert`: on success the key maps to the value.
#[verifier::external_body]
fn db_insert(db: &mut sled::Db, key: &str, value: &Vec<u8>) -> (r: Result<(), sled::Error>)
    ensures
        r is Ok ==> store_entries(*final(db)) == store_entries(*old(db)).insert(
            entry_key(key@),
            value@,
        ),
{
    match db.insert(key.as_bytes(), value.as_slice()) {
        Ok(_) => Ok(()),
        Err(e) => Err(e),
    }
}

/// Relies on `sled::Tree::get`: on success, the value the key maps to, if any.
#[verifier::external_body]
fn db_get(db: &sled::Db, key: &str) -> (r: Result<Option<Vec<u8>>, sled::Error>)
    ensures
        r matches Ok(v) ==> (v is Some <==> store_entries(*db).contains_key(entry_key(key@))),
        r matches Ok(Some(v)) ==> v@ == store_entries(*db)[entry_key(key@)],
{
    match db.get(key.as_bytes()) {
        Ok(Some(v)) => Ok(Some(v.to_vec())),
        Ok(None) => Ok(None),
        Err(e) => Err(e),
    }
}

/// Relies on `sled::Tree::remove`: on success the key maps to nothing.
#[verifier::external_body]
fn db_remove(db: &mut sled::Db, key: &str) -> (r: Result<(), sled::Error>)
    ensures
        r is Ok ==> store_entries(*final(db)) == store_entries(*old(db)).remove(entry_key(key@)),
{
    match db.remove(key.as_bytes()) {
        Ok(_) => Ok(()),
        Err(e) => Err(e),
    }
}

/// Relies on `sled::Tree::is_empty`: it is true only when the first step of
/// an iteration finds no entry, so a true answer means the store is empty.
#[verifier::external_body]
fn db_is_empty(db: &sled::Db) -> (r: bool)
    ensures
        r ==> store_entries(*db) =~= Map::empty(),
{
    db.is_empty()
}

/// Relies on `KeyRing::from_special_id`: the session keyring, when it exists.
#[verifier::external_body]
fn session_keyring() -> (r: Result<KeyRing, KeyError>) {
    KeyRing::from_special_id(KeyRingIdentifier::Session, false)
}

/// Relies on `KeyRing::search`: a user key with this description.
#[verifier::external_body]
fn keyring_search(ring: &KeyRing, description: &str) -> (r: Result<Key, KeyError>) {
    ring.search(description)
}

/// Relies on `KeyRing::add_key`: adds or updates a user key.
#[verifier::external_body]
fn keyring_add(ring: &KeyRing, description: &str, payload: &Vec<u8>) -> (r: Result<(), KeyError>) {
    match ring.add_key(description, payload.as_slice()) {
        Ok(_) => Ok(()),
        Err(e) => Err(e),
    }
}

/// Relies on `Key::read_to_vec`: the key's payload.
#[verifier::external_body]
fn key_read(key: &Key) -> (r: Result<Vec<u8>, KeyError>) {
    key.read_to_vec()
}

/// Relies on `Key::invalidate`: hides the key from later searches.
#[verifier::external_body]
fn key_invalidate(key: &Key) -> (r: Result<(), KeyError>) {
    key.invalidate()
}

/// The blob that a lookup reads: the cached one when the cache had it,
/// else the stored one.
pub open spec fn chosen_blob(cached: Option<Seq<u8>>, stored: Option<Seq<u8>>) -> Option<Seq<u8>> {
    match cached {
        Some(c) => Some(c),
        None => stored,
    }
}

/// Turns what the two tiers returned into a secret. The cache takes
/// precedence; with neither, the secret is not found; a blob of the wrong
/// length is corrupt.
pub fn choose_secret(cached: Option<Vec<u8>>, stored: Option<Vec<u8>>) -> (r: Result<Secret, StashError>)
    ensures
        ({
            let blob = chosen_blob(
                match cached {
                    Some(c) => Some(c@),
                    None => None,
                },
                match stored {
                    Some(s) => Some(s@),
                    None => None,
                },
            );
            match r {
                Ok(s) => blob is Some && parse_secret(blob->Some_0) == Some(s@),
                Err(e) => (blob is None && e == StashError::NotFound) || (blob is Some && parse_secret(
                    blob->Some_0,
                ) is None && e == StashError::CorruptSecret),
            }
        }),
{
    match cached {
        Some(mut c) => {
            let r = Secret::from(c.as_slice());
            wipe(&mut c);
            r
        },
        None => match stored {
            Some(mut s) => {
                let r = Secret::from(s.as_slice());
                wipe(&mut s);
                r
            },
            None => Err(StashError::NotFound),
        },
    }
}

/// Whether `found` is an answer the durable store alone can give for
/// `key`: the secret stored there; or, short of a store failure, not found
/// when the store lacks the key, corrupt when its blob has the wrong length.
pub open spec fn answers_from_store(
    entries: Map<Seq<u8>, Seq<u8>>,
    key: Seq<u8>,
    found: Result<(Seq<u8>, Seq<u8>), StashError>,
) -> bool {
    match found {
        Ok(v) => entries.contains_key(key) && entries[key] == secret_bytes(v.0, v.1),
        Err(e) => e == StashError::IoError || if !entries.contains_key(key) {
            e == StashError::NotFound
        } else {
            parse_secret(entries[key]) is None && e == StashError::CorruptSecret
        },
    }
}

/// What a lookup that returned `r` found, as a key and a nonce.
pub open spec fn found_secret(r: Result<Secret, StashError>) -> Result<(Seq<u8>, Seq<u8>), StashError> {
    match r {
        Ok(s) => Ok(s@),
        Err(e) => Err(e),
    }
}

/// The secrets of a vault: a durable store, and when the session keyring
/// could be reached and was asked for, a cache in front of it.
pub struct SecretStore {
    db: sled::Db,
    cache: Option<KeyRing>,
}

impl SecretStore {
    /// The durable entries, by the bytes of their description.
    pub closed spec fn entries(&self) -> Map<Seq<u8>, Seq<u8>> {
        store_entries(self.db)
    }

    /// Whether the session keyring stands in front of the durable store.
    pub closed spec fn has_cache(&self) -> bool {
        self.cache is Some
    }

    /// Opens the durable store at `path`, creating it when absent. With
    /// `use_session_cache`, the session keyring is attached when it can be
    /// reached; without it, or when it cannot, secrets go to the durable
    /// store alone.
    pub fn open(path: &str, use_session_cache: bool) -> (r: Result<SecretStore, StashError>)
        ensures
            r matches Ok(s) ==> (s.has_cache() ==> use_session_cache),
            r matches Err(e) ==> e == StashError::IoError,
    {
        let db = match open_db(path) {
            Ok(db) => db,
            Err(_) => return Err(StashError::IoError),
        };
        let cache = if use_session_cache {
            match session_keyring() {
                Ok(ring) => Some(ring),
                Err(_) => None,
            }
        } else {
            None
        };
        Ok(SecretStore { db, cache })
    }

    /// Whether the durable store is known to hold no entry.
    pub fn is_empty(&self) -> (r: bool)
        ensures
            r ==> self.entries() =~= Map::empty(),
    {
        db_is_empty(&self.db)
    }

    /// Records `secret` under `description` in the durable store, then in
    /// the cache when there is one.
    pub fn put(&mut self, description: &str, secret: &Secret) -> (r: Result<(), StashError>)
        ensures
            final(self).has_cache() == old(self).has_cache(),
            r is Ok ==> final(self).entries() == old(self).entries().insert(
                entry_key(description@),
                secret_bytes(secret@.0, secret@.1),
            ),
            r matches Err(e) ==> e == StashError::IoError,
    {
        let mut blob = secret.join();
        let mut stored = db_insert(&mut self.db, description, &blob).is_ok();
        if stored {
            match &self.cache {
                Some(ring) => {
                    stored = keyring_add(ring, description, &blob).is_ok();
                },
                None => {},
            }
        }
        wipe(&mut blob);
        if stored {
            Ok(())
        } else {
            Err(StashError::IoError)
        }
    }

    /// Looks up the secret recorded under `description`: in the cache first,
    /// then in the durable store. With `consume`, a cached copy is
    /// invalidated once read. Without a cache, the answer is the durable
    /// store's.
    pub fn lookup(&self, description: &str, consume: bool) -> (r: Result<Secret, StashError>)
        ensures
            r matches Ok(s) ==> valid_secret(s@),
            r matches Ok(s) ==> self.has_cache() || (self.entries().contains_key(
                entry_key(description@),
            ) && self.entries()[entry_key(description@)] == secret_bytes(s@.0, s@.1)),
            !self.has_cache() ==> answers_from_store(
                self.entries(),
                entry_key(description@),
                found_secret(r),
            ),
            r matches Err(e) ==> e == StashError::NotFound || e == StashError::IoError || e
                == StashError::CorruptSecret,
    {
        match &self.cache {
            Some(ring) => {
                match keyring_search(ring, description) {
                    Ok(key) => {
                        let cached = match key_read(&key) {
                            Ok(bytes) => bytes,
                            Err(_) => return Err(StashError::IoError),
                        };
                        if consume && key_invalidate(&key).is_err() {
                            return Err(StashError::IoError);
                        }
                        return choose_secret(Some(cached), None);
                    },
                    Err(_) => {},
                }
            },
            None => {},
        }
        match db_get(&self.db, description) {
            Ok(stored) => {
                let r = choose_secret(None, stored);
                proof {
                    if r is Ok {
                        let k = entry_key(description@);
                        let b = self.entries()[k];
                        lemma_parsed_blob(b);
                    }
                }
                r
            },
            Err(_) => Err(StashError::IoError),
        }
    }

    /// Removes the entry for `description` from the durable store, then
    /// invalidates its cached copy when there is one.
    pub fn forget(&mut self, description: &str) -> (r: Result<(), StashError>)
        ensures
            final(self).has_cache() == old(self).has_cache(),
            r is Ok ==> final(self).entries() == old(self).entries().remove(entry_key(description@)),
            r matches Err(e) ==> e == StashError::IoError,
    {
        if db_remove(&mut self.db, description).is_err() {
            return Err(StashError::IoError);
        }
        match &self.cache {
            Some(ring) => match keyring_search(ring, description) {
                Ok(key) => {
                    if key_invalidate(&key).is_err() {
                        return Err(StashError::IoError);
                    }
                },
                Err(_) => {},
            },
            None => {},
        }
        Ok(())
    }
}

/// A blob that parses is the stored form of what it parses to.
proof fn lemma_parsed_blob(b: Seq<u8>)
    requires
        parse_secret(b) is Some,
    ensures
        valid_secret(parse_secret(b)->Some_0),
        secret_bytes(parse_secret(b)->Some_0.0, parse_secret(b)->Some_0.1) == b,
{
    let (k, n) = parse_secret(b)->Some_0;
    assert(k + n =~= b);
}

} // verus!

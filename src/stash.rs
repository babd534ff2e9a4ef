//! The vault: what each operation may do in the current state, and how its
//! outcome is recorded.
//!
//! Every operation comes in two steps. The decision step (`add`, `grab`,
//! `delete`, `list`, `archive`, `unpack`) takes what the caller found on
//! disk, refuses the request or hands back the secret to seal or open with.
//! The caller then moves, seals or opens the file. The finishing step
//! (`finish_add`, ...) records the outcome in the secret store and in the
//! archive state.

use vstd::prelude::*;

use vstd::string::StringExecFns;

use crate::error::StashError;
use crate::secret::{secret_bytes, valid_secret, Secret};
use crate::store::{answers_from_store, entry_key, found_secret, SecretStore};
use crate::text::{join_path, text_eq};

verus! {

/// Name of the sealed archive that stands for the whole vault while it is
/// archived.
pub const ARCHIVE_NAME: &'static str = "contents";

/// Name of the durable secret store inside the vault root.
pub const STORE_FILE: &'static str = ".db";

/// Name of a secret file that earlier vaults kept in their root.
pub const LEGACY_SECRET_FILE: &'static str = ".secret";

/// The last component of a path, as `std::path::Path::file_name` finds it.
pub uninterp spec fn file_name_of(path: Seq<char>) -> Option<Seq<char>>;

/// A string without its leading and trailing whitespace, as `str::trim`
/// leaves it.
pub uninterp spec fn trimmed(s: Seq<char>) -> Seq<char>;

/// Relies on `std::path::Path::file_name`: the last component of `path`,
/// none when the path ends in `..` or has no component.
#[verifier::external_body]
fn file_name(path: &str) -> (r: Option<String>)
    ensures
        match r {
            Some(n) => file_name_of(path@) == Some(n@),
            None => file_name_of(path@) is None,
        },
{
    match std::path::Path::new(path).file_name() {
        Some(name) => Some(name.to_string_lossy().into_owned()),
        None => None,
    }
}

/// Relies on `str::trim`: the string without leading and trailing
/// whitespace.
#[verifier::external_body]
fn trim(s: &str) -> (r: String)
    ensures
        r@ == trimmed(s@),
{
    s.trim().to_string()
}

/// Files of the program itself, which no request may remove or replace.
pub open spec fn is_program_file(name: Seq<char>) -> bool {
    name == STORE_FILE@ || name == LEGACY_SECRET_FILE@
}

/// What `add` decides once the entry name is known (none when the path
/// has no last component): the name under which the file enters the vault,
/// or the reason it may not. An existing destination is never replaced.
pub open spec fn add_decision(
    archived: bool,
    name: Option<Seq<char>>,
    vault_exists: bool,
    source_is_dir: bool,
    target_exists: bool,
) -> Result<Seq<char>, StashError> {
    if !vault_exists {
        Err(StashError::NotFound)
    } else if archived {
        Err(StashError::InvalidInput)
    } else if source_is_dir {
        Err(StashError::InvalidInput)
    } else {
        match name {
            None => Err(StashError::InvalidInput),
            Some(n) => if target_exists {
                Err(StashError::AlreadyExists)
            } else if is_program_file(n) || n == ARCHIVE_NAME@ {
                Err(StashError::InvalidInput)
            } else {
                Ok(n)
            },
        }
    }
}

/// What `add` decides for the path `file`: as `add_decision`, with the last
/// component of `file` as the entry name.
pub open spec fn add_outcome(
    archived: bool,
    file: Seq<char>,
    vault_exists: bool,
    source_is_dir: bool,
    target_exists: bool,
) -> Result<Seq<char>, StashError> {
    add_decision(archived, file_name_of(file), vault_exists, source_is_dir, target_exists)
}

/// Why `grab` refuses before it looks for the secret, if it does.
pub open spec fn grab_refusal(
    archived: bool,
    file: Seq<char>,
    copy: bool,
    vault_exists: bool,
    target_exists: bool,
) -> Option<StashError> {
    if !vault_exists {
        Some(StashError::NotFound)
    } else if archived && !copy && file != ARCHIVE_NAME@ {
        Some(StashError::InvalidInput)
    } else if target_exists {
        Some(StashError::AlreadyExists)
    } else {
        None
    }
}

/// Why `delete` refuses, if it does.
pub open spec fn delete_refusal(
    archived: bool,
    file: Seq<char>,
    vault_exists: bool,
    target_exists: bool,
) -> Option<StashError> {
    if !vault_exists {
        Some(StashError::NotFound)
    } else if archived && file != ARCHIVE_NAME@ {
        Some(StashError::InvalidInput)
    } else if is_program_file(file) {
        Some(StashError::InvalidInput)
    } else if !target_exists {
        Some(StashError::NotFound)
    } else {
        None
    }
}

/// Why `archive` refuses, if it does, given whether the store is empty.
pub open spec fn archive_refusal(archived: bool, vault_exists: bool, store_empty: bool) -> Option<
    StashError,
> {
    if !vault_exists {
        Some(StashError::NotFound)
    } else if archived {
        Some(StashError::InvalidInput)
    } else if store_empty {
        Some(StashError::InvalidInput)
    } else {
        None
    }
}

/// Why `unpack` refuses before it looks for the secret, if it does.
pub open spec fn unpack_refusal(archived: bool, vault_exists: bool) -> Option<StashError> {
    if !vault_exists {
        Some(StashError::NotFound)
    } else if !archived {
        Some(StashError::InvalidInput)
    } else {
        None
    }
}

/// Whether `name` is one of the program's own files.
fn program_file(name: &str) -> (r: bool)
    ensures
        r == is_program_file(name@),
{
    text_eq(name, STORE_FILE) || text_eq(name, LEGACY_SECRET_FILE)
}

/// One file on its way into or out of the vault: its name in the vault
/// root, whether the source stays where it is, and the secret it is sealed
/// or opened with.
#[derive(Debug)]
pub struct Transfer {
    pub name: String,
    pub copy: bool,
    pub secret: Secret,
}

/// A vault rooted in a directory, with its secret store.
pub struct Stash {
    path: String,
    is_archived: bool,
    store: SecretStore,
}

impl Stash {
    /// The vault root.
    pub closed spec fn root(&self) -> Seq<char> {
        self.path@
    }

    /// Whether the vault is collapsed into its archive.
    pub closed spec fn archived(&self) -> bool {
        self.is_archived
    }

    /// The durable secret entries, by the bytes of their description.
    pub closed spec fn entries(&self) -> Map<Seq<u8>, Seq<u8>> {
        self.store.entries()
    }

    /// Whether the session keyring caches secrets in front of the store.
    pub closed spec fn has_cache(&self) -> bool {
        self.store.has_cache()
    }

    /// Opens the vault rooted at `root`, whose archive is present or not,
    /// with its durable store in the root (created when absent). With
    /// `use_session_cache`, secrets are mirrored in the session keyring when
    /// it can be reached.
    pub fn new(root: &str, archive_present: bool, use_session_cache: bool) -> (r: Result<Stash, StashError>)
        ensures
            r matches Ok(s) ==> s.root() == root@ && s.archived() == archive_present && (s.has_cache()
                ==> use_session_cache),
            r matches Err(e) ==> e == StashError::IoError,
    {
        let db_path = join_path(root, STORE_FILE);
        let store = match SecretStore::open(db_path.as_str(), use_session_cache) {
            Ok(store) => store,
            Err(e) => return Err(e),
        };
        Ok(Stash { path: String::from_str(root), is_archived: archive_present, store })
    }

    /// The vault root.
    pub fn path(&self) -> (r: &str)
        ensures
            r@ == self.root(),
    {
        self.path.as_str()
    }

    /// Whether the vault is collapsed into its archive.
    pub fn is_archived(&self) -> (r: bool)
        ensures
            r == self.archived(),
    {
        self.is_archived
    }

    /// The name under which `file` would enter the vault: its last path
    /// component.
    pub fn entry_name(file: &str) -> (r: Option<String>)
        ensures
            match r {
                Some(n) => file_name_of(file@) == Some(n@),
                None => file_name_of(file@) is None,
            },
    {
        file_name(file)
    }
    /// Decides whether `file` may enter the vault, given whether the vault
    /// root exists, whether `file` is a directory, and whether the vault
    /// already holds an entry of the name that `entry_name` gives. When it
    /// may, hands back that name and a fresh secret to seal the file with.
    pub fn add(
        &self,
        file: &str,
        copy: bool,
        vault_exists: bool,
        source_is_dir: bool,
        target_exists: bool,
    ) -> (r: Result<Transfer, StashError>)
        ensures
            match r {
                Ok(t) => add_outcome(self.archived(), file@, vault_exists, source_is_dir, target_exists)
                    == Ok::<Seq<char>, StashError>(t.name@) && t.copy == copy && valid_secret(
                    t.secret@,
                ),
                Err(e) => add_outcome(
                    self.archived(),
                    file@,
                    vault_exists,
                    source_is_dir,
                    target_exists,
                ) == Err::<Seq<char>, StashError>(e),
            },
    {
        self.add_named(file_name(file), copy, vault_exists, source_is_dir, target_exists)
    }

    /// Decides as `add` does, given the entry name instead of the path:
    /// `None` when the path has no last component.
    pub fn add_named(
        &self,
        name: Option<String>,
        copy: bool,
        vault_exists: bool,
        source_is_dir: bool,
        target_exists: bool,
    ) -> (r: Result<Transfer, StashError>)
        ensures
            ({
                let n = match name {
                    Some(n) => Some(n@),
                    None => None,
                };
                match r {
                    Ok(t) => add_decision(self.archived(), n, vault_exists, source_is_dir, target_exists)
                        == Ok::<Seq<char>, StashError>(t.name@) && t.copy == copy && valid_secret(
                        t.secret@,
                    ),
                    Err(e) => add_decision(
                        self.archived(),
                        n,
                        vault_exists,
                        source_is_dir,
                        target_exists,
                    ) == Err::<Seq<char>, StashError>(e),
                }
            }),
    {
        if !vault_exists {
            return Err(StashError::NotFound);
        }
        if self.is_archived || source_is_dir {
            return Err(StashError::InvalidInput);
        }
        let name = match name {
            Some(name) => name,
            None => return Err(StashError::InvalidInput),
        };
        if target_exists {
            return Err(StashError::AlreadyExists);
        }
        if program_file(name.as_str()) || text_eq(name.as_str(), ARCHIVE_NAME) {
            return Err(StashError::InvalidInput);
        }
        Ok(Transfer { name, copy, secret: Secret::new() })
    }

    /// Records the secret of a file that has entered the vault and been
    /// sealed.
    pub fn finish_add(&mut self, added: &Transfer) -> (r: Result<(), StashError>)
        ensures
            final(self).root() == old(self).root(),
            final(self).archived() == old(self).archived(),
            final(self).has_cache() == old(self).has_cache(),
            r is Ok ==> final(self).entries() == old(self).entries().insert(
                entry_key(added.name@),
                secret_bytes(added.secret@.0, added.secret@.1),
            ),
            r matches Err(e) ==> e == StashError::IoError,
    {
        self.store.put(added.name.as_str(), &added.secret)
    }

    /// Decides whether `file` may leave the vault (or be copied out of it),
    /// given whether the vault root exists and whether the destination is
    /// taken. When it may, looks up its secret, the cached copy first; a
    /// move consumes the cached copy.
    pub fn grab(&self, file: &str, copy: bool, vault_exists: bool, target_exists: bool) -> (r: Result<
        Transfer,
        StashError,
    >)
        ensures
            grab_refusal(self.archived(), file@, copy, vault_exists, target_exists) matches Some(e)
                ==> r == Err::<Transfer, StashError>(e),
            r matches Ok(t) ==> t.name@ == file@ && t.copy == copy && valid_secret(t.secret@),
            r matches Ok(t) ==> self.has_cache() || (self.entries().contains_key(entry_key(file@))
                && self.entries()[entry_key(file@)] == secret_bytes(t.secret@.0, t.secret@.1)),
            grab_refusal(self.archived(), file@, copy, vault_exists, target_exists) is None
                && !self.has_cache() ==> answers_from_store(
                self.entries(),
                entry_key(file@),
                match r {
                    Ok(t) => Ok(t.secret@),
                    Err(e) => Err(e),
                },
            ),
            grab_refusal(self.archived(), file@, copy, vault_exists, target_exists) is None ==> (
            r matches Err(e) ==> e == StashError::NotFound || e == StashError::IoError || e
                == StashError::CorruptSecret),
    {
        if !vault_exists {
            return Err(StashError::NotFound);
        }
        if self.is_archived && !copy && !text_eq(file, ARCHIVE_NAME) {
            return Err(StashError::InvalidInput);
        }
        if target_exists {
            return Err(StashError::AlreadyExists);
        }
        match self.store.lookup(file, !copy) {
            Ok(secret) => Ok(Transfer { name: String::from_str(file), copy, secret }),
            Err(e) => Err(e),
        }
    }

    /// Records that a file has left the vault: a move drops its secret, and
    /// moving the archive out leaves the vault unarchived. A copy changes
    /// nothing.
    pub fn finish_grab(&mut self, grabbed: &Transfer) -> (r: Result<(), StashError>)
        ensures
            final(self).root() == old(self).root(),
            final(self).has_cache() == old(self).has_cache(),
            grabbed.copy ==> r is Ok && final(self).entries() == old(self).entries()
                && final(self).archived() == old(self).archived(),
            !grabbed.copy && r is Ok ==> final(self).entries() == old(self).entries().remove(
                entry_key(grabbed.name@),
            ) && final(self).archived() == (old(self).archived() && grabbed.name@ != ARCHIVE_NAME@),
            r matches Err(e) ==> e == StashError::IoError && final(self).archived() == old(
                self,
            ).archived(),
    {
        if grabbed.copy {
            return Ok(());
        }
        let r = self.store.forget(grabbed.name.as_str());
        if r.is_ok() && text_eq(grabbed.name.as_str(), ARCHIVE_NAME) {
            self.is_archived = false;
        }
        r
    }

    /// Decides whether `file` may be deleted, given whether the vault root
    /// exists and whether the vault holds `file`.
    pub fn delete(&self, file: &str, vault_exists: bool, target_exists: bool) -> (r: Result<
        (),
        StashError,
    >)
        ensures
            r == match delete_refusal(self.archived(), file@, vault_exists, target_exists) {
                Some(e) => Err::<(), StashError>(e),
                None => Ok(()),
            },
    {
        if !vault_exists {
            return Err(StashError::NotFound);
        }
        if self.is_archived && !text_eq(file, ARCHIVE_NAME) {
            return Err(StashError::InvalidInput);
        }
        if program_file(file) {
            return Err(StashError::InvalidInput);
        }
        if !target_exists {
            return Err(StashError::NotFound);
        }
        Ok(())
    }

    /// Records that `file` has been deleted from the vault: its secret goes
    /// from both tiers, and deleting the archive leaves the vault
    /// unarchived.
    pub fn finish_delete(&mut self, file: &str) -> (r: Result<(), StashError>)
        ensures
            final(self).root() == old(self).root(),
            final(self).has_cache() == old(self).has_cache(),
            r is Ok ==> final(self).entries() == old(self).entries().remove(entry_key(file@))
                && final(self).archived() == (old(self).archived() && file@ != ARCHIVE_NAME@),
            r matches Err(e) ==> e == StashError::IoError && final(self).archived() == old(
                self,
            ).archived(),
    {
        let r = self.store.forget(file);
        if r.is_ok() && text_eq(file, ARCHIVE_NAME) {
            self.is_archived = false;
        }
        r
    }

    /// Decides whether the vault may be listed, given whether its root
    /// exists, and gives the listing without surrounding whitespace.
    pub fn list(&self, vault_exists: bool, listing: &str) -> (r: Result<String, StashError>)
        ensures
            vault_exists <==> r is Ok,
            r matches Ok(s) ==> s@ == trimmed(listing@),
            r matches Err(e) ==> e == StashError::NotFound,
    {
        if !vault_exists {
            return Err(StashError::NotFound);
        }
        Ok(trim(listing))
    }

    /// Decides whether the vault may be collapsed into its archive, given
    /// whether its root exists. It may not when it is archived already or
    /// holds nothing. When it may, hands back a fresh secret to seal the
    /// archive with.
    pub fn archive(&self, vault_exists: bool) -> (r: Result<Secret, StashError>)
        ensures
            archive_refusal(self.archived(), vault_exists, false) matches Some(e) ==> r == Err::<
                Secret,
                StashError,
            >(e),
            r is Ok ==> archive_refusal(self.archived(), vault_exists, false) is None,
            archive_refusal(self.archived(), vault_exists, false) is None && self.entries()
                != Map::<Seq<u8>, Seq<u8>>::empty() ==> r is Ok,
            r matches Ok(s) ==> valid_secret(s@),
            r matches Err(e) ==> archive_refusal(self.archived(), vault_exists, false) == Some(e)
                || archive_refusal(self.archived(), vault_exists, true) == Some(e),
    {
        if !vault_exists {
            return Err(StashError::NotFound);
        }
        if self.is_archived {
            return Err(StashError::InvalidInput);
        }
        if self.store.is_empty() {
            return Err(StashError::InvalidInput);
        }
        Ok(Secret::new())
    }

    /// Records the secret of the sealed archive; the vault is archived.
    pub fn finish_archive(&mut self, secret: &Secret) -> (r: Result<(), StashError>)
        ensures
            final(self).root() == old(self).root(),
            final(self).has_cache() == old(self).has_cache(),
            r is Ok ==> final(self).entries() == old(self).entries().insert(
                entry_key(ARCHIVE_NAME@),
                secret_bytes(secret@.0, secret@.1),
            ) && final(self).archived(),
            r matches Err(e) ==> e == StashError::IoError && final(self).archived() == old(
                self,
            ).archived(),
    {
        let r = self.store.put(ARCHIVE_NAME, secret);
        if r.is_ok() {
            self.is_archived = true;
        }
        r
    }

    /// Decides whether the archive may be unpacked, given whether the vault
    /// root exists. When it may, looks up the archive's secret, consuming a
    /// cached copy.
    pub fn unpack(&self, vault_exists: bool) -> (r: Result<Secret, StashError>)
        ensures
            unpack_refusal(self.archived(), vault_exists) matches Some(e) ==> r == Err::<
                Secret,
                StashError,
            >(e),
            r matches Ok(s) ==> valid_secret(s@) && (self.has_cache() || (self.entries().contains_key(
                entry_key(ARCHIVE_NAME@),
            ) && self.entries()[entry_key(ARCHIVE_NAME@)] == secret_bytes(s@.0, s@.1))),
            unpack_refusal(self.archived(), vault_exists) is None && !self.has_cache()
                ==> answers_from_store(self.entries(), entry_key(ARCHIVE_NAME@), found_secret(r)),
            unpack_refusal(self.archived(), vault_exists) is None ==> (r matches Err(e) ==> e
                == StashError::NotFound || e == StashError::IoError || e == StashError::CorruptSecret),
    {
        if !vault_exists {
            return Err(StashError::NotFound);
        }
        if !self.is_archived {
            return Err(StashError::InvalidInput);
        }
        self.store.lookup(ARCHIVE_NAME, true)
    }

    /// Records that the archive has been opened, extracted and removed: its
    /// secret goes and the vault is unarchived.
    pub fn finish_unpack(&mut self) -> (r: Result<(), StashError>)
        ensures
            final(self).root() == old(self).root(),
            final(self).has_cache() == old(self).has_cache(),
            r is Ok ==> final(self).entries() == old(self).entries().remove(entry_key(ARCHIVE_NAME@))
                && !final(self).archived(),
            r matches Err(e) ==> e == StashError::IoError && final(self).archived() == old(
                self,
            ).archived(),
    {
        let r = self.store.forget(ARCHIVE_NAME);
        if r.is_ok() {
            self.is_archived = false;
        }
        r
    }
}

/// Recording a secret under a description that the store lacks and then
/// dropping that description leaves the durable store as it was: so
/// `finish_add` followed by a moving `finish_grab`, or `finish_archive`
/// followed by `finish_unpack`.
pub proof fn lemma_record_then_drop(entries: Map<Seq<u8>, Seq<u8>>, name: Seq<char>, blob: Seq<u8>)
    requires
        !entries.contains_key(entry_key(name)),
    ensures
        entries.insert(entry_key(name), blob).remove(entry_key(name)) == entries,
{
    assert(entries.insert(entry_key(name), blob).remove(entry_key(name)) =~= entries);
}

} // verus!

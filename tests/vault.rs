use stash::crypto::{decrypt, encrypt};
use stash::secret::Secret;
use stash::stash::{Transfer, ARCHIVE_NAME};
use stash::store::choose_secret;
use stash::{Stash, StashError};
use tempfile::TempDir;

fn open_vault(dir: &TempDir, archived: bool) -> Stash {
    Stash::new(dir.path().to_str().unwrap(), archived, false).unwrap()
}

/// Seals `plain` into the vault under the name `file` resolves to, as the
/// caller does between the two steps of `add`.
fn add_file(stash: &mut Stash, file: &str, plain: &[u8]) -> (Transfer, Vec<u8>) {
    let added = stash.add(file, false, true, false, false).unwrap();
    let mut buffer = plain.to_vec();
    encrypt(&mut buffer, &added.secret).unwrap();
    stash.finish_add(&added).unwrap();
    (added, buffer)
}

#[test]
fn choose_secret_prefers_the_cache() {
    let cached = vec![1u8; 44];
    let stored = vec![2u8; 44];
    let secret = choose_secret(Some(cached.clone()), Some(stored)).unwrap();
    assert_eq!(secret.join(), cached);
}

#[test]
fn choose_secret_falls_back_to_the_store() {
    let stored: Vec<u8> = (0u8..44).collect();
    let secret = choose_secret(None, Some(stored.clone())).unwrap();
    assert_eq!(secret.join(), stored);
}

#[test]
fn choose_secret_with_neither_tier_is_not_found() {
    assert_eq!(choose_secret(None, None).unwrap_err(), StashError::NotFound);
}

#[test]
fn choose_secret_with_corrupt_cache_entry() {
    let r = choose_secret(Some(vec![1u8; 10]), Some(vec![2u8; 44]));
    assert_eq!(r.unwrap_err(), StashError::CorruptSecret);
}

#[test]
fn entry_name_is_the_last_component() {
    assert_eq!(Stash::entry_name("note.txt"), Some("note.txt".to_string()));
    assert_eq!(Stash::entry_name("some/dir/note.txt"), Some("note.txt".to_string()));
    assert_eq!(Stash::entry_name("some/dir/"), Some("dir".to_string()));
    assert_eq!(Stash::entry_name(".."), None);
    assert_eq!(Stash::entry_name("/"), None);
}

#[test]
fn new_vault_reports_its_root_and_state() {
    let dir = TempDir::new().unwrap();
    let root = dir.path().to_str().unwrap();
    let stash = Stash::new(root, false, false).unwrap();
    assert_eq!(stash.path(), root);
    assert!(!stash.is_archived());
    let archived = TempDir::new().unwrap();
    assert!(open_vault(&archived, true).is_archived());
}

#[test]
fn add_on_empty_vault_records_the_secret() {
    let dir = TempDir::new().unwrap();
    let mut stash = open_vault(&dir, false);
    let (added, sealed) = add_file(&mut stash, "note.txt", b"Sample text");
    assert_eq!(added.name, "note.txt");
    assert!(!added.copy);
    let found = stash.grab("note.txt", true, true, false).unwrap();
    assert_eq!(found.secret.join(), added.secret.join());
    let mut buffer = sealed;
    decrypt(&mut buffer, &found.secret).unwrap();
    assert_eq!(buffer, b"Sample text".to_vec());
}

#[test]
fn add_from_a_path_enters_under_its_file_name() {
    let dir = TempDir::new().unwrap();
    let mut stash = open_vault(&dir, false);
    let added = stash.add("/home/user/docs/note.txt", true, true, false, false).unwrap();
    assert_eq!(added.name, "note.txt");
    assert!(added.copy);
}

#[test]
fn add_then_grab_move_restores_bytes_and_drops_secret() {
    let dir = TempDir::new().unwrap();
    let mut stash = open_vault(&dir, false);
    let (_, sealed) = add_file(&mut stash, "note.txt", b"Sample text");
    let grabbed = stash.grab("note.txt", false, true, false).unwrap();
    let mut buffer = sealed;
    decrypt(&mut buffer, &grabbed.secret).unwrap();
    assert_eq!(buffer, b"Sample text".to_vec());
    stash.finish_grab(&grabbed).unwrap();
    assert_eq!(stash.grab("note.txt", false, true, false).unwrap_err(), StashError::NotFound);
}

#[test]
fn grab_copy_keeps_the_secret() {
    let dir = TempDir::new().unwrap();
    let mut stash = open_vault(&dir, false);
    let (added, _) = add_file(&mut stash, "a.txt", b"abc");
    let grabbed = stash.grab("a.txt", true, true, false).unwrap();
    stash.finish_grab(&grabbed).unwrap();
    let again = stash.grab("a.txt", true, true, false).unwrap();
    assert_eq!(again.secret.join(), added.secret.join());
}

#[test]
fn add_while_archived_is_refused() {
    let dir = TempDir::new().unwrap();
    let stash = open_vault(&dir, true);
    let r = stash.add("note.txt", false, true, false, false);
    assert_eq!(r.unwrap_err(), StashError::InvalidInput);
    assert!(stash.is_archived());
}

#[test]
fn add_refusals() {
    let dir = TempDir::new().unwrap();
    let stash = open_vault(&dir, false);
    assert_eq!(stash.add("a.txt", false, false, false, false).unwrap_err(), StashError::NotFound);
    assert_eq!(stash.add("docs", false, true, true, false).unwrap_err(), StashError::InvalidInput);
    assert_eq!(stash.add("..", false, true, false, false).unwrap_err(), StashError::InvalidInput);
    assert_eq!(stash.add("a.txt", false, true, false, true).unwrap_err(), StashError::AlreadyExists);
    assert_eq!(stash.add("x/contents", false, true, false, false).unwrap_err(), StashError::InvalidInput);
    assert_eq!(stash.add(".db", false, true, false, false).unwrap_err(), StashError::InvalidInput);
}

#[test]
fn add_onto_existing_reserved_name_is_already_exists() {
    let dir = TempDir::new().unwrap();
    let stash = open_vault(&dir, false);
    assert_eq!(stash.add(".db", false, true, false, true).unwrap_err(), StashError::AlreadyExists);
    assert_eq!(stash.add("x/contents", true, true, false, true).unwrap_err(), StashError::AlreadyExists);
}

#[test]
fn add_named_decides_on_the_given_name() {
    let dir = TempDir::new().unwrap();
    let stash = open_vault(&dir, false);
    let added = stash.add_named(Some("a.txt".to_string()), true, true, false, false).unwrap();
    assert_eq!(added.name, "a.txt");
    assert!(added.copy);
    assert_eq!(stash.add_named(None, false, true, false, false).unwrap_err(), StashError::InvalidInput);
    assert_eq!(stash.add_named(Some("a.txt".to_string()), false, true, false, true).unwrap_err(), StashError::AlreadyExists);
    assert_eq!(stash.add_named(Some(".secret".to_string()), false, true, false, false).unwrap_err(), StashError::InvalidInput);
    assert_eq!(stash.add_named(Some("contents".to_string()), false, true, false, false).unwrap_err(), StashError::InvalidInput);
    assert_eq!(stash.add_named(Some("a.txt".to_string()), false, true, true, false).unwrap_err(), StashError::InvalidInput);
    assert_eq!(stash.add_named(Some("a.txt".to_string()), false, false, false, false).unwrap_err(), StashError::NotFound);
    let archived_dir = TempDir::new().unwrap();
    let archived = open_vault(&archived_dir, true);
    assert_eq!(archived.add_named(Some("a.txt".to_string()), false, true, false, false).unwrap_err(), StashError::InvalidInput);
}

#[test]
fn grab_refusals() {
    let dir = TempDir::new().unwrap();
    let stash = open_vault(&dir, false);
    assert_eq!(stash.grab("a.txt", false, false, false).unwrap_err(), StashError::NotFound);
    assert_eq!(stash.grab("a.txt", false, true, true).unwrap_err(), StashError::AlreadyExists);
    assert_eq!(stash.grab("a.txt", false, true, false).unwrap_err(), StashError::NotFound);
    let archived_dir = TempDir::new().unwrap();
    let archived = open_vault(&archived_dir, true);
    assert_eq!(archived.grab("a.txt", false, true, false).unwrap_err(), StashError::InvalidInput);
    assert_eq!(archived.grab("a.txt", true, true, false).unwrap_err(), StashError::NotFound);
}

#[test]
fn archive_twice_is_refused() {
    let dir = TempDir::new().unwrap();
    let mut stash = open_vault(&dir, false);
    add_file(&mut stash, "one.txt", b"1");
    add_file(&mut stash, "two.txt", b"2");
    let secret = stash.archive(true).unwrap();
    stash.finish_archive(&secret).unwrap();
    assert!(stash.is_archived());
    assert_eq!(stash.archive(true).unwrap_err(), StashError::InvalidInput);
}

#[test]
fn archive_of_empty_vault_is_refused() {
    let dir = TempDir::new().unwrap();
    let stash = open_vault(&dir, false);
    assert_eq!(stash.archive(true).unwrap_err(), StashError::InvalidInput);
    assert_eq!(stash.archive(false).unwrap_err(), StashError::NotFound);
}

#[test]
fn archive_then_unpack_restores_the_archive_bytes() {
    let dir = TempDir::new().unwrap();
    let mut stash = open_vault(&dir, false);
    add_file(&mut stash, "one.txt", b"1");
    let secret = stash.archive(true).unwrap();
    let container = b"archive of one.txt".to_vec();
    let mut sealed = container.clone();
    encrypt(&mut sealed, &secret).unwrap();
    stash.finish_archive(&secret).unwrap();
    assert!(stash.is_archived());

    let opened_with = stash.unpack(true).unwrap();
    assert_eq!(opened_with.join(), secret.join());
    decrypt(&mut sealed, &opened_with).unwrap();
    assert_eq!(sealed, container);
    stash.finish_unpack().unwrap();
    assert!(!stash.is_archived());
    assert_eq!(stash.unpack(true).unwrap_err(), StashError::InvalidInput);
    assert_eq!(stash.grab(ARCHIVE_NAME, true, true, false).unwrap_err(), StashError::NotFound);
}

#[test]
fn unpack_refusals() {
    let dir = TempDir::new().unwrap();
    let stash = open_vault(&dir, false);
    assert_eq!(stash.unpack(false).unwrap_err(), StashError::NotFound);
    assert_eq!(stash.unpack(true).unwrap_err(), StashError::InvalidInput);
    let archived_dir = TempDir::new().unwrap();
    let archived = open_vault(&archived_dir, true);
    assert_eq!(archived.unpack(true).unwrap_err(), StashError::NotFound);
}

#[test]
fn grab_move_of_archive_unarchives() {
    let dir = TempDir::new().unwrap();
    let mut stash = open_vault(&dir, false);
    add_file(&mut stash, "one.txt", b"1");
    let secret = stash.archive(true).unwrap();
    stash.finish_archive(&secret).unwrap();
    let grabbed = stash.grab(ARCHIVE_NAME, false, true, false).unwrap();
    assert_eq!(grabbed.secret.join(), secret.join());
    stash.finish_grab(&grabbed).unwrap();
    assert!(!stash.is_archived());
}

#[test]
fn delete_store_file_is_refused() {
    let dir = TempDir::new().unwrap();
    let stash = open_vault(&dir, false);
    assert_eq!(stash.delete(".db", true, true).unwrap_err(), StashError::InvalidInput);
    assert_eq!(stash.delete(".secret", true, true).unwrap_err(), StashError::InvalidInput);
}

#[test]
fn delete_refusals() {
    let dir = TempDir::new().unwrap();
    let stash = open_vault(&dir, false);
    assert_eq!(stash.delete("a.txt", false, true).unwrap_err(), StashError::NotFound);
    assert_eq!(stash.delete("a.txt", true, false).unwrap_err(), StashError::NotFound);
    assert_eq!(stash.delete("a.txt", true, true), Ok(()));
    let archived_dir = TempDir::new().unwrap();
    let archived = open_vault(&archived_dir, true);
    assert_eq!(archived.delete("a.txt", true, true).unwrap_err(), StashError::InvalidInput);
    assert_eq!(archived.delete(ARCHIVE_NAME, true, true), Ok(()));
}

#[test]
fn delete_drops_the_secret() {
    let dir = TempDir::new().unwrap();
    let mut stash = open_vault(&dir, false);
    add_file(&mut stash, "a.txt", b"abc");
    stash.delete("a.txt", true, true).unwrap();
    stash.finish_delete("a.txt").unwrap();
    assert_eq!(stash.grab("a.txt", true, true, false).unwrap_err(), StashError::NotFound);
}

#[test]
fn delete_of_archive_unarchives() {
    let dir = TempDir::new().unwrap();
    let mut stash = open_vault(&dir, false);
    add_file(&mut stash, "a.txt", b"abc");
    let secret: Secret = stash.archive(true).unwrap();
    stash.finish_archive(&secret).unwrap();
    stash.delete(ARCHIVE_NAME, true, true).unwrap();
    stash.finish_delete(ARCHIVE_NAME).unwrap();
    assert!(!stash.is_archived());
}

#[test]
fn list_trims_the_listing() {
    let dir = TempDir::new().unwrap();
    let stash = open_vault(&dir, false);
    assert_eq!(stash.list(true, "  a.txt\nb.txt\n\n").unwrap(), "a.txt\nb.txt");
    assert_eq!(stash.list(false, "a.txt").unwrap_err(), StashError::NotFound);
}

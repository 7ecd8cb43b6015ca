use presage::manager::registered;
use presage::manager::registered::merged_expire_timer_version;
use presage::manager::storage;
use presage::model::contacts::{contact_profile_key, Contact, PhoneNumber};
use presage::service_id::Uuid;

fn uuid(n: u128) -> Uuid {
    Uuid::from_bytes(n.to_be_bytes())
}

fn contact_with_profile_key(bytes: Vec<u8>) -> Contact {
    let mut contact = Contact::minimal(uuid(0));
    contact.profile_key = bytes;
    contact
}

#[test]
fn registered_contact_profile_key_accepts_32_bytes() {
    let bytes = vec![7u8; 32];
    let key = contact_profile_key(&contact_with_profile_key(bytes.clone()))
        .expect("32 bytes is a profile key");
    assert_eq!(key.bytes.as_slice(), bytes.as_slice());
}

#[test]
fn registered_contact_profile_key_rejects_empty() {
    // What `Contact::minimal` and a `ContactRecord` with no key both produce.
    assert!(contact_profile_key(&Contact::minimal(uuid(0))).is_none());
}

#[test]
fn registered_contact_profile_key_rejects_wrong_length() {
    assert!(contact_profile_key(&contact_with_profile_key(vec![7u8; 31])).is_none());
}

#[test]
fn storage_contact_profile_key_accepts_32_bytes() {
    let bytes = vec![7u8; 32];
    let (contact, key) =
        storage::merge_synced_contact(contact_with_profile_key(bytes.clone()), None, false);
    assert_eq!(contact.profile_key, bytes);
    assert_eq!(
        key.expect("32 bytes is a profile key").bytes.as_slice(),
        bytes.as_slice()
    );
}

#[test]
fn storage_contact_profile_key_rejects_empty() {
    let (_, key) = storage::merge_synced_contact(Contact::minimal(uuid(0)), None, false);
    assert!(key.is_none());
}

#[test]
fn storage_contact_profile_key_rejects_wrong_length() {
    let (_, key) =
        storage::merge_synced_contact(contact_with_profile_key(vec![7u8; 31]), None, false);
    assert!(key.is_none());
}

/// A contact as the store holds it: everything populated.
fn stored_contact() -> Contact {
    let mut c = Contact::minimal(uuid(0));
    c.name = "Local Name".into();
    c.profile_key = vec![7u8; 32];
    c.phone_number = Some(PhoneNumber {
        e164: "+15555550123".into(),
    });
    c.pni = Some(uuid(1));
    c.username = Some("local.42".into());
    c.expire_timer = 3600;
    c.expire_timer_version = 9;
    c.inbox_position = 5;
    c
}

/// A contact as rebuilt from a `ContactRecord` that carried nothing but an ACI.
fn empty_record_contact() -> Contact {
    Contact::minimal(uuid(0))
}

/// The window this exists for: the user blocked someone, the write has not reached the server,
/// and a sync arrives carrying the pre-block record. Letting that record win would discard the
/// block, and then publish the discarded value back as an *unblock*.
#[test]
fn a_pending_block_survives_the_record_it_is_about_to_replace() {
    let mut local = stored_contact();
    local.blocked = true;

    let mut incoming = empty_record_contact();
    incoming.blocked = false;

    let preserved = storage::merge_contact_from_snapshot(&mut incoming, local, true);

    assert!(incoming.blocked, "the pending block was reverted");
    assert!(preserved.contains(&"blocked"));
}

/// Without a pending change the remote value is authoritative, so a block or unblock made on
/// another device still lands here.
#[test]
fn a_remote_unblock_wins_when_nothing_is_pending() {
    let mut local = stored_contact();
    local.blocked = true;

    let mut incoming = empty_record_contact();
    incoming.blocked = false;

    let preserved = storage::merge_contact_from_snapshot(&mut incoming, local, false);

    assert!(!incoming.blocked);
    assert!(!preserved.contains(&"blocked"));
}

/// The guard is about *disagreement*, not about the flag. A pending contact whose remote record
/// already agrees needs no protection and should not be reported as protected.
#[test]
fn agreement_is_not_reported_as_preserved() {
    let mut local = stored_contact();
    local.blocked = true;

    let mut incoming = empty_record_contact();
    incoming.blocked = true;

    let preserved = storage::merge_contact_from_snapshot(&mut incoming, local, true);

    assert!(incoming.blocked);
    assert!(!preserved.contains(&"blocked"));
}

#[test]
fn registered_empty_record_does_not_wipe_local_fields() {
    let mut incoming = empty_record_contact();
    let preserved = registered::merge_contact_from_snapshot(&mut incoming, stored_contact());

    assert_eq!(incoming.name, "Local Name");
    assert_eq!(incoming.profile_key, vec![7u8; 32]);
    assert!(incoming.phone_number.is_some());
    assert_eq!(incoming.pni, Some(uuid(1)));
    assert_eq!(incoming.username.as_deref(), Some("local.42"));
    assert_eq!(
        preserved,
        ["name", "profile_key", "phone_number", "pni", "username"]
    );
}

#[test]
fn registered_non_empty_record_still_wins() {
    // Storage sync is the only channel that delivers a rename, so a record with something to
    // say must overwrite the local value.
    let mut incoming = empty_record_contact();
    incoming.name = "Renamed Remotely".into();
    incoming.profile_key = vec![9u8; 32];
    incoming.username = Some("remote.99".into());

    let preserved = registered::merge_contact_from_snapshot(&mut incoming, stored_contact());

    assert_eq!(incoming.name, "Renamed Remotely");
    assert_eq!(incoming.profile_key, vec![9u8; 32]);
    assert_eq!(incoming.username.as_deref(), Some("remote.99"));
    // Only the fields the record left empty were protected.
    assert_eq!(preserved, ["phone_number", "pni"]);
}

#[test]
fn registered_fields_absent_from_the_record_are_always_restored() {
    let mut incoming = empty_record_contact();
    incoming.name = "Renamed Remotely".into();

    registered::merge_contact_from_snapshot(&mut incoming, stored_contact());

    assert_eq!(incoming.expire_timer, 3600);
    assert_eq!(incoming.expire_timer_version, 9);
    assert_eq!(incoming.inbox_position, 5);
    assert!(incoming.avatar.is_none());
}

#[test]
fn registered_nothing_is_preserved_when_the_store_is_also_empty() {
    let mut incoming = empty_record_contact();
    let preserved = registered::merge_contact_from_snapshot(&mut incoming, empty_record_contact());

    assert!(preserved.is_empty());
    assert!(incoming.name.is_empty());
}

#[test]
fn storage_empty_record_does_not_wipe_local_fields() {
    let mut incoming = empty_record_contact();
    let preserved = storage::merge_contact_from_snapshot(&mut incoming, stored_contact(), false);

    assert_eq!(incoming.name, "Local Name");
    assert_eq!(incoming.profile_key, vec![7u8; 32]);
    assert!(incoming.phone_number.is_some());
    assert_eq!(incoming.pni, Some(uuid(1)));
    assert_eq!(incoming.username.as_deref(), Some("local.42"));
    assert_eq!(
        preserved,
        ["name", "profile_key", "phone_number", "pni", "username"]
    );
}

#[test]
fn storage_non_empty_record_still_wins() {
    let mut incoming = empty_record_contact();
    incoming.name = "Renamed Remotely".into();
    incoming.profile_key = vec![9u8; 32];
    incoming.username = Some("remote.99".into());

    let preserved = storage::merge_contact_from_snapshot(&mut incoming, stored_contact(), false);

    assert_eq!(incoming.name, "Renamed Remotely");
    assert_eq!(incoming.profile_key, vec![9u8; 32]);
    assert_eq!(incoming.username.as_deref(), Some("remote.99"));
    // Only the fields the record left empty were protected.
    assert_eq!(preserved, ["phone_number", "pni"]);
}

#[test]
fn storage_fields_absent_from_the_record_are_always_restored() {
    let mut incoming = empty_record_contact();
    incoming.name = "Renamed Remotely".into();

    storage::merge_contact_from_snapshot(&mut incoming, stored_contact(), false);

    assert_eq!(incoming.expire_timer, 3600);
    assert_eq!(incoming.expire_timer_version, 9);
    assert_eq!(incoming.inbox_position, 5);
    assert!(incoming.avatar.is_none());
}

#[test]
fn storage_nothing_is_preserved_when_the_store_is_also_empty() {
    let mut incoming = empty_record_contact();
    let preserved =
        storage::merge_contact_from_snapshot(&mut incoming, empty_record_contact(), false);

    assert!(preserved.is_empty());
    assert!(incoming.name.is_empty());
}

#[test]
fn newer_expire_timer_version_wins() {
    assert_eq!(merged_expire_timer_version(Some(9), 4), 9);
}

#[test]
fn stale_expire_timer_version_is_ignored() {
    // An update is ignored where its version is no newer than the stored one: a downgrade here
    // would let a later stale update win.
    assert_eq!(merged_expire_timer_version(Some(2), 7), 7);
}

#[test]
fn absent_expire_timer_version_leaves_the_stored_one() {
    assert_eq!(merged_expire_timer_version(None, 7), 7);
}

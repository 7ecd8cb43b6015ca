use presage::manager::registered::MasterKey;
use presage::model::contacts::PhoneNumber;
use presage::model::groups::{Group, Timer};
use presage::proto::{ContentBody, DataMessage, VerifiedState};
use presage::service_id::{ServiceId, Uuid};
use presage::sqlite::{
    backfill_group_ids, fetch_backup_key, fetch_master_key, fetch_storage_manifest_version,
    store_storage_manifest_version, Profile, SqlContact, SqlGroup, SqlMessage, SqlProfile,
    SqlStickerPack, SqliteStoreError,
};
use presage::store::StickerPackManifest;

const ACI: &str = "00000000-0000-0000-0000-000000000001";

fn uuid(n: u128) -> Uuid {
    Uuid::from_bytes(n.to_be_bytes())
}

fn contact_row() -> SqlContact {
    SqlContact {
        uuid: uuid(1),
        phone_number: Some("+15555550123".into()),
        name: "Ada".into(),
        profile_key: vec![7; 32],
        expire_timer: 3600,
        expire_timer_version: 4,
        inbox_position: 2,
        avatar: Some(vec![1, 2]),
        destination_aci: Some(ACI.into()),
        identity_key: Some(vec![3]),
        is_verified: Some(true),
        pni: Some("not a uuid".into()),
        username: None,
        blocked: true,
        whitelisted: false,
        archived: false,
        marked_unread: false,
        muted_until_timestamp: -1,
        hide_story: false,
        hidden: false,
        unregistered_at_timestamp: 0,
        pni_signature_verified: false,
        system_given_name: None,
        system_family_name: Some("Lovelace".into()),
        system_nickname: None,
        nickname_given_name: None,
        nickname_family_name: None,
        note: None,
    }
}

#[test]
fn a_contact_row_is_read_in_full() {
    let number = PhoneNumber {
        e164: "+15555550123".into(),
    };
    let contact = contact_row().try_into_contact(Some(number.clone())).unwrap();
    assert_eq!(contact.uuid, uuid(1));
    assert_eq!(contact.phone_number, Some(number));
    assert_eq!(contact.expire_timer, 3600);
    assert_eq!(contact.verified.state, Some(VerifiedState::Verified));
    assert_eq!(contact.verified.destination_aci.as_deref(), Some(ACI));
    assert_eq!(
        contact.verified.destination_aci_binary,
        Some(uuid(1).to_vec())
    );
    assert_eq!(
        contact.avatar.unwrap().content_type,
        "application/octet-stream"
    );
    // A stored PNI that is none is dropped.
    assert_eq!(contact.pni, None);
    assert_eq!(contact.muted_until_timestamp, u64::MAX);
    assert_eq!(contact.system_family_name, "Lovelace");
    assert_eq!(contact.note, "");
}

#[test]
fn a_contact_row_with_a_broken_number_is_refused() {
    assert_eq!(
        contact_row().try_into_contact(None),
        Err(SqliteStoreError::InvalidPhoneNumber)
    );
    let mut row = contact_row();
    row.phone_number = None;
    assert!(row.try_into_contact(None).unwrap().phone_number.is_none());
}

#[test]
fn a_profile_without_a_given_name_has_no_name() {
    let row = |given_name: Option<&str>| SqlProfile {
        given_name: given_name.map(str::to_string),
        family_name: Some("Lovelace".into()),
        about: Some("hi".into()),
        about_emoji: None,
        avatar: None,
        unrestricted_unidentified_access: true,
    };
    let named = Profile::from_row(row(Some("Ada")));
    assert_eq!(named.name.unwrap().to_string(), "Ada Lovelace");
    let unnamed = Profile::from_row(row(None));
    assert!(unnamed.name.is_none());
    assert_eq!(unnamed.about.as_deref(), Some("hi"));
    assert!(unnamed.unrestricted_unidentified_access);
}

#[test]
fn a_group_comes_back_from_its_row() {
    let mut group = Group::default();
    group.title = Some("Team".into());
    group.revision = 7;
    group.muted_until_timestamp = u64::MAX;
    group.story_send_mode = 2;
    let row = SqlGroup::from_group(&[2; 32], group.clone());
    assert_eq!(row.muted_until_timestamp, -1);
    assert_eq!(row.into_group(), Ok(([2; 32], group.clone())));

    // There is no column for the timer.
    group.disappearing_messages_timer = Some(Timer { duration: 60 });
    let (_, back) = SqlGroup::from_group(&[2; 32], group).into_group().unwrap();
    assert_eq!(back.disappearing_messages_timer, None);
}

#[test]
fn a_group_row_needs_a_proper_key() {
    let mut row = SqlGroup::from_group(&[2; 32], Group::default());
    row.master_key = vec![2; 31];
    assert_eq!(row.into_group(), Err(SqliteStoreError::InvalidFormat));
}

fn message_row() -> SqlMessage {
    SqlMessage {
        ts: 1_700_000_000_000,
        sender_service_id: ACI.into(),
        sender_device_id: 2,
        destination_service_id: format!("PNI:{ACI}"),
        needs_receipt: true,
        unidentified_sender: false,
        content_body: vec![],
        was_plaintext: false,
    }
}

fn body() -> Option<ContentBody> {
    Some(ContentBody::DataMessage(DataMessage::default()))
}

#[test]
fn a_message_row_is_read_in_full() {
    let content = message_row().try_into_content(body()).unwrap();
    assert_eq!(content.metadata.sender, ServiceId::Aci(uuid(1).into()));
    assert_eq!(content.metadata.destination, ServiceId::Pni(uuid(1).into()));
    assert_eq!(content.metadata.sender_device, 2);
    assert_eq!(content.metadata.timestamp, 1_700_000_000_000);
    assert!(content.metadata.needs_receipt);
}

#[test]
fn a_broken_message_row_is_refused() {
    assert_eq!(
        message_row().try_into_content(None),
        Err(SqliteStoreError::InvalidFormat)
    );
    let mut row = message_row();
    row.sender_service_id = "someone".into();
    assert_eq!(
        row.try_into_content(body()),
        Err(SqliteStoreError::InvalidFormat)
    );
    let mut row = message_row();
    row.destination_service_id = String::new();
    assert_eq!(
        row.try_into_content(body()),
        Err(SqliteStoreError::InvalidFormat)
    );
    let mut row = message_row();
    row.sender_device_id = 0;
    assert_eq!(
        row.try_into_content(body()),
        Err(SqliteStoreError::InvalidDeviceId)
    );
    let mut row = message_row();
    row.sender_device_id = 128;
    assert_eq!(
        row.try_into_content(body()),
        Err(SqliteStoreError::InvalidDeviceId)
    );
}

#[test]
fn a_sticker_pack_row_is_the_pack() {
    let manifest = StickerPackManifest {
        title: "Cats".into(),
        author: "Ada".into(),
        cover: None,
        stickers: vec![],
    };
    let pack = SqlStickerPack {
        id: vec![1],
        key: vec![2],
        manifest: manifest.clone(),
    }
    .into_sticker_pack();
    assert_eq!((pack.id, pack.key, pack.manifest), (vec![1], vec![2], manifest));
}

#[test]
fn the_manifest_version_comes_back() {
    let stored = store_storage_manifest_version(0x0102);
    assert_eq!(stored, [2, 1, 0, 0, 0, 0, 0, 0]);
    for version in [0, 1, 0x0102, u64::MAX] {
        let stored = store_storage_manifest_version(version);
        assert_eq!(fetch_storage_manifest_version(&Some(stored)), Ok(version));
    }
    assert_eq!(fetch_storage_manifest_version(&None), Ok(0));
    assert_eq!(
        fetch_storage_manifest_version(&Some(vec![1, 2])),
        Err(SqliteStoreError::InvalidFormat)
    );
}

#[test]
fn stored_keys_have_thirty_two_bytes() {
    assert_eq!(fetch_master_key(&None), Ok(None));
    assert_eq!(
        fetch_master_key(&Some(vec![4; 32])),
        Ok(Some(MasterKey { inner: [4; 32] }))
    );
    assert_eq!(
        fetch_master_key(&Some(vec![4; 33])),
        Err(SqliteStoreError::InvalidFormat)
    );
    assert_eq!(fetch_backup_key(&None), Ok(None));
    assert_eq!(fetch_backup_key(&Some(vec![4; 32])), Ok(Some([4; 32])));
    assert_eq!(
        fetch_backup_key(&Some(vec![])),
        Err(SqliteStoreError::InvalidFormat)
    );
}

#[test]
fn a_backfill_skips_the_broken_rows() {
    let (count, keys) = backfill_group_ids(&vec![vec![1; 32], vec![2; 3], vec![3; 32]]);
    assert_eq!(count, 2);
    assert_eq!(
        keys,
        [MasterKey { inner: [1; 32] }, MasterKey { inner: [3; 32] }]
    );
    assert_eq!(backfill_group_ids(&vec![]).0, 0);
    assert_eq!(backfill_group_ids(&vec![vec![2; 3]]).0, 0);
}

use presage::errors::Error;
use presage::manager::chat_folders::{
    chat_folders, delete_chat_folder, place_chat_folder, renumber_chat_folders, save_chat_folder,
};
use presage::model::calls::{
    resolve_call_peer, resolve_call_thread, CallDirection, CallEventInfo, CallEventKind, CallMode,
    CallPeer, CallStatus, CallType, DirectCallStatus, GroupCallStatus, GroupIdentity,
};
use presage::model::chat_folders::ChatFolder;
use presage::model::contacts::Contact;
use presage::model::groups::{Group, GroupAccess, Member, Timer};
use presage::model::access::Role;
use presage::model::profile::ProfileKey;
use presage::proto::VerifiedState;
use presage::service_id::{Aci, ServiceId, Uuid};
use presage::store::{
    expire_timer, ingest_call_event, save_trusted_identity_message, sticker_metadata,
    update_contact_timer, update_group_timer, Pack, PackSticker, StickerPack, StickerPackManifest,
    Thread,
};

fn uuid(n: u128) -> Uuid {
    Uuid::from_bytes(n.to_be_bytes())
}

#[test]
fn a_thread_is_shown_by_its_id() {
    assert_eq!(
        Thread::Contact(ServiceId::Aci(uuid(1).into())).to_string(),
        "Thread(contact=00000000-0000-0000-0000-000000000001)"
    );
    let mut key = [0u8; 32];
    key[0] = 0xab;
    key[1] = 0x0c;
    assert_eq!(Thread::Group(key).to_string(), "Thread(group=[ab, c, 0, 0])");
}

#[test]
fn a_timer_belongs_to_a_contact_or_a_group() {
    let mut contact = Contact::minimal(uuid(1));
    contact.expire_timer = 60;
    contact.expire_timer_version = 3;
    let mut group = Group::default();
    group.disappearing_messages_timer = Some(Timer { duration: 90 });
    let (contact, group) = (Some(contact), Some(group));
    let thread = Thread::Contact(ServiceId::Aci(uuid(1).into()));
    assert_eq!(expire_timer(&thread, &contact, &group), Some((60, 3)));
    assert_eq!(expire_timer(&thread, &None, &group), None);
    let thread = Thread::Group([1; 32]);
    assert_eq!(expire_timer(&thread, &contact, &group), Some((90, 1)));
    assert_eq!(expire_timer(&thread, &contact, &None), None);
}

#[test]
fn the_newest_timer_wins_in_any_order() {
    let mut contact = Contact::minimal(uuid(1));
    contact.expire_timer_version = 2;
    let mut other = contact.clone();
    assert!(!update_contact_timer(&mut contact, 5, 2));
    assert!(update_contact_timer(&mut contact, 60, 4));
    assert!(!update_contact_timer(&mut contact, 30, 3));
    assert!(update_contact_timer(&mut other, 30, 3));
    assert!(update_contact_timer(&mut other, 60, 4));
    assert_eq!(contact, other);
    assert_eq!((contact.expire_timer, contact.expire_timer_version), (60, 4));
}

#[test]
fn a_group_timer_of_zero_is_none() {
    let mut group = Group::default();
    update_group_timer(&mut group, 60);
    assert_eq!(
        group.disappearing_messages_timer,
        Some(Timer { duration: 60 })
    );
    update_group_timer(&mut group, 0);
    assert_eq!(group.disappearing_messages_timer, None);
}

fn call(event: CallEventKind, conversation_id: Vec<u8>, mode: CallMode) -> CallEventInfo {
    CallEventInfo {
        call_id: 42,
        conversation_id,
        timestamp_ms: 100,
        mode,
        call_type: CallType::Audio,
        direction: CallDirection::Incoming,
        event,
    }
}

#[test]
fn a_call_event_becomes_an_entry_of_its_peer() {
    let info = call(CallEventKind::Accepted, uuid(1).to_vec(), CallMode::Direct);
    let entry = ingest_call_event(None, &info, &CallPeer::Direct(uuid(1))).unwrap();
    assert_eq!(entry.peer_id, "00000000-0000-0000-0000-000000000001");
    assert_eq!(entry.status, CallStatus::Direct(DirectCallStatus::Accepted));
    let adhoc = call(CallEventKind::Accepted, vec![], CallMode::Adhoc);
    assert!(ingest_call_event(None, &adhoc, &CallPeer::Direct(uuid(1))).is_none());
}

#[test]
fn a_group_call_is_found_by_the_group_id() {
    let groups = vec![
        GroupIdentity {
            master_key: [1; 32],
            group_id: [11; 32],
        },
        GroupIdentity {
            master_key: [2; 32],
            group_id: [12; 32],
        },
    ];
    let info = call(CallEventKind::Accepted, vec![12; 32], CallMode::Group);
    assert_eq!(
        resolve_call_peer(&info, &groups),
        Some(CallPeer::Group([2; 32]))
    );
    let unknown = call(CallEventKind::Accepted, vec![13; 32], CallMode::Group);
    assert_eq!(resolve_call_peer(&unknown, &groups), None);
    let direct = call(CallEventKind::Accepted, uuid(7).to_vec(), CallMode::Direct);
    assert_eq!(
        resolve_call_peer(&direct, &groups),
        Some(CallPeer::Direct(uuid(7)))
    );
}

#[test]
fn call_values_read_back_from_their_text() {
    for mode in [
        CallMode::Direct,
        CallMode::Group,
        CallMode::Adhoc,
        CallMode::Unknown,
    ] {
        assert_eq!(CallMode::parse(mode.as_str()), mode);
    }
    for status in [
        CallStatus::Direct(DirectCallStatus::Missed),
        CallStatus::Direct(DirectCallStatus::Deleted),
    ] {
        assert_eq!(CallStatus::parse(CallMode::Direct, status.as_str()), status);
    }
    let joined = CallStatus::Group(GroupCallStatus::Joined);
    assert_eq!(CallStatus::parse(CallMode::Group, joined.as_str()), joined);
    assert_eq!(CallMode::parse("nonsense"), CallMode::Unknown);
}

#[test]
fn a_peer_and_its_thread_name_each_other() {
    for peer in [CallPeer::Direct(uuid(1)), CallPeer::Group([3; 32])] {
        assert_eq!(CallPeer::from_thread(&peer.to_thread()), Some(peer));
    }
}

#[test]
fn a_trusted_identity_is_noted_in_its_thread() {
    let name = uuid(1).to_string();
    let (thread, content) =
        save_trusted_identity_message(&name, vec![5], VerifiedState::Verified, 10, 11).unwrap();
    assert_eq!(thread, Thread::Contact(ServiceId::Aci(uuid(1).into())));
    assert_eq!(content.metadata.timestamp, 10);
    assert_eq!(content.metadata.server_timestamp, 11);
    // What is noted is about the thread, and about no call.
    assert_eq!(resolve_call_thread(&content, &vec![]), None);
    assert!(
        save_trusted_identity_message("nobody", vec![5], VerifiedState::Verified, 10, 11).is_none()
    );
}

fn pack() -> StickerPack {
    let manifest = StickerPackManifest::from_pack(Pack {
        title: Some("Cats".into()),
        author: None,
        cover: None,
        stickers: vec![
            PackSticker {
                id: Some(4),
                emoji: Some("x".into()),
                content_type: None,
            },
            PackSticker::default(),
        ],
    });
    StickerPack {
        id: vec![1],
        key: vec![2],
        manifest,
    }
}

#[test]
fn a_sticker_is_found_by_its_id() {
    let pack = Some(pack());
    assert_eq!(
        sticker_metadata(&pack, 4).unwrap().emoji.as_deref(),
        Some("x")
    );
    // A sticker without an id counts as the first.
    assert!(sticker_metadata(&pack, 0).is_some());
    assert!(sticker_metadata(&pack, 5).is_none());
    assert!(sticker_metadata(&None, 4).is_none());
    let pack = pack.unwrap();
    assert_eq!(pack.manifest.title, "Cats");
    assert_eq!(pack.manifest.author, "");
}

fn folder(n: u128, name: &str, position: u32) -> ChatFolder {
    let mut folder = ChatFolder::custom(uuid(n), name.into());
    folder.position = position;
    folder
}

#[test]
fn folders_are_listed_by_position() {
    let mut gone = folder(3, "Gone", 0);
    gone.tombstone(5);
    let listed = chat_folders(vec![folder(1, "B", 2), gone, folder(2, "A", 1)]);
    let names: Vec<&str> = listed.iter().map(|f| &*f.name).collect();
    assert_eq!(names, ["A", "B"]);
}

#[test]
fn a_new_folder_goes_last() {
    let stored = vec![folder(1, "A", 0), folder(2, "B", 1)];
    let saved = save_chat_folder(folder(3, "  C  ", 0), &None, stored.clone()).unwrap();
    assert_eq!(saved.name, "C");
    assert_eq!(saved.position, 2);
    // A known one stays where it is.
    let known = Some(stored[1].clone());
    let saved = save_chat_folder(folder(2, "D", 9), &known, stored).unwrap();
    assert_eq!(saved.name, "D");
    assert_eq!(saved.position, 1);
}

#[test]
fn a_folder_needs_a_name() {
    assert_eq!(
        save_chat_folder(folder(3, "   ", 0), &None, vec![]),
        Err(Error::ChatFolderInvalidName)
    );
    assert_eq!(
        save_chat_folder(folder(3, &"a".repeat(33), 0), &None, vec![]),
        Err(Error::ChatFolderInvalidName)
    );
    assert_eq!(
        place_chat_folder(folder(3, "x", 0), "x".into(), 33, &None, vec![]),
        Err(Error::ChatFolderInvalidName)
    );
}

#[test]
fn a_folder_is_deleted_as_a_tombstone() {
    let gone = delete_chat_folder(Some(folder(1, "A", 0)), 7).unwrap();
    assert_eq!(gone.deleted_at_timestamp_ms, 7);
    assert!(!gone.is_live());
    assert_eq!(delete_chat_folder(None, 7), Err(Error::ChatFolderUnknown));
    assert_eq!(
        delete_chat_folder(Some(ChatFolder::all_chats(uuid(1))), 7),
        Err(Error::ChatFolderUndeletable)
    );
}

#[test]
fn folders_are_renumbered_without_gaps() {
    let stored = vec![folder(1, "A", 0), folder(2, "B", 5), folder(3, "C", 7)];
    let saved = renumber_chat_folders(stored);
    let places: Vec<(&str, u32)> = saved.iter().map(|f| (&*f.name, f.position)).collect();
    // Each of them is saved, the one that stays where it is too.
    assert_eq!(places, [("A", 0), ("B", 1), ("C", 2)]);
    assert_eq!(renumber_chat_folders(saved.clone()), saved);
    let mut gone = folder(4, "D", 0);
    gone.tombstone(7);
    let left = renumber_chat_folders(vec![gone, folder(2, "B", 1)]);
    assert_eq!(left.len(), 1);
    assert_eq!((&*left[0].name, left[0].position), ("B", 0));
}

fn member(n: u128, role: Role, label: Option<&str>) -> Member {
    Member {
        aci: Aci::from(uuid(n)),
        role,
        profile_key: ProfileKey { bytes: [0; 32] },
        joined_at_revision: 0,
        label: label.map(str::to_string),
        label_emoji: None,
    }
}

#[test]
fn whoever_leaves_is_no_longer_active() {
    let mut group = Group::default();
    group.members = vec![
        member(1, Role::Administrator, None),
        member(2, Role::Default, None),
    ];
    let me = Aci::from(uuid(1));
    assert!(group.is_active(me));
    group.mark_left(me, &vec![Aci::from(uuid(2))], 5);
    assert!(!group.is_active(me));
    assert_eq!(group.revision, 5);
    assert_eq!(group.members[0].role, Role::Administrator);
}

#[test]
fn restricting_labels_takes_them_from_members() {
    let mut group = Group::default();
    group.members = vec![
        member(1, Role::Administrator, Some("boss")),
        member(2, Role::Default, Some("helper")),
        member(3, Role::Default, None),
    ];
    assert_eq!(
        group.members_losing_labels(GroupAccess::Administrators),
        [Aci::from(uuid(2))]
    );
    assert!(group.members_losing_labels(GroupAccess::Members).is_empty());
}

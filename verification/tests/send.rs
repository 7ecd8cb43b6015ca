use presage::errors::Error;
use presage::manager::attachments::download_sticker_pack;
use presage::manager::groups::{
    create_group, credential_request, hydrate_groups, hydrated, retrieve_group_avatar,
    retrieve_profile_avatar_by_uuid, AvatarStep, StoredGroup,
};
use presage::manager::registered::{
    keeps_websocket, master_key, required_master_key, sender_certificate_needs_renewal,
    EntropyPoolSource, Manager, MasterKey, Registered, RegistrationData, RegistrationType,
    ServiceIds, SignalServers,
};
use presage::manager::send::{
    blocked_message, collect_blocked_contacts, first_failure, keys_message, SendOutcome,
    END_SESSION,
};
use presage::model::access::Role;
use presage::model::contacts::{Contact, PhoneNumber};
use presage::model::groups::{Group, Member};
use presage::model::profile::ProfileKey;
use presage::proto::{
    ContentBody, DataMessage, EditMessage, Keys, RequestType, Sent, StickerPackOperation,
    StickerPackOperationType, SyncMessage,
};
use presage::service_id::{Aci, Pni, ServiceId, Uuid};
use presage::store::{Sticker, StickerPackManifest, Thread};

fn uuid(n: u128) -> Uuid {
    Uuid::from_bytes(n.to_be_bytes())
}

fn aci(n: u128) -> ServiceId {
    ServiceId::Aci(uuid(n).into())
}

fn data() -> RegistrationData {
    RegistrationData {
        signal_servers: SignalServers::Production,
        device_name: None,
        phone_number: PhoneNumber {
            e164: "+15555550123".into(),
        },
        service_ids: ServiceIds {
            aci: Aci::from(uuid(1)),
            pni: Pni::from(uuid(2)),
        },
        password: "secret".into(),
        device_id: None,
        registration_id: 5,
        pni_registration_id: Some(6),
        profile_key: ProfileKey { bytes: [9; 32] },
    }
}

fn manager(data: RegistrationData) -> Manager<(), Registered> {
    match Manager::load_registered((), Some(data)) {
        Ok(manager) => manager,
        Err(e) => panic!("not registered: {e:?}"),
    }
}

fn linked() -> RegistrationData {
    let mut data = data();
    data.device_name = Some("laptop".into());
    data.device_id = Some(3);
    data
}

#[test]
fn nothing_is_loaded_without_registration() {
    assert!(matches!(
        Manager::load_registered((), None),
        Err(Error::NotYetRegisteredError)
    ));
}

#[test]
fn a_device_with_a_name_is_secondary() {
    let primary = manager(data());
    assert_eq!(primary.registration_type(), RegistrationType::Primary);
    assert_eq!(primary.device_id(), 1);
    assert_eq!(primary.registration_data().device_name(), None);
    let secondary = manager(linked());
    assert_eq!(secondary.registration_type(), RegistrationType::Secondary);
    assert_eq!(secondary.device_id(), 3);
    assert_eq!(secondary.registration_data().device_name(), Some("laptop"));
    assert_eq!(
        secondary.registration_data().profile_key(),
        ProfileKey { bytes: [9; 32] }
    );
    assert_eq!(*secondary.store(), ());
}

#[test]
fn an_impossible_device_id_counts_as_the_first() {
    for id in [0, 128, u32::MAX] {
        let mut data = data();
        data.device_id = Some(id);
        let manager = manager(data);
        assert_eq!(manager.device_id(), 1);
        assert_eq!(manager.state.credentials().device_id, None);
    }
}

#[test]
fn only_the_primary_device_links_and_unlinks() {
    let credentials = manager(data()).link_secondary().unwrap();
    assert_eq!(credentials.aci, Some(Aci::from(uuid(1))));
    assert_eq!(credentials.password.as_deref(), Some("secret"));
    assert_eq!(manager(data()).unlink_secondary(3), Ok(3));
    assert_eq!(
        manager(data()).unlink_secondary(0),
        Err(Error::InvalidDeviceId)
    );
    assert!(matches!(
        manager(linked()).link_secondary(),
        Err(Error::NotPrimaryDevice)
    ));
    assert_eq!(
        manager(linked()).unlink_secondary(0),
        Err(Error::NotPrimaryDevice)
    );
}

#[test]
fn an_old_link_has_to_be_renewed() {
    let attributes = manager(data())
        .set_account_attributes(Some(vec![1]), vec![2])
        .unwrap();
    assert_eq!(attributes.registration_id, 5);
    assert_eq!(attributes.pni_registration_id, 6);
    assert_eq!(attributes.name, Some(vec![1]));
    assert_eq!(attributes.unidentified_access_key, Some(vec![2]));
    assert!(attributes.capabilities.unwrap().storage);
    let mut old = data();
    old.pni_registration_id = None;
    assert!(matches!(
        manager(old).set_account_attributes(None, vec![]),
        Err(Error::RelinkNecessary)
    ));
}

#[test]
fn keys_come_from_the_store_first() {
    let (a, b) = (MasterKey { inner: [1; 32] }, MasterKey { inner: [2; 32] });
    assert_eq!(master_key(Some(a), Some(b)), Some(a));
    assert_eq!(master_key(None, Some(b)), Some(b));
    assert_eq!(required_master_key(Some(a)), Ok(a));
    assert_eq!(required_master_key(None), Err(Error::MissingMasterKey));
    assert_eq!(
        manager(data()).account_entropy_pool(true),
        EntropyPoolSource::Stored
    );
    assert_eq!(
        manager(data()).account_entropy_pool(false),
        EntropyPoolSource::Generated
    );
    assert_eq!(
        manager(linked()).account_entropy_pool(false),
        EntropyPoolSource::Missing
    );
}

#[test]
fn a_certificate_is_renewed_ten_minutes_early() {
    assert!(sender_certificate_needs_renewal(None, 0));
    assert!(sender_certificate_needs_renewal(Some(1_600_999), 1000));
    assert!(!sender_certificate_needs_renewal(Some(1_601_000), 1000));
}

#[test]
fn a_connection_is_kept_while_it_serves() {
    assert!(keeps_websocket(false, true, false));
    assert!(keeps_websocket(false, false, true));
    assert!(!keeps_websocket(false, true, true));
    assert!(!keeps_websocket(true, false, false));
}

fn text(body: &str) -> DataMessage {
    DataMessage {
        body: Some(body.into()),
        ..DataMessage::default()
    }
}

fn sent(message: DataMessage, timer: Option<(u32, u32)>) -> DataMessage {
    match manager(data())
        .send_message(aci(7), ContentBody::DataMessage(message), timer, 1000)
        .body
    {
        ContentBody::DataMessage(message) => message,
        other => panic!("expected a data message, got {other:?}"),
    }
}

#[test]
fn a_message_is_completed_before_it_is_sent() {
    let message = sent(text("hi"), Some((60, 4)));
    assert_eq!(message.body.as_deref(), Some("hi"));
    assert_eq!(message.timestamp, Some(1000));
    assert_eq!(message.profile_key, Some(vec![9; 32]));
    assert_eq!(message.required_protocol_version, Some(0));
    assert_eq!(message.expire_timer, Some(60));
    assert_eq!(message.expire_timer_version, Some(4));
}

#[test]
fn a_message_that_sets_the_timer_counts_its_version_up() {
    let message = DataMessage {
        expire_timer: Some(5),
        profile_key: Some(vec![1]),
        ..text("hi")
    };
    let message = sent(message, Some((60, 4)));
    assert_eq!(message.expire_timer, Some(5));
    assert_eq!(message.expire_timer_version, Some(5));
    assert_eq!(message.profile_key, Some(vec![1]));
    assert_eq!(sent(text("hi"), Some((0, 4))).expire_timer, None);
    assert_eq!(sent(text("hi"), None).expire_timer_version, Some(0));
}

#[test]
fn a_sent_message_is_noted_as_ours() {
    let content = manager(linked()).send_message(
        aci(7),
        ContentBody::DataMessage(text("hi")),
        None,
        1000,
    );
    assert_eq!(content.metadata.sender, aci(1));
    assert_eq!(content.metadata.destination, aci(7));
    assert_eq!(content.metadata.sender_device, 3);
    assert_eq!(content.metadata.timestamp, 1000);
    assert_eq!(content.metadata.server_timestamp, 1000);
}

#[test]
fn every_data_message_gets_the_timestamp() {
    let edit = ContentBody::EditMessage(EditMessage {
        target_sent_timestamp: Some(1),
        data_message: Some(text("hi")),
    });
    match manager(data()).send_message(aci(7), edit, None, 1000).body {
        ContentBody::EditMessage(edit) => {
            assert_eq!(edit.data_message.unwrap().timestamp, Some(1000));
            assert_eq!(edit.target_sent_timestamp, Some(1));
        }
        other => panic!("expected an edit, got {other:?}"),
    }
    let sync = ContentBody::SynchronizeMessage(SyncMessage {
        sent: Some(Sent {
            message: Some(text("hi")),
            timestamp: Some(2),
            ..Sent::default()
        }),
        ..SyncMessage::default()
    });
    match manager(data()).send_message(aci(7), sync, None, 1000).body {
        ContentBody::SynchronizeMessage(sync) => {
            let sent = sync.sent.unwrap();
            assert_eq!(sent.message.unwrap().timestamp, Some(1000));
            assert_eq!(sent.timestamp, Some(2));
        }
        other => panic!("expected a sync message, got {other:?}"),
    }
    let sync = ContentBody::SynchronizeMessage(SyncMessage {
        sent: Some(Sent {
            edit_message: Some(EditMessage {
                target_sent_timestamp: Some(1),
                data_message: Some(text("hi")),
            }),
            timestamp: Some(2),
            ..Sent::default()
        }),
        ..SyncMessage::default()
    });
    match manager(data()).send_message(aci(7), sync, None, 1000).body {
        ContentBody::SynchronizeMessage(sync) => {
            let sent = sync.sent.unwrap();
            let edit = sent.edit_message.unwrap();
            assert_eq!(edit.data_message.unwrap().timestamp, Some(1000));
            assert_eq!(edit.target_sent_timestamp, Some(1));
            assert_eq!(sent.timestamp, Some(2));
            assert!(sent.message.is_none());
        }
        other => panic!("expected a sync message, got {other:?}"),
    }
}

fn member(n: u128) -> Member {
    Member {
        aci: Aci::from(uuid(n)),
        role: Role::Default,
        profile_key: ProfileKey { bytes: [0; 32] },
        joined_at_revision: 0,
        label: None,
        label_emoji: None,
    }
}

#[test]
fn a_group_message_goes_to_everyone_else() {
    let mut group = Group::default();
    group.members = vec![member(3), member(1), member(4)];
    let send = match manager(data()).send_message_to_group(
        [2; 32],
        &Some(group),
        ContentBody::DataMessage(text("hi")),
        Some((60, 1)),
        1000,
    ) {
        Ok(send) => send,
        Err(e) => panic!("not sent: {e:?}"),
    };
    assert_eq!(send.recipients, [aci(3), aci(4)]);
    assert_eq!(send.thread, Thread::Group([2; 32]));
    assert_eq!(send.content.metadata.destination, aci(1));
    match send.content.body {
        ContentBody::DataMessage(message) => {
            assert_eq!(message.timestamp, Some(1000));
            assert_eq!(message.expire_timer, Some(60));
            // The profile key goes to contacts alone.
            assert_eq!(message.profile_key, None);
        }
        other => panic!("expected a data message, got {other:?}"),
    }
}

#[test]
fn a_message_to_an_unknown_group_is_refused() {
    assert!(matches!(
        manager(data()).send_message_to_group(
            [2; 32],
            &None,
            ContentBody::DataMessage(text("hi")),
            None,
            1000
        ),
        Err(Error::UnknownGroup)
    ));
}

#[test]
fn a_deleted_account_fails_no_group_message() {
    let (sent, not_found, failed) = (
        SendOutcome::Sent,
        SendOutcome::NotFound,
        SendOutcome::Failed,
    );
    assert_eq!(first_failure(&vec![sent, not_found, sent]), None);
    assert_eq!(first_failure(&vec![not_found, failed, failed]), Some(1));
    assert_eq!(first_failure(&vec![]), None);
}

#[test]
fn blocked_contacts_are_listed_by_identity() {
    let mut blocked = Contact::minimal(uuid(5));
    blocked.blocked = true;
    let list = collect_blocked_contacts(&vec![Contact::minimal(uuid(4)), blocked]);
    assert_eq!(list.acis, ["00000000-0000-0000-0000-000000000005"]);
    assert_eq!(list.acis_binary, [uuid(5).to_vec()]);
    assert!(list.numbers.is_empty());
    assert!(list.group_ids.is_empty());
    assert_eq!(blocked_message(list.clone(), vec![1]).blocked, Some(list));
}

#[test]
fn blocking_a_stranger_makes_a_contact() {
    let contact = manager(data()).set_blocked(None, aci(5), true);
    assert!(contact.blocked);
    assert_eq!(contact.uuid, uuid(5));
    let unblocked = manager(data()).set_blocked(Some(contact), aci(5), false);
    assert!(!unblocked.blocked);
}

#[test]
fn messages_between_devices_say_one_thing() {
    let manager = manager(data());
    assert_eq!(
        manager.request_contacts(vec![1]).request,
        Some(RequestType::Contacts)
    );
    assert_eq!(
        manager.install_sticker_pack(&vec![1], &vec![2]).sticker_pack_operation,
        [StickerPackOperation {
            pack_id: Some(vec![1]),
            pack_key: Some(vec![2]),
            kind: Some(StickerPackOperationType::Install)
        }]
    );
    assert_eq!(
        manager.remove_sticker_pack(&vec![1], &vec![2]).sticker_pack_operation[0].kind,
        Some(StickerPackOperationType::Remove)
    );
    assert_eq!(manager.send_session_reset().flags, Some(END_SESSION));
    let keys = Keys {
        master: Some(vec![1]),
        ..Keys::default()
    };
    assert_eq!(keys_message(keys.clone(), vec![]).keys, Some(keys));
}

#[test]
fn a_thread_has_a_title() {
    let manager = manager(data());
    let mut contact = Contact::minimal(uuid(5));
    contact.name = "Ada".into();
    let thread = Thread::Contact(aci(5));
    assert_eq!(manager.thread_title(&thread, &Some(contact), &None), "Ada");
    assert_eq!(
        manager.thread_title(&thread, &None, &None),
        "00000000-0000-0000-0000-000000000005"
    );
    let mut group = Group::default();
    let thread = Thread::Group([1; 32]);
    assert_eq!(manager.thread_title(&thread, &None, &None), "");
    assert_eq!(
        manager.thread_title(&thread, &None, &Some(group.clone())),
        ""
    );
    group.title = Some("Team".into());
    assert_eq!(manager.thread_title(&thread, &None, &Some(group)), "Team");
}

#[test]
fn a_member_needs_an_identity_and_a_profile_key() {
    let key = ProfileKey { bytes: [3; 32] };
    assert_eq!(
        credential_request(aci(5), Some(key)),
        Some((Aci::from(uuid(5)), key))
    );
    assert_eq!(credential_request(aci(5), None), None);
    let pni = ServiceId::Pni(Pni::from(uuid(5)));
    assert_eq!(credential_request(pni, Some(key)), None);
}

#[test]
fn a_created_group_is_published_as_shared() {
    let record = create_group(&[4; 32]);
    assert_eq!(record.master_key, [4; 32]);
    assert!(record.whitelisted);
    assert!(!record.blocked);
}

#[test]
fn stubs_are_hydrated() {
    let mut stub = Group::default();
    stub.needs_hydration = true;
    let groups = vec![
        StoredGroup {
            master_key: [1; 32],
            group: Group::default(),
        },
        StoredGroup {
            master_key: [2; 32],
            group: stub.clone(),
        },
    ];
    assert_eq!(hydrate_groups(&groups), [[2; 32]]);
    assert!(!hydrated(stub).needs_hydration);
}

#[test]
fn an_avatar_is_fetched_when_its_address_changes() {
    let mut group = Group::default();
    assert_eq!(retrieve_group_avatar(&group), None);
    group.avatar = Some(String::new());
    assert_eq!(retrieve_group_avatar(&group), None);
    group.avatar = Some("a".into());
    assert_eq!(retrieve_group_avatar(&group).as_deref(), Some("a"));

    let (a, b) = (Some("a".to_string()), Some("b".to_string()));
    assert_eq!(retrieve_profile_avatar_by_uuid(&None, &a), AvatarStep::Absent);
    assert_eq!(retrieve_profile_avatar_by_uuid(&a, &a), AvatarStep::Cached);
    assert_eq!(retrieve_profile_avatar_by_uuid(&a, &b), AvatarStep::Download);
    assert_eq!(
        retrieve_profile_avatar_by_uuid(&a, &None),
        AvatarStep::Download
    );
}

#[test]
fn a_sticker_that_failed_stays_without_an_image() {
    let sticker = |id| Sticker {
        id,
        emoji: None,
        content_type: None,
        bytes: None,
    };
    let operation = StickerPackOperation {
        pack_id: Some(vec![1]),
        pack_key: None,
        kind: None,
    };
    let manifest = StickerPackManifest {
        title: "Cats".into(),
        author: "Ada".into(),
        cover: None,
        stickers: vec![sticker(1), sticker(2)],
    };
    let pack = download_sticker_pack(&operation, manifest, &vec![None, Some(vec![7])]);
    assert_eq!(pack.id, [1]);
    assert!(pack.key.is_empty());
    assert_eq!(pack.manifest.title, "Cats");
    assert_eq!(pack.manifest.stickers[0].bytes, None);
    assert_eq!(pack.manifest.stickers[1].bytes, Some(vec![7]));
}

use presage::manager::receive::{
    on_connection_event, on_queue_empty, route_envelope, ConnectionEvent, ConnectionStep,
    KeysReading, ReceiveAction, ReceiveState,
};
use presage::manager::registered::{MasterKey, RegistrationType};
use presage::model::messages::Received;
use presage::proto::{
    Content, ContentBody, ContactsBlob, DataMessage, GroupContextV2, Keys, Metadata, RequestType,
    Sent, StickerPackOperation, StickerPackOperationType, SyncMessage,
};
use presage::service_id::{Pni, ServiceId, ServiceIdKind, Uuid};

fn uuid(n: u128) -> Uuid {
    Uuid::from_bytes(n.to_be_bytes())
}

fn key(byte: u8) -> MasterKey {
    MasterKey { inner: [byte; 32] }
}

fn state(registration_type: RegistrationType) -> ReceiveState {
    ReceiveState {
        device_id: 2,
        registration_type,
        master_key: Some(key(1)),
        account_entropy_pool: None,
    }
}

fn content(sender_device: u32, body: ContentBody) -> Content {
    Content {
        metadata: Metadata {
            sender: ServiceId::Aci(uuid(1).into()),
            destination: ServiceId::Aci(uuid(1).into()),
            sender_device,
            server_guid: None,
            timestamp: 10,
            server_timestamp: 11,
            needs_receipt: false,
            unidentified_sender: false,
            was_plaintext: false,
            report_spam_token: None,
        },
        body,
    }
}

fn nothing_read() -> KeysReading {
    KeysReading {
        pool: None,
        derived: None,
    }
}

fn sync(message: SyncMessage) -> Content {
    content(1, ContentBody::SynchronizeMessage(message))
}

fn actions(message: SyncMessage) -> Vec<ReceiveAction> {
    state(RegistrationType::Secondary).receive_messages(&sync(message), nothing_read())
}

#[test]
fn an_envelope_is_opened_with_the_identity_it_names() {
    let ours = Pni::from(uuid(5));
    let pni = "PNI:00000000-0000-0000-0000-000000000005";
    assert_eq!(route_envelope("", ours, false), Some(ServiceIdKind::Aci));
    assert_eq!(
        route_envelope("00000000-0000-0000-0000-000000000005", ours, false),
        Some(ServiceIdKind::Aci)
    );
    assert_eq!(route_envelope(pni, ours, true), Some(ServiceIdKind::Pni));
    // Sealed, and to our PNI: not a valid message.
    assert_eq!(route_envelope(pni, ours, false), None);
    assert_eq!(
        route_envelope(pni, Pni::from(uuid(6)), false),
        Some(ServiceIdKind::Pni)
    );
}

#[test]
fn a_plain_message_is_saved_and_handed_out() {
    let message = content(1, ContentBody::DataMessage(DataMessage::default()));
    assert_eq!(
        state(RegistrationType::Primary).receive_messages(&message, nothing_read()),
        [ReceiveAction::SaveMessage, ReceiveAction::YieldContent]
    );
}

#[test]
fn a_decryption_error_is_not_handed_out() {
    let message = content(1, ContentBody::DecryptionErrorMessage(vec![1]));
    assert!(state(RegistrationType::Primary)
        .receive_messages(&message, nothing_read())
        .is_empty());
}

#[test]
fn a_group_message_fetches_its_group_first() {
    let message = DataMessage {
        group_v2: Some(GroupContextV2 {
            master_key: Some(vec![2; 32]),
            revision: Some(4),
            group_change: None,
        }),
        ..DataMessage::default()
    };
    let expected = [
        ReceiveAction::UpsertGroup {
            master_key: vec![2; 32],
            revision: 4,
        },
        ReceiveAction::SaveMessage,
        ReceiveAction::YieldContent,
    ];
    let received = content(1, ContentBody::DataMessage(message.clone()));
    assert_eq!(
        state(RegistrationType::Primary).receive_messages(&received, nothing_read()),
        expected
    );
    let sent = SyncMessage {
        sent: Some(Sent {
            message: Some(message),
            ..Sent::default()
        }),
        ..SyncMessage::default()
    };
    assert_eq!(actions(sent), expected);
}

fn request(kind: RequestType) -> SyncMessage {
    SyncMessage {
        request: Some(kind),
        ..SyncMessage::default()
    }
}

#[test]
fn requests_are_answered() {
    assert_eq!(
        actions(request(RequestType::Contacts))[0],
        ReceiveAction::SendContacts
    );
    assert_eq!(
        actions(request(RequestType::Blocked))[0],
        ReceiveAction::SendBlocked
    );
    assert_eq!(
        actions(request(RequestType::Keys))[0],
        ReceiveAction::SendKeys {
            keys: Keys {
                master: Some(vec![1; 32]),
                account_entropy_pool: None,
                media_root_backup_key: None
            }
        }
    );
    assert_eq!(actions(request(RequestType::Configuration)).len(), 2);
}

#[test]
fn our_own_request_for_contacts_is_not_answered() {
    let echo = content(
        2,
        ContentBody::SynchronizeMessage(request(RequestType::Contacts)),
    );
    assert_eq!(
        state(RegistrationType::Secondary).receive_messages(&echo, nothing_read()),
        [ReceiveAction::SaveMessage, ReceiveAction::YieldContent]
    );
}

#[test]
fn contacts_are_announced_and_nothing_more() {
    let message = SyncMessage {
        contacts: Some(ContactsBlob::default()),
        keys: Some(Keys {
            master: Some(vec![9; 32]),
            ..Keys::default()
        }),
        ..request(RequestType::Blocked)
    };
    let mut receiving = state(RegistrationType::Secondary);
    assert_eq!(
        receiving.receive_messages(&sync(message), nothing_read()),
        [ReceiveAction::SendBlocked, ReceiveAction::YieldContacts]
    );
    assert_eq!(receiving.master_key, Some(key(1)));
}

#[test]
fn sticker_packs_are_installed_and_removed() {
    let operation = |kind| StickerPackOperation {
        pack_id: Some(vec![1]),
        pack_key: Some(vec![2]),
        kind,
    };
    let message = SyncMessage {
        sticker_pack_operation: vec![
            operation(Some(StickerPackOperationType::Remove)),
            operation(Some(StickerPackOperationType::Install)),
            operation(None),
        ],
        ..SyncMessage::default()
    };
    let actions = actions(message);
    assert_eq!(
        actions[0],
        ReceiveAction::RemoveStickerPack { pack_id: vec![1] }
    );
    assert_eq!(
        actions[1],
        ReceiveAction::InstallStickerPack {
            operation: operation(Some(StickerPackOperationType::Install))
        }
    );
    assert_eq!(
        actions[2],
        ReceiveAction::InstallStickerPack {
            operation: operation(None)
        }
    );
    assert_eq!(actions.len(), 5);
}

fn keys(master: Option<Vec<u8>>, pool: Option<&str>) -> Content {
    sync(SyncMessage {
        keys: Some(Keys {
            master,
            account_entropy_pool: pool.map(str::to_string),
            media_root_backup_key: None,
        }),
        ..SyncMessage::default()
    })
}

#[test]
fn a_linked_device_takes_keys() {
    let mut receiving = state(RegistrationType::Secondary);
    let actions = receiving.receive_messages(
        &keys(Some(vec![7; 32]), Some("pool")),
        KeysReading {
            pool: Some("pool".into()),
            derived: Some(key(8)),
        },
    );
    assert_eq!(
        actions[..2],
        [
            ReceiveAction::StoreEntropyPool {
                pool: "pool".into()
            },
            ReceiveAction::StoreMasterKey { key: key(7) }
        ]
    );
    assert_eq!(receiving.master_key, Some(key(7)));
    assert_eq!(receiving.account_entropy_pool.as_deref(), Some("pool"));
}

#[test]
fn a_missing_or_broken_master_key_derives_from_the_pool() {
    for master in [None, Some(vec![7; 31])] {
        let mut receiving = state(RegistrationType::Secondary);
        let actions = receiving.receive_messages(
            &keys(master, Some("pool")),
            KeysReading {
                pool: Some("pool".into()),
                derived: Some(key(8)),
            },
        );
        assert_eq!(actions.len(), 3);
        assert_eq!(receiving.master_key, Some(key(8)));
    }
    // Without a pool there is nothing to derive from.
    let mut receiving = state(RegistrationType::Secondary);
    receiving.receive_messages(
        &keys(None, Some("broken")),
        KeysReading {
            pool: None,
            derived: Some(key(8)),
        },
    );
    assert_eq!(receiving.master_key, Some(key(1)));
}

#[test]
fn a_primary_device_takes_no_keys() {
    let mut receiving = state(RegistrationType::Primary);
    let actions = receiving.receive_messages(
        &keys(Some(vec![7; 32]), Some("pool")),
        KeysReading {
            pool: Some("pool".into()),
            derived: Some(key(8)),
        },
    );
    assert_eq!(actions.len(), 2);
    assert_eq!(receiving, state(RegistrationType::Primary));
}

#[test]
fn an_empty_queue_asks_for_missing_keys() {
    let mut receiving = state(RegistrationType::Secondary);
    assert_eq!(
        on_queue_empty(&receiving),
        [ReceiveAction::RequestKeys, ReceiveAction::YieldQueueEmpty]
    );
    receiving.account_entropy_pool = Some("pool".into());
    assert_eq!(on_queue_empty(&receiving), [ReceiveAction::YieldQueueEmpty]);
}

#[test]
fn a_closed_connection_is_handed_out() {
    assert!(matches!(
        on_connection_event(ConnectionEvent::Disconnected("unlinked")),
        ConnectionStep::Yield(Received::Disconnected("unlinked"))
    ));
    assert!(matches!(
        on_connection_event(ConnectionEvent::<()>::Failed),
        ConnectionStep::Continue
    ));
    assert!(matches!(
        on_connection_event(ConnectionEvent::<()>::Ended),
        ConnectionStep::End
    ));
}

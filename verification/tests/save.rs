use presage::errors::Error;
use presage::manager::save::{
    edit_message, message_thread, needs_group, profile_needed, save_message,
    upsert_contact_from_profile, ContactTimer, DeleteTarget, ProfileUpdate, SaveOutcome,
};
use presage::model::contacts::Contact;
use presage::model::groups::Group;
use presage::model::profile::{ProfileKey, ProfileName};
use presage::proto::{
    AddressableMessage, Author, CallEvent, Content, ContentBody, DataMessage, Delete, DeleteForMe,
    EditMessage, GroupContextV2, MessageDeletes, Metadata, Sent, SyncMessage,
};
use presage::service_id::{Pni, ServiceId, Uuid};
use presage::store::{ContentExt, Thread, ThreadError};

fn uuid(n: u128) -> Uuid {
    Uuid::from_bytes(n.to_be_bytes())
}

fn aci(n: u128) -> ServiceId {
    ServiceId::Aci(uuid(n).into())
}

fn metadata() -> Metadata {
    Metadata {
        sender: aci(1),
        destination: aci(2),
        sender_device: 1,
        server_guid: None,
        timestamp: 10,
        server_timestamp: 11,
        needs_receipt: false,
        unidentified_sender: false,
        was_plaintext: false,
        report_spam_token: None,
    }
}

fn content(body: ContentBody) -> Content {
    Content {
        metadata: metadata(),
        body,
    }
}

fn outcome(body: ContentBody) -> SaveOutcome {
    save_message(&content(body), &Thread::Contact(aci(1))).outcome
}

fn sync(message: SyncMessage) -> ContentBody {
    ContentBody::SynchronizeMessage(message)
}

#[test]
fn a_message_is_stored_where_it_belongs() {
    let direct = content(ContentBody::DataMessage(DataMessage::default()));
    assert_eq!(
        message_thread(&direct, None, &vec![], None),
        Ok(Thread::Contact(aci(1)))
    );
    assert_eq!(
        message_thread(&direct, Some(Thread::Group([3; 32])), &vec![], None),
        Ok(Thread::Group([3; 32]))
    );
    let grouped = content(ContentBody::DataMessage(DataMessage {
        group_v2: Some(GroupContextV2 {
            master_key: Some(vec![4; 32]),
            revision: None,
            group_change: None,
        }),
        ..DataMessage::default()
    }));
    assert_eq!(
        message_thread(&grouped, None, &vec![], None),
        Ok(Thread::Group([4; 32]))
    );
}

#[test]
fn a_sent_message_to_nobody_has_no_thread() {
    let sent = content(sync(SyncMessage {
        sent: Some(Sent {
            destination_service_id: Some("somebody".into()),
            message: Some(DataMessage::default()),
            ..Sent::default()
        }),
        ..SyncMessage::default()
    }));
    assert_eq!(
        message_thread(&sent, None, &vec![], Some(aci(7))),
        Ok(Thread::Contact(aci(7)))
    );
    assert_eq!(
        message_thread(&sent, None, &vec![], None),
        Err(Error::InvalidThread(ThreadError::InvalidServiceId))
    );
}

#[test]
fn a_data_message_sets_the_timer_of_a_contact() {
    let message = content(ContentBody::DataMessage(DataMessage {
        expire_timer: Some(60),
        profile_key: Some(vec![7; 32]),
        ..DataMessage::default()
    }));
    let plan = save_message(&message, &Thread::Contact(aci(1)));
    assert_eq!(
        plan.timer,
        Some(ContactTimer {
            timer: 60,
            version: 1
        })
    );
    assert_eq!(
        plan.profile,
        Some(ProfileUpdate {
            sender: aci(1),
            profile_key: ProfileKey { bytes: [7; 32] },
            expire_timer: Some(60),
            expire_timer_version: None
        })
    );
    assert_eq!(plan.outcome, SaveOutcome::Keep);
    assert_eq!(save_message(&message, &Thread::Group([1; 32])).timer, None);
}

#[test]
fn a_profile_key_of_another_length_is_ignored() {
    let message = content(ContentBody::DataMessage(DataMessage {
        profile_key: Some(vec![7; 31]),
        ..DataMessage::default()
    }));
    assert_eq!(
        save_message(&message, &Thread::Contact(aci(1))).profile,
        None
    );
}

#[test]
fn a_sent_message_is_saved_like_a_received_one() {
    let message = DataMessage {
        body: Some("hi".into()),
        profile_key: Some(vec![7; 32]),
        ..DataMessage::default()
    };
    let thread = Thread::Contact(aci(1));
    let received = save_message(&content(ContentBody::DataMessage(message.clone())), &thread);
    let sent = save_message(
        &content(sync(SyncMessage {
            sent: Some(Sent {
                message: Some(message),
                ..Sent::default()
            }),
            ..SyncMessage::default()
        })),
        &thread,
    );
    assert_eq!(received, sent);
}

#[test]
fn a_deletion_is_left_to_the_client() {
    let delete = |target_sent_timestamp| {
        ContentBody::DataMessage(DataMessage {
            delete: Some(Delete {
                target_sent_timestamp,
            }),
            ..DataMessage::default()
        })
    };
    assert_eq!(
        outcome(delete(Some(5))),
        SaveOutcome::LookUp { timestamp: 5 }
    );
    assert_eq!(outcome(delete(None)), SaveOutcome::Keep);
}

#[test]
fn a_deletion_for_ourselves_names_its_messages() {
    let message = |author, sent_timestamp| AddressableMessage {
        author,
        sent_timestamp,
    };
    let deletes = DeleteForMe {
        message_deletes: vec![
            MessageDeletes {
                messages: vec![
                    message(
                        Some(Author::AuthorServiceId(aci(3).service_id_string())),
                        Some(1),
                    ),
                    message(Some(Author::AuthorE164("+1".into())), Some(2)),
                    message(None, Some(3)),
                ],
            },
            MessageDeletes {
                messages: vec![
                    message(
                        Some(Author::AuthorServiceIdBinary(aci(4).service_id_binary())),
                        Some(4),
                    ),
                    message(
                        Some(Author::AuthorServiceIdBinary(aci(4).service_id_binary())),
                        None,
                    ),
                ],
            },
        ],
    };
    assert_eq!(
        outcome(sync(SyncMessage {
            delete_for_me: Some(deletes),
            ..SyncMessage::default()
        })),
        SaveOutcome::DeleteForMe {
            targets: vec![
                DeleteTarget {
                    sender: aci(3),
                    timestamp: 1
                },
                DeleteTarget {
                    sender: aci(4),
                    timestamp: 4
                }
            ]
        }
    );
}

#[test]
fn an_edit_replaces_what_it_edits() {
    let message = DataMessage {
        body: Some("better".into()),
        ..DataMessage::default()
    };
    let edit = EditMessage {
        target_sent_timestamp: Some(5),
        data_message: Some(message.clone()),
    };
    let expected = SaveOutcome::Edit {
        target: 5,
        message: message.clone(),
    };
    assert_eq!(outcome(ContentBody::EditMessage(edit.clone())), expected);
    assert_eq!(
        outcome(sync(SyncMessage {
            sent: Some(Sent {
                edit_message: Some(edit.clone()),
                ..Sent::default()
            }),
            ..SyncMessage::default()
        })),
        expected
    );
    assert_eq!(
        outcome(ContentBody::EditMessage(EditMessage {
            target_sent_timestamp: None,
            ..edit.clone()
        })),
        SaveOutcome::Skip
    );

    let saved = edit_message(metadata(), 5, message.clone(), true).unwrap();
    assert_eq!(saved.body, ContentBody::EditMessage(edit));
    assert_eq!(saved.metadata, metadata());
    // It is found where the edited message was.
    assert_eq!(saved.timestamp(), 5);
    assert_eq!(edit_message(metadata(), 5, message, false), None);
}

#[test]
fn only_what_a_client_shows_is_kept() {
    assert_eq!(outcome(ContentBody::NullMessage(vec![])), SaveOutcome::Keep);
    assert_eq!(outcome(ContentBody::CallMessage(vec![])), SaveOutcome::Keep);
    assert_eq!(
        outcome(ContentBody::ReceiptMessage(vec![])),
        SaveOutcome::Keep
    );
    assert_eq!(
        outcome(sync(SyncMessage {
            call_event: Some(CallEvent::default()),
            ..SyncMessage::default()
        })),
        SaveOutcome::Keep
    );
    assert_eq!(outcome(sync(SyncMessage::default())), SaveOutcome::Skip);
    assert_eq!(
        outcome(ContentBody::TypingMessage(vec![])),
        SaveOutcome::Skip
    );
    assert_eq!(outcome(ContentBody::StoryMessage(vec![])), SaveOutcome::Skip);
    assert_eq!(
        outcome(ContentBody::PniSignatureMessage(vec![])),
        SaveOutcome::Skip
    );
    assert_eq!(
        outcome(ContentBody::DecryptionErrorMessage(vec![])),
        SaveOutcome::Skip
    );
}

#[test]
fn a_profile_is_fetched_once_for_each_key() {
    let key = ProfileKey { bytes: [7; 32] };
    let other = ProfileKey { bytes: [8; 32] };
    assert_eq!(profile_needed(true, Some(key), aci(1), key), None);
    assert_eq!(
        profile_needed(true, Some(other), aci(1), key),
        Some(uuid(1).into())
    );
    assert_eq!(profile_needed(true, None, aci(1), key), Some(uuid(1).into()));
    assert_eq!(
        profile_needed(false, Some(key), aci(1), key),
        Some(uuid(1).into())
    );
    let pni = ServiceId::Pni(Pni::from(uuid(1)));
    assert_eq!(profile_needed(false, None, pni, key), None);
}

fn update(expire_timer_version: Option<u32>) -> ProfileUpdate {
    ProfileUpdate {
        sender: aci(1),
        profile_key: ProfileKey { bytes: [7; 32] },
        expire_timer: Some(60),
        expire_timer_version,
    }
}

#[test]
fn a_fetched_profile_makes_a_contact() {
    let name = ProfileName {
        given_name: "Ada".into(),
        family_name: Some("Lovelace".into()),
    };
    let contact = upsert_contact_from_profile(None, uuid(1), Some(name), &update(None));
    assert_eq!(contact.name, "Ada Lovelace");
    assert_eq!(contact.profile_key, [7; 32]);
    assert_eq!(contact.expire_timer, 60);
    assert_eq!(contact.expire_timer_version, 2);
}

#[test]
fn a_nameless_profile_keeps_the_name() {
    let mut known = Contact::minimal(uuid(1));
    known.name = "Ada".into();
    known.expire_timer_version = 9;
    known.blocked = true;
    let contact = upsert_contact_from_profile(Some(known), uuid(1), None, &update(Some(3)));
    assert_eq!(contact.name, "Ada");
    assert_eq!(contact.expire_timer_version, 9);
    assert!(contact.blocked);
}

#[test]
fn a_group_is_fetched_when_it_is_older() {
    let mut group = Group::default();
    group.revision = 3;
    assert!(needs_group(&None, 0));
    assert!(!needs_group(&Some(group.clone()), 3));
    assert!(needs_group(&Some(group), 4));
}

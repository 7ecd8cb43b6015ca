use presage::backup::frames;
use presage::backup::frames::{
    Chat, ChatItem, ChatUpdate, ChatUpdateMessage, Destination, DirectionalDetails, FrameItem,
    IndividualCall, IndividualCallDirection, IndividualCallState, IndividualCallType, Item,
    Recipient, StandardMessage, Text,
};
use presage::backup::group_change::{
    merge_actions, plan, plan_group_update, seal_group_update, GroupUpdate, GroupUpdatePlan,
};
use presage::backup::{ArchiveReply, BackupImportProgress, Download};
use presage::backup::actions::Actions;
use presage::backup::frames::{GroupChangeUpdate, Update};
use presage::errors::Error;
use presage::manager::import::{
    download_and_import_backup, transfer_archive, ArchiveSource, ImportAction, ImportState,
};
use presage::model::calls::CallPeer;
use presage::proto::ContentBody;
use presage::service_id::{Aci, ServiceId, Uuid};
use presage::store::Thread;

fn uuid(n: u128) -> Uuid {
    Uuid::from_bytes(n.to_be_bytes())
}

fn ours() -> Aci {
    Aci::from(uuid(1))
}

fn step(state: &mut ImportState, item: FrameItem) -> Vec<ImportAction> {
    state.import_from_file(&item, ours(), None, &[8; 32])
}

fn contact(id: u64, n: u128) -> FrameItem {
    FrameItem::Recipient(Recipient {
        id,
        destination: Some(Destination::Contact(frames::Contact {
            aci: Some(uuid(n).to_vec()),
            profile_given_name: Some("Ada".into()),
            ..Default::default()
        })),
    })
}

fn group(id: u64) -> FrameItem {
    FrameItem::Recipient(Recipient {
        id,
        destination: Some(Destination::Group(frames::Group {
            master_key: vec![2; 32],
            ..Default::default()
        })),
    })
}

fn incoming(chat_id: u64, author_id: u64, item: Item) -> ChatItem {
    ChatItem {
        chat_id,
        author_id,
        date_sent: 1000,
        item: Some(item),
        directional_details: Some(DirectionalDetails::Incoming(
            frames::IncomingMessageDetails {
                date_received: 1001,
                read: true,
            },
        )),
        ..Default::default()
    }
}

fn hello() -> Item {
    Item::StandardMessage(StandardMessage {
        text: Some(Text {
            body: "hi".into(),
            body_ranges: vec![],
        }),
        ..Default::default()
    })
}

fn prepared() -> ImportState {
    let mut state = ImportState::new();
    step(&mut state, contact(1, 9));
    step(&mut state, group(2));
    step(
        &mut state,
        FrameItem::Chat(Chat {
            id: 10,
            recipient_id: 1,
        }),
    );
    step(
        &mut state,
        FrameItem::Chat(Chat {
            id: 20,
            recipient_id: 2,
        }),
    );
    state
}

#[test]
fn recipients_are_saved_and_remembered() {
    let mut state = ImportState::new();
    match &step(&mut state, contact(1, 9))[..] {
        [ImportAction::SaveContact { contact }] => assert_eq!(contact.name, "Ada"),
        other => panic!("expected a contact, got {other:?}"),
    }
    match &step(&mut state, group(2))[..] {
        [ImportAction::SaveGroup { master_key, group }] => {
            assert_eq!(*master_key, [2; 32]);
            assert!(group.needs_hydration);
        }
        other => panic!("expected a group, got {other:?}"),
    }
    assert_eq!(state.recipients.len(), 2);
    let myself = FrameItem::Recipient(Recipient {
        id: 3,
        destination: Some(Destination::Self_),
    });
    assert!(step(&mut state, myself).is_empty());
    assert_eq!(
        state.recipients[&3].service_id,
        Some(ServiceId::Aci(ours()))
    );
    let list = FrameItem::Recipient(Recipient {
        id: 4,
        destination: Some(Destination::Other),
    });
    assert!(step(&mut state, list).is_empty());
    assert_eq!(state.recipients.len(), 3);
}

#[test]
fn a_chat_with_nobody_known_is_dropped() {
    let mut state = prepared();
    assert_eq!(
        state.chats[&10],
        Thread::Contact(ServiceId::Aci(uuid(9).into()))
    );
    assert_eq!(state.chats[&20], Thread::Group([2; 32]));
    let stray = FrameItem::Chat(Chat {
        id: 30,
        recipient_id: 99,
    });
    assert!(step(&mut state, stray).is_empty());
    assert_eq!(state.chats.len(), 2);
    assert!(step(&mut state, FrameItem::Other).is_empty());
}

#[test]
fn a_message_is_saved_with_its_state() {
    let mut state = prepared();
    let item = FrameItem::ChatItem(incoming(10, 1, hello()));
    assert_eq!(state.group_of(&item), None);
    let actions = step(&mut state, item);
    match &actions[..] {
        [ImportAction::SaveMessage { content, thread }, ImportAction::RestoreState { state }] => {
            assert_eq!(*thread, Thread::Contact(ServiceId::Aci(uuid(9).into())));
            match &content.body {
                ContentBody::DataMessage(message) => {
                    assert_eq!(message.body.as_deref(), Some("hi"))
                }
                other => panic!("expected a data message, got {other:?}"),
            }
            assert_eq!(state.ts, 1000);
            assert_eq!(state.read, Some(true));
            assert_eq!(state.date_received, Some(1001));
        }
        other => panic!("expected a message and its state, got {other:?}"),
    }
}

#[test]
fn a_message_in_an_unknown_chat_is_dropped() {
    let mut state = prepared();
    let item = FrameItem::ChatItem(incoming(99, 1, hello()));
    assert!(step(&mut state, item).is_empty());
}

#[test]
fn the_group_of_a_message_is_named() {
    let state = prepared();
    let item = FrameItem::ChatItem(incoming(20, 1, hello()));
    assert_eq!(state.group_of(&item), Some([2; 32]));
}

#[test]
fn a_call_is_noted_for_its_thread() {
    let mut state = prepared();
    let call = IndividualCall {
        call_id: Some(5),
        kind: IndividualCallType::VideoCall,
        direction: IndividualCallDirection::Incoming,
        state: IndividualCallState::Accepted,
        started_call_timestamp: 900,
    };
    let update = Item::UpdateMessage(ChatUpdateMessage {
        update: Some(ChatUpdate::IndividualCall(call)),
    });
    let actions = step(&mut state, FrameItem::ChatItem(incoming(10, 1, update)));
    match &actions[1] {
        ImportAction::IngestCall { info, peer } => {
            assert_eq!(info.call_id, 5);
            assert_eq!(info.timestamp_ms, 900);
            assert_eq!(*peer, CallPeer::Direct(uuid(9)));
        }
        other => panic!("expected a call, got {other:?}"),
    }
}

#[test]
fn an_archive_is_offered_refused_or_missing() {
    let available = ArchiveReply::Available {
        cdn: 3,
        key: "k".into(),
    };
    let archive = transfer_archive(available, "p".into()).unwrap().unwrap();
    assert_eq!((archive.cdn, &*archive.key, &*archive.path), (3, "k", "p"));
    assert_eq!(
        transfer_archive(ArchiveReply::RelinkRequested, "p".into()),
        Err(Error::BackupRelinkRequested)
    );
    assert_eq!(
        transfer_archive(ArchiveReply::ContinueWithoutUpload, "p".into()),
        Ok(None)
    );
    assert_eq!(
        download_and_import_backup(false, true),
        ArchiveSource::Unavailable
    );
    assert_eq!(download_and_import_backup(true, true), ArchiveSource::Known);
    assert_eq!(
        download_and_import_backup(true, false),
        ArchiveSource::Awaited
    );
}

#[test]
fn a_download_resumes_and_counts() {
    let mut download = Download::resume(10, 30);
    download.advance(5);
    assert_eq!(
        download.progress(),
        BackupImportProgress::Downloading {
            bytes_received: 15,
            total: 30
        }
    );
}

fn rename(name: &str) -> Update {
    Update::GroupNameUpdate {
        updater_aci: Some(uuid(9).to_vec()),
        new_group_name: Some(name.into()),
    }
}

fn change(update: Update) -> GroupChangeUpdate {
    GroupChangeUpdate {
        update: Some(update),
    }
}

#[test]
fn a_group_update_becomes_actions() {
    let (editor, actions) = plan(&rename("New"), ours());
    assert_eq!(editor, Some(Aci::from(uuid(9))));
    assert_eq!(actions.unwrap().modify_title.as_deref(), Some("New"));
    // Who left did so alone.
    let left = Update::GroupMemberLeftUpdate {
        aci: uuid(4).to_vec(),
    };
    let (editor, actions) = plan(&left, ours());
    assert_eq!(editor, Some(Aci::from(uuid(4))));
    assert_eq!(actions.unwrap().delete_members, [Aci::from(uuid(4))]);
}

#[test]
fn a_batch_of_group_updates_is_one_change() {
    let removed = Update::GroupMemberRemovedUpdate {
        remover_aci: Some(uuid(9).to_vec()),
        removed_aci: uuid(4).to_vec(),
    };
    let (editor, planned) = plan_group_update(
        &vec![change(rename("New")), change(removed)],
        &vec![true, true],
        ours(),
        Aci::from(uuid(7)),
    );
    assert_eq!(editor, Aci::from(uuid(9)));
    match planned {
        GroupUpdatePlan::Change(actions) => {
            assert_eq!(actions.modify_title.as_deref(), Some("New"));
            assert_eq!(actions.delete_members, [Aci::from(uuid(4))]);
        }
        other => panic!("expected a change, got {other:?}"),
    }
}

#[test]
fn an_update_by_nobody_falls_back() {
    let (editor, _) = plan_group_update(&vec![], &vec![], ours(), Aci::from(uuid(7)));
    assert_eq!(editor, Aci::from(uuid(7)));
}

#[test]
fn a_created_group_needs_no_change() {
    let created = Update::GroupCreationUpdate {
        updater_aci: Some(uuid(9).to_vec()),
    };
    let (editor, planned) =
        plan_group_update(&vec![change(created)], &vec![true], ours(), Aci::from(uuid(7)));
    assert!(matches!(planned, GroupUpdatePlan::Created));
    assert!(matches!(
        seal_group_update(editor, planned, None),
        Some((_, GroupUpdate::Created))
    ));
    assert!(seal_group_update(ours(), GroupUpdatePlan::Change(Actions::default()), None).is_none());
}

#[test]
fn a_creation_by_nobody_has_the_editor_of_its_batch() {
    let created = || Update::GroupCreationUpdate { updater_aci: None };
    let fallback = Aci::from(uuid(7));
    let (editor, planned) = plan_group_update(
        &vec![change(rename("New")), change(created())],
        &vec![true, true],
        ours(),
        fallback,
    );
    assert_eq!(editor, Aci::from(uuid(9)));
    assert!(matches!(planned, GroupUpdatePlan::Created));
    let (editor, planned) =
        plan_group_update(&vec![change(created())], &vec![true], ours(), fallback);
    assert_eq!(editor, fallback);
    assert!(matches!(planned, GroupUpdatePlan::Created));
    // One that names its updater is by that one, whoever else is named.
    let by_four = Update::GroupCreationUpdate { updater_aci: Some(uuid(4).to_vec()) };
    let (editor, _) = plan_group_update(
        &vec![change(by_four), change(rename("New"))],
        &vec![true, true],
        ours(),
        fallback,
    );
    assert_eq!(editor, Aci::from(uuid(4)));
}

#[test]
fn merged_actions_come_one_after_the_other() {
    let mut first = Actions::default();
    first.delete_members = vec![Aci::from(uuid(1))];
    first.modify_title = Some("a".into());
    let mut second = Actions::default();
    second.delete_members = vec![Aci::from(uuid(2))];
    second.modify_title = Some("b".into());
    let before = first.clone();
    merge_actions(&mut first, Actions::default());
    assert_eq!(first, before);
    merge_actions(&mut first, second);
    assert_eq!(
        first.delete_members,
        [Aci::from(uuid(1)), Aci::from(uuid(2))]
    );
    assert_eq!(first.modify_title.as_deref(), Some("b"));
}

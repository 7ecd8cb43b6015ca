use std::collections::HashMap;

use presage::backup::convert::{chat_item_backup_state, chat_item_to_contents, RecipientInfo};
use presage::backup::frames;
use presage::backup::frames::{
    AttachmentFlag, ChatItem, ChatUpdate, ChatUpdateMessage, DeliveryStatus, DirectionalDetails,
    FilePointer, GroupCall, GroupCallState, IncomingMessageDetails, IndividualCall,
    IndividualCallDirection, IndividualCallState, IndividualCallType, IntegrityCheck, Item,
    LocatorInfo, MessageAttachment, OutgoingMessageDetails, SendStatus, SimpleUpdateType,
    StandardMessage, StickerMessage, Text,
};
use presage::model::access::AccessRequired;
use presage::model::groups::{default_access_required, new_group_access_control};
use presage::proto::{
    AttachmentIdentifier, AttachmentPointer, AttachmentPointerFlag, CallEvent, CallEventDirection,
    CallEventEvent, CallEventType, Content, ContentBody, DataMessage, MessageRequestResponse,
    MessageRequestResponseType, Reaction, Sent, SyncMessage,
};
use presage::service_id::{Aci, ServiceId, Uuid};
use presage::store::{BackupSendStatus, Thread};

const DATE: u64 = 1_700_000_000_000;
const GROUP_ID: [u8; 32] = [8; 32];

fn uuid(n: u128) -> Uuid {
    Uuid::from_bytes(n.to_be_bytes())
}

fn us() -> Aci {
    Aci::from(uuid(1))
}

fn ada() -> Aci {
    Aci::from(uuid(9))
}

/// Recipient 1 is Ada, recipient 2 is this account, recipient 3 is a group.
fn recipients() -> HashMap<u64, RecipientInfo> {
    let person = |aci: Aci| RecipientInfo {
        service_id: Some(ServiceId::Aci(aci)),
        group_master_key: None,
    };
    HashMap::from([
        (1, person(ada())),
        (2, person(us())),
        (3, RecipientInfo { service_id: None, group_master_key: Some([2; 32]) }),
    ])
}

/// Chat 10 is that with Ada, chat 20 is the group.
fn chats() -> HashMap<u64, Thread> {
    HashMap::from([
        (10, Thread::Contact(ServiceId::Aci(ada()))),
        (20, Thread::Group([2; 32])),
    ])
}

fn incoming() -> Option<DirectionalDetails> {
    Some(DirectionalDetails::Incoming(IncomingMessageDetails {
        date_received: DATE + 1,
        read: true,
    }))
}

fn outgoing(send_status: Vec<SendStatus>) -> Option<DirectionalDetails> {
    Some(DirectionalDetails::Outgoing(OutgoingMessageDetails {
        send_status,
        date_received: DATE + 2,
    }))
}

fn item(chat_id: u64, author_id: u64, details: Option<DirectionalDetails>, item: Item) -> ChatItem {
    ChatItem {
        chat_id,
        author_id,
        date_sent: DATE,
        directional_details: details,
        item: Some(item),
    }
}

fn contents(item: &ChatItem) -> Vec<(Content, Thread)> {
    chat_item_to_contents(item, &recipients(), &chats(), us(), &GROUP_ID)
}

fn text(body: &str, reactions: Vec<frames::Reaction>) -> Item {
    Item::StandardMessage(StandardMessage {
        text: Some(Text { body: body.into(), body_ranges: vec![] }),
        reactions,
        ..Default::default()
    })
}

fn update(update: ChatUpdate) -> Item {
    Item::UpdateMessage(ChatUpdateMessage { update: Some(update) })
}

fn data(content: &Content) -> &DataMessage {
    match &content.body {
        ContentBody::DataMessage(message) => message,
        other => panic!("expected a data message, got {other:?}"),
    }
}

fn sync(content: &Content) -> &SyncMessage {
    match &content.body {
        ContentBody::SynchronizeMessage(message) => message,
        other => panic!("expected a sync message, got {other:?}"),
    }
}

fn sent(content: &Content) -> &Sent {
    sync(content).sent.as_ref().expect("a sent message")
}

#[test]
fn an_incoming_message_comes_from_its_author() {
    let result = contents(&item(10, 1, incoming(), text("hi", vec![])));
    assert_eq!(result.len(), 1);
    let (content, thread) = &result[0];
    assert_eq!(*thread, Thread::Contact(ServiceId::Aci(ada())));
    assert_eq!(content.metadata.sender, ServiceId::Aci(ada()));
    assert_eq!(content.metadata.destination, ServiceId::Aci(us()));
    assert_eq!(content.metadata.sender_device, 1);
    assert_eq!(content.metadata.timestamp, DATE as i64);
    assert_eq!(content.metadata.server_timestamp, DATE as i64);
    assert_eq!(data(content).body.as_deref(), Some("hi"));
    assert_eq!(data(content).timestamp, Some(DATE));
}

#[test]
fn an_outgoing_message_names_its_contact_but_no_group() {
    let result = contents(&item(10, 2, outgoing(vec![]), text("hi", vec![])));
    let content = &result[0].0;
    assert_eq!(content.metadata.sender, ServiceId::Aci(us()));
    assert_eq!(content.metadata.destination, ServiceId::Aci(ada()));
    assert_eq!(
        sent(content).destination_service_id,
        Some(ada().service_id_string())
    );
    assert_eq!(sent(content).timestamp, Some(DATE));
    assert_eq!(
        sent(content).message.as_ref().and_then(|m| m.body.as_deref()),
        Some("hi")
    );

    let result = contents(&item(20, 2, outgoing(vec![]), text("hi", vec![])));
    let (content, thread) = &result[0];
    assert_eq!(*thread, Thread::Group([2; 32]));
    assert_eq!(content.metadata.destination, ServiceId::Aci(us()));
    assert_eq!(sent(content).destination_service_id, None);
}

#[test]
fn a_message_without_direction_or_author_is_dropped() {
    let directionless = Some(DirectionalDetails::Directionless);
    assert!(contents(&item(10, 1, None, text("hi", vec![]))).is_empty());
    assert!(contents(&item(10, 1, directionless, text("hi", vec![]))).is_empty());
    assert!(contents(&item(10, 77, incoming(), text("hi", vec![]))).is_empty());
    assert!(contents(&item(77, 1, incoming(), text("hi", vec![]))).is_empty());
    assert!(contents(&item(10, 1, incoming(), Item::Other)).is_empty());
}

#[test]
fn each_reaction_is_a_message_of_its_own() {
    let reaction = |author_id, sent_timestamp| frames::Reaction {
        emoji: "+".into(),
        author_id,
        sent_timestamp,
    };
    let reactions = vec![reaction(1, DATE + 5), reaction(2, DATE + 6), reaction(77, DATE + 7)];
    let result = contents(&item(10, 1, incoming(), text("hi", reactions)));
    assert_eq!(result.len(), 3);

    let expected = Some(Reaction {
        emoji: Some("+".into()),
        remove: Some(false),
        target_author_aci: Some(ada().service_id_string()),
        target_author_aci_binary: Some(uuid(9).to_vec()),
        target_sent_timestamp: Some(DATE),
    });
    let theirs = &result[1].0;
    assert_eq!(theirs.metadata.sender, ServiceId::Aci(ada()));
    assert_eq!(theirs.metadata.timestamp, (DATE + 5) as i64);
    assert_eq!(data(theirs).reaction, expected);
    assert_eq!(data(theirs).timestamp, Some(DATE + 5));

    let ours = &result[2].0;
    assert_eq!(ours.metadata.sender, ServiceId::Aci(us()));
    assert_eq!(ours.metadata.destination, ServiceId::Aci(ada()));
    assert_eq!(sent(ours).timestamp, Some(DATE + 6));
    let message = sent(ours).message.as_ref().expect("a message");
    assert_eq!(message.reaction, expected);
}

#[test]
fn a_reaction_to_an_unknown_author_counts_as_one_to_us() {
    let reaction = frames::Reaction {
        emoji: "+".into(),
        author_id: 1,
        sent_timestamp: DATE,
    };
    let result = contents(&item(10, 77, outgoing(vec![]), text("hi", vec![reaction])));
    let reaction = data(&result[1].0).reaction.as_ref().expect("a reaction");
    assert_eq!(reaction.target_author_aci, Some(us().service_id_string()));
}

fn file(cdn_key: Option<&str>, key: Vec<u8>, integrity_check: Option<IntegrityCheck>) -> FilePointer {
    FilePointer {
        content_type: Some("image/png".into()),
        file_name: Some("a.png".into()),
        width: Some(3),
        height: Some(4),
        locator_info: Some(LocatorInfo {
            key,
            integrity_check,
            size: 12,
            transit_cdn_key: cdn_key.map(Into::into),
            transit_cdn_number: Some(2),
            transit_tier_upload_timestamp: Some(99),
        }),
        ..Default::default()
    }
}

#[test]
fn attachments_keep_where_they_are_and_what_checks_them() {
    let attachment = |pointer, flag| MessageAttachment { pointer: Some(pointer), flag };
    let digest = Some(IntegrityCheck::EncryptedDigest(vec![7]));
    let hash = Some(IntegrityCheck::PlaintextHash(vec![7]));
    let message = StandardMessage {
        attachments: vec![
            attachment(file(Some("k"), vec![1], digest), AttachmentFlag::Gif),
            attachment(file(Some("k"), vec![], hash), AttachmentFlag::Plain),
            attachment(file(None, vec![1], None), AttachmentFlag::VoiceMessage),
        ],
        ..Default::default()
    };
    let result = contents(&item(10, 1, incoming(), Item::StandardMessage(message)));
    let attachments = &data(&result[0].0).attachments;
    let pointer = AttachmentPointer {
        attachment_identifier: Some(AttachmentIdentifier::CdnKey("k".into())),
        cdn_number: Some(2),
        content_type: Some("image/png".into()),
        key: Some(vec![1]),
        size: Some(12),
        digest: Some(vec![7]),
        file_name: Some("a.png".into()),
        flags: Some(AttachmentPointerFlag::Gif),
        width: Some(3),
        height: Some(4),
        upload_timestamp: Some(99),
        ..Default::default()
    };
    assert_eq!(attachments.len(), 2);
    assert_eq!(attachments[0], pointer);
    assert_eq!(
        attachments[1],
        AttachmentPointer { key: None, digest: None, flags: None, ..pointer }
    );
}

#[test]
fn a_sticker_message_carries_its_sticker() {
    let sticker = frames::Sticker {
        pack_id: vec![1],
        pack_key: vec![2],
        sticker_id: 3,
        emoji: Some("+".into()),
        data: None,
    };
    let message = StickerMessage { sticker: Some(sticker), reactions: vec![] };
    let result = contents(&item(10, 1, incoming(), Item::StickerMessage(message)));
    let sticker = data(&result[0].0).sticker.as_ref().expect("a sticker");
    assert_eq!(sticker.pack_id, Some(vec![1]));
    assert_eq!(sticker.pack_key, Some(vec![2]));
    assert_eq!(sticker.sticker_id, Some(3));
    assert_eq!(sticker.emoji.as_deref(), Some("+"));
    assert_eq!(sticker.data, None);
}

fn call(state: IndividualCallState, started_call_timestamp: u64) -> Item {
    update(ChatUpdate::IndividualCall(IndividualCall {
        call_id: Some(5),
        kind: IndividualCallType::Unknown,
        direction: IndividualCallDirection::Unknown,
        state,
        started_call_timestamp,
    }))
}

#[test]
fn an_individual_call_becomes_a_call_event() {
    let result = contents(&item(10, 1, None, call(IndividualCallState::Unknown, 0)));
    let (content, thread) = &result[0];
    assert_eq!(*thread, Thread::Contact(ServiceId::Aci(ada())));
    assert_eq!(content.metadata.sender, ServiceId::Aci(us()));
    assert_eq!(content.metadata.destination, ServiceId::Aci(us()));
    assert_eq!(
        sync(content).call_event,
        Some(CallEvent {
            conversation_id: Some(uuid(9).to_vec()),
            call_id: Some(5),
            timestamp: Some(DATE),
            kind: Some(CallEventType::AudioCall),
            direction: Some(CallEventDirection::Incoming),
            event: Some(CallEventEvent::Accepted),
        })
    );

    for state in [
        IndividualCallState::Missed,
        IndividualCallState::MissedNotificationProfile,
        IndividualCallState::NotAccepted,
    ] {
        let result = contents(&item(10, 1, None, call(state, 900)));
        let event = sync(&result[0].0).call_event.as_ref().expect("a call event");
        assert_eq!(event.event, Some(CallEventEvent::NotAccepted));
        assert_eq!(event.timestamp, Some(900));
        assert_eq!(result[0].0.metadata.timestamp, 900);
    }

    assert!(contents(&item(20, 1, None, call(IndividualCallState::Accepted, 0))).is_empty());
}

fn group_call(state: GroupCallState, started_call_recipient_id: Option<u64>) -> Item {
    update(ChatUpdate::GroupCall(GroupCall {
        call_id: Some(5),
        state,
        started_call_recipient_id,
        started_call_timestamp: 900,
    }))
}

fn group_event(state: GroupCallState, starter: Option<u64>) -> CallEvent {
    let result = contents(&item(20, 1, None, group_call(state, starter)));
    assert_eq!(result[0].1, Thread::Group([2; 32]));
    match &result[0].0.body {
        ContentBody::SynchronizeMessage(SyncMessage { call_event: Some(event), .. }) => {
            event.clone()
        }
        other => panic!("expected a call event, got {other:?}"),
    }
}

#[test]
fn a_group_call_becomes_a_call_event_of_its_group() {
    assert_eq!(
        group_event(GroupCallState::Joined, Some(2)),
        CallEvent {
            conversation_id: Some(GROUP_ID.to_vec()),
            call_id: Some(5),
            timestamp: Some(900),
            kind: Some(CallEventType::GroupCall),
            direction: Some(CallEventDirection::Outgoing),
            event: Some(CallEventEvent::Accepted),
        }
    );
    let expected = [
        (GroupCallState::Accepted, CallEventEvent::Accepted),
        (GroupCallState::Missed, CallEventEvent::NotAccepted),
        (GroupCallState::MissedNotificationProfile, CallEventEvent::NotAccepted),
        (GroupCallState::Declined, CallEventEvent::NotAccepted),
        (GroupCallState::Generic, CallEventEvent::Observed),
        (GroupCallState::Ringing, CallEventEvent::Observed),
        (GroupCallState::OutgoingRing, CallEventEvent::Observed),
        (GroupCallState::Unknown, CallEventEvent::Observed),
    ];
    for (state, event) in expected {
        assert_eq!(group_event(state, Some(1)).event, Some(event));
    }
}

#[test]
fn who_started_a_group_call_decides_its_direction() {
    let direction = |state, starter| group_event(state, starter).direction;
    let outgoing = Some(CallEventDirection::Outgoing);
    let incoming = Some(CallEventDirection::Incoming);
    assert_eq!(direction(GroupCallState::Generic, Some(2)), outgoing);
    assert_eq!(direction(GroupCallState::Generic, Some(1)), incoming);
    // An outgoing ring is ours, whoever is named.
    assert_eq!(direction(GroupCallState::OutgoingRing, Some(1)), outgoing);
    assert_eq!(direction(GroupCallState::OutgoingRing, None), outgoing);
    assert_eq!(direction(GroupCallState::OutgoingRing, Some(77)), outgoing);
    assert_eq!(direction(GroupCallState::Generic, None), incoming);
    let with_ada = item(10, 1, None, group_call(GroupCallState::Joined, None));
    assert!(contents(&with_ada).is_empty());
}

#[test]
fn blocking_and_unblocking_are_answers_to_a_request() {
    let simple = |chat_id, kind| {
        contents(&item(chat_id, 1, None, update(ChatUpdate::SimpleUpdate(kind))))
    };
    let answer = |kind| {
        Some(MessageRequestResponse {
            thread_aci_binary: Some(uuid(9).to_vec()),
            kind: Some(kind),
            ..Default::default()
        })
    };
    let blocked = simple(10, SimpleUpdateType::Blocked);
    assert_eq!(
        sync(&blocked[0].0).message_request_response,
        answer(MessageRequestResponseType::Block)
    );
    assert_eq!(blocked[0].0.metadata.destination, ServiceId::Aci(ada()));
    let unblocked = simple(10, SimpleUpdateType::Unblocked);
    assert_eq!(
        sync(&unblocked[0].0).message_request_response,
        answer(MessageRequestResponseType::Accept)
    );
    assert!(simple(10, SimpleUpdateType::Other).is_empty());
    assert!(simple(20, SimpleUpdateType::Blocked).is_empty());
}

#[test]
fn the_state_of_a_message_is_restored() {
    let message = item(10, 1, incoming(), text("hi", vec![]));
    let state = chat_item_backup_state(&message, &recipients(), &chats()).expect("a state");
    assert_eq!(state.thread, Thread::Contact(ServiceId::Aci(ada())));
    assert_eq!((state.ts, state.read), (DATE, Some(true)));
    assert!(state.send_states.is_empty());
    assert_eq!(state.date_received, Some(DATE + 1));

    let status = |recipient_id, delivery_status, timestamp| SendStatus {
        recipient_id,
        timestamp,
        delivery_status,
    };
    let statuses = vec![
        status(1, Some(DeliveryStatus::Read), 5),
        status(77, Some(DeliveryStatus::Read), 6),
        status(1, Some(DeliveryStatus::Pending), 7),
        status(1, None, 8),
        status(2, Some(DeliveryStatus::Viewed), 9),
    ];
    let message = item(10, 2, outgoing(statuses), text("hi", vec![]));
    let state = chat_item_backup_state(&message, &recipients(), &chats()).expect("a state");
    assert_eq!(state.read, None);
    assert_eq!(
        state.send_states,
        vec![
            (ada().service_id_string(), BackupSendStatus::Read, 5),
            (us().service_id_string(), BackupSendStatus::Viewed, 9),
        ]
    );
    assert_eq!(state.date_received, Some(DATE + 2));

    // A backup that does not say when a message arrived has nothing to restore.
    for details in [
        DirectionalDetails::Incoming(IncomingMessageDetails { date_received: 0, read: true }),
        DirectionalDetails::Outgoing(OutgoingMessageDetails {
            send_status: vec![],
            date_received: 0,
        }),
    ] {
        let message = item(10, 1, Some(details), text("hi", vec![]));
        let state = chat_item_backup_state(&message, &recipients(), &chats()).expect("a state");
        assert_eq!(state.date_received, None);
    }

    let directionless = item(10, 1, Some(DirectionalDetails::Directionless), Item::Other);
    assert!(chat_item_backup_state(&directionless, &recipients(), &chats()).is_none());
    let unknown = item(77, 1, incoming(), Item::Other);
    assert!(chat_item_backup_state(&unknown, &recipients(), &chats()).is_none());
}

#[test]
fn a_new_group_is_closed_to_links_and_open_to_its_members() {
    let control = new_group_access_control();
    assert_eq!(control.attributes, AccessRequired::Member);
    assert_eq!(control.members, AccessRequired::Member);
    assert_eq!(control.add_from_invite_link, AccessRequired::Unsatisfiable);
    assert_eq!(control.member_label, AccessRequired::Member);
    assert_eq!(default_access_required(), AccessRequired::Member);
}

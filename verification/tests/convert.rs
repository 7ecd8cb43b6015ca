use std::collections::HashMap;

use presage::backup::convert::{
    recipient_e164, recipient_to_contact, recipient_to_group, standard_message_to_contents,
    RecipientInfo,
};
use presage::backup::frames;
use presage::backup::frames::{ChatItem, Destination, DirectionalDetails, Recipient};
use presage::model::contacts::{Contact, PhoneNumber};
use presage::proto::{AssociatedValue, ContentBody, DataMessage};
use presage::service_id::{Aci, ServiceId, Uuid};
use presage::store::Thread;

/// The wire's number for bold text.
const BOLD: i32 = 1;

fn to_contact(r: &Recipient) -> Option<Contact> {
    recipient_to_contact(r, recipient_e164(r).map(|e164| PhoneNumber { e164 }))
}

fn contact_recipient() -> Recipient {
    Recipient {
        id: 1,
        destination: Some(Destination::Contact(frames::Contact {
            aci: Some(vec![1u8; 16]),
            e164: Some(15551234567),
            profile_given_name: Some("Ada".to_string()),
            profile_family_name: Some("Lovelace".to_string()),
            ..Default::default()
        })),
    }
}

fn group_recipient() -> Recipient {
    Recipient {
        id: 2,
        destination: Some(Destination::Group(frames::Group {
            master_key: vec![2u8; 32],
            snapshot: Some(frames::GroupSnapshot {
                title: Some(frames::GroupAttributeBlob {
                    content: Some(frames::GroupAttribute::Title("Team Lovelace".to_string())),
                }),
            }),
            ..Default::default()
        })),
    }
}

#[test]
fn recipient_to_contact_extracts_identity_and_name() {
    let contact = to_contact(&contact_recipient()).expect("contact");
    assert_eq!(contact.uuid, Uuid::from_bytes([1u8; 16]));
    assert_eq!(contact.name, "Ada Lovelace");
    assert!(contact.phone_number.is_some());
}

#[test]
fn recipient_to_group_extracts_master_key_and_title() {
    let (master_key, group) = recipient_to_group(&group_recipient()).expect("group");
    assert_eq!(master_key, [2u8; 32]);
    assert_eq!(group.title.as_deref(), Some("Team Lovelace"));
    assert!(group.needs_hydration);
}

/// A mentioning body: one U+FFFC placeholder, with the target carried out-of-band in a body
/// range, which is Signal's on-the-wire shape for `@Ada hi`.
fn mention_text() -> frames::Text {
    frames::Text {
        body: "\u{FFFC} hi".to_string(),
        body_ranges: vec![frames::BodyRange {
            start: 0,
            length: 1,
            associated_value: Some(frames::AssociatedValue::MentionAci(vec![1u8; 16])),
        }],
    }
}

/// An incoming item in chat 10 authored by recipient 1.
fn incoming_item() -> ChatItem {
    ChatItem {
        chat_id: 10,
        author_id: 1,
        date_sent: 1700000000000,
        directional_details: Some(DirectionalDetails::Incoming(
            frames::IncomingMessageDetails {
                date_received: 1700000000001,
                read: true,
            },
        )),
        ..Default::default()
    }
}

fn sender_recipients() -> HashMap<u64, RecipientInfo> {
    HashMap::from([(
        1,
        RecipientInfo {
            service_id: Some(ServiceId::Aci(Aci::from(Uuid::from_bytes([9u8; 16])))),
            group_master_key: None,
        },
    )])
}

fn incoming_data_message(sm: &frames::StandardMessage) -> DataMessage {
    let our_aci = Aci::from(Uuid::from_bytes([7u8; 16]));
    let thread = Thread::Contact(ServiceId::Aci(Aci::from(Uuid::from_bytes([9u8; 16]))));
    let item = incoming_item();
    let contents =
        standard_message_to_contents(sm, &item, &thread, &sender_recipients(), our_aci);
    match contents.into_iter().next().expect("one content").0.body {
        ContentBody::DataMessage(dm) => dm,
        other => panic!("expected a DataMessage, got {other:?}"),
    }
}

#[test]
fn standard_message_carries_mention_body_ranges() {
    let sm = frames::StandardMessage {
        text: Some(mention_text()),
        ..Default::default()
    };
    let dm = incoming_data_message(&sm);

    // Without the range the body is just a placeholder, and the app has nothing to resolve it
    // against: it renders as a blank gap.
    assert_eq!(dm.body.as_deref(), Some("\u{FFFC} hi"));
    assert_eq!(dm.body_ranges.len(), 1);
    let range = &dm.body_ranges[0];
    assert_eq!(range.start, Some(0));
    assert_eq!(range.length, Some(1));
    assert_eq!(
        range.associated_value,
        Some(AssociatedValue::MentionAciBinary(vec![1u8; 16]))
    );
}

#[test]
fn quote_carries_mention_body_ranges() {
    let sm = frames::StandardMessage {
        text: Some(frames::Text {
            body: "agreed".to_string(),
            body_ranges: Vec::new(),
        }),
        quote: Some(frames::Quote {
            target_sent_timestamp: Some(1699999999000),
            author_id: 1,
            text: Some(mention_text()),
            ..Default::default()
        }),
        ..Default::default()
    };
    let quote = incoming_data_message(&sm).quote.expect("quote");

    // The reply preview renders the quoted text, so it needs the ranges too.
    assert_eq!(quote.text.as_deref(), Some("\u{FFFC} hi"));
    assert_eq!(quote.body_ranges.len(), 1);
    assert_eq!(
        quote.body_ranges[0].associated_value,
        Some(AssociatedValue::MentionAciBinary(vec![1u8; 16]))
    );
}

#[test]
fn styles_carry_and_valueless_body_ranges_are_dropped() {
    let sm = frames::StandardMessage {
        text: Some(frames::Text {
            body: "bold text".to_string(),
            body_ranges: vec![
                frames::BodyRange {
                    start: 0,
                    length: 4,
                    associated_value: Some(frames::AssociatedValue::Style(BOLD)),
                },
                // Importers ignore these rather than erroring.
                frames::BodyRange {
                    start: 5,
                    length: 4,
                    associated_value: None,
                },
            ],
        }),
        ..Default::default()
    };
    let dm = incoming_data_message(&sm);

    assert_eq!(dm.body_ranges.len(), 1);
    assert_eq!(
        dm.body_ranges[0].associated_value,
        Some(AssociatedValue::Style(BOLD))
    );
}

#[test]
fn converters_reject_mismatched_or_unsupported_destinations() {
    // Wrong kind for each converter.
    assert!(recipient_to_group(&contact_recipient()).is_none());
    assert!(to_contact(&group_recipient()).is_none());

    // Self / empty destinations yield nothing for either converter.
    let self_recipient = Recipient {
        id: 3,
        destination: Some(Destination::Self_),
    };
    assert!(to_contact(&self_recipient).is_none());
    assert!(recipient_to_group(&self_recipient).is_none());

    let empty = Recipient {
        id: 4,
        destination: None,
    };
    assert!(to_contact(&empty).is_none());
    assert!(recipient_to_group(&empty).is_none());
}

use presage::model::chat_folders::{
    ChatFolder, ChatFolderRecordError, FolderRecipient, RecipientIdentifier,
    CHAT_FOLDER_DELETED_POSITION,
};
use presage::service_id::{ServiceId, Uuid};
use unicode_normalization::UnicodeNormalization;

fn uuid(n: u128) -> Uuid {
    Uuid::from_bytes(n.to_be_bytes())
}

fn folder() -> ChatFolder {
    let mut f = ChatFolder::custom(uuid(42), "Work".to_string());
    f.position = 3;
    f.show_only_unread = true;
    f.include_all_group_chats = true;
    f.included_recipients = vec![
        FolderRecipient::contact(ServiceId::Aci(uuid(7).into())),
        FolderRecipient::GroupMasterKey([9u8; 32]),
    ];
    f.excluded_recipients = vec![FolderRecipient::Contact {
        service_id: None,
        e164: Some("+15555550123".into()),
    }];
    f
}

#[test]
fn record_round_trips() {
    let original = folder();
    let back = ChatFolder::try_from_record(original.to_record()).expect("has an identifier");
    assert_eq!(back, original);
}

#[test]
fn a_contact_recipient_writes_both_service_id_forms() {
    let aci = ServiceId::Aci(uuid(7).into());
    let proto = FolderRecipient::contact(aci).to_proto();
    let Some(RecipientIdentifier::Contact(c)) = proto.identifier else {
        panic!("not a contact");
    };
    assert_eq!(c.service_id, aci.service_id_string());
    assert_eq!(c.service_id_binary, aci.service_id_binary());
}

#[test]
fn a_record_without_an_identifier_is_dropped() {
    let mut r = folder().to_record();
    r.identifier = vec![1, 2, 3];
    assert_eq!(
        ChatFolder::try_from_record(r),
        Err(ChatFolderRecordError::MissingIdentifier)
    );
}

#[test]
fn a_tombstone_keeps_only_its_identity() {
    let mut f = folder();
    f.tombstone(1_000);
    assert_eq!(f.deleted_at_timestamp_ms, 1_000);
    assert_eq!(f.position, CHAT_FOLDER_DELETED_POSITION);
    assert!(f.included_recipients.is_empty());
    assert!(f.excluded_recipients.is_empty());
    assert_eq!(f.name, "Work");
}

#[test]
fn names_are_counted_in_graphemes() {
    assert!(ChatFolder::is_valid_name(
        &"\u{1F468}\u{200D}\u{1F469}\u{200D}\u{1F467}\u{200D}\u{1F466}".repeat(32)
    ));
    assert!(!ChatFolder::is_valid_name(&"a".repeat(33)));
    assert!(!ChatFolder::is_valid_name(""));
    assert_eq!(
        ChatFolder::normalized_name("  Work \u{0301} "),
        "Work \u{0301}".nfc().collect::<String>().trim().to_owned()
    );
}

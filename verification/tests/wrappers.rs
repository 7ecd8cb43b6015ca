//! What the library takes from other crates, seen through its own functions.
use presage::backup::random_backup_path;
use presage::manager::attachments::{
    check_attachment, decrypts_in_thread, get_attachment, remove_padding, sticker_pack_address,
};
use presage::errors::Error;
use presage::model::calls::{call_id_from_era_id, call_id_with_digest, parse_era_id, CallPeer};
use presage::model::chat_folders::ChatFolder;
use presage::proto::AttachmentPointer;
use presage::service_id::{Aci, Pni, ServiceId, Uuid};
use presage::sqlite::open_with_passphrase;
use presage::time::date_or_epoch;

const UUID: [u8; 16] = [
    0x01, 0x23, 0x45, 0x67, 0x89, 0xab, 0xcd, 0xef, 0xfe, 0xdc, 0xba, 0x98, 0x76, 0x54, 0x32, 0x10,
];
const TEXT: &str = "01234567-89ab-cdef-fedc-ba9876543210";

#[test]
fn a_uuid_is_written_in_five_groups() {
    assert_eq!(Uuid::from_bytes(UUID).to_string(), TEXT);
}

#[test]
fn a_uuid_reads_back_from_its_text() {
    assert_eq!(Uuid::parse_str(TEXT), Some(Uuid::from_bytes(UUID)));
    assert_eq!(
        Uuid::parse_str("0123456789ABCDEFFEDCBA9876543210"),
        Some(Uuid::from_bytes(UUID))
    );
    assert_eq!(Uuid::parse_str("not a uuid"), None);
    assert_eq!(Uuid::parse_str(""), None);
}

#[test]
fn a_service_id_reads_back_from_both_of_its_forms() {
    let aci = ServiceId::Aci(Aci::from(Uuid::from_bytes(UUID)));
    let pni = ServiceId::Pni(Pni::from(Uuid::from_bytes(UUID)));
    assert_eq!(aci.service_id_string(), TEXT);
    assert_eq!(pni.service_id_string(), format!("PNI:{TEXT}"));
    for id in [aci, pni] {
        assert_eq!(
            ServiceId::parse_from_service_id_string(&id.service_id_string()),
            Some(id)
        );
        assert_eq!(
            ServiceId::parse_from_service_id_binary(&id.service_id_binary()),
            Some(id)
        );
    }
    assert_eq!(pni.service_id_binary()[0], 1);
    assert_eq!(ServiceId::parse_from_service_id_string("PNI:"), None);
    // A service id has hyphens, though a uuid may do without.
    assert_eq!(
        ServiceId::parse_from_service_id_string("0123456789abcdeffedcba9876543210"),
        None
    );
    assert_eq!(ServiceId::parse_from_service_id_binary(&[7u8; 17]), None);
    assert_eq!(ServiceId::parse_from_service_id_binary(&[]), None);
}

#[test]
fn a_peer_is_named_by_uuid_or_hexadecimal_key() {
    assert_eq!(CallPeer::Direct(Uuid::from_bytes(UUID)).peer_id(), TEXT);
    let mut key = [0u8; 32];
    key[0] = 0xab;
    key[31] = 0x0f;
    assert_eq!(
        CallPeer::Group(key).peer_id(),
        format!("ab{}0f", "0".repeat(60))
    );
    assert_eq!(sticker_pack_address(&vec![0x0a, 0xff]), "0aff");
}

#[test]
fn a_backup_file_is_named_by_sixteen_digits() {
    assert_eq!(random_backup_path(0), "signal-backup-0000000000000000.bin");
    assert_eq!(
        random_backup_path(0x0123_4567_89ab_cdef),
        "signal-backup-0123456789abcdef.bin"
    );
}

#[test]
fn an_era_id_that_spells_no_number_is_digested() {
    // The digest of "abc" starts with ba 78 16 bf 8f 01 cf ea.
    assert_eq!(parse_era_id("abc"), None);
    assert_eq!(call_id_from_era_id("abc"), 0xeacf_018f_bf16_78ba);
    assert_eq!(
        call_id_with_digest("abc", &ABC.to_vec()),
        0xeacf_018f_bf16_78ba
    );
    assert_eq!(parse_era_id("445aa0d4d45926be"), Some(0x445a_a0d4_d459_26be));
    assert_eq!(parse_era_id("445AA0D4D45926BE"), Some(0x445a_a0d4_d459_26be));
    // A sign is no digit.
    assert_eq!(parse_era_id("+000000000000001"), None);
    assert_eq!(
        call_id_with_digest("+000000000000001", &ABC.to_vec()),
        0xeacf_018f_bf16_78ba
    );
    assert_ne!(call_id_from_era_id("+000000000000001"), 1);
}

fn pointer(digest: Option<Vec<u8>>, key: Option<Vec<u8>>) -> AttachmentPointer {
    AttachmentPointer {
        digest,
        key,
        ..AttachmentPointer::default()
    }
}

/// The digest of "abc".
const ABC: [u8; 32] = [
    0xba, 0x78, 0x16, 0xbf, 0x8f, 0x01, 0xcf, 0xea, 0x41, 0x41, 0x40, 0xde, 0x5d, 0xae, 0x22, 0x23,
    0xb0, 0x03, 0x61, 0xa3, 0x96, 0x17, 0x7a, 0x9c, 0xb4, 0x10, 0xff, 0x61, 0xf2, 0x00, 0x15, 0xad,
];

#[test]
fn an_attachment_is_refused_for_another_digest() {
    let key = Some(vec![5u8; 64]);
    let good = pointer(Some(ABC.to_vec()), key.clone());
    assert_eq!(get_attachment(&good, &b"abc".to_vec()), Ok([5u8; 64]));
    assert_eq!(
        get_attachment(&good, &b"abd".to_vec()),
        Err(Error::UnexpectedAttachmentChecksum)
    );
    // Without a digest there is nothing to compare.
    assert_eq!(
        get_attachment(&pointer(None, key), &b"abd".to_vec()),
        Ok([5u8; 64])
    );
}

#[test]
fn an_attachment_needs_a_key_of_sixty_four_bytes() {
    assert_eq!(
        check_attachment(&pointer(None, Some(vec![5u8; 63])), &vec![]),
        Err(Error::InvalidAttachmentKey)
    );
    assert_eq!(
        check_attachment(&pointer(None, None), &vec![]),
        Err(Error::InvalidAttachmentKey)
    );
    // The digest comes first.
    assert_eq!(
        check_attachment(&pointer(Some(vec![1]), None), &vec![2]),
        Err(Error::UnexpectedAttachmentChecksum)
    );
}

#[test]
fn padding_is_removed_and_nothing_else() {
    let mut padded = vec![1, 2, 3, 0, 0];
    remove_padding(&mut padded, Some(3));
    assert_eq!(padded, [1, 2, 3]);
    remove_padding(&mut padded, Some(9));
    assert_eq!(padded, [1, 2, 3]);
    remove_padding(&mut padded, None);
    assert_eq!(padded, [1, 2, 3]);
    assert!(!decrypts_in_thread(100 * 1024));
    assert!(decrypts_in_thread(100 * 1024 + 1));
}

#[test]
fn a_time_out_of_range_becomes_the_epoch() {
    assert_eq!(date_or_epoch(1_700_000_000_000), 1_700_000_000_000);
    assert_eq!(date_or_epoch(0), 0);
    assert_eq!(date_or_epoch(i64::MAX as u64), 0);
}

#[test]
fn a_folder_name_is_composed_and_trimmed() {
    assert_eq!(ChatFolder::normalized_name(" e\u{0301} "), "\u{e9}");
    assert_eq!(ChatFolder::trimmed_name("\u{2003}a b\t"), "a b");
    assert!(ChatFolder::is_valid_name(&"a".repeat(32)));
    // Two characters, one grapheme.
    assert!(ChatFolder::is_valid_name(&"e\u{0301}".repeat(32)));
}

#[test]
fn a_quote_in_a_passphrase_is_doubled() {
    assert_eq!(open_with_passphrase("it's"), "'it''s'");
    assert_eq!(open_with_passphrase("''"), "''''''");
    assert_eq!(open_with_passphrase(""), "''");
}

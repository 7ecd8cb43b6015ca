use presage::storage_record::{
    contact_blocked, contact_muted_until, encode_len_delimited, encode_tag, encode_varint,
    encode_varint_field, group_muted_until, record_payload, scan, set_contact_blocked,
    set_contact_muted_until, set_group_muted_until, StorageRecordEditError as EditError,
    CONTACT_RECORD_BLOCKED, CONTACT_RECORD_MUTED_UNTIL, GROUP_V2_RECORD_MUTED_UNTIL,
    STORAGE_RECORD_CONTACT, STORAGE_RECORD_GROUP_V2,
};
use presage::wire::{WIRE_LEN, WIRE_VARINT};

/// A `ContactRecord` with an ACI (field 1), a name (field 6), and a field
/// number no version of the proto we compile against defines.
fn contact_with_unknown_field() -> Vec<u8> {
    let mut contact = Vec::new();
    contact.extend_from_slice(&encode_len_delimited(1, b"aci-bytes"));
    contact.extend_from_slice(&encode_len_delimited(6, b"Ada"));
    contact.extend_from_slice(&encode_len_delimited(250, b"from the future"));
    contact
}

fn storage_record(contact: &[u8]) -> Vec<u8> {
    encode_len_delimited(STORAGE_RECORD_CONTACT, contact)
}

/// A `GroupV2Record` with a master key (field 1), `whitelisted` (field 3),
/// `dontNotifyForMentionsIfMuted` (field 7) — which presage models but never
/// writes — and a field number no version of the proto we compile against
/// defines.
fn group_with_unknown_field() -> Vec<u8> {
    let mut group = Vec::new();
    group.extend_from_slice(&encode_len_delimited(1, &[7u8; 32]));
    group.extend_from_slice(&encode_varint_field(3, 1));
    group.extend_from_slice(&encode_varint_field(7, 1));
    group.extend_from_slice(&encode_len_delimited(251, b"from the future"));
    group
}

fn group_record(group: &[u8]) -> Vec<u8> {
    encode_len_delimited(STORAGE_RECORD_GROUP_V2, group)
}

#[test]
fn blocking_preserves_every_other_field() {
    let record = storage_record(&contact_with_unknown_field());
    let blocked = set_contact_blocked(&record, true).unwrap();

    assert!(contact_blocked(&blocked).unwrap());

    let payload = record_payload(&blocked, STORAGE_RECORD_CONTACT).unwrap();
    let contact = &blocked[payload];
    assert!(
        contact.windows(15).any(|w| w == b"from the future"),
        "unknown field was dropped"
    );
    assert!(contact.windows(9).any(|w| w == b"aci-bytes"));
    assert!(contact.windows(3).any(|w| w == b"Ada"));
}

#[test]
fn block_then_unblock_restores_the_original_bytes() {
    let record = storage_record(&contact_with_unknown_field());

    let blocked = set_contact_blocked(&record, true).unwrap();
    assert_ne!(blocked, record);

    let unblocked = set_contact_blocked(&blocked, false).unwrap();
    assert_eq!(
        unblocked, record,
        "toggling must not accumulate bytes or reorder fields"
    );
}

#[test]
fn unblocking_removes_the_field_rather_than_zeroing_it() {
    let mut contact = contact_with_unknown_field();
    contact.extend_from_slice(&encode_varint_field(CONTACT_RECORD_BLOCKED, 1));
    let record = storage_record(&contact);

    let unblocked = set_contact_blocked(&record, false).unwrap();
    let payload = record_payload(&unblocked, STORAGE_RECORD_CONTACT).unwrap();
    let inner = scan(&unblocked[payload]).unwrap();

    assert!(
        !inner.iter().any(|s| s.number == CONTACT_RECORD_BLOCKED),
        "field 9 should be absent, not present-and-false"
    );
    assert!(!contact_blocked(&unblocked).unwrap());
}

#[test]
fn duplicate_blocked_fields_collapse_to_one() {
    let mut contact = contact_with_unknown_field();
    contact.extend_from_slice(&encode_varint_field(CONTACT_RECORD_BLOCKED, 0));
    contact.extend_from_slice(&encode_varint_field(CONTACT_RECORD_BLOCKED, 1));
    let record = storage_record(&contact);

    // Last-wins, so the record currently reads as blocked.
    assert!(contact_blocked(&record).unwrap());

    let blocked = set_contact_blocked(&record, true).unwrap();
    let payload = record_payload(&blocked, STORAGE_RECORD_CONTACT).unwrap();
    let inner = scan(&blocked[payload]).unwrap();
    assert_eq!(
        inner
            .iter()
            .filter(|s| s.number == CONTACT_RECORD_BLOCKED)
            .count(),
        1
    );
    assert!(contact_blocked(&blocked).unwrap());
}

#[test]
fn setting_blocked_on_a_record_without_it_appends() {
    let record = storage_record(&contact_with_unknown_field());
    assert!(!contact_blocked(&record).unwrap());

    let blocked = set_contact_blocked(&record, true).unwrap();
    assert!(contact_blocked(&blocked).unwrap());
}

#[test]
fn unblocking_an_already_unblocked_record_is_a_no_op() {
    let record = storage_record(&contact_with_unknown_field());
    assert_eq!(set_contact_blocked(&record, false).unwrap(), record);
}

/// "Muted forever" is `i64::MAX` — a ten-byte varint, the encoder's and
/// decoder's worst case.
#[test]
fn mute_round_trips_including_forever() {
    let record = storage_record(&contact_with_unknown_field());
    assert_eq!(contact_muted_until(&record).unwrap(), 0);

    let muted = set_contact_muted_until(&record, i64::MAX as u64).unwrap();
    assert_eq!(contact_muted_until(&muted).unwrap(), i64::MAX as u64);

    let payload = record_payload(&muted, STORAGE_RECORD_CONTACT).unwrap();
    let contact = &muted[payload];
    assert!(
        contact.windows(15).any(|w| w == b"from the future"),
        "unknown field was dropped"
    );
}

#[test]
fn mute_then_unmute_restores_the_original_bytes() {
    let record = storage_record(&contact_with_unknown_field());

    let muted = set_contact_muted_until(&record, 1_700_000_000_000).unwrap();
    assert_ne!(muted, record);

    let unmuted = set_contact_muted_until(&muted, 0).unwrap();
    assert_eq!(
        unmuted, record,
        "toggling must not accumulate bytes or reorder fields"
    );
}

#[test]
fn unmuting_removes_the_field_rather_than_zeroing_it() {
    let mut contact = contact_with_unknown_field();
    contact.extend_from_slice(&encode_varint_field(
        CONTACT_RECORD_MUTED_UNTIL,
        1_700_000_000_000,
    ));
    let record = storage_record(&contact);

    let unmuted = set_contact_muted_until(&record, 0).unwrap();
    let payload = record_payload(&unmuted, STORAGE_RECORD_CONTACT).unwrap();
    let inner = scan(&unmuted[payload]).unwrap();

    assert!(
        !inner.iter().any(|s| s.number == CONTACT_RECORD_MUTED_UNTIL),
        "field 13 should be absent, not present-and-zero"
    );
    assert_eq!(contact_muted_until(&unmuted).unwrap(), 0);
}

#[test]
fn mute_with_the_wrong_wire_type_is_rejected() {
    let mut contact = contact_with_unknown_field();
    contact.extend_from_slice(&encode_len_delimited(
        CONTACT_RECORD_MUTED_UNTIL,
        b"not a varint",
    ));
    let record = storage_record(&contact);

    assert_eq!(contact_muted_until(&record), Err(EditError::Malformed));
}

/// Editing one field must not disturb the other — block and mute share the
/// record and the publish path settles both in one write.
#[test]
fn block_and_mute_edits_compose() {
    let record = storage_record(&contact_with_unknown_field());

    let blocked = set_contact_blocked(&record, true).unwrap();
    let both = set_contact_muted_until(&blocked, 42).unwrap();

    assert!(contact_blocked(&both).unwrap());
    assert_eq!(contact_muted_until(&both).unwrap(), 42);
}

#[test]
fn outer_unknown_fields_survive() {
    let mut record = storage_record(&contact_with_unknown_field());
    record.extend_from_slice(&encode_len_delimited(99, b"outer"));

    let blocked = set_contact_blocked(&record, true).unwrap();
    assert!(
        blocked.windows(5).any(|w| w == b"outer"),
        "a field outside the oneof was dropped"
    );
}

/// `0x80 0x00` is zero written the long way. Testing for a non-zero byte
/// would see the continuation bit and call it `true`.
#[test]
fn a_non_canonical_zero_reads_as_unblocked() {
    let mut contact = contact_with_unknown_field();
    encode_tag(CONTACT_RECORD_BLOCKED, WIRE_VARINT, &mut contact);
    contact.extend_from_slice(&[0x80, 0x00]);
    let record = storage_record(&contact);

    assert!(!contact_blocked(&record).unwrap());
}

/// The same encoding applied to a one: still `true`, decoded properly.
#[test]
fn a_non_canonical_one_reads_as_blocked() {
    let mut contact = contact_with_unknown_field();
    encode_tag(CONTACT_RECORD_BLOCKED, WIRE_VARINT, &mut contact);
    contact.extend_from_slice(&[0x81, 0x00]);
    let record = storage_record(&contact);

    assert!(contact_blocked(&record).unwrap());
}

#[test]
fn blocked_with_the_wrong_wire_type_is_rejected() {
    let mut contact = contact_with_unknown_field();
    contact.extend_from_slice(&encode_len_delimited(
        CONTACT_RECORD_BLOCKED,
        b"not a varint",
    ));
    let record = storage_record(&contact);

    assert_eq!(contact_blocked(&record), Err(EditError::Malformed));
}

/// The group half of the mute wire tests. `GroupV2Record.mutedUntilTimestamp`
/// is field 6 inside `StorageRecord` field 3 — a different pair of numbers
/// from the contact case, and the reason these are not one parametrised test.
#[test]
fn group_mute_round_trips_including_forever() {
    let record = group_record(&group_with_unknown_field());
    assert_eq!(group_muted_until(&record).unwrap(), 0);

    let muted = set_group_muted_until(&record, i64::MAX as u64).unwrap();
    assert_eq!(group_muted_until(&muted).unwrap(), i64::MAX as u64);

    let payload = record_payload(&muted, STORAGE_RECORD_GROUP_V2).unwrap();
    let group = &muted[payload];
    assert!(
        group.windows(15).any(|w| w == b"from the future"),
        "unknown field was dropped"
    );
}

#[test]
fn group_mute_then_unmute_restores_the_original_bytes() {
    let record = group_record(&group_with_unknown_field());

    let muted = set_group_muted_until(&record, 1_700_000_000_000).unwrap();
    assert_ne!(muted, record);

    let unmuted = set_group_muted_until(&muted, 0).unwrap();
    assert_eq!(
        unmuted, record,
        "toggling must not accumulate bytes or reorder fields"
    );
}

#[test]
fn unmuting_a_group_removes_the_field_rather_than_zeroing_it() {
    let mut group = group_with_unknown_field();
    group.extend_from_slice(&encode_varint_field(
        GROUP_V2_RECORD_MUTED_UNTIL,
        1_700_000_000_000,
    ));
    let record = group_record(&group);

    let unmuted = set_group_muted_until(&record, 0).unwrap();
    let payload = record_payload(&unmuted, STORAGE_RECORD_GROUP_V2).unwrap();
    let inner = scan(&unmuted[payload]).unwrap();

    assert!(
        !inner
            .iter()
            .any(|s| s.number == GROUP_V2_RECORD_MUTED_UNTIL),
        "field 6 should be absent, not present-and-zero"
    );
    assert_eq!(group_muted_until(&unmuted).unwrap(), 0);
}

#[test]
fn group_mute_with_the_wrong_wire_type_is_rejected() {
    let mut group = group_with_unknown_field();
    group.extend_from_slice(&encode_len_delimited(
        GROUP_V2_RECORD_MUTED_UNTIL,
        b"not a varint",
    ));
    let record = group_record(&group);

    assert_eq!(group_muted_until(&record), Err(EditError::Malformed));
}

/// `0x80 0x00` is a legal, non-canonical encoding of zero. Reading it as a
/// byte pattern rather than decoding it would see the continuation bit and
/// call the group muted.
#[test]
fn a_non_canonical_zero_group_mute_reads_as_unmuted() {
    let mut group = group_with_unknown_field();
    group.extend_from_slice(&[(GROUP_V2_RECORD_MUTED_UNTIL << 3) as u8, 0x80, 0x00]);
    let record = group_record(&group);

    assert_eq!(group_muted_until(&record).unwrap(), 0);
}

/// Field 7 is `dontNotifyForMentionsIfMuted`. No official client couples it
/// to a mute change, and presage never writes it — so a mute edit must carry
/// whatever the account already had.
#[test]
fn muting_a_group_preserves_dont_notify_for_mentions() {
    let record = group_record(&group_with_unknown_field());
    let muted = set_group_muted_until(&record, 1_700_000_000_000).unwrap();

    let payload = record_payload(&muted, STORAGE_RECORD_GROUP_V2).unwrap();
    let inner = scan(&muted[payload]).unwrap();
    let mentions = inner
        .iter()
        .find(|s| s.number == 7)
        .expect("dontNotifyForMentionsIfMuted was dropped");

    assert_eq!(mentions.wire_type, WIRE_VARINT);
}

#[test]
fn a_record_of_another_type_is_rejected() {
    let group = group_record(&group_with_unknown_field());
    assert_eq!(
        set_contact_blocked(&group, true),
        Err(EditError::WrongRecordType)
    );

    let contact = storage_record(&contact_with_unknown_field());
    assert_eq!(
        set_group_muted_until(&contact, 42),
        Err(EditError::WrongRecordType)
    );
}

#[test]
fn two_contacts_are_rejected_rather_than_guessed() {
    let mut record = storage_record(&contact_with_unknown_field());
    record.extend_from_slice(&storage_record(&contact_with_unknown_field()));
    assert_eq!(
        set_contact_blocked(&record, true),
        Err(EditError::AmbiguousRecord)
    );
}

#[test]
fn two_groups_are_rejected_rather_than_guessed() {
    let mut record = group_record(&group_with_unknown_field());
    record.extend_from_slice(&group_record(&group_with_unknown_field()));
    assert_eq!(
        set_group_muted_until(&record, 42),
        Err(EditError::AmbiguousRecord)
    );
}

#[test]
fn truncated_input_is_rejected() {
    let record = storage_record(&contact_with_unknown_field());
    for cut in 1..record.len() {
        let _ = set_contact_blocked(&record[..cut], true);
    }
    // A length prefix that runs past the end must not panic or over-read.
    let mut lying = Vec::new();
    encode_tag(STORAGE_RECORD_CONTACT, WIRE_LEN, &mut lying);
    encode_varint(200, &mut lying);
    lying.extend_from_slice(b"short");
    assert_eq!(set_contact_blocked(&lying, true), Err(EditError::Malformed));
}

#[test]
fn every_wire_type_round_trips_untouched() {
    let mut contact = Vec::new();
    contact.extend_from_slice(&encode_varint_field(2, 1)); // varint
    contact.push(0x11); // field 2, wire type 1 (i64)
    contact.extend_from_slice(&[1, 2, 3, 4, 5, 6, 7, 8]);
    contact.extend_from_slice(&encode_len_delimited(6, b"Ada"));
    contact.push(0x25); // field 4, wire type 5 (i32)
    contact.extend_from_slice(&[9, 9, 9, 9]);
    let record = storage_record(&contact);

    let blocked = set_contact_blocked(&record, true).unwrap();
    let unblocked = set_contact_blocked(&blocked, false).unwrap();
    assert_eq!(unblocked, record);
}

#[test]
fn an_edit_that_changes_nothing_keeps_the_wrapper() {
    // The length of the empty contact record is written in two bytes.
    let record = [0x0A, 0x80, 0x00];
    assert_eq!(set_contact_blocked(&record, false).unwrap(), record);
    assert_eq!(set_contact_muted_until(&record, 0).unwrap(), record);
    // An edit that changes something writes the wrapper anew.
    let blocked = set_contact_blocked(&record, true).unwrap();
    let inner = encode_varint_field(CONTACT_RECORD_BLOCKED, 1);
    assert_eq!(blocked, encode_len_delimited(STORAGE_RECORD_CONTACT, &inner));
    // Writing what is there already is such a no-op too.
    let mut loose = vec![0x0A, 0x80 | inner.len() as u8, 0x00];
    loose.extend_from_slice(&inner);
    assert_eq!(set_contact_blocked(&loose, true).unwrap(), loose);
}

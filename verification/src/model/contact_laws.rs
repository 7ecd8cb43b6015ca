//! What the conversions of [`contacts`](crate::model::contacts) promise.
//!
//! Each law speaks of what a function was given and what it returned.
use vstd::prelude::*;

use crate::model::contacts;
use crate::model::contacts::{Contact, ContactDetails, InvalidAci, PhoneNumber, SyncedContact};
use crate::model::profile::ProfileKey;
use crate::proto::ContactRecord;
use crate::service_id::Uuid;
use crate::text;

verus! {

/// What the user set on another device is what this one reads: whether a contact is blocked,
/// accepted, archived, marked as unread, muted, hidden or gone.
pub proof fn law_a_record_keeps_the_choices_of_the_user(
    record: ContactRecord,
    phone_number: Option<PhoneNumber>,
    contact: Contact,
)
    requires
        call_ensures(
            Contact::try_from_record,
            (record, phone_number),
            Ok::<Contact, InvalidAci>(contact),
        ),
    ensures
        contact.blocked == record.blocked,
        contact.whitelisted == record.whitelisted,
        contact.archived == record.archived,
        contact.marked_unread == record.marked_unread,
        contact.muted_until_timestamp == record.muted_until_timestamp,
        contact.hide_story == record.hide_story,
        contact.hidden == record.hidden,
        contact.unregistered_at_timestamp == record.unregistered_at_timestamp,
        contact.pni_signature_verified == record.pni_signature_verified,
{
}

/// A contact is called what its record says: the given name, and after a space the family name
/// where there is one. Nicknames, the names of the system's address book and the note come over
/// as they are.
pub proof fn law_a_record_keeps_the_names(
    record: ContactRecord,
    phone_number: Option<PhoneNumber>,
    contact: Contact,
)
    requires
        call_ensures(
            Contact::try_from_record,
            (record, phone_number),
            Ok::<Contact, InvalidAci>(contact),
        ),
    ensures
        contact.name@.take(record.given_name@.len() as int) == record.given_name@,
        record.family_name@.len() == 0 ==> contact.name@.len() == record.given_name@.len(),
        record.family_name@.len() > 0 ==> contact.name@.skip(record.given_name@.len() as int)
            == seq![' '] + record.family_name@,
        contact.system_given_name@ == record.system_given_name@,
        contact.system_family_name@ == record.system_family_name@,
        contact.system_nickname@ == record.system_nickname@,
        contact.note@ == record.note@,
        record.nickname matches Some(nickname) ==> contact.nickname_given_name@
            == nickname.given@ && contact.nickname_family_name@ == nickname.family@,
        record.nickname is None ==> contact.nickname_given_name@.len() == 0
            && contact.nickname_family_name@.len() == 0,
        record.username@.len() == 0 <==> contact.username is None,
        contact.username matches Some(username) ==> username@ == record.username@,
{
    let given = record.given_name@;
    assert(given.take(given.len() as int) =~= given);
    let family = record.family_name@;
    let whole = given + seq![' '] + family;
    assert(whole.take(given.len() as int) =~= given);
    assert(whole.skip(given.len() as int) =~= seq![' '] + family);
}

/// A contact is who its record says: by the binary identity where there is one, and else by
/// the text. The phone number is the one that was read, and the profile key the record's. What
/// a record does not carry is at its default.
pub proof fn law_a_record_keeps_the_identity(
    record: ContactRecord,
    phone_number: Option<PhoneNumber>,
    contact: Contact,
)
    requires
        call_ensures(
            Contact::try_from_record,
            (record, phone_number),
            Ok::<Contact, InvalidAci>(contact),
        ),
    ensures
        record.aci_binary@.len() > 0 ==> contact.uuid.bytes@ == record.aci_binary@,
        record.aci_binary@.len() == 0 ==> text::parsed_uuid(record.aci@) == Some(
            contact.uuid.bytes@,
        ),
        record.pni_binary@.len() == 16 ==> contact.pni is Some && contact.pni->0.bytes@
            == record.pni_binary@,
        record.pni_binary@.len() == 0 && record.pni@.len() == 0 ==> contact.pni is None,
        record.pni_binary@.len() == 0 && record.pni@.len() > 0 ==> contact.pni.deep_view()
            == text::parsed_uuid(record.pni@),
        contact.phone_number is Some <==> phone_number is Some,
        contact.phone_number is Some ==> contact.phone_number->0.e164@ == phone_number->0.e164@,
        contact.profile_key@ == record.profile_key@,
        contact.expire_timer == 0,
        contact.expire_timer_version == 2,
        contact.inbox_position == 0,
        contact.avatar is None,
{
    broadcast use text::lemma_bytes_view;

    assert(contact.deep_view().phone_number == phone_number.deep_view());
    assert(contact.deep_view().profile_key == record.deep_view().profile_key);
    assert(contact.deep_view().pni == contact.pni.deep_view());
}

/// A record is refused only for want of an identity: one with sixteen bytes of it, or with none
/// and a text that reads as one, is a contact.
pub proof fn law_a_record_with_an_identity_is_a_contact(
    record: ContactRecord,
    phone_number: Option<PhoneNumber>,
    result: Result<Contact, InvalidAci>,
)
    requires
        call_ensures(Contact::try_from_record, (record, phone_number), result),
    ensures
        record.aci_binary@.len() == 16 ==> result is Ok,
        record.aci_binary@.len() == 0 && text::parsed_uuid(record.aci@) is Some ==> result is Ok,
        record.aci_binary@.len() == 0 && text::parsed_uuid(record.aci@) is None ==> result is Err,
        record.aci_binary@.len() > 0 && record.aci_binary@.len() != 16 ==> result is Err,
{
    broadcast use text::lemma_bytes_view;

}

/// A contact that another device sent is the one it sent, and neither blocked nor hidden nor
/// muted.
pub proof fn law_a_synced_contact_is_the_one_that_was_sent(sent: SyncedContact, contact: Contact)
    requires
        call_ensures(Contact::from_synced, (sent,), contact),
    ensures
        contact.uuid.bytes@ == sent.uuid.bytes@,
        contact.phone_number is Some <==> sent.phone_number is Some,
        contact.phone_number is Some ==> contact.phone_number->0.e164@
            == sent.phone_number->0.e164@,
        contact.name@ == sent.name@,
        contact.expire_timer == sent.expire_timer,
        contact.expire_timer_version == sent.expire_timer_version,
        contact.inbox_position == sent.inbox_position,
        contact.avatar.deep_view() == sent.avatar.deep_view(),
        contact.profile_key@.len() == 0,
        contact.pni is None,
        contact.username is None,
        !contact.blocked,
        !contact.whitelisted,
        !contact.archived,
        !contact.marked_unread,
        contact.muted_until_timestamp == 0,
        !contact.hide_story,
        !contact.hidden,
        contact.unregistered_at_timestamp == 0,
        !contact.pni_signature_verified,
        contact.note@.len() == 0,
{
    broadcast use text::lemma_bytes_view;

    assert(contact.deep_view().phone_number == sent.deep_view().phone_number);
    assert(contact.deep_view().profile_key.len() == 0);
    assert(contact.deep_view().avatar == sent.deep_view().avatar);
    assert(contact.deep_view().pni is None);
    assert(contact.deep_view().username is None);
}

/// A minimal contact is known by its identity and by nothing else.
pub proof fn law_a_minimal_contact_is_only_an_identity(uuid: Uuid, contact: Contact)
    requires
        call_ensures(Contact::minimal, (uuid,), contact),
    ensures
        contact.uuid.bytes@ == uuid.bytes@,
        contact.phone_number is None,
        contact.name@.len() == 0,
        contact.profile_key@.len() == 0,
        contact.pni is None,
        contact.username is None,
        contact.avatar is None,
        contact.expire_timer == 0,
        contact.expire_timer_version == 2,
        !contact.blocked,
        !contact.whitelisted,
        !contact.archived,
        !contact.hidden,
        contact.muted_until_timestamp == 0,
        contact.note@.len() == 0,
        !contact.marked_unread,
        !contact.hide_story,
        !contact.pni_signature_verified,
        contact.inbox_position == 0,
        contact.unregistered_at_timestamp == 0,
        contact.system_given_name@.len() == 0,
        contact.system_family_name@.len() == 0,
        contact.system_nickname@.len() == 0,
        contact.nickname_given_name@.len() == 0,
        contact.nickname_family_name@.len() == 0,
        contact.verified.deep_view().state is None,
        contact.verified.deep_view().identity_key is None,
        contact.verified.deep_view().destination_aci is None,
        contact.verified.deep_view().destination_aci_binary is None,
{
    broadcast use text::lemma_bytes_view;

    assert(contact.deep_view().verified == contact.verified.deep_view());

    assert(contact.deep_view().profile_key.len() == 0);
    assert(contact.deep_view().phone_number is None);
    assert(contact.deep_view().pni is None);
    assert(contact.deep_view().username is None);
    assert(contact.deep_view().avatar is None);
}

/// The other devices are told who a contact is, in both forms, what it is called and how long
/// its messages stay; not where it stands in the inbox.
pub proof fn law_details_name_the_contact(contact: Contact, details: ContactDetails)
    requires
        call_ensures(Contact::details, (&contact,), details),
    ensures
        details.aci_binary matches Some(bytes) && bytes@ == contact.uuid.bytes@,
        details.aci matches Some(name) && name@ == text::uuid_text(contact.uuid.bytes@),
        details.name matches Some(name) && name@ == contact.name@,
        details.number is Some <==> contact.phone_number is Some,
        details.number is Some ==> details.number->0@ == contact.phone_number->0.e164@,
        details.expire_timer == Some(contact.expire_timer),
        details.expire_timer_version == Some(contact.expire_timer_version),
        details.inbox_position is None,
        details.avatar is Some <==> contact.avatar is Some,
        contact.avatar matches Some(avatar) ==> {
            &&& details.avatar->0.content_type matches Some(kind) && kind@ == avatar.content_type@
            &&& avatar.reader@.len() <= u32::MAX ==> details.avatar->0.length == Some(
                avatar.reader@.len() as u32,
            )
        },
{
    broadcast use text::lemma_bytes_view;

    let view = details.deep_view();
    let of = contact.deep_view();
    assert(view.aci_binary == details.aci_binary.deep_view());
    assert(view.aci == details.aci.deep_view());
    assert(view.name == details.name.deep_view());
    assert(view.number == details.number.deep_view());
    assert(view.avatar == details.avatar.deep_view());
    assert(of.avatar == contact.avatar.deep_view());
    assert(of.phone_number == contact.phone_number.deep_view());
}

/// A contact has a profile key exactly where it holds thirty-two bytes of one, and then those.
pub proof fn law_profile_key_is_the_stored_one(contact: Contact, key: Option<ProfileKey>)
    requires
        call_ensures(contacts::contact_profile_key, (&contact,), key),
    ensures
        key is Some <==> contact.profile_key@.len() == 32,
        key matches Some(key) ==> key.bytes@ == contact.profile_key@,
{
    broadcast use text::lemma_bytes_view;

    assert(contact.deep_view().profile_key == contact.profile_key.deep_view());
}

/// The timer of a contact starts with the version that comes after the one of a message without
/// any.
pub proof fn law_a_timer_starts_with_the_second_version(version: u32)
    requires
        call_ensures(contacts::default_expire_timer_version, (), version),
    ensures
        version == 2,
{
}

} // verus!

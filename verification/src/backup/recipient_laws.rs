//! What the people, groups and chats of a backup promise once they are restored.
use std::collections::HashMap;

use vstd::prelude::*;

use crate::backup::convert;
use crate::backup::convert::RecipientInfo;
use crate::backup::frames;
use crate::backup::frames::{Chat, Recipient};
use crate::model::contacts::{Contact, PhoneNumber};
use crate::model::groups::Group;
use crate::service_id::Aci;
use crate::store::Thread;
use crate::text;

verus! {

/// A person is known by the account identity in the backup, this account by its own, and a group
/// by its key; anything else is not known.
pub proof fn law_recipients_are_known_by_what_they_are(
    recipient: Recipient,
    our_aci: Aci,
    info: Option<(u64, RecipientInfo)>,
)
    requires
        call_ensures(convert::recipient_info, (&recipient, our_aci), info),
    ensures
        info is Some ==> (info->0).0 == recipient.id,
        recipient.destination is None ==> info is None,
        recipient.destination matches Some(frames::Destination::Other) ==> info is None,
        recipient.destination matches Some(frames::Destination::Self_) ==> {
            &&& info is Some
            &&& (info->0).1.service_id is Some
            &&& (info->0).1.service_id->0 is Aci
            &&& (info->0).1.service_id->0->Aci_0.uuid.bytes@ == our_aci.uuid.bytes@
            &&& (info->0).1.group_master_key is None
        },
        recipient.destination matches Some(frames::Destination::Contact(contact)) ==> {
            &&& info is Some
            &&& (info->0).1.group_master_key is None
            &&& (info->0).1.service_id is Some <==> contact.aci is Some && contact.aci->0@.len()
                == 16
            &&& (info->0).1.service_id is Some ==> {
                &&& (info->0).1.service_id->0 is Aci
                &&& (info->0).1.service_id->0->Aci_0.uuid.bytes@ == contact.aci->0@
            }
        },
        recipient.destination matches Some(frames::Destination::Group(group)) ==> {
            &&& info is Some <==> group.master_key@.len() == 32
            &&& info is Some ==> (info->0).1.service_id is None
            &&& info is Some ==> (info->0).1.group_master_key is Some && (
            info->0).1.group_master_key->0@ == group.master_key@
        },
{
    broadcast use text::lemma_bytes_view;

    let view = recipient.deep_view();
    assert(view.destination == recipient.destination.deep_view());
    if let Some(frames::Destination::Contact(contact)) = recipient.destination {
        assert(contact.deep_view().aci == contact.aci.deep_view());
        if contact.aci is Some {
            assert(contact.aci->0.deep_view() == contact.aci->0@);
        }
    }
    if let Some(frames::Destination::Group(group)) = recipient.destination {
        assert(group.deep_view().master_key == group.master_key.deep_view());
    }
    if info is Some {
        let known = (info->0).1;
        assert(known.deep_view().service_id == known.service_id.deep_view());
    }
}

/// A chat with a known group is the thread of that group, one with a known person the thread with
/// that person; others have none.
pub proof fn law_a_chat_is_the_thread_of_its_recipient(
    chat: Chat,
    recipients: HashMap<u64, RecipientInfo>,
    thread: Option<(u64, Thread)>,
)
    requires
        call_ensures(convert::chat_to_thread, (&chat, &recipients), thread),
    ensures
        thread is Some ==> (thread->0).0 == chat.id,
        !recipients@.contains_key(chat.recipient_id) ==> thread is None,
        recipients@.contains_key(chat.recipient_id) ==> {
            let info = recipients@[chat.recipient_id];
            &&& info.group_master_key matches Some(key) ==> thread is Some && (thread->0).1 is Group
                && (thread->0).1->Group_0@ == key@
            &&& info.group_master_key is None && info.service_id is None ==> thread is None
            &&& info.group_master_key is None && info.service_id is Some ==> thread is Some && (
            thread->0).1 is Contact && (thread->0).1->Contact_0.deep_view()
                == info.service_id->0.deep_view()
        },
{
    if recipients@.contains_key(chat.recipient_id) {
        let info = recipients@[chat.recipient_id];
        assert(info.deep_view().service_id == info.service_id.deep_view());
    }
}

/// The number of a person is written with a plus sign and its decimal digits; zero is no number.
pub proof fn law_numbers_are_written_with_a_plus(recipient: Recipient, e164: Option<String>)
    requires
        call_ensures(convert::recipient_e164, (&recipient,), e164),
    ensures
        !(recipient.destination matches Some(destination) && destination is Contact)
            ==> e164 is None,
        recipient.destination matches Some(frames::Destination::Contact(contact)) ==> {
            &&& e164 is Some <==> contact.e164 is Some && contact.e164->0 != 0
            &&& e164 is Some ==> {
                &&& e164->0@[0] == '+'
                &&& e164->0@.skip(1) == text::decimal_text(contact.e164->0 as nat)
            }
        },
{
    let view = recipient.deep_view();
    assert(view.destination == recipient.destination.deep_view());
    if e164 is Some {
        assert(e164.deep_view() == Some(e164->0@));
        let digits = text::decimal_text(
            recipient.destination->0->Contact_0.e164->0 as nat,
        );
        assert((seq!['+'] + digits).skip(1) =~= digits);
    }
}

/// A person with an account identity is restored as a contact that says what the backup says of
/// them; nobody else is.
pub proof fn law_a_restored_contact_is_the_one_in_the_backup(
    recipient: Recipient,
    phone_number: Option<PhoneNumber>,
    contact: Option<Contact>,
)
    requires
        call_ensures(convert::recipient_to_contact, (&recipient, phone_number), contact),
    ensures
        !(recipient.destination matches Some(destination) && destination is Contact)
            ==> contact is None,
        recipient.deep_view().destination matches Some(frames::DestinationView::Contact(of)) ==> {
            &&& contact is Some <==> of.aci is Some && of.aci->0.len() == 16
            &&& contact is Some ==> {
                let restored = contact->0.deep_view();
                &&& restored.uuid == of.aci->0
                &&& restored.phone_number == phone_number.deep_view()
                &&& restored.blocked == of.blocked
                &&& restored.hide_story == of.hide_story
                &&& of.profile_key is Some ==> restored.profile_key == of.profile_key->0
                &&& of.profile_key is None ==> restored.profile_key.len() == 0
                &&& of.pni is Some && of.pni->0.len() == 16 ==> restored.pni == of.pni
                &&& of.pni is None || of.pni->0.len() != 16 ==> restored.pni is None
                &&& of.username is Some && of.username->0.len() > 0 ==> restored.username
                    == of.username
                &&& of.username is None || of.username->0.len() == 0 ==> restored.username is None
                &&& restored.system_given_name == of.system_given_name
                &&& restored.system_family_name == of.system_family_name
                &&& restored.system_nickname == of.system_nickname
                &&& of.nickname is Some ==> restored.nickname_given_name == of.nickname->0.given
                &&& of.nickname is Some ==> restored.nickname_family_name == of.nickname->0.family
                &&& of.nickname is None ==> restored.nickname_given_name.len() == 0
                &&& of.nickname is None ==> restored.nickname_family_name.len() == 0
                &&& restored.note == of.note
                &&& of.profile_given_name is Some && (of.profile_family_name is None
                    || of.profile_family_name->0.len() == 0) ==> restored.name
                    == of.profile_given_name->0
                &&& of.profile_given_name is Some && of.profile_family_name is Some
                    && of.profile_family_name->0.len() > 0 ==> restored.name
                    == of.profile_given_name->0 + seq![' '] + of.profile_family_name->0
                &&& !restored.archived
                &&& !restored.hidden
                &&& !restored.whitelisted
                &&& !restored.marked_unread
                &&& restored.expire_timer == 0
                &&& restored.avatar is None
            }
        },
{
    assert(recipient.deep_view().destination == recipient.destination.deep_view());
}

/// A group with a proper key is restored under that key, as one that is still to be fetched, with
/// what the user chose for it and the title, where it has one.
pub proof fn law_a_restored_group_is_the_one_in_the_backup(
    recipient: Recipient,
    group: Option<([u8; 32], Group)>,
)
    requires
        call_ensures(convert::recipient_to_group, (&recipient,), group),
    ensures
        !(recipient.destination matches Some(destination) && destination is Group)
            ==> group is None,
        recipient.deep_view().destination matches Some(frames::DestinationView::Group(of)) ==> {
            &&& group is Some <==> of.master_key.len() == 32
            &&& group is Some ==> {
                let restored = (group->0).1.deep_view();
                &&& (group->0).0@ == of.master_key
                &&& restored.needs_hydration
                &&& restored.blocked == of.blocked
                &&& restored.whitelisted == of.whitelisted
                &&& restored.hide_story == of.hide_story
                &&& restored.story_send_mode == of.story_send_mode
                &&& restored.members.len() == 0
                &&& restored.revision == 0
                &&& !restored.archived
                &&& title_in(of) is Some && title_in(of)->0.len() > 0 ==> restored.title
                    == title_in(of)
                &&& title_in(of) is None || title_in(of)->0.len() == 0 ==> restored.title is None
            }
        },
{
    assert(recipient.deep_view().destination == recipient.destination.deep_view());
}

/// The title that a backup has for a group.
pub open spec fn title_in(group: frames::GroupView) -> Option<Seq<char>> {
    if group.snapshot is Some && group.snapshot->0.title is Some {
        match group.snapshot->0.title->0.content {
            Some(frames::GroupAttributeView::Title(title)) => Some(title),
            _ => None,
        }
    } else {
        None
    }
}

} // verus!

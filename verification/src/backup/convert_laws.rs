//! What the conversion of a backup promises as a whole.
use vstd::prelude::*;

use crate::backup::convert;
use crate::backup::convert::RecipientInfo;
use crate::backup::frames;
use crate::backup::group_change;
use crate::model::calls;
use crate::model::calls::{CallStatus, DirectCallStatus, GroupCallStatus, GroupIdentity};
use crate::model::contacts;
use crate::model::contacts::PhoneNumberView;
use crate::proto::ContactRecordView;
use crate::service_id::ServiceIdView;
use crate::store::ThreadView;

verus! {

/// Whatever an item becomes stands in the item's own thread.
pub proof fn law_contents_stay_in_their_thread(
    item: frames::ChatItemView,
    thread: ThreadView,
    recipients: Map<u64, RecipientInfo>,
    our_aci: Seq<u8>,
    group_id: Seq<u8>,
    i: int,
)
    requires
        0 <= i < convert::item_contents(item, thread, recipients, our_aci, group_id).len(),
    ensures
        convert::item_contents(item, thread, recipients, our_aci, group_id)[i].1 == thread,
{
    let author = convert::reacted_author(item.author_id, recipients, our_aci);
    if let Some(frames::ItemView::StandardMessage(sm)) = item.item {
        lemma_reactions_stay(sm.reactions, author, item.date_sent, recipients, thread, our_aci);
    }
    if let Some(frames::ItemView::StickerMessage(sm)) = item.item {
        lemma_reactions_stay(sm.reactions, author, item.date_sent, recipients, thread, our_aci);
    }
}

proof fn lemma_reactions_stay(
    reactions: Seq<frames::ReactionView>,
    author: Seq<u8>,
    sent: u64,
    recipients: Map<u64, RecipientInfo>,
    thread: ThreadView,
    our_aci: Seq<u8>,
)
    ensures
        forall|i: int|
            0 <= i < convert::reaction_contents(
                reactions,
                author,
                sent,
                recipients,
                thread,
                our_aci,
            ).len() ==> (#[trigger] convert::reaction_contents(
                reactions,
                author,
                sent,
                recipients,
                thread,
                our_aci,
            )[i]).1 == thread,
    decreases reactions.len(),
{
    if reactions.len() > 0 {
        lemma_reactions_stay(reactions.drop_last(), author, sent, recipients, thread, our_aci);
    }
}

/// A message whose sender and reacting people are all known becomes itself and one message
/// for each of its reactions, in their order.
pub proof fn law_one_message_for_each_reaction(
    reactions: Seq<frames::ReactionView>,
    author: Seq<u8>,
    sent: u64,
    recipients: Map<u64, RecipientInfo>,
    thread: ThreadView,
    our_aci: Seq<u8>,
)
    requires
        forall|i: int|
            0 <= i < reactions.len() ==> convert::known_service_id(
                recipients,
                (#[trigger] reactions[i]).author_id,
            ) is Some,
    ensures
        convert::reaction_contents(reactions, author, sent, recipients, thread, our_aci).len()
            == reactions.len(),
        forall|i: int|
            0 <= i < reactions.len() ==> Some(
                (#[trigger] convert::reaction_contents(
                    reactions,
                    author,
                    sent,
                    recipients,
                    thread,
                    our_aci,
                )[i]).0,
            ) == convert::reaction_content(
                reactions[i],
                author,
                sent,
                recipients,
                thread,
                our_aci,
            ),
    decreases reactions.len(),
{
    if reactions.len() > 0 {
        let before = reactions.drop_last();
        assert forall|i: int| 0 <= i < before.len() implies convert::known_service_id(
            recipients,
            (#[trigger] before[i]).author_id,
        ) is Some by {
            assert(before[i] == reactions[i]);
        }
        law_one_message_for_each_reaction(before, author, sent, recipients, thread, our_aci);
        assert(reactions[reactions.len() - 1] == reactions.last());
    }
}

/// The name of a contact is the same whether it comes from a backup or from the storage
/// service.
pub proof fn law_names_agree(
    recipient: frames::RecipientView,
    contact: frames::ContactView,
    record: ContactRecordView,
    backup_number: Option<PhoneNumberView>,
    record_number: Option<PhoneNumberView>,
)
    requires
        recipient.destination == Some(frames::DestinationView::Contact(contact)),
        contact.profile_given_name.unwrap_or(Seq::empty()) == record.given_name,
        contact.profile_family_name.unwrap_or(Seq::empty()) == record.family_name,
        convert::contact_of_recipient(recipient, backup_number) is Some,
        contacts::contact_of_record(record, record_number) is Some,
    ensures
        convert::contact_of_recipient(recipient, backup_number)->0.name
            == contacts::contact_of_record(record, record_number)->0.name,
{
}

/// A restored call finds its way back to the thread it came from: with a person, whatever
/// the store knows of groups.
pub proof fn law_individual_call_returns_to_its_thread(
    call: frames::IndividualCallView,
    peer: Seq<u8>,
    our_aci: Seq<u8>,
    fallback_ts: u64,
    groups: Seq<GroupIdentity>,
)
    requires
        peer.len() == 16,
        call.call_id is Some,
    ensures
        ({
            let thread = ThreadView::Contact(ServiceIdView::Aci(peer));
            let contents = convert::individual_call_contents(call, thread, our_aci, fallback_ts);
            contents.len() == 1 && calls::call_thread_of(contents[0].0, groups) == Some(thread)
        }),
{
}

/// A restored group call finds its way back to its group, where the store knows the group
/// under the public id that the call was restored with.
pub proof fn law_group_call_returns_to_its_thread(
    call: frames::GroupCallView,
    recipients: Map<u64, RecipientInfo>,
    our_aci: Seq<u8>,
    fallback_ts: u64,
    group: GroupIdentity,
    groups: Seq<GroupIdentity>,
)
    requires
        call.call_id is Some,
        calls::master_key_of(groups, group.group_id@) == Some(group.master_key@),
    ensures
        ({
            let thread = ThreadView::Group(group.master_key@);
            let contents = convert::group_call_contents(
                call,
                thread,
                recipients,
                our_aci,
                group.group_id@,
                fallback_ts,
            );
            contents.len() == 1 && calls::call_thread_of(contents[0].0, groups) == Some(thread)
        }),
{
}

/// What a restored call with a person is in the call history: accepted, or missed where the
/// backup says that it was missed or not accepted.
pub proof fn law_individual_call_status(
    call: frames::IndividualCallView,
    thread: ThreadView,
    our_aci: Seq<u8>,
    fallback_ts: u64,
    peer_id: Seq<char>,
)
    requires
        thread is Contact,
        call.call_id is Some,
    ensures
        ({
            let contents = convert::individual_call_contents(call, thread, our_aci, fallback_ts);
            let info = calls::call_event_of(contents[0].0.body)->0;
            let entry = calls::entry_after(None, info, peer_id);
            &&& entry is Some
            &&& entry->0.status == CallStatus::Direct(
                match call.state {
                    frames::IndividualCallState::Missed => DirectCallStatus::Missed,
                    frames::IndividualCallState::MissedNotificationProfile => {
                        DirectCallStatus::Missed
                    },
                    frames::IndividualCallState::NotAccepted => DirectCallStatus::Missed,
                    _ => DirectCallStatus::Accepted,
                },
            )
            &&& entry->0.timestamp_ms == convert::call_timestamp(
                call.started_call_timestamp,
                fallback_ts,
            )
        }),
{
}

/// What a restored group call is in the call history: joined where the backup says joined or
/// accepted, missed where it says missed or declined and somebody else started the call, and
/// generic otherwise.
pub proof fn law_group_call_status(
    call: frames::GroupCallView,
    thread: ThreadView,
    recipients: Map<u64, RecipientInfo>,
    our_aci: Seq<u8>,
    group_id: Seq<u8>,
    fallback_ts: u64,
    peer_id: Seq<char>,
)
    requires
        thread is Group,
        call.call_id is Some,
    ensures
        ({
            let contents = convert::group_call_contents(
                call,
                thread,
                recipients,
                our_aci,
                group_id,
                fallback_ts,
            );
            let info = calls::call_event_of(contents[0].0.body)->0;
            let entry = calls::entry_after(None, info, peer_id);
            let missed = if convert::started_by_us(call, recipients, our_aci) {
                GroupCallStatus::Generic
            } else {
                GroupCallStatus::Missed
            };
            &&& entry is Some
            &&& entry->0.status == CallStatus::Group(
                match call.state {
                    frames::GroupCallState::Joined => GroupCallStatus::Joined,
                    frames::GroupCallState::Accepted => GroupCallStatus::Joined,
                    frames::GroupCallState::Missed => missed,
                    frames::GroupCallState::MissedNotificationProfile => missed,
                    frames::GroupCallState::Declined => missed,
                    _ => GroupCallStatus::Generic,
                },
            )
        }),
{
}

/// A person's recipient frame and the chat that names it give the thread with that person.
pub proof fn law_chat_of_a_contact(
    recipient: frames::RecipientView,
    contact: frames::ContactView,
    our_aci: Seq<u8>,
    chat: frames::ChatView,
    recipients: Map<u64, RecipientInfo>,
)
    requires
        recipient.destination == Some(frames::DestinationView::Contact(contact)),
        group_change::named(contact.aci) is Some,
        convert::known(recipients, chat.recipient_id) == convert::info_of(recipient, our_aci),
    ensures
        convert::thread_of_chat(chat, recipients) == Some(
            ThreadView::Contact(ServiceIdView::Aci(group_change::named(contact.aci)->0)),
        ),
{
}

} // verus!

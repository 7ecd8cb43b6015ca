//! What sending a message promises.
use vstd::prelude::*;

use crate::errors::Error;
use crate::model::contacts::Contact;
use crate::model::groups::{Group, Member};
use crate::model::profile::ProfileKey;
use crate::proto::{
    Blocked, Content, ContentBody, ContentBodyView, ContentView, DataMessage, DataMessageView,
    Keys, SentView, SyncMessage, SyncMessageView,
};
use crate::service_id::{Aci, ServiceId, ServiceIdView};
use crate::store::Thread;
use crate::text;

use super::registered;
use super::registered::{Manager, Registered};
use super::send;
use super::send::{GroupSend, SendOutcome};

verus! {

/// Two messages that say the same: they may differ in their time, their timer and the key of
/// the sender's profile, and in nothing else.
pub open spec fn say_the_same(a: DataMessageView, b: DataMessageView) -> bool {
    &&& a.body == b.body
    &&& a.attachments == b.attachments
    &&& a.group_v2 == b.group_v2
    &&& a.flags == b.flags
    &&& a.quote == b.quote
    &&& a.preview == b.preview
    &&& a.sticker == b.sticker
    &&& a.reaction == b.reaction
    &&& a.delete == b.delete
    &&& a.body_ranges == b.body_ranges
    &&& a.rest == b.rest
}

/// The timer of a message that leaves: the one it was given, and one version later than that of
/// the thread; or that of the thread, where it was given none.
pub open spec fn has_timer_of(
    sent: DataMessageView,
    message: DataMessageView,
    timer: Option<(u32, u32)>,
) -> bool {
    &&& message.expire_timer is Some ==> sent.expire_timer == message.expire_timer
    &&& message.expire_timer is Some && timer is Some && (timer->0).1 < u32::MAX
        ==> sent.expire_timer_version == Some(((timer->0).1 + 1) as u32)
    &&& message.expire_timer is Some && timer is None ==> sent.expire_timer_version == Some(1u32)
    &&& message.expire_timer is None && timer is Some && (timer->0).0 != 0 ==> sent.expire_timer
        == Some((timer->0).0)
    &&& message.expire_timer is None && timer is Some && (timer->0).0 == 0
        ==> sent.expire_timer is None
    &&& message.expire_timer is None && timer is Some ==> sent.expire_timer_version == Some(
        (timer->0).1,
    )
    &&& message.expire_timer is None && timer is None ==> sent.expire_timer is None
        && sent.expire_timer_version == Some(0u32)
}

/// A message to a group reaches its members as it was written: with the time it was sent at and
/// the timer of the group, and otherwise unchanged.
pub proof fn law_a_group_gets_what_was_written<S>(
    manager: Manager<S, Registered>,
    master_key: [u8; 32],
    group: Option<Group>,
    message: DataMessage,
    timer: Option<(u32, u32)>,
    timestamp: u64,
    r: Result<GroupSend, Error>,
)
    requires
        call_ensures(
            Manager::<S, Registered>::send_message_to_group,
            (
                &manager,
                master_key,
                &group,
                ContentBody::DataMessage(message),
                timer,
                timestamp,
            ),
            r,
        ),
        group is Some,
    ensures
        r is Ok,
        r->Ok_0.thread == Thread::Group(master_key),
        r->Ok_0.content.deep_view().body matches ContentBodyView::DataMessage(sent) && {
            &&& say_the_same(sent, message.deep_view())
            &&& sent.timestamp == Some(timestamp)
            &&& sent.profile_key == message.deep_view().profile_key
            &&& sent.required_protocol_version == message.deep_view().required_protocol_version
            &&& has_timer_of(sent, message.deep_view(), timer)
        },
        is_from(r->Ok_0.content.deep_view(), manager.state.data.deep_view(), timestamp),
        r->Ok_0.content.deep_view().metadata.destination == ServiceIdView::Aci(
            manager.state.data.service_ids.aci.uuid.bytes@,
        ),
{
    assert(ContentBody::DataMessage(message).deep_view() == ContentBodyView::DataMessage(
        message.deep_view(),
    ));
}

/// A content that leaves this device: it names the account, the device and the time.
pub open spec fn is_from(
    content: ContentView,
    data: registered::RegistrationDataView,
    timestamp: u64,
) -> bool {
    &&& content.metadata.sender == ServiceIdView::Aci(data.service_ids.aci)
    &&& timestamp <= i64::MAX ==> content.metadata.timestamp == timestamp
    &&& timestamp <= i64::MAX ==> content.metadata.server_timestamp == timestamp
    &&& data.device_id is Some && 1 <= data.device_id->0 <= 127 ==> content.metadata.sender_device
        == data.device_id->0
    &&& data.device_id is None ==> content.metadata.sender_device == 1
    &&& !content.metadata.needs_receipt
    &&& !content.metadata.unidentified_sender
    &&& !content.metadata.was_plaintext
    &&& content.metadata.server_guid is None
    &&& content.metadata.report_spam_token is None
}

/// A message to a person reaches them as it was written: with the time it was sent at, the timer
/// of the thread, and the sender's profile key unless another one was given.
pub proof fn law_a_person_gets_what_was_written<S>(
    manager: Manager<S, Registered>,
    recipient: ServiceId,
    message: DataMessage,
    timer: Option<(u32, u32)>,
    timestamp: u64,
    content: Content,
)
    requires
        call_ensures(
            Manager::<S, Registered>::send_message,
            (&manager, recipient, ContentBody::DataMessage(message), timer, timestamp),
            content,
        ),
    ensures
        content.deep_view().body matches ContentBodyView::DataMessage(sent) && {
            &&& say_the_same(sent, message.deep_view())
            &&& sent.timestamp == Some(timestamp)
            &&& message.deep_view().profile_key is Some ==> sent.profile_key
                == message.deep_view().profile_key
            &&& message.deep_view().profile_key is None ==> sent.profile_key == Some(
                manager.state.data.profile_key.bytes@,
            )
            &&& sent.required_protocol_version == Some(0u32)
            &&& has_timer_of(sent, message.deep_view(), timer)
        },
        is_from(content.deep_view(), manager.state.data.deep_view(), timestamp),
        content.deep_view().metadata.destination == recipient.deep_view(),
{
    assert(ContentBody::DataMessage(message).deep_view() == ContentBodyView::DataMessage(
        message.deep_view(),
    ));
}

/// Two messages that are the same but for their time.
pub open spec fn same_but_for_time(
    a: Option<DataMessageView>,
    b: Option<DataMessageView>,
    timestamp: u64,
) -> bool {
    match (a, b) {
        (Some(a), Some(b)) => {
            &&& say_the_same(a, b)
            &&& a.timestamp == Some(timestamp)
            &&& a.profile_key == b.profile_key
            &&& a.required_protocol_version == b.required_protocol_version
            &&& a.expire_timer == b.expire_timer
            &&& a.expire_timer_version == b.expire_timer_version
        },
        (None, None) => true,
        _ => false,
    }
}

/// An edit leaves for a person and for a group alike: with what it replaces, and with the new
/// message as it was written.
pub proof fn law_edits_leave_as_they_were_written(
    body: ContentBodyView,
    data: registered::RegistrationDataView,
    recipient: ServiceIdView,
    timer: Option<(u32, u32)>,
    timestamp: u64,
)
    requires
        body is EditMessage,
    ensures
        ({
            let edit = body->EditMessage_0;
            let to_contact = send::sent_to_contact(data, recipient, body, timer, timestamp).body;
            let to_group = send::sent_to_group(data, body, timer, timestamp).body;
            &&& to_contact == to_group
            &&& to_contact is EditMessage
            &&& to_contact->EditMessage_0.target_sent_timestamp == edit.target_sent_timestamp
            &&& same_but_for_time(
                to_contact->EditMessage_0.data_message,
                edit.data_message,
                timestamp,
            )
        }),
{
}

/// A transcript for the other devices of this account leaves with the message, or the edit, as
/// it was written.
pub proof fn law_transcripts_leave_as_they_were_written(
    sync: SyncMessageView,
    data: registered::RegistrationDataView,
    recipient: ServiceIdView,
    timer: Option<(u32, u32)>,
    timestamp: u64,
)
    ensures
        ({
            let body = ContentBodyView::SynchronizeMessage(sync);
            let to_contact = send::sent_to_contact(data, recipient, body, timer, timestamp).body;
            let to_group = send::sent_to_group(data, body, timer, timestamp).body;
            let sent = to_contact->SynchronizeMessage_0.sent;
            &&& to_contact == to_group
            &&& to_contact is SynchronizeMessage
            &&& sent is None <==> sync.sent is None
            &&& sync.sent is None ==> to_contact == body
            &&& to_contact->SynchronizeMessage_0 == SyncMessageView { sent, ..sync }
            &&& sync.sent is Some ==> {
                &&& same_but_for_time(sent->0.message, sync.sent->0.message, timestamp)
                &&& sent->0.edit_message is Some <==> sync.sent->0.edit_message is Some
                &&& sync.sent->0.edit_message is Some ==> {
                    &&& sent->0.edit_message->0.target_sent_timestamp
                        == sync.sent->0.edit_message->0.target_sent_timestamp
                    &&& same_but_for_time(
                        sent->0.edit_message->0.data_message,
                        sync.sent->0.edit_message->0.data_message,
                        timestamp,
                    )
                }
                &&& sent->0 == SentView {
                    message: sent->0.message,
                    edit_message: sent->0.edit_message,
                    ..sync.sent->0
                }
            }
        }),
{
}

/// Every other content leaves as it is.
pub proof fn law_other_contents_leave_as_they_are(
    body: ContentBodyView,
    data: registered::RegistrationDataView,
    recipient: ServiceIdView,
    timer: Option<(u32, u32)>,
    timestamp: u64,
)
    requires
        !(body is DataMessage),
        !(body is EditMessage),
        !(body is SynchronizeMessage),
    ensures
        send::sent_to_contact(data, recipient, body, timer, timestamp).body == body,
        send::sent_to_group(data, body, timer, timestamp).body == body,
{
}

/// A message to a group needs the group to be known.
pub proof fn law_unknown_groups_get_nothing<S>(
    manager: Manager<S, Registered>,
    master_key: [u8; 32],
    group: Option<Group>,
    message: ContentBody,
    timer: Option<(u32, u32)>,
    timestamp: u64,
    r: Result<GroupSend, Error>,
)
    requires
        call_ensures(
            Manager::<S, Registered>::send_message_to_group,
            (&manager, master_key, &group, message, timer, timestamp),
            r,
        ),
    ensures
        r is Ok <==> group is Some,
        r is Err ==> r->Err_0 == Error::UnknownGroup,
{
}

/// Everybody in the group but this account gets the message, once for each time they are listed
/// and in the order of the list.
pub proof fn law_everybody_else_is_sent_to(
    members: Vec<Member>,
    our_aci: Aci,
    recipients: Vec<ServiceId>,
    id: ServiceIdView,
)
    requires
        call_ensures(send::group_recipients, (&members, our_aci), recipients),
    ensures
        recipients.deep_view().contains(id) <==> exists|i: int|
            0 <= i < members@.len() && (#[trigger] members@[i]).aci.uuid.bytes@
                != our_aci.uuid.bytes@ && id == ServiceIdView::Aci(members@[i].aci.uuid.bytes@),
        (forall|i: int|
            0 <= i < members@.len() ==> (#[trigger] members@[i]).aci.uuid.bytes@
                != our_aci.uuid.bytes@) ==> recipients@.len() == members@.len(),
{
    let list = members.deep_view();
    let others = send::others(list, our_aci.deep_view());
    lemma_others(list, our_aci.deep_view(), id);
    if recipients.deep_view().contains(id) {
        let i = choose|i: int|
            0 <= i < list.len() && (#[trigger] list[i]).aci != our_aci.deep_view() && id
                == ServiceIdView::Aci(list[i].aci);
        assert(list[i] == members@[i].deep_view());
    }
    if exists|i: int|
        0 <= i < members@.len() && (#[trigger] members@[i]).aci.uuid.bytes@ != our_aci.uuid.bytes@
            && id == ServiceIdView::Aci(members@[i].aci.uuid.bytes@) {
        let i = choose|i: int|
            0 <= i < members@.len() && (#[trigger] members@[i]).aci.uuid.bytes@
                != our_aci.uuid.bytes@ && id == ServiceIdView::Aci(members@[i].aci.uuid.bytes@);
        assert(list[i] == members@[i].deep_view());
    }
    if forall|i: int|
        0 <= i < members@.len() ==> (#[trigger] members@[i]).aci.uuid.bytes@
            != our_aci.uuid.bytes@ {
        assert forall|i: int| 0 <= i < list.len() implies (#[trigger] list[i]).aci
            != our_aci.deep_view() by {
            assert(list[i] == members@[i].deep_view());
        }
        assert(recipients.deep_view().len() == recipients@.len());
    }
}

proof fn lemma_others(
    members: Seq<crate::model::groups::MemberView>,
    our_aci: Seq<u8>,
    id: ServiceIdView,
)
    ensures
        send::others(members, our_aci).contains(id) <==> exists|i: int|
            0 <= i < members.len() && (#[trigger] members[i]).aci != our_aci && id
                == ServiceIdView::Aci(members[i].aci),
        (forall|i: int| 0 <= i < members.len() ==> (#[trigger] members[i]).aci != our_aci)
            ==> send::others(members, our_aci).len() == members.len(),
    decreases members.len(),
{
    if members.len() > 0 {
        let before = members.drop_last();
        let last = members[members.len() - 1];
        let first = send::others(before, our_aci);
        let all = send::others(members, our_aci);
        lemma_others(before, our_aci, id);
        if all.contains(id) {
            let k = choose|k: int| 0 <= k < all.len() && all[k] == id;
            if k < first.len() {
                assert(first[k] == id);
                assert(first.contains(id));
                let i = choose|i: int|
                    0 <= i < before.len() && (#[trigger] before[i]).aci != our_aci && id
                        == ServiceIdView::Aci(before[i].aci);
                assert(members[i] == before[i]);
            } else {
                assert(members[members.len() - 1].aci != our_aci);
            }
        }
        if exists|i: int|
            0 <= i < members.len() && (#[trigger] members[i]).aci != our_aci && id
                == ServiceIdView::Aci(members[i].aci) {
            let i = choose|i: int|
                0 <= i < members.len() && (#[trigger] members[i]).aci != our_aci && id
                    == ServiceIdView::Aci(members[i].aci);
            if i < before.len() {
                assert(before[i] == members[i]);
                let k = choose|k: int| 0 <= k < first.len() && first[k] == id;
                assert(all[k] == id);
            } else {
                assert(all[all.len() - 1] == id);
            }
        }
        if forall|i: int| 0 <= i < members.len() ==> (#[trigger] members[i]).aci != our_aci {
            assert forall|i: int| 0 <= i < before.len() implies (#[trigger] before[i]).aci
                != our_aci by {
                assert(before[i] == members[i]);
            }
            assert(members[members.len() - 1].aci != our_aci);
        }
    }
}

/// The reset of a session says so and nothing else.
pub proof fn law_a_session_reset_says_only_that<S>(
    manager: Manager<S, Registered>,
    message: DataMessage,
)
    requires
        call_ensures(Manager::<S, Registered>::send_session_reset, (&manager,), message),
    ensures
        message.flags == Some(1u32),
        message.body is None,
        message.attachments@.len() == 0,
        message.group_v2 is None,
        message.quote is None,
        message.reaction is None,
        message.delete is None,
        message.sticker is None,
{
    let view = message.deep_view();
    assert(view.flags == message.flags);
    assert(view.body == message.body.deep_view());
    assert(view.attachments.len() == message.attachments@.len());
    assert(view.group_v2 == message.group_v2.deep_view());
    assert(view.quote == message.quote.deep_view());
    assert(view.reaction == message.reaction.deep_view());
    assert(view.delete == message.delete.deep_view());
    assert(view.sticker == message.sticker.deep_view());
}

/// Blocking somebody changes that and nothing else; of somebody unknown only the identity is
/// noted with it.
pub proof fn law_blocking_changes_nothing_else<S>(
    manager: Manager<S, Registered>,
    existing: Option<Contact>,
    service_id: ServiceId,
    blocked: bool,
    contact: Contact,
)
    requires
        call_ensures(
            Manager::<S, Registered>::set_blocked,
            (&manager, existing, service_id, blocked),
            contact,
        ),
    ensures
        contact.blocked == blocked,
        existing matches Some(before) ==> {
            &&& before.blocked == blocked ==> contact.deep_view() == before.deep_view()
            &&& contact.uuid.bytes@ == before.uuid.bytes@
            &&& contact.name@ == before.name@
            &&& contact.profile_key@ == before.profile_key@
            &&& contact.phone_number.deep_view() == before.phone_number.deep_view()
            &&& contact.pni.deep_view() == before.pni.deep_view()
            &&& contact.expire_timer == before.expire_timer
            &&& contact.expire_timer_version == before.expire_timer_version
            &&& contact.whitelisted == before.whitelisted
            &&& contact.archived == before.archived
            &&& contact.hidden == before.hidden
            &&& contact.note@ == before.note@
        },
        existing is None ==> {
            &&& service_id matches ServiceId::Aci(aci) ==> contact.uuid.bytes@ == aci.uuid.bytes@
            &&& service_id matches ServiceId::Pni(pni) ==> contact.uuid.bytes@ == pni.uuid.bytes@
            &&& contact.name@.len() == 0
            &&& contact.profile_key@.len() == 0
            &&& !contact.whitelisted
            &&& !contact.archived
            &&& !contact.hidden
        },
{
    broadcast use crate::text::lemma_bytes_view;

    let after = contact.deep_view();
    assert(after.profile_key == contact.profile_key.deep_view());
    assert(after.phone_number == contact.phone_number.deep_view());
    assert(after.pni == contact.pni.deep_view());
    if let Some(before) = existing {
        assert(existing.deep_view() == Some(before.deep_view()));
    }
}

/// The sending to a group has failed where it failed for somebody: it is told for the first of
/// them. That somebody is gone is no failure.
pub proof fn law_the_first_failure_counts(outcomes: Vec<SendOutcome>, index: Option<usize>)
    requires
        call_ensures(send::first_failure, (&outcomes,), index),
    ensures
        index is Some <==> exists|i: int|
            0 <= i < outcomes@.len() && (#[trigger] outcomes@[i]) is Failed,
        index is Some ==> index->0 < outcomes@.len() && outcomes@[index->0 as int] is Failed,
        index is Some ==> forall|i: int|
            0 <= i < index->0 ==> !((#[trigger] outcomes@[i]) is Failed),
{
    if index is Some {
        assert(outcomes@[index->0 as int] is Failed);
    }
}

/// The list of the blocked names every blocked contact, in both forms of its identity, and
/// nobody else.
pub proof fn law_exactly_the_blocked_are_listed(
    list: Vec<Contact>,
    blocked: Blocked,
    uuid: Seq<u8>,
)
    requires
        call_ensures(send::collect_blocked_contacts, (&list,), blocked),
    ensures
        blocked.deep_view().acis_binary.contains(uuid) <==> exists|i: int|
            0 <= i < list@.len() && (#[trigger] list@[i]).blocked && list@[i].uuid.bytes@ == uuid,
        blocked.deep_view().acis.len() == blocked.deep_view().acis_binary.len(),
        forall|i: int|
            0 <= i < blocked.deep_view().acis.len() ==> #[trigger] blocked.deep_view().acis[i]
                == text::uuid_text(blocked.deep_view().acis_binary[i]),
        blocked.deep_view().numbers.len() == 0,
        blocked.deep_view().group_ids.len() == 0,
{
    let all = list.deep_view();
    let among = send::blocked_among(all);
    let listed = blocked.deep_view().acis_binary;
    assert(listed.len() == among.len());
    lemma_blocked_among(all, uuid);
    if listed.contains(uuid) {
        let k = choose|k: int| 0 <= k < listed.len() && listed[k] == uuid;
        assert(among[k].uuid == uuid);
        let i = choose|i: int|
            0 <= i < all.len() && (#[trigger] all[i]).blocked && all[i].uuid == uuid;
        assert(all[i] == list@[i].deep_view());
        assert(list@[i].blocked);
    }
    if exists|i: int|
        0 <= i < list@.len() && (#[trigger] list@[i]).blocked && list@[i].uuid.bytes@ == uuid {
        let i = choose|i: int|
            0 <= i < list@.len() && (#[trigger] list@[i]).blocked && list@[i].uuid.bytes@ == uuid;
        assert(all[i] == list@[i].deep_view());
        let k = choose|k: int| 0 <= k < among.len() && (#[trigger] among[k]).uuid == uuid;
        assert(listed[k] == uuid);
    }
}

proof fn lemma_blocked_among(
    list: Seq<crate::model::contacts::ContactView>,
    uuid: Seq<u8>,
)
    ensures
        (exists|k: int|
            0 <= k < send::blocked_among(list).len() && (#[trigger] send::blocked_among(
                list,
            )[k]).uuid == uuid) <==> exists|i: int|
            0 <= i < list.len() && (#[trigger] list[i]).blocked && list[i].uuid == uuid,
    decreases list.len(),
{
    if list.len() > 0 {
        let before = list.drop_last();
        let last = list[list.len() - 1];
        let first = send::blocked_among(before);
        let all = send::blocked_among(list);
        lemma_blocked_among(before, uuid);
        if exists|k: int| 0 <= k < all.len() && (#[trigger] all[k]).uuid == uuid {
            let k = choose|k: int| 0 <= k < all.len() && (#[trigger] all[k]).uuid == uuid;
            if k < first.len() {
                assert(first[k].uuid == uuid);
                let i = choose|i: int|
                    0 <= i < before.len() && (#[trigger] before[i]).blocked && before[i].uuid
                        == uuid;
                assert(list[i] == before[i]);
            } else {
                assert(list[list.len() - 1].blocked);
            }
        }
        if exists|i: int| 0 <= i < list.len() && (#[trigger] list[i]).blocked && list[i].uuid
            == uuid {
            let i = choose|i: int|
                0 <= i < list.len() && (#[trigger] list[i]).blocked && list[i].uuid == uuid;
            if i < before.len() {
                assert(before[i] == list[i]);
                let k = choose|k: int| 0 <= k < first.len() && (#[trigger] first[k]).uuid == uuid;
                assert(all[k].uuid == uuid);
            } else {
                assert(all[all.len() - 1].uuid == uuid);
            }
        }
    }
}

/// The message with the list of the blocked holds that list, padded, and nothing else.
pub proof fn law_the_blocked_are_told_as_listed(
    blocked: Blocked,
    padding: Vec<u8>,
    message: SyncMessage,
)
    requires
        call_ensures(send::blocked_message, (blocked, padding), message),
    ensures
        message.deep_view().blocked == Some(blocked.deep_view()),
        message.deep_view().padding == Some(padding@),
        message.deep_view().sent is None,
        message.deep_view().keys is None,
        message.deep_view().call_event is None,
        message.deep_view().delete_for_me is None,
        message.deep_view().message_request_response is None,
{
}

/// The message with the keys of the account holds those keys, padded, and nothing else.
pub proof fn law_the_keys_are_told_as_they_are(keys: Keys, padding: Vec<u8>, message: SyncMessage)
    requires
        call_ensures(send::keys_message, (keys, padding), message),
    ensures
        message.deep_view().keys == Some(keys.deep_view()),
        message.deep_view().padding == Some(padding@),
        message.deep_view().sent is None,
        message.deep_view().blocked is None,
        message.deep_view().call_event is None,
        message.deep_view().delete_for_me is None,
        message.deep_view().message_request_response is None,
{
}

/// A message gets the timer of its thread, and nothing else of it changes; other contents stay.
pub proof fn law_a_message_gets_the_timer_of_its_thread(
    body: &mut ContentBody,
    timer: Option<(u32, u32)>,
)
    requires
        call_ensures(send::restore_thread_timer, (body, timer), ()),
    ensures
        !(old(body).deep_view() is DataMessage) ==> final(body).deep_view() == old(
            body,
        ).deep_view(),
        old(body).deep_view() matches ContentBodyView::DataMessage(message) ==> (
        final(body).deep_view() matches ContentBodyView::DataMessage(sent) && {
            &&& say_the_same(sent, message)
            &&& sent.timestamp == message.timestamp
            &&& sent.profile_key == message.profile_key
            &&& sent.required_protocol_version == message.required_protocol_version
            &&& has_timer_of(sent, message, timer)
        }),
{
}

/// A message gets the key of the sender's profile, unless it has one; nothing else that it says
/// changes, and other contents stay.
pub proof fn law_a_message_gets_the_profile_key(body: &mut ContentBody, profile_key: ProfileKey)
    requires
        call_ensures(send::set_profile_key, (body, &profile_key), ()),
    ensures
        !(old(body).deep_view() is DataMessage) ==> final(body).deep_view() == old(
            body,
        ).deep_view(),
        old(body).deep_view() matches ContentBodyView::DataMessage(message) ==> (
        final(body).deep_view() matches ContentBodyView::DataMessage(sent) && {
            &&& say_the_same(sent, message)
            &&& sent.timestamp == message.timestamp
            &&& sent.expire_timer == message.expire_timer
            &&& sent.expire_timer_version == message.expire_timer_version
            &&& message.profile_key is Some ==> sent.profile_key == message.profile_key
            &&& message.profile_key is None ==> sent.profile_key == Some(profile_key.bytes@)
            &&& sent.required_protocol_version == Some(0u32)
        }),
{
}

/// A message gets the time it is sent at, an edit in the message that it brings and a transcript
/// in both that it may hold; nothing else changes.
pub proof fn law_a_message_gets_its_time(body: &mut ContentBody, timestamp: u64)
    requires
        call_ensures(send::ensure_data_message_timestamp, (body, timestamp), ()),
    ensures
        old(body).deep_view() matches ContentBodyView::DataMessage(message) ==> (
        final(body).deep_view() matches ContentBodyView::DataMessage(sent) && same_but_for_time(
            Some(sent),
            Some(message),
            timestamp,
        )),
        old(body).deep_view() matches ContentBodyView::EditMessage(edit) ==> (
        final(body).deep_view() matches ContentBodyView::EditMessage(sent) && {
            &&& sent.target_sent_timestamp == edit.target_sent_timestamp
            &&& same_but_for_time(sent.data_message, edit.data_message, timestamp)
        }),
        old(body).deep_view() matches ContentBodyView::SynchronizeMessage(sync) ==> (
        final(body).deep_view() matches ContentBodyView::SynchronizeMessage(after) && {
            &&& sync.sent is None ==> after == sync
            &&& after == SyncMessageView { sent: after.sent, ..sync }
            &&& sync.sent is Some ==> after.sent is Some && same_but_for_time(
                after.sent->0.message,
                sync.sent->0.message,
                timestamp,
            )
            &&& sync.sent is Some && sync.sent->0.edit_message is Some
                ==> after.sent->0.edit_message is Some && same_but_for_time(
                after.sent->0.edit_message->0.data_message,
                sync.sent->0.edit_message->0.data_message,
                timestamp,
            )
        }),
        !(old(body).deep_view() is DataMessage) && !(old(body).deep_view() is EditMessage) && !(old(
            body,
        ).deep_view() is SynchronizeMessage) ==> final(body).deep_view() == old(body).deep_view(),
{
}

/// What a group is sent, or a person, goes through the same three steps.
pub proof fn law_every_content_is_completed_alike<S>(
    manager: Manager<S, Registered>,
    recipient: ServiceId,
    master_key: [u8; 32],
    group: Option<Group>,
    message: ContentBody,
    timer: Option<(u32, u32)>,
    timestamp: u64,
    content: Content,
    r: Result<GroupSend, Error>,
)
    requires
        call_ensures(
            Manager::<S, Registered>::send_message,
            (&manager, recipient, message, timer, timestamp),
            content,
        ),
        call_ensures(
            Manager::<S, Registered>::send_message_to_group,
            (&manager, master_key, &group, message, timer, timestamp),
            r,
        ),
        group is Some,
    ensures
        content.deep_view() == send::sent_to_contact(
            manager.state.data.deep_view(),
            recipient.deep_view(),
            message.deep_view(),
            timer,
            timestamp,
        ),
        r is Ok,
        r->Ok_0.content.deep_view() == send::sent_to_group(
            manager.state.data.deep_view(),
            message.deep_view(),
            timer,
            timestamp,
        ),
        !(message.deep_view() is DataMessage) ==> r->Ok_0.content.deep_view().body
            == content.deep_view().body,
{
}

/// A message to a group goes to everybody in it but this account.
pub proof fn law_a_group_send_reaches_everybody_else<S>(
    manager: Manager<S, Registered>,
    master_key: [u8; 32],
    group: Option<Group>,
    message: ContentBody,
    timer: Option<(u32, u32)>,
    timestamp: u64,
    recipients: Vec<ServiceId>,
    r: Result<GroupSend, Error>,
)
    requires
        call_ensures(
            Manager::<S, Registered>::send_message_to_group,
            (&manager, master_key, &group, message, timer, timestamp),
            r,
        ),
        group is Some,
        call_ensures(
            send::group_recipients,
            (&group->0.members, manager.state.data.service_ids.aci),
            recipients,
        ),
    ensures
        r is Ok,
        r->Ok_0.recipients.deep_view() == recipients.deep_view(),
{
    assert(group.deep_view() == Some(group->0.deep_view()));
    assert(group->0.deep_view().members == group->0.members.deep_view());
}

/// A member is sent to, behind those before them, unless it is this account.
pub proof fn law_each_member_counts_for_themselves(
    members: Seq<crate::model::groups::MemberView>,
    member: crate::model::groups::MemberView,
    our_aci: Seq<u8>,
)
    ensures
        send::others(Seq::empty(), our_aci).len() == 0,
        member.aci == our_aci ==> send::others(members.push(member), our_aci) == send::others(
            members,
            our_aci,
        ),
        member.aci != our_aci ==> send::others(members.push(member), our_aci) == send::others(
            members,
            our_aci,
        ).push(ServiceIdView::Aci(member.aci)),
{
    assert(members.push(member).drop_last() =~= members);
    assert(members.push(member).last() == member);
}

/// A contact is listed among the blocked, behind those before it, exactly where it is blocked.
pub proof fn law_each_contact_counts_for_itself(
    list: Seq<crate::model::contacts::ContactView>,
    contact: crate::model::contacts::ContactView,
)
    ensures
        send::blocked_list(Seq::empty()).acis_binary.len() == 0,
        !contact.blocked ==> send::blocked_list(list.push(contact)) == send::blocked_list(list),
        contact.blocked ==> send::blocked_list(list.push(contact)).acis_binary
            == send::blocked_list(list).acis_binary.push(contact.uuid),
        contact.blocked ==> send::blocked_list(list.push(contact)).acis == send::blocked_list(
            list,
        ).acis.push(text::uuid_text(contact.uuid)),
{
    assert(list.push(contact).drop_last() =~= list);
    assert(list.push(contact).last() == contact);
    if contact.blocked {
        assert(send::blocked_list(list.push(contact)).acis_binary =~= send::blocked_list(
            list,
        ).acis_binary.push(contact.uuid));
        assert(send::blocked_list(list.push(contact)).acis =~= send::blocked_list(
            list,
        ).acis.push(text::uuid_text(contact.uuid)));
    }
}

} // verus!

//! What is sent: how a message is completed before it leaves, to whom it goes, and what is
//! kept of it.
use vstd::prelude::*;

use crate::errors::Error;
use crate::model::contacts;
use crate::model::contacts::{Contact, ContactView};
use crate::model::groups::{Group, Member, MemberView};
use crate::model::profile::ProfileKey;
use crate::proto::{
    Blocked, BlockedView, Content, ContentBody, ContentBodyView, ContentView, DataMessage,
    DataMessageView, EditMessageView, Keys, Metadata, MetadataView, SentView, SyncMessage,
    SyncMessageView,
};
use crate::service_id::{Aci, ServiceId, ServiceIdView};
use crate::store::Thread;
use crate::text;
use crate::time;

use super::registered;
use super::registered::{Manager, Registered};

verus! {

/// The flag of a message that ends a session.
pub const END_SESSION: u32 = 1;

/// A body with the timer of its thread. A message that sets no timer keeps that of the thread;
/// one that sets it counts its version up.
pub open spec fn with_thread_timer(
    body: ContentBodyView,
    timer: Option<(u32, u32)>,
) -> ContentBodyView {
    match body {
        ContentBodyView::DataMessage(message) => {
            let version = match timer {
                Some((_, version)) => version,
                None => 0u32,
            };
            ContentBodyView::DataMessage(
                match message.expire_timer {
                    None => DataMessageView {
                        expire_timer: match timer {
                            Some((seconds, _)) => if seconds == 0 {
                                None
                            } else {
                                Some(seconds)
                            },
                            None => None,
                        },
                        expire_timer_version: Some(version),
                        ..message
                    },
                    Some(_) => DataMessageView {
                        expire_timer_version: Some((version + 1) as u32),
                        ..message
                    },
                },
            )
        },
        _ => body,
    }
}

/// Whether a message sets the timer of its thread.
pub open spec fn sets_timer(body: ContentBodyView) -> bool {
    body matches ContentBodyView::DataMessage(message) && message.expire_timer is Some
}

/// Whether a next version of the timer exists.
pub open spec fn has_next_version(timer: Option<(u32, u32)>) -> bool {
    timer matches Some((_, version)) ==> version < u32::MAX
}

/// Set the timer of the thread in a message that sets none, and count its version up in one
/// that does. `timer` is what the store has for the thread.
pub fn restore_thread_timer(body: &mut ContentBody, timer: Option<(u32, u32)>)
    requires
        sets_timer(old(body).deep_view()) ==> has_next_version(timer),
    ensures
        final(body).deep_view() == with_thread_timer(old(body).deep_view(), timer),
{
    let ghost was = body.deep_view();
    if let ContentBody::DataMessage(message) = body {
        let version: u32 = match timer {
            Some((_, version)) => version,
            None => 0,
        };
        if message.expire_timer.is_none() {
            message.expire_timer = match timer {
                Some((seconds, _)) => if seconds == 0 {
                    None
                } else {
                    Some(seconds)
                },
                None => None,
            };
            message.expire_timer_version = Some(version);
        } else {
            message.expire_timer_version = Some(version + 1);
        }
    }
    assert(body.deep_view() =~= with_thread_timer(was, timer));
}

/// A body in which every data message has the timestamp of its envelope.
pub open spec fn with_timestamp(body: ContentBodyView, timestamp: u64) -> ContentBodyView {
    match body {
        ContentBodyView::DataMessage(message) => ContentBodyView::DataMessage(
            DataMessageView { timestamp: Some(timestamp), ..message },
        ),
        ContentBodyView::EditMessage(edit) => match edit.data_message {
            Some(message) => ContentBodyView::EditMessage(
                EditMessageView {
                    data_message: Some(
                        DataMessageView { timestamp: Some(timestamp), ..message },
                    ),
                    ..edit
                },
            ),
            None => body,
        },
        ContentBodyView::SynchronizeMessage(sync) => match sync.sent {
            Some(sent) => ContentBodyView::SynchronizeMessage(
                SyncMessageView { sent: Some(sent_with_timestamp(sent, timestamp)), ..sync },
            ),
            None => body,
        },
        _ => body,
    }
}

/// A transcript of a sent message in which the data message, the edited one too, has the
/// timestamp of the envelope.
pub open spec fn sent_with_timestamp(sent: SentView, timestamp: u64) -> SentView {
    SentView {
        message: match sent.message {
            Some(message) => Some(DataMessageView { timestamp: Some(timestamp), ..message }),
            None => None,
        },
        edit_message: match sent.edit_message {
            Some(edit) => Some(
                EditMessageView {
                    data_message: match edit.data_message {
                        Some(message) => Some(
                            DataMessageView { timestamp: Some(timestamp), ..message },
                        ),
                        None => None,
                    },
                    ..edit
                },
            ),
            None => None,
        },
        ..sent
    }
}

/// Set the timestamp in any data message so it matches its envelope's.
pub fn ensure_data_message_timestamp(body: &mut ContentBody, timestamp: u64)
    ensures
        final(body).deep_view() == with_timestamp(old(body).deep_view(), timestamp),
{
    let ghost was = body.deep_view();
    match body {
        ContentBody::DataMessage(message) => {
            message.timestamp = Some(timestamp);
        },
        ContentBody::EditMessage(edit) => {
            if let Some(message) = &mut edit.data_message {
                message.timestamp = Some(timestamp);
            }
        },
        ContentBody::SynchronizeMessage(sync) => {
            if let Some(sent) = &mut sync.sent {
                if let Some(message) = &mut sent.message {
                    message.timestamp = Some(timestamp);
                }
                if let Some(edit) = &mut sent.edit_message {
                    if let Some(message) = &mut edit.data_message {
                        message.timestamp = Some(timestamp);
                    }
                }
            }
        },
        _ => {},
    }
    assert(body.deep_view() =~= with_timestamp(was, timestamp));
}

/// A body with our profile key, which every message to a contact carries.
pub open spec fn with_profile_key(body: ContentBodyView, profile_key: Seq<u8>) -> ContentBodyView {
    match body {
        ContentBodyView::DataMessage(message) => ContentBodyView::DataMessage(
            DataMessageView {
                profile_key: match message.profile_key {
                    Some(key) => Some(key),
                    None => Some(profile_key),
                },
                required_protocol_version: Some(0),
                ..message
            },
        ),
        _ => body,
    }
}

/// Put our profile key in a message that has none.
pub fn set_profile_key(body: &mut ContentBody, profile_key: &ProfileKey)
    ensures
        final(body).deep_view() == with_profile_key(
            old(body).deep_view(),
            profile_key.deep_view(),
        ),
{
    broadcast use text::lemma_bytes_view;

    let ghost was = body.deep_view();
    if let ContentBody::DataMessage(message) = body {
        if message.profile_key.is_none() {
            message.profile_key = Some(profile_key.to_vec());
        }
        message.required_protocol_version = Some(0);
    }
    assert(body.deep_view() =~= with_profile_key(was, profile_key.deep_view()));
}

/// What is noted of a message that this device sends. When the server took it is not known, so
/// the time of sending stands for that too.
pub open spec fn own_metadata(
    data: registered::RegistrationDataView,
    destination: ServiceIdView,
    timestamp: u64,
) -> MetadataView {
    MetadataView {
        sender: ServiceIdView::Aci(data.service_ids.aci),
        destination,
        sender_device: registered::device_id_of(data),
        server_guid: None,
        timestamp: timestamp as i64,
        server_timestamp: timestamp as i64,
        needs_receipt: false,
        unidentified_sender: false,
        was_plaintext: false,
        report_spam_token: None,
    }
}

/// A message to a contact, as it is sent and saved.
pub open spec fn sent_to_contact(
    data: registered::RegistrationDataView,
    recipient: ServiceIdView,
    body: ContentBodyView,
    timer: Option<(u32, u32)>,
    timestamp: u64,
) -> ContentView {
    ContentView {
        metadata: own_metadata(data, recipient, timestamp),
        body: with_timestamp(
            with_profile_key(with_thread_timer(body, timer), data.profile_key),
            timestamp,
        ),
    }
}

/// A message to a group, as it is sent and saved.
pub open spec fn sent_to_group(
    data: registered::RegistrationDataView,
    body: ContentBodyView,
    timer: Option<(u32, u32)>,
    timestamp: u64,
) -> ContentView {
    ContentView {
        metadata: own_metadata(data, ServiceIdView::Aci(data.service_ids.aci), timestamp),
        body: with_timestamp(with_thread_timer(body, timer), timestamp),
    }
}

/// The members of a group but for ourselves.
pub open spec fn others(members: Seq<MemberView>, our_aci: Seq<u8>) -> Seq<ServiceIdView>
    decreases members.len(),
{
    if members.len() == 0 {
        Seq::empty()
    } else if members.last().aci == our_aci {
        others(members.drop_last(), our_aci)
    } else {
        others(members.drop_last(), our_aci).push(ServiceIdView::Aci(members.last().aci))
    }
}

/// The members of a group but for ourselves: those who get a message to it.
pub fn group_recipients(members: &Vec<Member>, our_aci: Aci) -> (recipients: Vec<ServiceId>)
    ensures
        recipients.deep_view() == others(members.deep_view(), our_aci.deep_view()),
{
    let mut recipients: Vec<ServiceId> = Vec::new();
    let ghost all = members.deep_view();
    let mut i: usize = 0;
    proof {
        assert(recipients.deep_view() =~= others(all.take(0), our_aci.deep_view()));
    }
    while i < members.len()
        invariant
            i <= members@.len(),
            all == members.deep_view(),
            recipients.deep_view() == others(all.take(i as int), our_aci.deep_view()),
        decreases members@.len() - i,
    {
        let aci = members[i].aci;
        let ghost before = recipients.deep_view();
        proof {
            assert(all.take(i + 1).drop_last() =~= all.take(i as int));
            assert(all.take(i + 1).last() == members@[i as int].deep_view());
        }
        if aci != our_aci {
            let recipient = ServiceId::Aci(aci);
            recipients.push(recipient);
            assert(recipients.deep_view() =~= before.push(recipient.deep_view()));
        }
        i = i + 1;
    }
    assert(all.take(i as int) =~= all);
    recipients
}

/// We never send a message to ourselves as a member, and every other member gets it.
pub proof fn law_everyone_else_gets_it(members: Seq<MemberView>, our_aci: Seq<u8>)
    ensures
        !others(members, our_aci).contains(ServiceIdView::Aci(our_aci)),
        forall|i: int|
            0 <= i < members.len() && members[i].aci != our_aci ==> others(
                members,
                our_aci,
            ).contains(ServiceIdView::Aci((#[trigger] members[i]).aci)),
    decreases members.len(),
{
    if members.len() > 0 {
        let before = members.drop_last();
        let last = members.last();
        law_everyone_else_gets_it(before, our_aci);
        let rest = others(before, our_aci);
        let all = others(members, our_aci);
        assert forall|id: ServiceIdView| rest.contains(id) implies all.contains(id) by {
            let j = choose|j: int| 0 <= j < rest.len() && rest[j] == id;
            assert(all[j] == id);
        }
        if last.aci != our_aci {
            assert(all[all.len() - 1] == ServiceIdView::Aci(last.aci));
            assert(all.drop_last() =~= rest);
            if all.contains(ServiceIdView::Aci(our_aci)) {
                let j = choose|j: int|
                    0 <= j < all.len() && all[j] == ServiceIdView::Aci(our_aci);
                assert(rest[j] == all[j]);
            }
        }
        assert forall|i: int|
            0 <= i < members.len() && members[i].aci != our_aci implies all.contains(
            ServiceIdView::Aci((#[trigger] members[i]).aci),
        ) by {
            if i < members.len() - 1 {
                assert(before[i] == members[i]);
            }
        }
    }
}

/// A message to a group, and to whom it goes.
pub struct GroupSend {
    pub content: Content,
    pub thread: Thread,
    pub recipients: Vec<ServiceId>,
}

impl<S> Manager<S, Registered> {
    fn metadata(&self, destination: ServiceId, timestamp: u64) -> (metadata: Metadata)
        ensures
            metadata.deep_view() == own_metadata(
                self.state.data.deep_view(),
                destination.deep_view(),
                timestamp,
            ),
    {
        let metadata = Metadata {
            sender: ServiceId::Aci(self.state.data.service_ids.aci),
            destination,
            sender_device: self.state.device_id(),
            server_guid: None,
            timestamp: timestamp as i64,
            server_timestamp: timestamp as i64,
            needs_receipt: false,
            unidentified_sender: false,
            was_plaintext: false,
            report_spam_token: None,
        };
        assert(metadata.deep_view() =~= own_metadata(
            self.state.data.deep_view(),
            destination.deep_view(),
            timestamp,
        ));
        metadata
    }

    /// Completes a message to the provided [`ServiceId`]: its body is what is sent, and all of
    /// it what is then saved in the thread of the recipient.
    ///
    /// The timestamp should be set to now and is used by Signal mobile apps to order messages
    /// later, and apply reactions.
    ///
    /// A message that sets no timer keeps that of the chat, which is `timer`. One that sets it
    /// is used as is, and the version of the timer is incremented.
    pub fn send_message(
        &self,
        recipient: ServiceId,
        message: ContentBody,
        timer: Option<(u32, u32)>,
        timestamp: u64,
    ) -> (content: Content)
        requires
            time::is_date(timestamp as i64),
            sets_timer(message.deep_view()) ==> has_next_version(timer),
        ensures
            content.deep_view() == sent_to_contact(
                self.state.data.deep_view(),
                recipient.deep_view(),
                message.deep_view(),
                timer,
                timestamp,
            ),
    {
        let mut body = message;
        restore_thread_timer(&mut body, timer);
        set_profile_key(&mut body, &self.state.data.profile_key);
        ensure_data_message_timestamp(&mut body, timestamp);
        Content { metadata: self.metadata(recipient, timestamp), body }
    }

    /// Completes a message to a group: its body is what is sent to each of the recipients, and
    /// all of it what is then saved in the thread of the group. `group` is the group with this
    /// master key, where it is known.
    ///
    /// A message that sets no timer keeps that of the chat, which is `timer`.
    pub fn send_message_to_group(
        &self,
        master_key: [u8; 32],
        group: &Option<Group>,
        message: ContentBody,
        timer: Option<(u32, u32)>,
        timestamp: u64,
    ) -> (r: Result<GroupSend, Error>)
        requires
            time::is_date(timestamp as i64),
            sets_timer(message.deep_view()) ==> has_next_version(timer),
        ensures
            match (r, group.deep_view()) {
                (Ok(send), Some(group)) => {
                    &&& send.content.deep_view() == sent_to_group(
                        self.state.data.deep_view(),
                        message.deep_view(),
                        timer,
                        timestamp,
                    )
                    &&& send.thread == Thread::Group(master_key)
                    &&& send.recipients.deep_view() == others(
                        group.members,
                        self.state.data.deep_view().service_ids.aci,
                    )
                },
                (Err(e), None) => e == Error::UnknownGroup,
                _ => false,
            },
    {
        match group {
            Some(group) => {
                let mut body = message;
                restore_thread_timer(&mut body, timer);
                ensure_data_message_timestamp(&mut body, timestamp);
                let our_aci = self.state.data.service_ids.aci;
                Ok(
                    GroupSend {
                        content: Content {
                            metadata: self.metadata(ServiceId::Aci(our_aci), timestamp),
                            body,
                        },
                        thread: Thread::Group(master_key),
                        recipients: group_recipients(&group.members, our_aci),
                    },
                )
            },
            None => Err(Error::UnknownGroup),
        }
    }

    /// The message that resets the session with a contact.
    pub fn send_session_reset(&self) -> (message: DataMessage)
        ensures
            message.deep_view() == (DataMessageView {
                flags: Some(END_SESSION),
                ..DataMessageView::empty()
            }),
    {
        let message = DataMessage { flags: Some(END_SESSION), ..DataMessage::default() };
        assert(message.deep_view() =~= (DataMessageView {
            flags: Some(END_SESSION),
            ..DataMessageView::empty()
        }));
        message
    }

    /// The contact to save when a recipient is blocked or unblocked. A recipient not yet in the
    /// contact list is stored as a minimal record so the block still takes effect.
    pub fn set_blocked(&self, existing: Option<Contact>, service_id: ServiceId, blocked: bool) -> (
    contact: Contact)
        ensures
            contact.deep_view() == (ContactView {
                blocked,
                ..match existing.deep_view() {
                    Some(contact) => contact,
                    None => contacts::minimal_contact(service_id.deep_view().raw()),
                }
            }),
    {
        let mut contact = match existing {
            Some(contact) => contact,
            None => Contact::minimal(service_id.raw_uuid()),
        };
        contact.blocked = blocked;
        contact
    }
}

/// A message never leaves without the time of its envelope, nor, to a contact, without a
/// profile key.
pub proof fn law_sent_messages_are_complete(
    data: registered::RegistrationDataView,
    recipient: ServiceIdView,
    message: DataMessageView,
    timer: Option<(u32, u32)>,
    timestamp: u64,
)
    ensures
        ({
            let sent = sent_to_contact(
                data,
                recipient,
                ContentBodyView::DataMessage(message),
                timer,
                timestamp,
            ).body;
            &&& sent is DataMessage
            &&& sent->DataMessage_0.timestamp == Some(timestamp)
            &&& sent->DataMessage_0.profile_key is Some
            &&& sent->DataMessage_0.expire_timer_version is Some
            &&& sent->DataMessage_0.body == message.body
        }),
{
}

/// What came of sending to one recipient.
#[derive(Debug, Clone, Copy, PartialEq, Eq, Structural)]
pub enum SendOutcome {
    Sent,
    /// The recipient deleted the account.
    NotFound,
    Failed,
}

/// The first of the recipients that a message to a group could not be sent to. A recipient
/// that no longer exists counts as none: the message was sent to all that do.
pub fn first_failure(outcomes: &Vec<SendOutcome>) -> (index: Option<usize>)
    ensures
        match index {
            Some(index) => {
                &&& index < outcomes@.len()
                &&& outcomes@[index as int] == SendOutcome::Failed
                &&& forall|i: int| 0 <= i < index ==> outcomes@[i] != SendOutcome::Failed
            },
            None => forall|i: int|
                0 <= i < outcomes@.len() ==> outcomes@[i] != SendOutcome::Failed,
        },
{
    let mut i: usize = 0;
    while i < outcomes.len()
        invariant
            i <= outcomes@.len(),
            forall|j: int| 0 <= j < i ==> outcomes@[j] != SendOutcome::Failed,
        decreases outcomes@.len() - i,
    {
        if outcomes[i] == SendOutcome::Failed {
            return Some(i);
        }
        i = i + 1;
    }
    None
}

/// The contacts that are blocked.
pub open spec fn blocked_among(list: Seq<ContactView>) -> Seq<ContactView>
    decreases list.len(),
{
    if list.len() == 0 {
        Seq::empty()
    } else if list.last().blocked {
        blocked_among(list.drop_last()).push(list.last())
    } else {
        blocked_among(list.drop_last())
    }
}

/// The list of blocked contacts that the other devices get: by ACI, without numbers and
/// groups.
pub open spec fn blocked_list(list: Seq<ContactView>) -> BlockedView {
    BlockedView {
        numbers: Seq::empty(),
        acis: blocked_among(list).map_values(|c: ContactView| text::uuid_text(c.uuid)),
        acis_binary: blocked_among(list).map_values(|c: ContactView| c.uuid),
        group_ids: Seq::empty(),
    }
}

/// Build the list of blocked contacts that the other devices get.
///
/// Blocking is keyed by ACI; `numbers` is left empty as modern Signal identifies blocked
/// recipients by service id, and groups are not part of it.
pub fn collect_blocked_contacts(list: &Vec<Contact>) -> (blocked: Blocked)
    ensures
        blocked.deep_view() == blocked_list(list.deep_view()),
{
    broadcast use text::lemma_bytes_view;

    let mut acis: Vec<String> = Vec::new();
    let mut acis_binary: Vec<Vec<u8>> = Vec::new();
    let ghost all = list.deep_view();
    let mut i: usize = 0;
    proof {
        assert(acis.deep_view() =~= blocked_list(all.take(0)).acis);
        assert(acis_binary.deep_view() =~= blocked_list(all.take(0)).acis_binary);
    }
    while i < list.len()
        invariant
            i <= list@.len(),
            all == list.deep_view(),
            acis.deep_view() == blocked_list(all.take(i as int)).acis,
            acis_binary.deep_view() == blocked_list(all.take(i as int)).acis_binary,
        decreases list@.len() - i,
    {
        let contact = &list[i];
        let ghost before = acis.deep_view();
        let ghost before_binary = acis_binary.deep_view();
        let ghost so_far = blocked_among(all.take(i as int));
        proof {
            assert(all.take(i + 1).drop_last() =~= all.take(i as int));
            assert(all.take(i + 1).last() == contact.deep_view());
        }
        if contact.blocked {
            let name = contact.uuid.to_string();
            let bytes = contact.uuid.to_vec();
            acis.push(name);
            acis_binary.push(bytes);
            proof {
                text::lemma_bytes_view(bytes);
                assert(blocked_among(all.take(i + 1)) =~= so_far.push(contact.deep_view()));
                assert(acis.deep_view() =~= before.push(text::uuid_text(contact.deep_view().uuid)));
                assert(acis_binary.deep_view() =~= before_binary.push(contact.deep_view().uuid));
                assert(acis.deep_view() =~= blocked_list(all.take(i + 1)).acis);
                assert(acis_binary.deep_view() =~= blocked_list(all.take(i + 1)).acis_binary);
            }
        }
        i = i + 1;
    }
    assert(all.take(i as int) =~= all);
    let blocked = Blocked { numbers: Vec::new(), acis, acis_binary, group_ids: Vec::new() };
    assert(blocked.deep_view() =~= blocked_list(list.deep_view()));
    blocked
}

/// The message that gives the other devices the list of blocked contacts.
pub fn blocked_message(blocked: Blocked, padding: Vec<u8>) -> (message: SyncMessage)
    ensures
        message.deep_view() == (SyncMessageView {
            blocked: Some(blocked.deep_view()),
            padding: Some(padding@),
            ..SyncMessageView::empty()
        }),
{
    broadcast use text::lemma_bytes_view;

    let message = SyncMessage {
        blocked: Some(blocked),
        padding: Some(padding),
        ..SyncMessage::default()
    };
    assert(message.deep_view() =~= (SyncMessageView {
        blocked: Some(blocked.deep_view()),
        padding: Some(padding@),
        ..SyncMessageView::empty()
    }));
    message
}

/// The message that gives the other devices the keys.
pub fn keys_message(keys: Keys, padding: Vec<u8>) -> (message: SyncMessage)
    ensures
        message.deep_view() == (SyncMessageView {
            keys: Some(keys.deep_view()),
            padding: Some(padding@),
            ..SyncMessageView::empty()
        }),
{
    broadcast use text::lemma_bytes_view;

    let message = SyncMessage {
        keys: Some(keys),
        padding: Some(padding),
        ..SyncMessage::default()
    };
    assert(message.deep_view() =~= (SyncMessageView {
        keys: Some(keys.deep_view()),
        padding: Some(padding@),
        ..SyncMessageView::empty()
    }));
    message
}

} // verus!

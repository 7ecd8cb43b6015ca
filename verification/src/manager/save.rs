//! What of a message is stored, and where.
use vstd::prelude::*;

use crate::errors::Error;
use crate::model::calls;
use crate::model::calls::GroupIdentity;
use crate::model::contacts;
use crate::model::contacts::{Contact, ContactView};
use crate::model::groups::Group;
use crate::model::profile;
use crate::model::profile::{ProfileKey, ProfileName};
use crate::proto::{
    AddressableMessage, AddressableMessageView, Author, AuthorView, Content, ContentBody,
    ContentBodyView, ContentView, DataMessage, DataMessageView, EditMessage, EditMessageView,
    MessageDeletes, MessageDeletesView, Metadata, MetadataView, SyncMessage, SyncMessageView,
};
use crate::service_id;
use crate::service_id::{Aci, ServiceId, ServiceIdView, Uuid};
use crate::store;
use crate::store::{Thread, ThreadError, ThreadView};
use crate::text;

use super::receive;
use super::registered;

verus! {

/// What a message says of the profile of its sender.
#[derive(Debug, PartialEq)]
pub struct ProfileUpdate {
    pub sender: ServiceId,
    pub profile_key: ProfileKey,
    pub expire_timer: Option<u32>,
    pub expire_timer_version: Option<u32>,
}

/// What a [`ProfileUpdate`] holds.
#[verifier::ext_equal]
pub struct ProfileUpdateView {
    pub sender: ServiceIdView,
    pub profile_key: Seq<u8>,
    pub expire_timer: Option<u32>,
    pub expire_timer_version: Option<u32>,
}

impl DeepView for ProfileUpdate {
    type V = ProfileUpdateView;

    open spec fn deep_view(&self) -> ProfileUpdateView {
        ProfileUpdateView {
            sender: self.sender.deep_view(),
            profile_key: self.profile_key.deep_view(),
            expire_timer: self.expire_timer,
            expire_timer_version: self.expire_timer_version,
        }
    }
}

impl Clone for ProfileUpdate {
    fn clone(&self) -> (r: Self)
        ensures
            r.deep_view() == self.deep_view(),
    {
        let r = ProfileUpdate {
            sender: self.sender,
            profile_key: self.profile_key,
            expire_timer: self.expire_timer,
            expire_timer_version: self.expire_timer_version,
        };
        r
    }
}

/// A timer for disappearing messages, and its version.
#[derive(Debug, PartialEq)]
pub struct ContactTimer {
    pub timer: u32,
    pub version: u32,
}

/// What a [`ContactTimer`] holds.
#[verifier::ext_equal]
pub struct ContactTimerView {
    pub timer: u32,
    pub version: u32,
}

impl DeepView for ContactTimer {
    type V = ContactTimerView;

    open spec fn deep_view(&self) -> ContactTimerView {
        ContactTimerView {
            timer: self.timer,
            version: self.version,
        }
    }
}

impl Clone for ContactTimer {
    fn clone(&self) -> (r: Self)
        ensures
            r.deep_view() == self.deep_view(),
    {
        let r = ContactTimer {
            timer: self.timer,
            version: self.version,
        };
        r
    }
}

/// A message that is to be deleted.
#[derive(Debug, PartialEq)]
pub struct DeleteTarget {
    pub sender: ServiceId,
    pub timestamp: u64,
}

/// What a [`DeleteTarget`] holds.
#[verifier::ext_equal]
pub struct DeleteTargetView {
    pub sender: ServiceIdView,
    pub timestamp: u64,
}

impl DeepView for DeleteTarget {
    type V = DeleteTargetView;

    open spec fn deep_view(&self) -> DeleteTargetView {
        DeleteTargetView {
            sender: self.sender.deep_view(),
            timestamp: self.timestamp,
        }
    }
}

impl Clone for DeleteTarget {
    fn clone(&self) -> (r: Self)
        ensures
            r.deep_view() == self.deep_view(),
    {
        let r = DeleteTarget {
            sender: self.sender,
            timestamp: self.timestamp,
        };
        r
    }
}

/// What becomes of a message.
#[derive(Debug, PartialEq)]
pub enum SaveOutcome {
    /// Save the message.
    Keep,
    /// Nothing.
    Skip,
    /// Look whether the deleted message is known. It is kept either way: what becomes of it is
    /// up to the client.
    LookUp { timestamp: u64 },
    /// Delete these messages.
    DeleteForMe { targets: Vec<DeleteTarget> },
    /// Replace the message that was sent at this time.
    Edit { target: u64, message: DataMessage },
}

/// What a [`SaveOutcome`] holds.
#[verifier::ext_equal]
pub enum SaveOutcomeView {
    Keep,
    Skip,
    LookUp { timestamp: u64 },
    DeleteForMe { targets: Seq<DeleteTargetView> },
    Edit { target: u64, message: DataMessageView },
}

impl DeepView for SaveOutcome {
    type V = SaveOutcomeView;

    open spec fn deep_view(&self) -> SaveOutcomeView {
        match self {
            SaveOutcome::Keep => SaveOutcomeView::Keep,
            SaveOutcome::Skip => SaveOutcomeView::Skip,
            SaveOutcome::LookUp { timestamp } => SaveOutcomeView::LookUp {
                timestamp: *timestamp,
            },
            SaveOutcome::DeleteForMe { targets } => SaveOutcomeView::DeleteForMe {
                targets: targets.deep_view(),
            },
            SaveOutcome::Edit { target, message } => SaveOutcomeView::Edit {
                target: *target,
                message: message.deep_view(),
            },
        }
    }
}

impl Clone for SaveOutcome {
    fn clone(&self) -> (r: Self)
        ensures
            r.deep_view() == self.deep_view(),
    {
        let r = match self {
            SaveOutcome::Keep => SaveOutcome::Keep,
            SaveOutcome::Skip => SaveOutcome::Skip,
            SaveOutcome::LookUp { timestamp } => SaveOutcome::LookUp {
                timestamp: *timestamp,
            },
            SaveOutcome::DeleteForMe { targets } => SaveOutcome::DeleteForMe {
                targets: targets.clone(),
            },
            SaveOutcome::Edit { target, message } => SaveOutcome::Edit {
                target: *target,
                message: message.clone(),
            },
        };
        proof {
            assert(r.deep_view() =~= self.deep_view());
        }
        r
    }
}

/// What saving a message does.
#[derive(Debug, PartialEq)]
pub struct SavePlan {
    /// What to take over into the contact, in the background.
    pub profile: Option<ProfileUpdate>,
    /// The thread's timer.
    pub timer: Option<ContactTimer>,
    pub outcome: SaveOutcome,
}

/// What a [`SavePlan`] holds.
#[verifier::ext_equal]
pub struct SavePlanView {
    pub profile: Option<ProfileUpdateView>,
    pub timer: Option<ContactTimerView>,
    pub outcome: SaveOutcomeView,
}

impl DeepView for SavePlan {
    type V = SavePlanView;

    open spec fn deep_view(&self) -> SavePlanView {
        SavePlanView {
            profile: self.profile.deep_view(),
            timer: self.timer.deep_view(),
            outcome: self.outcome.deep_view(),
        }
    }
}

impl Clone for SavePlan {
    fn clone(&self) -> (r: Self)
        ensures
            r.deep_view() == self.deep_view(),
    {
        let r = SavePlan {
            profile: self.profile.clone(),
            timer: self.timer.clone(),
            outcome: self.outcome.clone(),
        };
        proof {
            assert(r.profile.deep_view() =~= self.profile.deep_view());
            assert(r.timer.deep_view() =~= self.timer.deep_view());
        }
        r
    }
}

/// The thread that a message is stored in: the one that was given, the one of the call it is
/// about, or else the one it names. `destination` is where the message says it was sent.
pub open spec fn thread_for(
    content: ContentView,
    override_thread: Option<ThreadView>,
    groups: Seq<GroupIdentity>,
    destination: Option<ServiceIdView>,
) -> Result<ThreadView, ThreadError> {
    match override_thread {
        Some(thread) => Ok(thread),
        None => match calls::call_thread_of(content, groups) {
            Some(thread) => Ok(thread),
            None => store::thread_of(content, destination),
        },
    }
}

/// The thread that a message is stored in. `groups` are those of the store, which the message
/// may name by their ids.
///
/// `override_thread` is required for outgoing messages: the place of those cannot be derived
/// from the message itself.
pub fn message_thread(
    content: &Content,
    override_thread: Option<Thread>,
    groups: &Vec<GroupIdentity>,
    destination: Option<ServiceId>,
) -> (thread: Result<Thread, Error>)
    requires
        override_thread is None && calls::call_thread_of(content.deep_view(), groups@) is None
            ==> store::names_a_group_properly(content.deep_view().body),
    ensures
        match thread {
            Ok(thread) => thread_for(
                content.deep_view(),
                override_thread.deep_view(),
                groups@,
                destination.deep_view(),
            ) == Ok::<ThreadView, ThreadError>(thread.deep_view()),
            Err(Error::InvalidThread(e)) => thread_for(
                content.deep_view(),
                override_thread.deep_view(),
                groups@,
                destination.deep_view(),
            ) == Err::<ThreadView, ThreadError>(e),
            Err(_) => false,
        },
{
    match override_thread {
        Some(thread) => Ok(thread),
        None => match calls::resolve_call_thread(content, groups) {
            Some(thread) => Ok(thread),
            None => match Thread::try_from_content(content, destination) {
                Ok(thread) => Ok(thread),
                Err(e) => Err(Error::InvalidThread(e)),
            },
        },
    }
}

/// The author that a deletion names.
pub open spec fn author_of(author: Option<AuthorView>) -> Option<ServiceIdView> {
    match author {
        Some(AuthorView::AuthorServiceId(id)) => service_id::service_id_of_text(id),
        Some(AuthorView::AuthorServiceIdBinary(id)) => service_id::service_id_of_bytes(id),
        _ => None,
    }
}

/// The message that a deletion names, if it names one.
pub open spec fn target_of(message: AddressableMessageView) -> Option<DeleteTargetView> {
    match (author_of(message.author), message.sent_timestamp) {
        (Some(sender), Some(timestamp)) => Some(DeleteTargetView { sender, timestamp }),
        _ => None,
    }
}

/// The messages that deletions in one conversation name.
pub open spec fn targets_in(messages: Seq<AddressableMessageView>) -> Seq<DeleteTargetView>
    decreases messages.len(),
{
    if messages.len() == 0 {
        Seq::empty()
    } else {
        match target_of(messages.last()) {
            Some(target) => targets_in(messages.drop_last()).push(target),
            None => targets_in(messages.drop_last()),
        }
    }
}

/// The messages that deletions name, one conversation after the other.
pub open spec fn targets_of(deletes: Seq<MessageDeletesView>) -> Seq<DeleteTargetView>
    decreases deletes.len(),
{
    if deletes.len() == 0 {
        Seq::empty()
    } else {
        targets_of(deletes.drop_last()) + targets_in(deletes.last().messages)
    }
}

/// The edit that a body makes.
pub open spec fn edit_of(body: ContentBodyView) -> Option<EditMessageView> {
    match body {
        ContentBodyView::EditMessage(edit) => Some(edit),
        ContentBodyView::SynchronizeMessage(sync) => match sync.sent {
            Some(sent) => sent.edit_message,
            None => None,
        },
        _ => None,
    }
}

/// The timestamp of the message that a message deletes.
pub open spec fn deletion_of(message: DataMessageView) -> Option<u64> {
    match message.delete {
        Some(delete) => delete.target_sent_timestamp,
        None => None,
    }
}

/// What becomes of a message that carries no data message.
pub open spec fn outcome_without_data(body: ContentBodyView) -> SaveOutcomeView {
    match body {
        ContentBodyView::SynchronizeMessage(sync) => if let Some(delete) = sync.delete_for_me {
            SaveOutcomeView::DeleteForMe { targets: targets_of(delete.message_deletes) }
        } else {
            match edit_of(body) {
                Some(
                    EditMessageView {
                        target_sent_timestamp: Some(target),
                        data_message: Some(message),
                    },
                ) => SaveOutcomeView::Edit { target, message },
                _ => if sync.call_event is Some {
                    SaveOutcomeView::Keep
                } else {
                    SaveOutcomeView::Skip
                },
            }
        },
        ContentBodyView::EditMessage(edit) => match (
            edit.target_sent_timestamp,
            edit.data_message,
        ) {
            (Some(target), Some(message)) => SaveOutcomeView::Edit { target, message },
            _ => SaveOutcomeView::Skip,
        },
        ContentBodyView::NullMessage(_) => SaveOutcomeView::Keep,
        ContentBodyView::CallMessage(_) => SaveOutcomeView::Keep,
        ContentBodyView::ReceiptMessage(_) => SaveOutcomeView::Keep,
        _ => SaveOutcomeView::Skip,
    }
}

/// What saving a message in a thread does.
pub open spec fn plan_of(content: ContentView, thread: ThreadView) -> SavePlanView {
    match receive::data_message_of(content.body) {
        Some(message) => SavePlanView {
            profile: match message.profile_key {
                Some(bytes) => match profile::profile_key_bytes(bytes) {
                    Some(profile_key) => Some(
                        ProfileUpdateView {
                            sender: content.metadata.sender,
                            profile_key,
                            expire_timer: message.expire_timer,
                            expire_timer_version: message.expire_timer_version,
                        },
                    ),
                    None => None,
                },
                None => None,
            },
            timer: match thread {
                ThreadView::Contact(_) => Some(
                    ContactTimerView {
                        timer: message.expire_timer.unwrap_or(0),
                        version: message.expire_timer_version.unwrap_or(1),
                    },
                ),
                ThreadView::Group(_) => None,
            },
            outcome: match deletion_of(message) {
                Some(timestamp) => SaveOutcomeView::LookUp { timestamp },
                None => SaveOutcomeView::Keep,
            },
        },
        None => SavePlanView {
            profile: None,
            timer: None,
            outcome: outcome_without_data(content.body),
        },
    }
}

fn read_author(author: &Option<Author>) -> (sender: Option<ServiceId>)
    ensures
        sender.deep_view() == author_of(author.deep_view()),
{
    broadcast use text::lemma_bytes_view;

    match author {
        Some(Author::AuthorServiceId(id)) => ServiceId::parse_from_service_id_string(id.as_str()),
        Some(Author::AuthorServiceIdBinary(id)) => ServiceId::parse_from_service_id_binary(
            id.as_slice(),
        ),
        _ => None,
    }
}

fn push_targets(messages: &Vec<AddressableMessage>, targets: &mut Vec<DeleteTarget>)
    ensures
        final(targets).deep_view() == old(targets).deep_view() + targets_in(messages.deep_view()),
{
    let ghost before = targets.deep_view();
    let ghost all = messages.deep_view();
    let mut i: usize = 0;
    proof {
        assert(targets.deep_view() =~= before + targets_in(all.take(0)));
    }
    while i < messages.len()
        invariant
            i <= messages@.len(),
            all == messages.deep_view(),
            targets.deep_view() == before + targets_in(all.take(i as int)),
        decreases messages@.len() - i,
    {
        let message = &messages[i];
        let ghost so_far = targets.deep_view();
        proof {
            assert(all.take(i + 1).drop_last() =~= all.take(i as int));
            assert(all.take(i + 1).last() == message.deep_view());
        }
        match (read_author(&message.author), message.sent_timestamp) {
            (Some(sender), Some(timestamp)) => {
                let target = DeleteTarget { sender, timestamp };
                targets.push(target);
                assert(targets.deep_view() =~= so_far.push(target.deep_view()));
            },
            _ => {},
        }
        i = i + 1;
    }
    assert(all.take(i as int) =~= all);
}

fn collect_targets(deletes: &Vec<MessageDeletes>) -> (targets: Vec<DeleteTarget>)
    ensures
        targets.deep_view() == targets_of(deletes.deep_view()),
{
    let mut targets: Vec<DeleteTarget> = Vec::new();
    let ghost all = deletes.deep_view();
    let mut i: usize = 0;
    proof {
        assert(targets.deep_view() =~= targets_of(all.take(0)));
    }
    while i < deletes.len()
        invariant
            i <= deletes@.len(),
            all == deletes.deep_view(),
            targets.deep_view() == targets_of(all.take(i as int)),
        decreases deletes@.len() - i,
    {
        proof {
            assert(all.take(i + 1).drop_last() =~= all.take(i as int));
            assert(all.take(i + 1).last() == deletes@[i as int].deep_view());
        }
        push_targets(&deletes[i].messages, &mut targets);
        i = i + 1;
    }
    assert(all.take(i as int) =~= all);
    targets
}

fn complete_edit(edit: &EditMessage) -> (outcome: Option<SaveOutcome>)
    ensures
        outcome.deep_view() == (match (
            edit.deep_view().target_sent_timestamp,
            edit.deep_view().data_message,
        ) {
            (Some(target), Some(message)) => Some(SaveOutcomeView::Edit { target, message }),
            _ => None,
        }),
{
    match (edit.target_sent_timestamp, &edit.data_message) {
        (Some(target), Some(message)) => Some(
            SaveOutcome::Edit { target, message: message.clone() },
        ),
        _ => None,
    }
}

fn sync_outcome(sync: &SyncMessage) -> (outcome: SaveOutcome)
    ensures
        outcome.deep_view() == outcome_without_data(
            ContentBodyView::SynchronizeMessage(sync.deep_view()),
        ),
{
    if let Some(delete) = &sync.delete_for_me {
        return SaveOutcome::DeleteForMe { targets: collect_targets(&delete.message_deletes) };
    }
    if let Some(sent) = &sync.sent {
        if let Some(edit) = &sent.edit_message {
            if let Some(outcome) = complete_edit(edit) {
                return outcome;
            }
        }
    }
    if sync.call_event.is_some() {
        SaveOutcome::Keep
    } else {
        SaveOutcome::Skip
    }
}

/// What saving a message does, in a thread: what to take over of the sender's profile, the
/// timer to set, and what becomes of the message itself.
///
/// Only what a client shows is stored. The timer of a message is for contacts alone: that of a
/// group comes with the group.
pub fn save_message(content: &Content, thread: &Thread) -> (plan: SavePlan)
    ensures
        plan.deep_view() == plan_of(content.deep_view(), thread.deep_view()),
{
    broadcast use text::lemma_bytes_view;

    match receive::data_message(&content.body) {
        Some(message) => {
            let key = match &message.profile_key {
                Some(bytes) => ProfileKey::from_slice(bytes.as_slice()),
                None => None,
            };
            let profile = match key {
                Some(profile_key) => Some(
                    ProfileUpdate {
                        sender: content.metadata.sender,
                        profile_key,
                        expire_timer: message.expire_timer,
                        expire_timer_version: message.expire_timer_version,
                    },
                ),
                None => None,
            };
            let timer = match thread {
                Thread::Contact(_) => Some(
                    ContactTimer {
                        timer: message.expire_timer.unwrap_or(0),
                        version: message.expire_timer_version.unwrap_or(1),
                    },
                ),
                Thread::Group(_) => None,
            };
            let deleted = match &message.delete {
                Some(delete) => delete.target_sent_timestamp,
                None => None,
            };
            let outcome = match deleted {
                Some(timestamp) => SaveOutcome::LookUp { timestamp },
                None => SaveOutcome::Keep,
            };
            SavePlan { profile, timer, outcome }
        },
        None => {
            let outcome = match &content.body {
                ContentBody::SynchronizeMessage(sync) => sync_outcome(sync),
                ContentBody::EditMessage(edit) => match complete_edit(edit) {
                    Some(outcome) => outcome,
                    None => SaveOutcome::Skip,
                },
                ContentBody::NullMessage(_) => SaveOutcome::Keep,
                ContentBody::CallMessage(_) => SaveOutcome::Keep,
                ContentBody::ReceiptMessage(_) => SaveOutcome::Keep,
                _ => SaveOutcome::Skip,
            };
            SavePlan { profile: None, timer: None, outcome }
        },
    }
}

/// The message that replaces an edited one.
pub open spec fn edited(
    metadata: MetadataView,
    target: u64,
    message: DataMessageView,
) -> ContentView {
    ContentView {
        metadata,
        body: ContentBodyView::EditMessage(
            EditMessageView { target_sent_timestamp: Some(target), data_message: Some(message) },
        ),
    }
}

/// The message to save for an edit: `known` is whether the store has the edited message. An
/// edit of an unknown message is dropped.
pub fn edit_message(metadata: Metadata, target: u64, message: DataMessage, known: bool) -> (r:
    Option<Content>)
    ensures
        match r {
            Some(content) => known && content.deep_view() == edited(
                metadata.deep_view(),
                target,
                message.deep_view(),
            ),
            None => !known,
        },
{
    if known {
        let edit = EditMessage {
            target_sent_timestamp: Some(target),
            data_message: Some(message),
        };
        Some(Content { metadata, body: ContentBody::EditMessage(edit) })
    } else {
        None
    }
}

/// An edit is stored where what it edits is: it is known by the time of the message that it
/// replaces.
pub proof fn law_edit_keeps_the_timestamp(
    metadata: MetadataView,
    target: u64,
    message: DataMessageView,
)
    ensures
        store::timestamp_of(edited(metadata, target, message)) == target,
{
}

/// A message that is sent with another device is saved as the same message that is received:
/// what it leads to is decided by the data message alone, and by who sent it.
pub proof fn law_sent_and_received_are_saved_alike(
    content: ContentView,
    sync: SyncMessageView,
    message: DataMessageView,
    thread: ThreadView,
)
    requires
        sync.sent is Some,
        sync.sent->0.message == Some(message),
    ensures
        plan_of(
            ContentView { body: ContentBodyView::SynchronizeMessage(sync), ..content },
            thread,
        ) == plan_of(
            ContentView { body: ContentBodyView::DataMessage(message), ..content },
            thread,
        ),
{
}

/// Who to ask for a profile that was named in a message: nobody where the contact is known
/// with this very profile key, or has no ACI.
pub open spec fn profile_to_fetch(
    known: bool,
    stored_key: Option<Seq<u8>>,
    sender: ServiceIdView,
    profile_key: Seq<u8>,
) -> Option<Seq<u8>> {
    if known && stored_key == Some(profile_key) {
        None
    } else {
        sender.aci()
    }
}

/// Who to ask for a profile that was named in a message. `known` is whether there is a contact
/// for the sender, and `stored_key` the profile key that is stored for it.
pub fn profile_needed(
    known: bool,
    stored_key: Option<ProfileKey>,
    sender: ServiceId,
    profile_key: ProfileKey,
) -> (aci: Option<Aci>)
    ensures
        aci.deep_view() == profile_to_fetch(
            known,
            stored_key.deep_view(),
            sender.deep_view(),
            profile_key.deep_view(),
        ),
{
    let current = match stored_key {
        Some(stored) => stored == profile_key,
        None => false,
    };
    if known && current {
        None
    } else {
        sender.aci()
    }
}

/// A contact after its profile was fetched. A profile without a name says nothing about what
/// the contact is called.
pub open spec fn with_profile(
    existing: Option<ContactView>,
    uuid: Seq<u8>,
    name: Seq<char>,
    profile_key: Seq<u8>,
    expire_timer: Option<u32>,
    expire_timer_version: Option<u32>,
) -> ContactView {
    let contact = match existing {
        Some(contact) => contact,
        None => contacts::minimal_contact(uuid),
    };
    ContactView {
        name: if name.len() > 0 {
            name
        } else {
            contact.name
        },
        profile_key,
        expire_timer: expire_timer.unwrap_or(0),
        expire_timer_version: registered::merged_version(
            expire_timer_version,
            contact.expire_timer_version,
        ),
        ..contact
    }
}

/// The contact to save after the profile of the sender of a message was fetched: `existing`
/// is what the store has of it, `name` the name in the profile.
pub fn upsert_contact_from_profile(
    existing: Option<Contact>,
    uuid: Uuid,
    name: Option<ProfileName>,
    update: &ProfileUpdate,
) -> (contact: Contact)
    ensures
        contact.deep_view() == with_profile(
            existing.deep_view(),
            uuid.deep_view(),
            match name {
                Some(name) => profile::profile_name_text(
                    name.given_name@,
                    name.family_name.deep_view(),
                ),
                None => Seq::empty(),
            },
            update.deep_view().profile_key,
            update.expire_timer,
            update.expire_timer_version,
        ),
{
    broadcast use text::lemma_bytes_view;

    let ghost known = existing.deep_view();
    let mut contact = match existing {
        Some(contact) => contact,
        None => Contact::minimal(uuid),
    };
    let ghost was = contact.deep_view();
    let fetched = match &name {
        Some(name) => name.to_string(),
        None => String::new(),
    };
    if !fetched.as_str().is_empty() {
        contact.name = fetched;
    }
    contact.profile_key = update.profile_key.to_vec();
    contact.expire_timer = update.expire_timer.unwrap_or(0);
    contact.expire_timer_version = registered::merged_expire_timer_version(
        update.expire_timer_version,
        contact.expire_timer_version,
    );
    proof {
        let text = match name {
            Some(name) => profile::profile_name_text(
                name.given_name@,
                name.family_name.deep_view(),
            ),
            None => Seq::<char>::empty(),
        };
        assert(contact.deep_view() =~= with_profile(
            known,
            uuid.deep_view(),
            text,
            update.deep_view().profile_key,
            update.expire_timer,
            update.expire_timer_version,
        ));
    }
    contact
}

/// A fetched profile never turns the version of a contact's timer back, and never takes a
/// name away.
pub proof fn law_profile_takes_nothing_away(
    contact: ContactView,
    uuid: Seq<u8>,
    name: Seq<char>,
    profile_key: Seq<u8>,
    expire_timer: Option<u32>,
    expire_timer_version: Option<u32>,
)
    ensures
        ({
            let after = with_profile(
                Some(contact),
                uuid,
                name,
                profile_key,
                expire_timer,
                expire_timer_version,
            );
            &&& after.expire_timer_version >= contact.expire_timer_version
            &&& contact.name.len() > 0 ==> after.name.len() > 0
            &&& after.blocked == contact.blocked
        }),
{
}

/// Whether a group has to be fetched: it is unknown, or known at an older revision.
pub fn needs_group(stored: &Option<Group>, revision: u32) -> (fetch: bool)
    ensures
        fetch == (match stored.deep_view() {
            Some(group) => group.revision < revision,
            None => true,
        }),
{
    match stored {
        Some(group) => group.revision < revision,
        None => true,
    }
}

} // verus!

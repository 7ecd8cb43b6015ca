//! What is stored, and how it is found again.
use vstd::prelude::*;

use crate::model::calls;
use crate::model::calls::{CallEventInfo, CallHistoryEntry, CallPeer};
use crate::model::contacts::{Contact, ContactView};
use crate::model::groups::{Group, GroupView, Timer};
use crate::proto::{
    Content, ContentBody, ContentBodyView, ContentView, DataMessage, DataMessageView, EditMessage,
    EditMessageView, Metadata, MetadataView, SyncMessage, SyncMessageView, Verified, VerifiedState,
    VerifiedView,
};
use crate::service_id;
use crate::service_id::{ServiceId, ServiceIdView, DEFAULT_DEVICE_ID};
use crate::text;

verus! {

/// A thread specifies where a message was sent, either to or from a contact or in a group.
#[derive(Debug, Clone, Copy, Eq, Hash)]
pub enum Thread {
    /// The message was sent inside a contact-chat.
    Contact(ServiceId),
    /// The message was sent inside a group-chat with this master key.
    Group([u8; 32]),
}

/// What a [`Thread`] holds.
#[verifier::ext_equal]
pub enum ThreadView {
    Contact(ServiceIdView),
    Group(Seq<u8>),
}

impl DeepView for Thread {
    type V = ThreadView;

    open spec fn deep_view(&self) -> ThreadView {
        match self {
            Thread::Contact(id) => ThreadView::Contact(id.deep_view()),
            Thread::Group(key) => ThreadView::Group(key@),
        }
    }
}

impl PartialEq for Thread {
    fn eq(&self, other: &Self) -> (r: bool) {
        match (self, other) {
            (Thread::Contact(a), Thread::Contact(b)) => *a == *b,
            (Thread::Group(a), Thread::Group(b)) => text::bytes_equal(a, b),
            _ => false,
        }
    }
}

impl vstd::std_specs::cmp::PartialEqSpecImpl for Thread {
    open spec fn obeys_eq_spec() -> bool {
        true
    }

    open spec fn eq_spec(&self, other: &Self) -> bool {
        self.deep_view() == other.deep_view()
    }
}

/// Per-recipient send progress that a backup carries for an outgoing message. Ordinals
/// follow the wire (Sent < Delivered < Read < Viewed).
#[derive(Debug, Clone, Copy, PartialEq, Eq, Structural)]
pub enum BackupSendStatus {
    Sent,
    Delivered,
    Read,
    Viewed,
}

impl DeepView for BackupSendStatus {
    type V = BackupSendStatus;

    open spec fn deep_view(&self) -> BackupSendStatus {
        *self
    }
}

/// An error that a store gives.
pub trait StoreError {

}

/// A resumable checkpoint inside a storage sync.
///
/// After each batch of records is successfully fetched and persisted, the sync writes one of
/// these. On the next attempt, if the server's current manifest version equals
/// `target_version`, the first `next_batch_index` batches are skipped. If it does not, the
/// cursor is discarded and the sync restarts at the first batch.
#[derive(Debug, Clone, Copy, PartialEq, Eq, Structural)]
pub struct StorageSyncCursor {
    pub target_version: u64,
    pub next_batch_index: u32,
}

/// How a thread is displayed: the service id of a contact, the first four bytes of a
/// group's master key.
pub open spec fn thread_text(thread: ThreadView) -> Seq<char> {
    match thread {
        ThreadView::Contact(id) => "Thread(contact="@ + service_id::service_id_text(id) + ")"@,
        ThreadView::Group(key) => "Thread(group=["@ + text::short_hex_text(key[0]) + ", "@
            + text::short_hex_text(key[1]) + ", "@ + text::short_hex_text(key[2]) + ", "@
            + text::short_hex_text(key[3]) + "])"@,
    }
}

#[derive(Debug, Clone, Copy, PartialEq, Eq, Structural)]
pub enum ThreadError {
    InvalidServiceId,
}

/// The group that a message belongs to.
pub open spec fn group_of_message(message: Option<DataMessageView>) -> Option<Seq<u8>> {
    match message {
        Some(message) => match message.group_v2 {
            Some(group) => group.master_key,
            None => None,
        },
        None => None,
    }
}

/// The group that an edit belongs to.
pub open spec fn group_of_edit(edit: Option<EditMessageView>) -> Option<Seq<u8>> {
    match edit {
        Some(edit) => group_of_message(edit.data_message),
        None => None,
    }
}

/// The group that some content belongs to: that of a message or of an edit, whether somebody
/// else sent it or this account did with another device.
pub open spec fn group_of_body(body: ContentBodyView) -> Option<Seq<u8>> {
    match body {
        ContentBodyView::DataMessage(message) => group_of_message(Some(message)),
        ContentBodyView::EditMessage(edit) => group_of_edit(Some(edit)),
        ContentBodyView::SynchronizeMessage(message) => match message.sent {
            Some(sent) => match group_of_message(sent.message) {
                Some(key) => Some(key),
                None => group_of_edit(sent.edit_message),
            },
            None => None,
        },
        _ => None,
    }
}

/// A message that this account sent to one person with another device.
pub open spec fn sent_to_contact(body: ContentBodyView) -> bool {
    match body {
        ContentBodyView::SynchronizeMessage(message) => match message.sent {
            Some(sent) => sent.destination_service_id is Some
                || sent.destination_service_id_binary is Some,
            None => false,
        },
        _ => false,
    }
}

/// The thread that a message belongs to. `destination` is what the destination of a message
/// that this account sent with another device reads as.
pub open spec fn thread_of(content: ContentView, destination: Option<ServiceIdView>) -> Result<
    ThreadView,
    ThreadError,
> {
    if sent_to_contact(content.body) {
        match destination {
            Some(id) => Ok(ThreadView::Contact(id)),
            None => Err(ThreadError::InvalidServiceId),
        }
    } else {
        match group_of_body(content.body) {
            Some(key) => Ok(ThreadView::Group(key)),
            None => Ok(ThreadView::Contact(content.metadata.sender)),
        }
    }
}

/// A group that a message names by something else than thirty-two bytes has no thread.
pub open spec fn names_a_group_properly(body: ContentBodyView) -> bool {
    sent_to_contact(body) || (group_of_body(body) matches Some(key) ==> key.len() == 32)
}

fn message_group(message: &DataMessage) -> (r: Option<&Vec<u8>>)
    ensures
        match r {
            Some(key) => group_of_message(Some(message.deep_view())) == Some(key@),
            None => group_of_message(Some(message.deep_view())) is None,
        },
{
    broadcast use text::lemma_bytes_view;

    match &message.group_v2 {
        Some(group) => match &group.master_key {
            Some(key) => Some(key),
            None => None,
        },
        None => None,
    }
}

fn edit_group(edit: &EditMessage) -> (r: Option<&Vec<u8>>)
    ensures
        match r {
            Some(key) => group_of_edit(Some(edit.deep_view())) == Some(key@),
            None => group_of_edit(Some(edit.deep_view())) is None,
        },
{
    match &edit.data_message {
        Some(message) => message_group(message),
        None => None,
    }
}

impl Thread {
    /// How the thread is displayed.
    pub fn to_string(&self) -> (text: String)
        ensures
            text@ == thread_text(self.deep_view()),
    {
        match self {
            Thread::Contact(id) => "Thread(contact=".to_owned().concat(
                id.service_id_string().as_str(),
            ).concat(")"),
            Thread::Group(key) => {
                "Thread(group=[".to_owned().concat(text::short_hex(key[0]).as_str()).concat(
                    ", ",
                ).concat(text::short_hex(key[1]).as_str()).concat(", ").concat(
                    text::short_hex(key[2]).as_str(),
                ).concat(", ").concat(text::short_hex(key[3]).as_str()).concat("])")
            },
        }
    }

    /// The thread that a message belongs to. `destination` is what the destination of a
    /// message that this account sent with another device reads as; it is looked at for no
    /// other message.
    pub fn try_from_content(content: &Content, destination: Option<ServiceId>) -> (thread: Result<
        Thread,
        ThreadError,
    >)
        requires
            names_a_group_properly(content.deep_view().body),
        ensures
            match thread {
                Ok(thread) => thread_of(content.deep_view(), destination.deep_view()) == Ok::<
                    ThreadView,
                    ThreadError,
                >(thread.deep_view()),
                Err(e) => thread_of(content.deep_view(), destination.deep_view()) == Err::<
                    ThreadView,
                    ThreadError,
                >(e),
            },
    {
        let key = match &content.body {
            ContentBody::SynchronizeMessage(message) => match &message.sent {
                Some(sent) => {
                    // [1-1] Message sent by us with another device
                    if sent.destination_service_id.is_some()
                        || sent.destination_service_id_binary.is_some() {
                        return match destination {
                            Some(id) => Ok(Thread::Contact(id)),
                            None => Err(ThreadError::InvalidServiceId),
                        };
                    }
                    // [Group] message, or message edit, sent by us with another device

                    let of_message = match &sent.message {
                        Some(message) => message_group(message),
                        None => None,
                    };
                    match of_message {
                        Some(key) => Some(key),
                        None => match &sent.edit_message {
                            Some(edit) => edit_group(edit),
                            None => None,
                        },
                    }
                },
                None => None,
            },
            // [Group] message from somebody else
            ContentBody::DataMessage(message) => message_group(message),
            // [Group] message edit from somebody else
            ContentBody::EditMessage(edit) => edit_group(edit),
            _ => None,
        };
        match key {
            Some(key) => match service_id::thirty_two(key.as_slice()) {
                Some(key) => Ok(Thread::Group(key)),
                None => Ok(Thread::Contact(content.metadata.sender)),
            },
            // [1-1] Any other message directly to us
            None => Ok(Thread::Contact(content.metadata.sender)),
        }
    }
}

/// The time by which a message is known: for one sent with another device, an edit included,
/// the time that its transcript gives; for an edit without such a time, that of the message it
/// replaces; and else when it was sent.
pub open spec fn timestamp_of(content: ContentView) -> u64 {
    let sent_at = content.metadata.timestamp as u64;
    match content.body {
        ContentBodyView::SynchronizeMessage(message) => match message.sent {
            Some(sent) => match sent.timestamp {
                Some(timestamp) => timestamp,
                None => match sent.edit_message {
                    Some(edit) => edit.target_sent_timestamp.unwrap_or(sent_at),
                    None => sent_at,
                },
            },
            None => sent_at,
        },
        ContentBodyView::EditMessage(edit) => edit.target_sent_timestamp.unwrap_or(sent_at),
        _ => sent_at,
    }
}

/// What a message is asked besides its content.
pub trait ContentExt {
    /// The original timestamp of the message.
    fn timestamp(&self) -> u64;
}

impl ContentExt for Content {
    fn timestamp(&self) -> (timestamp: u64)
        ensures
            timestamp == timestamp_of(self.deep_view()),
    {
        let sent_at: u64 = self.metadata.timestamp as u64;
        match &self.body {
            ContentBody::SynchronizeMessage(message) => match &message.sent {
                Some(sent) => match sent.timestamp {
                    Some(timestamp) => timestamp,
                    None => match &sent.edit_message {
                        Some(edit) => edit.target_sent_timestamp.unwrap_or(sent_at),
                        None => sent_at,
                    },
                },
                None => sent_at,
            },
            ContentBody::EditMessage(edit) => edit.target_sent_timestamp.unwrap_or(sent_at),
            _ => sent_at,
        }
    }
}

/// The expire timer of a thread and its version. A group's timer has no version, and counts
/// as the first.
pub open spec fn expire_timer_of(
    thread: ThreadView,
    contact: Option<ContactView>,
    group: Option<GroupView>,
) -> Option<(u32, u32)> {
    match thread {
        ThreadView::Contact(_) => match contact {
            Some(contact) => Some((contact.expire_timer, contact.expire_timer_version)),
            None => None,
        },
        ThreadView::Group(_) => match group {
            Some(group) => match group.disappearing_messages_timer {
                Some(timer) => Some((timer.duration, 1u32)),
                None => None,
            },
            None => None,
        },
    }
}

/// Get the expire timer of a thread: that of its contact, or of its group. `contact` and
/// `group` are what the store has for the thread.
pub fn expire_timer(thread: &Thread, contact: &Option<Contact>, group: &Option<Group>) -> (timer:
    Option<(u32, u32)>)
    ensures
        timer == expire_timer_of(thread.deep_view(), contact.deep_view(), group.deep_view()),
{
    match thread {
        Thread::Contact(_) => match contact {
            Some(contact) => Some((contact.expire_timer, contact.expire_timer_version)),
            None => None,
        },
        Thread::Group(_) => match group {
            Some(group) => match group.disappearing_messages_timer {
                Some(timer) => Some((timer.duration, 1u32)),
                None => None,
            },
            None => None,
        },
    }
}

/// A contact after its timer was set at a version: unchanged where the version is no newer
/// than the one it has.
pub open spec fn with_timer(contact: ContactView, timer: u32, version: u32) -> ContactView {
    if version <= contact.expire_timer_version {
        contact
    } else {
        ContactView { expire_timer: timer, expire_timer_version: version, ..contact }
    }
}

/// Sets the expire timer of a contact, and says whether the contact is to be saved. An update
/// that is no newer than the stored one is ignored.
pub fn update_contact_timer(contact: &mut Contact, timer: u32, version: u32) -> (changed: bool)
    ensures
        final(contact).deep_view() == with_timer(old(contact).deep_view(), timer, version),
        changed == (version > old(contact).expire_timer_version),
{
    if version <= contact.expire_timer_version {
        return false;
    }
    contact.expire_timer_version = version;
    contact.expire_timer = timer;
    true
}

/// Sets the expire timer of a group. Zero turns disappearing messages off.
pub fn update_group_timer(group: &mut Group, timer: u32)
    ensures
        final(group).deep_view() == (GroupView {
            disappearing_messages_timer: if timer == 0 {
                None
            } else {
                Some(Timer { duration: timer })
            },
            ..old(group).deep_view()
        }),
{
    group.disappearing_messages_timer = if timer == 0 {
        None
    } else {
        Some(Timer { duration: timer })
    };
}

/// The version of a contact's timer never goes back, and the newest update decides: whatever
/// order two updates of different versions arrive in, the same timer results.
pub proof fn law_newest_timer_wins(
    contact: ContactView,
    timer_a: u32,
    version_a: u32,
    timer_b: u32,
    version_b: u32,
)
    ensures
        with_timer(contact, timer_a, version_a).expire_timer_version
            >= contact.expire_timer_version,
        version_a != version_b ==> with_timer(
            with_timer(contact, timer_a, version_a),
            timer_b,
            version_b,
        ) == with_timer(with_timer(contact, timer_b, version_b), timer_a, version_a),
{
}

/// Merge a call event into the call history: `prev` is the entry that the store has for the
/// call. Returns the merged entry, which is then saved, or `None` when the state machine
/// rejects the event.
pub fn ingest_call_event(
    prev: Option<&CallHistoryEntry>,
    info: &CallEventInfo,
    peer: &CallPeer,
) -> (r: Option<CallHistoryEntry>)
    ensures
        r.deep_view() == calls::entry_after(
            calls::entry_view(prev),
            info.deep_view(),
            peer.deep_view().peer_id(),
        ),
{
    calls::transition_call_history(prev, info, peer.peer_id())
}

/// The message that shows that the identity of a contact has changed.
pub open spec fn identity_message(
    sender: ServiceIdView,
    identity_key: Seq<u8>,
    state: VerifiedState,
    timestamp: i64,
    server_timestamp: i64,
) -> ContentView {
    ContentView {
        metadata: MetadataView {
            sender,
            destination: sender,
            sender_device: DEFAULT_DEVICE_ID,
            server_guid: None,
            timestamp,
            server_timestamp,
            needs_receipt: false,
            unidentified_sender: false,
            was_plaintext: false,
            report_spam_token: None,
        },
        body: ContentBodyView::SynchronizeMessage(
            SyncMessageView {
                verified: Some(
                    VerifiedView {
                        identity_key: Some(identity_key),
                        state: Some(state),
                        ..VerifiedView::empty()
                    },
                ),
                ..SyncMessageView::empty()
            },
        ),
    }
}

/// What is saved when the identity of a contact has changed: a message, usually displayed as
/// "Your safety number with XYZ has changed", and the thread it goes to. Nothing is saved
/// where the address does not name a service id.
///
/// No message was sent, so `timestamp` and `server_timestamp` are the current time.
pub fn save_trusted_identity_message(
    address_name: &str,
    identity_key: Vec<u8>,
    verified_state: VerifiedState,
    timestamp: i64,
    server_timestamp: i64,
) -> (r: Option<(Thread, Content)>)
    ensures
        match r {
            Some((thread, content)) => service_id::service_id_of_text(address_name@) matches Some(
                sender,
            ) && thread.deep_view() == ThreadView::Contact(sender) && content.deep_view()
                == identity_message(
                sender,
                identity_key@,
                verified_state,
                timestamp,
                server_timestamp,
            ),
            None => service_id::service_id_of_text(address_name@) is None,
        },
{
    broadcast use text::lemma_bytes_view;

    let sender = match ServiceId::parse_from_service_id_string(address_name) {
        Some(sender) => sender,
        None => return None,
    };
    let verified = Verified {
        identity_key: Some(identity_key),
        state: Some(verified_state),
        ..Verified::default()
    };
    let message = SyncMessage { verified: Some(verified), ..SyncMessage::default() };
    let content = Content {
        metadata: Metadata {
            sender,
            destination: sender,
            sender_device: DEFAULT_DEVICE_ID,
            server_guid: None,
            timestamp,
            server_timestamp,
            needs_receipt: false,
            unidentified_sender: false,
            was_plaintext: false,
            report_spam_token: None,
        },
        body: ContentBody::SynchronizeMessage(message),
    };
    proof {
        let expected = identity_message(
            sender.deep_view(),
            identity_key@,
            verified_state,
            timestamp,
            server_timestamp,
        );
        assert(verified.deep_view() =~= expected.body->SynchronizeMessage_0.verified->0);
        assert(message.deep_view() =~= expected.body->SynchronizeMessage_0);
    }
    Some((Thread::Contact(sender), content))
}

/// A sticker, as the manifest of a pack lists it.
#[derive(Debug, PartialEq)]
pub struct PackSticker {
    pub id: Option<u32>,
    pub emoji: Option<String>,
    pub content_type: Option<String>,
}

/// What a [`PackSticker`] holds.
#[verifier::ext_equal]
pub struct PackStickerView {
    pub id: Option<u32>,
    pub emoji: Option<Seq<char>>,
    pub content_type: Option<Seq<char>>,
}

impl DeepView for PackSticker {
    type V = PackStickerView;

    open spec fn deep_view(&self) -> PackStickerView {
        PackStickerView {
            id: self.id,
            emoji: self.emoji.deep_view(),
            content_type: self.content_type.deep_view(),
        }
    }
}

impl Clone for PackSticker {
    fn clone(&self) -> (r: Self)
        ensures
            r.deep_view() == self.deep_view(),
    {
        let r = PackSticker {
            id: self.id,
            emoji: self.emoji.clone(),
            content_type: self.content_type.clone(),
        };
        proof {
            assert(r.emoji.deep_view() =~= self.emoji.deep_view());
            assert(r.content_type.deep_view() =~= self.content_type.deep_view());
        }
        r
    }
}

impl PackStickerView {
    /// Every field unset.
    pub open spec fn empty() -> PackStickerView {
        PackStickerView {
            id: None,
            emoji: None,
            content_type: None,
        }
    }
}

impl Default for PackSticker {
    fn default() -> (r: Self)
        ensures
            r.deep_view() == PackStickerView::empty(),
    {
        let r = PackSticker {
            id: None,
            emoji: None,
            content_type: None,
        };
        proof {
            assert(r.deep_view() =~= PackStickerView::empty());
        }
        r
    }
}

/// The manifest of a sticker pack, as it is downloaded.
#[derive(Debug, PartialEq)]
pub struct Pack {
    pub title: Option<String>,
    pub author: Option<String>,
    pub cover: Option<PackSticker>,
    pub stickers: Vec<PackSticker>,
}

/// What a [`Pack`] holds.
#[verifier::ext_equal]
pub struct PackView {
    pub title: Option<Seq<char>>,
    pub author: Option<Seq<char>>,
    pub cover: Option<PackStickerView>,
    pub stickers: Seq<PackStickerView>,
}

impl DeepView for Pack {
    type V = PackView;

    open spec fn deep_view(&self) -> PackView {
        PackView {
            title: self.title.deep_view(),
            author: self.author.deep_view(),
            cover: self.cover.deep_view(),
            stickers: self.stickers.deep_view(),
        }
    }
}

impl Clone for Pack {
    fn clone(&self) -> (r: Self)
        ensures
            r.deep_view() == self.deep_view(),
    {
        let r = Pack {
            title: self.title.clone(),
            author: self.author.clone(),
            cover: self.cover.clone(),
            stickers: self.stickers.clone(),
        };
        proof {
            assert(r.title.deep_view() =~= self.title.deep_view());
            assert(r.author.deep_view() =~= self.author.deep_view());
            assert(r.cover.deep_view() =~= self.cover.deep_view());
            assert(r.stickers.deep_view() =~= self.stickers.deep_view());
        }
        r
    }
}

impl PackView {
    /// Every field unset.
    pub open spec fn empty() -> PackView {
        PackView {
            title: None,
            author: None,
            cover: None,
            stickers: Seq::empty(),
        }
    }
}

impl Default for Pack {
    fn default() -> (r: Self)
        ensures
            r.deep_view() == PackView::empty(),
    {
        let r = Pack {
            title: None,
            author: None,
            cover: None,
            stickers: Vec::new(),
        };
        proof {
            assert(r.deep_view() =~= PackView::empty());
        }
        r
    }
}

/// A sticker, with its image once that was downloaded.
#[derive(Debug, PartialEq)]
pub struct Sticker {
    pub id: u32,
    pub emoji: Option<String>,
    pub content_type: Option<String>,
    pub bytes: Option<Vec<u8>>,
}

/// What a [`Sticker`] holds.
#[verifier::ext_equal]
pub struct StickerView {
    pub id: u32,
    pub emoji: Option<Seq<char>>,
    pub content_type: Option<Seq<char>>,
    pub bytes: Option<Seq<u8>>,
}

impl DeepView for Sticker {
    type V = StickerView;

    open spec fn deep_view(&self) -> StickerView {
        StickerView {
            id: self.id,
            emoji: self.emoji.deep_view(),
            content_type: self.content_type.deep_view(),
            bytes: self.bytes.deep_view(),
        }
    }
}

impl Clone for Sticker {
    fn clone(&self) -> (r: Self)
        ensures
            r.deep_view() == self.deep_view(),
    {
        let r = Sticker {
            id: self.id,
            emoji: self.emoji.clone(),
            content_type: self.content_type.clone(),
            bytes: self.bytes.clone(),
        };
        proof {
            assert(r.emoji.deep_view() =~= self.emoji.deep_view());
            assert(r.content_type.deep_view() =~= self.content_type.deep_view());
            assert(r.bytes.deep_view() =~= self.bytes.deep_view());
        }
        r
    }
}

/// What a sticker pack holds.
#[derive(Debug, PartialEq)]
pub struct StickerPackManifest {
    pub title: String,
    pub author: String,
    pub cover: Option<Sticker>,
    pub stickers: Vec<Sticker>,
}

/// What a [`StickerPackManifest`] holds.
#[verifier::ext_equal]
pub struct StickerPackManifestView {
    pub title: Seq<char>,
    pub author: Seq<char>,
    pub cover: Option<StickerView>,
    pub stickers: Seq<StickerView>,
}

impl DeepView for StickerPackManifest {
    type V = StickerPackManifestView;

    open spec fn deep_view(&self) -> StickerPackManifestView {
        StickerPackManifestView {
            title: self.title.deep_view(),
            author: self.author.deep_view(),
            cover: self.cover.deep_view(),
            stickers: self.stickers.deep_view(),
        }
    }
}

impl Clone for StickerPackManifest {
    fn clone(&self) -> (r: Self)
        ensures
            r.deep_view() == self.deep_view(),
    {
        let r = StickerPackManifest {
            title: self.title.clone(),
            author: self.author.clone(),
            cover: self.cover.clone(),
            stickers: self.stickers.clone(),
        };
        proof {
            assert(r.cover.deep_view() =~= self.cover.deep_view());
            assert(r.stickers.deep_view() =~= self.stickers.deep_view());
        }
        r
    }
}

/// A sticker pack.
#[derive(Debug, PartialEq)]
pub struct StickerPack {
    pub id: Vec<u8>,
    pub key: Vec<u8>,
    pub manifest: StickerPackManifest,
}

/// What a [`StickerPack`] holds.
#[verifier::ext_equal]
pub struct StickerPackView {
    pub id: Seq<u8>,
    pub key: Seq<u8>,
    pub manifest: StickerPackManifestView,
}

impl DeepView for StickerPack {
    type V = StickerPackView;

    open spec fn deep_view(&self) -> StickerPackView {
        StickerPackView {
            id: self.id.deep_view(),
            key: self.key.deep_view(),
            manifest: self.manifest.deep_view(),
        }
    }
}

impl Clone for StickerPack {
    fn clone(&self) -> (r: Self)
        ensures
            r.deep_view() == self.deep_view(),
    {
        let r = StickerPack {
            id: self.id.clone(),
            key: self.key.clone(),
            manifest: self.manifest.clone(),
        };
        proof {
            assert(r.id.deep_view() =~= self.id.deep_view());
            assert(r.key.deep_view() =~= self.key.deep_view());
        }
        r
    }
}

/// A sticker before its image was downloaded.
pub open spec fn sticker_of(s: PackStickerView) -> StickerView {
    StickerView {
        id: s.id.unwrap_or(0),
        emoji: s.emoji,
        content_type: s.content_type,
        bytes: None,
    }
}

/// What a downloaded manifest says that a pack holds.
pub open spec fn manifest_of(pack: PackView) -> StickerPackManifestView {
    StickerPackManifestView {
        title: pack.title.unwrap_or(Seq::empty()),
        author: pack.author.unwrap_or(Seq::empty()),
        cover: match pack.cover {
            Some(cover) => Some(sticker_of(cover)),
            None => None,
        },
        stickers: pack.stickers.map_values(|s: PackStickerView| sticker_of(s)),
    }
}

impl Sticker {
    pub fn from_pack(s: PackSticker) -> (r: Sticker)
        ensures
            r.deep_view() == sticker_of(s.deep_view()),
    {
        Sticker {
            id: s.id.unwrap_or(0),
            emoji: s.emoji,
            content_type: s.content_type,
            bytes: None,
        }
    }
}

impl StickerPackManifest {
    pub fn from_pack(pack: Pack) -> (r: StickerPackManifest)
        ensures
            r.deep_view() == manifest_of(pack.deep_view()),
    {
        let title = match pack.title {
            Some(title) => title,
            None => String::new(),
        };
        let author = match pack.author {
            Some(author) => author,
            None => String::new(),
        };
        let cover = match pack.cover {
            Some(cover) => Some(Sticker::from_pack(cover)),
            None => None,
        };
        let mut stickers: Vec<Sticker> = Vec::new();
        let mut i: usize = 0;
        while i < pack.stickers.len()
            invariant
                i <= pack.stickers@.len(),
                stickers@.len() == i,
                forall|j: int|
                    0 <= j < i ==> #[trigger] stickers@[j].deep_view() == sticker_of(
                        pack.stickers@[j].deep_view(),
                    ),
            decreases pack.stickers@.len() - i,
        {
            stickers.push(Sticker::from_pack(pack.stickers[i].clone()));
            i = i + 1;
        }
        let manifest = StickerPackManifest { title, author, cover, stickers };
        proof {
            assert(stickers.deep_view() =~= pack.deep_view().stickers.map_values(
                |s: PackStickerView| sticker_of(s),
            ));
            assert(manifest.deep_view() =~= manifest_of(pack.deep_view()));
        }
        manifest
    }
}

/// The first sticker of a pack with the given id.
pub open spec fn find_sticker(stickers: Seq<StickerView>, id: u32) -> Option<StickerView>
    decreases stickers.len(),
{
    if stickers.len() == 0 {
        None
    } else if stickers[0].id == id {
        Some(stickers[0])
    } else {
        find_sticker(stickers.skip(1), id)
    }
}

/// Gets the metadata of a sticker. `pack` is what the store has for its pack.
pub fn sticker_metadata(pack: &Option<StickerPack>, sticker_id: u32) -> (r: Option<Sticker>)
    ensures
        r.deep_view() == (match pack.deep_view() {
            Some(pack) => find_sticker(pack.manifest.stickers, sticker_id),
            None => None,
        }),
{
    let known = match pack {
        Some(known) => known,
        None => return None,
    };
    let stickers = &known.manifest.stickers;
    let mut i: usize = 0;
    let ghost all = stickers.deep_view();
    proof {
        assert(all.skip(0) =~= all);
    }
    while i < stickers.len()
        invariant
            i <= stickers@.len(),
            all == stickers.deep_view(),
            pack.deep_view() matches Some(known) && known.manifest.stickers == all,
            find_sticker(all, sticker_id) == find_sticker(all.skip(i as int), sticker_id),
        decreases stickers@.len() - i,
    {
        proof {
            assert(all.skip(i as int)[0] == stickers@[i as int].deep_view());
            assert(all.skip(i as int).skip(1) =~= all.skip(i + 1));
        }
        if stickers[i].id == sticker_id {
            return Some(stickers[i].clone());
        }
        i = i + 1;
    }
    assert(all.skip(i as int) =~= Seq::<StickerView>::empty());
    None
}

} // verus!

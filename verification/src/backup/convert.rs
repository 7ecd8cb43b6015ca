//! What the frames of a backup become: threads, contacts, groups and messages.
use std::collections::HashMap;

use vstd::prelude::*;

use crate::backup::frames;
use crate::backup::group_change;
use crate::model::calls;
use crate::model::contacts;
use crate::model::contacts::{Contact, ContactView, PhoneNumber, PhoneNumberView};
use crate::model::groups::{Group, GroupView};
use crate::model::profile;
use crate::model::profile::ProfileName;
use crate::proto::{
    AssociatedValue, AssociatedValueView, AttachmentIdentifier, AttachmentIdentifierView,
    AttachmentPointer, AttachmentPointerFlag, AttachmentPointerView, BodyRange, BodyRangeView,
    CallEvent, CallEventDirection, CallEventEvent, CallEventType, CallEventView, Content,
    ContentBody, ContentBodyView, ContentView, DataMessage, DataMessageView,
    MessageRequestResponse, MessageRequestResponseType, MessageRequestResponseView, Metadata,
    MetadataView, Preview, PreviewView, Quote, QuoteType, QuoteView, Reaction, ReactionView, Sent,
    SentView, StickerContent, StickerContentView, SyncMessage, SyncMessageView, Verified,
};
use crate::service_id;
use crate::service_id::{Aci, ServiceId, ServiceIdView, Uuid, DEFAULT_DEVICE_ID};
use crate::store::{BackupSendStatus, Thread, ThreadView};
use crate::text;
use crate::time;

verus! {

/// Resolved identity of a backup recipient: either a contact's identity or a group's master
/// key.
#[derive(Debug, Clone, Copy, PartialEq)]
pub struct RecipientInfo {
    pub service_id: Option<ServiceId>,
    pub group_master_key: Option<[u8; 32]>,
}

/// What a [`RecipientInfo`] holds.
#[verifier::ext_equal]
pub struct RecipientInfoView {
    pub service_id: Option<ServiceIdView>,
    pub group_master_key: Option<Seq<u8>>,
}

impl DeepView for RecipientInfo {
    type V = RecipientInfoView;

    open spec fn deep_view(&self) -> RecipientInfoView {
        RecipientInfoView {
            service_id: self.service_id.deep_view(),
            group_master_key: calls::key_view(self.group_master_key),
        }
    }
}

/// Who a recipient is. `None` where it has no destination, a destination of another kind,
/// or a group without a proper master key.
pub open spec fn info_of(r: frames::RecipientView, our_aci: Seq<u8>) -> Option<RecipientInfoView> {
    match r.destination {
        Some(frames::DestinationView::Contact(c)) => Some(
            RecipientInfoView {
                service_id: match group_change::named(c.aci) {
                    Some(aci) => Some(ServiceIdView::Aci(aci)),
                    None => None,
                },
                group_master_key: None,
            },
        ),
        Some(frames::DestinationView::Group(g)) => if g.master_key.len() == 32 {
            Some(
                RecipientInfoView {
                    service_id: None,
                    group_master_key: Some(g.master_key),
                },
            )
        } else {
            None
        },
        Some(frames::DestinationView::Self_) => Some(
            RecipientInfoView {
                service_id: Some(ServiceIdView::Aci(our_aci)),
                group_master_key: None,
            },
        ),
        _ => None,
    }
}

fn read_uuid(bytes: &Option<Vec<u8>>) -> (uuid: Option<Uuid>)
    ensures
        uuid.deep_view() == group_change::named(bytes.deep_view()),
{
    broadcast use text::lemma_bytes_view;

    match bytes {
        Some(bytes) => Uuid::from_slice(bytes.as_slice()),
        None => None,
    }
}

/// Extracts the identity of a backup recipient, returning `(recipient_id, info)` or `None`
/// for unsupported destination types (distribution lists, the release notes channel).
pub fn recipient_info(r: &frames::Recipient, our_aci: Aci) -> (info: Option<(u64, RecipientInfo)>)
    ensures
        match info {
            Some((id, info)) => id == r.id && info_of(r.deep_view(), our_aci.deep_view()) == Some(
                info.deep_view(),
            ),
            None => info_of(r.deep_view(), our_aci.deep_view()) is None,
        },
{
    broadcast use text::lemma_bytes_view;

    let info = match &r.destination {
        Some(frames::Destination::Contact(c)) => {
            let service_id = match read_uuid(&c.aci) {
                Some(uuid) => Some(ServiceId::Aci(Aci { uuid })),
                None => None,
            };
            RecipientInfo { service_id, group_master_key: None }
        },
        Some(frames::Destination::Group(g)) => match service_id::thirty_two(
            g.master_key.as_slice(),
        ) {
            Some(key) => RecipientInfo { service_id: None, group_master_key: Some(key) },
            None => return None,
        },
        Some(frames::Destination::Self_) => RecipientInfo {
            service_id: Some(ServiceId::Aci(our_aci)),
            group_master_key: None,
        },
        _ => return None,
    };
    Some((r.id, info))
}

/// What is known of a recipient.
pub open spec fn known(recipients: Map<u64, RecipientInfo>, id: u64) -> Option<RecipientInfoView> {
    if recipients.contains_key(id) {
        Some(recipients[id].deep_view())
    } else {
        None
    }
}

/// The identity of a recipient, where it is known and is a person.
pub open spec fn known_service_id(recipients: Map<u64, RecipientInfo>, id: u64) -> Option<
    ServiceIdView,
> {
    match known(recipients, id) {
        Some(info) => info.service_id,
        None => None,
    }
}

/// The account identity of a recipient, where it is known and has one.
pub open spec fn known_aci(recipients: Map<u64, RecipientInfo>, id: u64) -> Option<Seq<u8>> {
    match known_service_id(recipients, id) {
        Some(id) => id.aci(),
        None => None,
    }
}

fn lookup_service_id(recipients: &HashMap<u64, RecipientInfo>, id: u64) -> (r: Option<ServiceId>)
    ensures
        r.deep_view() == known_service_id(recipients@, id),
{
    broadcast use vstd::std_specs::hash::group_hash_axioms;

    match recipients.get(&id) {
        Some(info) => info.service_id,
        None => None,
    }
}

fn lookup_aci(recipients: &HashMap<u64, RecipientInfo>, id: u64) -> (r: Option<Aci>)
    ensures
        r.deep_view() == known_aci(recipients@, id),
{
    match lookup_service_id(recipients, id) {
        Some(id) => id.aci(),
        None => None,
    }
}

/// The thread of a chat. `None` where its recipient is not known, or is neither a group nor
/// a person with an identity.
pub open spec fn thread_of_chat(
    chat: frames::ChatView,
    recipients: Map<u64, RecipientInfo>,
) -> Option<ThreadView> {
    match known(recipients, chat.recipient_id) {
        Some(info) => match info.group_master_key {
            Some(key) => Some(ThreadView::Group(key)),
            None => match info.service_id {
                Some(id) => Some(ThreadView::Contact(id)),
                None => None,
            },
        },
        None => None,
    }
}

/// Maps a backup chat to a thread, returning `(chat_id, thread)` or `None` if the chat's
/// recipient hasn't been resolved yet.
pub fn chat_to_thread(chat: &frames::Chat, recipients: &HashMap<u64, RecipientInfo>) -> (r: Option<
    (u64, Thread),
>)
    ensures
        match r {
            Some((id, thread)) => id == chat.id && thread_of_chat(chat.deep_view(), recipients@)
                == Some(thread.deep_view()),
            None => thread_of_chat(chat.deep_view(), recipients@) is None,
        },
{
    broadcast use vstd::std_specs::hash::group_hash_axioms;

    match recipients.get(&chat.recipient_id) {
        Some(info) => match info.group_master_key {
            Some(key) => Some((chat.id, Thread::Group(key))),
            None => match info.service_id {
                Some(id) => Some((chat.id, Thread::Contact(id))),
                None => None,
            },
        },
        None => None,
    }
}

/// The wire form of a file. `None` where it is on no transit CDN.
pub open spec fn pointer_of(
    fp: frames::FilePointerView,
    flags: Option<AttachmentPointerFlag>,
) -> Option<AttachmentPointerView> {
    match fp.locator_info {
        Some(locator) => match locator.transit_cdn_key {
            Some(cdn_key) => Some(
                AttachmentPointerView {
                    attachment_identifier: Some(AttachmentIdentifierView::CdnKey(cdn_key)),
                    cdn_number: locator.transit_cdn_number,
                    content_type: fp.content_type,
                    key: if locator.key.len() == 0 {
                        None
                    } else {
                        Some(locator.key)
                    },
                    size: Some(locator.size),
                    digest: match locator.integrity_check {
                        Some(frames::IntegrityCheckView::EncryptedDigest(digest)) => Some(digest),
                        _ => None,
                    },
                    file_name: fp.file_name,
                    flags,
                    width: fp.width,
                    height: fp.height,
                    caption: fp.caption,
                    blur_hash: fp.blur_hash,
                    upload_timestamp: locator.transit_tier_upload_timestamp,
                    incremental_mac: fp.incremental_mac,
                    chunk_size: fp.incremental_mac_chunk_size,
                },
            ),
            None => None,
        },
        None => None,
    }
}

/// Converts a backup file (CDN-hosted) to a wire-format attachment pointer. Returns `None`
/// if no transit CDN location is available (local-only backup attachment).
fn file_pointer_to_attachment_pointer(
    fp: &frames::FilePointer,
    flags: Option<AttachmentPointerFlag>,
) -> (r: Option<AttachmentPointer>)
    ensures
        r.deep_view() == pointer_of(fp.deep_view(), flags),
{
    broadcast use text::lemma_bytes_view;

    let locator = match &fp.locator_info {
        Some(locator) => locator,
        None => return None,
    };
    let cdn_key = match &locator.transit_cdn_key {
        Some(cdn_key) => cdn_key.clone(),
        None => return None,
    };
    let digest = match &locator.integrity_check {
        Some(frames::IntegrityCheck::EncryptedDigest(digest)) => Some(digest.clone()),
        _ => None,
    };
    let key = if locator.key.len() == 0 {
        None
    } else {
        Some(locator.key.clone())
    };
    let pointer = AttachmentPointer {
        attachment_identifier: Some(AttachmentIdentifier::CdnKey(cdn_key)),
        cdn_number: locator.transit_cdn_number,
        content_type: fp.content_type.clone(),
        key,
        size: Some(locator.size),
        digest,
        incremental_mac: fp.incremental_mac.clone(),
        chunk_size: fp.incremental_mac_chunk_size,
        file_name: fp.file_name.clone(),
        flags,
        width: fp.width,
        height: fp.height,
        caption: fp.caption.clone(),
        blur_hash: fp.blur_hash.clone(),
        upload_timestamp: locator.transit_tier_upload_timestamp,
    };
    proof {
        assert(pointer.incremental_mac.deep_view() =~= fp.incremental_mac.deep_view());
        assert(pointer.deep_view() =~= pointer_of(fp.deep_view(), flags)->0);
    }
    Some(pointer)
}

/// The wire flag of a backup flag.
pub open spec fn flag_of(flag: frames::AttachmentFlag) -> Option<AttachmentPointerFlag> {
    match flag {
        frames::AttachmentFlag::VoiceMessage => Some(AttachmentPointerFlag::VoiceMessage),
        frames::AttachmentFlag::Borderless => Some(AttachmentPointerFlag::Borderless),
        frames::AttachmentFlag::Gif => Some(AttachmentPointerFlag::Gif),
        _ => None,
    }
}

pub open spec fn attachment_of(ma: frames::MessageAttachmentView) -> Option<AttachmentPointerView> {
    match ma.pointer {
        Some(fp) => pointer_of(fp, flag_of(ma.flag)),
        None => None,
    }
}

/// Converts a message attachment to a wire-format attachment pointer, mapping backup flag
/// values to their wire equivalents.
fn message_attachment_to_pointer(ma: &frames::MessageAttachment) -> (r: Option<AttachmentPointer>)
    ensures
        r.deep_view() == attachment_of(ma.deep_view()),
{
    let fp = match &ma.pointer {
        Some(fp) => fp,
        None => return None,
    };
    let flags = match ma.flag {
        frames::AttachmentFlag::VoiceMessage => Some(AttachmentPointerFlag::VoiceMessage),
        frames::AttachmentFlag::Borderless => Some(AttachmentPointerFlag::Borderless),
        frames::AttachmentFlag::Gif => Some(AttachmentPointerFlag::Gif),
        frames::AttachmentFlag::Plain | frames::AttachmentFlag::Unrecognized => None,
    };
    file_pointer_to_attachment_pointer(fp, flags)
}

/// The attachments that are on a transit CDN.
pub open spec fn attachments_of(list: Seq<frames::MessageAttachmentView>) -> Seq<
    AttachmentPointerView,
>
    decreases list.len(),
{
    if list.len() == 0 {
        Seq::empty()
    } else {
        match attachment_of(list.last()) {
            Some(pointer) => attachments_of(list.drop_last()).push(pointer),
            None => attachments_of(list.drop_last()),
        }
    }
}

fn attachments(list: &Vec<frames::MessageAttachment>) -> (r: Vec<AttachmentPointer>)
    ensures
        r.deep_view() == attachments_of(list.deep_view()),
{
    let mut out: Vec<AttachmentPointer> = Vec::new();
    let mut i: usize = 0;
    let ghost all = list.deep_view();
    proof {
        assert(out.deep_view() =~= attachments_of(all.take(0)));
    }
    while i < list.len()
        invariant
            i <= list@.len(),
            all == list.deep_view(),
            out.deep_view() == attachments_of(all.take(i as int)),
        decreases list@.len() - i,
    {
        proof {
            assert(all.take(i + 1).drop_last() =~= all.take(i as int));
            assert(all.take(i + 1).last() == list@[i as int].deep_view());
        }
        if let Some(pointer) = message_attachment_to_pointer(&list[i]) {
            let ghost before = out.deep_view();
            out.push(pointer);
            assert(out.deep_view() =~= before.push(pointer.deep_view()));
        }
        i = i + 1;
    }
    assert(all.take(i as int) =~= all);
    out
}

/// The wire form of a range. One with no associated value is dropped.
pub open spec fn body_range_of(range: frames::BodyRangeView) -> Option<BodyRangeView> {
    match range.associated_value {
        Some(value) => Some(
            BodyRangeView {
                start: Some(range.start),
                length: Some(range.length),
                associated_value: Some(
                    match value {
                        frames::AssociatedValueView::MentionAci(aci) => {
                            AssociatedValueView::MentionAciBinary(aci)
                        },
                        frames::AssociatedValueView::Style(style) => AssociatedValueView::Style(
                            style,
                        ),
                    },
                ),
            },
        ),
        None => None,
    }
}

pub open spec fn ranges_of(ranges: Seq<frames::BodyRangeView>) -> Seq<BodyRangeView>
    decreases ranges.len(),
{
    if ranges.len() == 0 {
        Seq::empty()
    } else {
        match body_range_of(ranges.last()) {
            Some(range) => ranges_of(ranges.drop_last()).push(range),
            None => ranges_of(ranges.drop_last()),
        }
    }
}

pub open spec fn body_ranges_of(text: Option<frames::TextView>) -> Seq<BodyRangeView> {
    match text {
        Some(text) => ranges_of(text.body_ranges),
        None => Seq::empty(),
    }
}

/// Converts a text's body ranges, mentions and styles, to their wire form. Without this the
/// body keeps its placeholder for each mention but loses the target.
///
/// A range with no associated value is dropped.
fn backup_body_ranges_to_wire(text: &Option<frames::Text>) -> (r: Vec<BodyRange>)
    ensures
        r.deep_view() == body_ranges_of(text.deep_view()),
{
    let mut out: Vec<BodyRange> = Vec::new();
    assert(out.deep_view() =~= Seq::<BodyRangeView>::empty());
    let text = match text {
        Some(text) => text,
        None => return out,
    };
    let mut i: usize = 0;
    let ghost all = text.body_ranges.deep_view();
    proof {
        assert(out.deep_view() =~= ranges_of(all.take(0)));
    }
    while i < text.body_ranges.len()
        invariant
            i <= text.body_ranges@.len(),
            all == text.body_ranges.deep_view(),
            out.deep_view() == ranges_of(all.take(i as int)),
        decreases text.body_ranges@.len() - i,
    {
        let range = &text.body_ranges[i];
        proof {
            assert(all.take(i + 1).drop_last() =~= all.take(i as int));
            assert(all.take(i + 1).last() == range.deep_view());
        }
        if let Some(value) = &range.associated_value {
            let associated_value = match value {
                frames::AssociatedValue::MentionAci(aci) => {
                    let bytes = aci.clone();
                    assert(bytes.deep_view() =~= aci.deep_view());
                    AssociatedValue::MentionAciBinary(bytes)
                },
                frames::AssociatedValue::Style(style) => AssociatedValue::Style(*style),
            };
            let converted = BodyRange {
                start: Some(range.start),
                length: Some(range.length),
                associated_value: Some(associated_value),
            };
            let ghost before = out.deep_view();
            out.push(converted);
            assert(out.deep_view() =~= before.push(converted.deep_view()));
        }
        i = i + 1;
    }
    assert(all.take(i as int) =~= all);
    out
}

/// The wire form of a quote. `None` where the quoted author has no known account identity.
pub open spec fn quote_of(q: frames::QuoteView, recipients: Map<u64, RecipientInfo>) -> Option<
    QuoteView,
> {
    match known_aci(recipients, q.author_id) {
        Some(aci) => Some(
            QuoteView {
                id: q.target_sent_timestamp,
                author_aci: Some(service_id::service_id_text(ServiceIdView::Aci(aci))),
                author_aci_binary: Some(aci),
                text: match q.text {
                    Some(text) => Some(text.body),
                    None => None,
                },
                body_ranges: body_ranges_of(q.text),
                kind: Some(
                    match q.kind {
                        frames::QuoteType::GiftBadge => QuoteType::GiftBadge,
                        frames::QuoteType::Poll => QuoteType::Poll,
                        _ => QuoteType::Normal,
                    },
                ),
            },
        ),
        None => None,
    }
}

/// Converts a backup quote to a wire-format quote. Returns `None` if the quoted author can't
/// be resolved to an account identity (required by the wire format).
fn backup_quote_to_dm_quote(q: &frames::Quote, recipients: &HashMap<u64, RecipientInfo>) -> (r:
    Option<Quote>)
    ensures
        r.deep_view() == quote_of(q.deep_view(), recipients@),
{
    broadcast use text::lemma_bytes_view;

    let aci = match lookup_aci(recipients, q.author_id) {
        Some(aci) => aci,
        None => return None,
    };
    let kind = match q.kind {
        frames::QuoteType::GiftBadge => QuoteType::GiftBadge,
        frames::QuoteType::Poll => QuoteType::Poll,
        _ => QuoteType::Normal,
    };
    let quote = Quote {
        id: q.target_sent_timestamp,
        author_aci: Some(aci.service_id_string()),
        author_aci_binary: Some(aci.uuid.to_vec()),
        text: body_text(&q.text),
        body_ranges: backup_body_ranges_to_wire(&q.text),
        kind: Some(kind),
    };
    assert(quote.deep_view() =~= quote_of(q.deep_view(), recipients@)->0);
    Some(quote)
}

fn body_text(text: &Option<frames::Text>) -> (r: Option<String>)
    ensures
        r.deep_view() == (match text.deep_view() {
            Some(text) => Some(text.body),
            None => None,
        }),
{
    match text {
        Some(text) => Some(text.body.clone()),
        None => None,
    }
}

/// A file that goes along without flags.
pub open spec fn plain_pointer_of(fp: Option<frames::FilePointerView>) -> Option<
    AttachmentPointerView,
> {
    match fp {
        Some(fp) => pointer_of(fp, None),
        None => None,
    }
}

fn plain_pointer(fp: &Option<frames::FilePointer>) -> (r: Option<AttachmentPointer>)
    ensures
        r.deep_view() == plain_pointer_of(fp.deep_view()),
{
    match fp {
        Some(fp) => file_pointer_to_attachment_pointer(fp, None),
        None => None,
    }
}

pub open spec fn preview_of(lp: frames::LinkPreviewView) -> PreviewView {
    PreviewView {
        url: Some(lp.url),
        title: lp.title,
        image: plain_pointer_of(lp.image),
        description: lp.description,
        date: lp.date,
    }
}

/// Converts a backup link preview to a wire-format one; the image stays out where it is not
/// CDN-hosted.
fn backup_link_preview_to_preview(lp: &frames::LinkPreview) -> (r: Preview)
    ensures
        r.deep_view() == preview_of(lp.deep_view()),
{
    let preview = Preview {
        url: Some(lp.url.clone()),
        title: lp.title.clone(),
        image: plain_pointer(&lp.image),
        description: lp.description.clone(),
        date: lp.date,
    };
    assert(preview.deep_view() =~= preview_of(lp.deep_view()));
    preview
}

pub open spec fn previews_of(list: Seq<frames::LinkPreviewView>) -> Seq<PreviewView> {
    list.map_values(|lp: frames::LinkPreviewView| preview_of(lp))
}

fn previews(list: &Vec<frames::LinkPreview>) -> (r: Vec<Preview>)
    ensures
        r.deep_view() == previews_of(list.deep_view()),
{
    let mut out: Vec<Preview> = Vec::new();
    let mut i: usize = 0;
    while i < list.len()
        invariant
            i <= list@.len(),
            out@.len() == i,
            forall|j: int|
                0 <= j < i ==> #[trigger] out@[j].deep_view() == preview_of(list@[j].deep_view()),
        decreases list@.len() - i,
    {
        out.push(backup_link_preview_to_preview(&list[i]));
        i = i + 1;
    }
    assert(out.deep_view() =~= previews_of(list.deep_view()));
    out
}

pub open spec fn sticker_of(s: frames::StickerView) -> StickerContentView {
    StickerContentView {
        pack_id: Some(s.pack_id),
        pack_key: Some(s.pack_key),
        sticker_id: Some(s.sticker_id),
        data: plain_pointer_of(s.data),
        emoji: s.emoji,
    }
}

/// Converts a backup sticker to a wire-format one.
fn backup_sticker_to_dm_sticker(s: &frames::Sticker) -> (r: StickerContent)
    ensures
        r.deep_view() == sticker_of(s.deep_view()),
{
    let pack_id = s.pack_id.clone();
    let pack_key = s.pack_key.clone();
    let sticker = StickerContent {
        pack_id: Some(pack_id),
        pack_key: Some(pack_key),
        sticker_id: Some(s.sticker_id),
        data: plain_pointer(&s.data),
        emoji: s.emoji.clone(),
    };
    proof {
        assert(pack_id.deep_view() =~= s.pack_id.deep_view());
        assert(pack_key.deep_view() =~= s.pack_key.deep_view());
        assert(sticker.deep_view() =~= sticker_of(s.deep_view()));
    }
    sticker
}

/// A message that a backup holds, as if it had just been received.
pub open spec fn restored(
    sender: ServiceIdView,
    destination: ServiceIdView,
    timestamp: u64,
    body: ContentBodyView,
) -> ContentView {
    ContentView {
        metadata: MetadataView {
            sender,
            destination,
            sender_device: DEFAULT_DEVICE_ID,
            server_guid: None,
            timestamp: time::date_of(timestamp),
            server_timestamp: time::date_of(timestamp),
            needs_receipt: false,
            unidentified_sender: false,
            was_plaintext: false,
            report_spam_token: None,
        },
        body,
    }
}

fn restore(sender: ServiceId, destination: ServiceId, timestamp: u64, body: ContentBody) -> (r:
    Content)
    ensures
        r.deep_view() == restored(
            sender.deep_view(),
            destination.deep_view(),
            timestamp,
            body.deep_view(),
        ),
{
    let content = Content {
        metadata: Metadata {
            sender,
            destination,
            sender_device: DEFAULT_DEVICE_ID,
            server_guid: None,
            timestamp: time::date_or_epoch(timestamp),
            server_timestamp: time::date_or_epoch(timestamp),
            needs_receipt: false,
            unidentified_sender: false,
            was_plaintext: false,
            report_spam_token: None,
        },
        body,
    };
    content
}

/// The identity that a message to a thread is addressed to: this account itself for a group.
pub open spec fn destination_of(thread: ThreadView, our_aci: Seq<u8>) -> ServiceIdView {
    match thread {
        ThreadView::Contact(id) => id,
        ThreadView::Group(_) => ServiceIdView::Aci(our_aci),
    }
}

/// A message that this account sent to a thread, as its other devices are told of it.
pub open spec fn sent_to(
    message: DataMessageView,
    thread: ThreadView,
    timestamp: u64,
) -> ContentBodyView {
    ContentBodyView::SynchronizeMessage(
        SyncMessageView {
            sent: Some(
                SentView {
                    destination_service_id: match thread {
                        ThreadView::Contact(id) => Some(service_id::service_id_text(id)),
                        ThreadView::Group(_) => None,
                    },
                    timestamp: Some(timestamp),
                    message: Some(message),
                    ..SentView::empty()
                },
            ),
            ..SyncMessageView::empty()
        },
    )
}

/// A message that this account sent to a thread.
pub open spec fn outgoing(
    message: DataMessageView,
    thread: ThreadView,
    our_aci: Seq<u8>,
    timestamp: u64,
) -> ContentView {
    restored(
        ServiceIdView::Aci(our_aci),
        destination_of(thread, our_aci),
        timestamp,
        sent_to(message, thread, timestamp),
    )
}

/// A message that somebody sent to this account.
pub open spec fn incoming(
    message: DataMessageView,
    sender: ServiceIdView,
    our_aci: Seq<u8>,
    timestamp: u64,
) -> ContentView {
    restored(
        sender,
        ServiceIdView::Aci(our_aci),
        timestamp,
        ContentBodyView::DataMessage(message),
    )
}

fn outgoing_content(message: DataMessage, thread: &Thread, our_aci: Aci, timestamp: u64) -> (r:
    Content)
    ensures
        r.deep_view() == outgoing(
            message.deep_view(),
            thread.deep_view(),
            our_aci.deep_view(),
            timestamp,
        ),
{
    let (text, destination) = match thread {
        Thread::Contact(id) => (Some(id.service_id_string()), *id),
        Thread::Group(_) => (None, ServiceId::Aci(our_aci)),
    };
    let sent = Sent {
        destination_service_id: text,
        timestamp: Some(timestamp),
        message: Some(message),
        ..Sent::default()
    };
    let body = ContentBody::SynchronizeMessage(
        SyncMessage { sent: Some(sent), ..SyncMessage::default() },
    );
    proof {
        let expected = sent_to(message.deep_view(), thread.deep_view(), timestamp);
        assert(sent.deep_view() =~= expected->SynchronizeMessage_0.sent->0);
        assert(body.deep_view()->SynchronizeMessage_0 =~= expected->SynchronizeMessage_0);
    }
    restore(ServiceId::Aci(our_aci), destination, timestamp, body)
}

fn incoming_content(message: DataMessage, sender: ServiceId, our_aci: Aci, timestamp: u64) -> (r:
    Content)
    ensures
        r.deep_view() == incoming(
            message.deep_view(),
            sender.deep_view(),
            our_aci.deep_view(),
            timestamp,
        ),
{
    restore(sender, ServiceId::Aci(our_aci), timestamp, ContentBody::DataMessage(message))
}

/// A reaction as a message of its own.
pub open spec fn reaction_message(
    reaction: frames::ReactionView,
    target_author: Seq<u8>,
    target_sent_timestamp: u64,
) -> DataMessageView {
    DataMessageView {
        reaction: Some(
            ReactionView {
                emoji: Some(reaction.emoji),
                remove: Some(false),
                target_author_aci: Some(
                    service_id::service_id_text(ServiceIdView::Aci(target_author)),
                ),
                target_author_aci_binary: Some(target_author),
                target_sent_timestamp: Some(target_sent_timestamp),
            },
        ),
        timestamp: Some(reaction.sent_timestamp),
        ..DataMessageView::empty()
    }
}

/// What a reaction becomes. `None` where it is not known who reacted.
pub open spec fn reaction_content(
    reaction: frames::ReactionView,
    target_author: Seq<u8>,
    target_sent_timestamp: u64,
    recipients: Map<u64, RecipientInfo>,
    thread: ThreadView,
    our_aci: Seq<u8>,
) -> Option<ContentView> {
    let message = reaction_message(reaction, target_author, target_sent_timestamp);
    match known_service_id(recipients, reaction.author_id) {
        Some(author) => Some(
            if author == ServiceIdView::Aci(our_aci) {
                outgoing(message, thread, our_aci, reaction.sent_timestamp)
            } else {
                incoming(message, author, our_aci, reaction.sent_timestamp)
            },
        ),
        None => None,
    }
}

/// What the reactions of a message become, each a message of its own.
pub open spec fn reaction_contents(
    reactions: Seq<frames::ReactionView>,
    target_author: Seq<u8>,
    target_sent_timestamp: u64,
    recipients: Map<u64, RecipientInfo>,
    thread: ThreadView,
    our_aci: Seq<u8>,
) -> Seq<(ContentView, ThreadView)>
    decreases reactions.len(),
{
    if reactions.len() == 0 {
        Seq::empty()
    } else {
        let before = reaction_contents(
            reactions.drop_last(),
            target_author,
            target_sent_timestamp,
            recipients,
            thread,
            our_aci,
        );
        match reaction_content(
            reactions.last(),
            target_author,
            target_sent_timestamp,
            recipients,
            thread,
            our_aci,
        ) {
            Some(content) => before.push((content, thread)),
            None => before,
        }
    }
}

/// The author of a message that reactions stand on: this account where it is not known.
pub open spec fn reacted_author(
    author_id: u64,
    recipients: Map<u64, RecipientInfo>,
    our_aci: Seq<u8>,
) -> Seq<u8> {
    known_aci(recipients, author_id).unwrap_or(our_aci)
}

/// Converts backup reactions (stored as a list on the parent message) into individual
/// messages matching the wire format, where each reaction is its own envelope.
fn reactions_to_contents(
    reactions: &Vec<frames::Reaction>,
    parent_item: &frames::ChatItem,
    recipients: &HashMap<u64, RecipientInfo>,
    thread: &Thread,
    our_aci: Aci,
) -> (r: Vec<(Content, Thread)>)
    ensures
        r.deep_view() == reaction_contents(
            reactions.deep_view(),
            reacted_author(parent_item.author_id, recipients@, our_aci.deep_view()),
            parent_item.date_sent,
            recipients@,
            thread.deep_view(),
            our_aci.deep_view(),
        ),
{
    broadcast use text::lemma_bytes_view;

    let parent_author = match lookup_aci(recipients, parent_item.author_id) {
        Some(aci) => aci,
        None => our_aci,
    };
    let mut out: Vec<(Content, Thread)> = Vec::new();
    let mut i: usize = 0;
    let ghost all = reactions.deep_view();
    let ghost ours = our_aci.deep_view();
    let ghost author = parent_author.deep_view();
    let ghost sent = parent_item.date_sent;
    let ghost place = thread.deep_view();
    proof {
        assert(out.deep_view() =~= reaction_contents(
            all.take(0),
            author,
            sent,
            recipients@,
            place,
            ours,
        ));
    }
    while i < reactions.len()
        invariant
            i <= reactions@.len(),
            all == reactions.deep_view(),
            ours == our_aci.deep_view(),
            author == parent_author.deep_view(),
            sent == parent_item.date_sent,
            place == thread.deep_view(),
            out.deep_view() == reaction_contents(
                all.take(i as int),
                author,
                sent,
                recipients@,
                place,
                ours,
            ),
        decreases reactions@.len() - i,
    {
        let reaction = &reactions[i];
        proof {
            assert(all.take(i + 1).drop_last() =~= all.take(i as int));
            assert(all.take(i + 1).last() == reaction.deep_view());
        }
        if let Some(author_id) = lookup_service_id(recipients, reaction.author_id) {
            let dm_reaction = Reaction {
                emoji: Some(reaction.emoji.clone()),
                remove: Some(false),
                target_author_aci: Some(parent_author.service_id_string()),
                target_author_aci_binary: Some(parent_author.uuid.to_vec()),
                target_sent_timestamp: Some(parent_item.date_sent),
            };
            let message = DataMessage {
                reaction: Some(dm_reaction),
                timestamp: Some(reaction.sent_timestamp),
                ..DataMessage::default()
            };
            proof {
                let expected = reaction_message(reaction.deep_view(), author, sent);
                assert(dm_reaction.deep_view() =~= expected.reaction->0);
                assert(message.deep_view() =~= expected);
            }
            let is_outgoing = author_id == ServiceId::Aci(our_aci);
            let content = if is_outgoing {
                outgoing_content(message, thread, our_aci, reaction.sent_timestamp)
            } else {
                incoming_content(message, author_id, our_aci, reaction.sent_timestamp)
            };
            let ghost before = out.deep_view();
            out.push((content, *thread));
            assert(out.deep_view() =~= before.push((content.deep_view(), place)));
        }
        i = i + 1;
    }
    assert(all.take(i as int) =~= all);
    out
}

/// What a message becomes together with its reactions. Nothing without a direction, and
/// nothing for an incoming message whose sender is not known.
pub open spec fn message_contents(
    message: DataMessageView,
    reactions: Seq<frames::ReactionView>,
    item: frames::ChatItemView,
    thread: ThreadView,
    recipients: Map<u64, RecipientInfo>,
    our_aci: Seq<u8>,
) -> Seq<(ContentView, ThreadView)> {
    let following = reaction_contents(
        reactions,
        reacted_author(item.author_id, recipients, our_aci),
        item.date_sent,
        recipients,
        thread,
        our_aci,
    );
    match item.directional_details {
        Some(frames::DirectionalDetailsView::Outgoing(_)) => {
            seq![(outgoing(message, thread, our_aci, item.date_sent), thread)] + following
        },
        Some(frames::DirectionalDetailsView::Incoming(_)) => match known_service_id(
            recipients,
            item.author_id,
        ) {
            Some(sender) => {
                seq![(incoming(message, sender, our_aci, item.date_sent), thread)] + following
            },
            None => Seq::empty(),
        },
        _ => Seq::empty(),
    }
}

/// Wrap a message into a sync (outgoing) or direct (incoming) envelope, then append the
/// messages of its reactions. Returns nothing for missing directional details, or for
/// incoming items whose author can't be resolved.
fn wrap_dm_with_reactions(
    dm: DataMessage,
    reactions: &Vec<frames::Reaction>,
    item: &frames::ChatItem,
    thread: &Thread,
    recipients: &HashMap<u64, RecipientInfo>,
    our_aci: Aci,
) -> (r: Vec<(Content, Thread)>)
    ensures
        r.deep_view() == message_contents(
            dm.deep_view(),
            reactions.deep_view(),
            item.deep_view(),
            thread.deep_view(),
            recipients@,
            our_aci.deep_view(),
        ),
{
    let mut results: Vec<(Content, Thread)> = Vec::new();
    assert(results.deep_view() =~= Seq::<(ContentView, ThreadView)>::empty());
    let timestamp: u64 = item.date_sent;
    let main_content = match &item.directional_details {
        Some(frames::DirectionalDetails::Outgoing(_)) => outgoing_content(
            dm,
            thread,
            our_aci,
            timestamp,
        ),
        Some(frames::DirectionalDetails::Incoming(_)) => match lookup_service_id(
            recipients,
            item.author_id,
        ) {
            Some(sender) => incoming_content(dm, sender, our_aci, timestamp),
            None => return results,
        },
        _ => return results,
    };
    results.push((main_content, *thread));
    let mut following = reactions_to_contents(reactions, item, recipients, thread, our_aci);
    let ghost rest = following.deep_view();
    results.append(&mut following);
    assert(results.deep_view() =~= seq![(main_content.deep_view(), thread.deep_view())] + rest);
    results
}

/// The message of a backup's text and files.
pub open spec fn standard_message(
    sm: frames::StandardMessageView,
    recipients: Map<u64, RecipientInfo>,
    timestamp: u64,
) -> DataMessageView {
    DataMessageView {
        body: match sm.text {
            Some(text) => Some(text.body),
            None => None,
        },
        body_ranges: body_ranges_of(sm.text),
        attachments: attachments_of(sm.attachments),
        quote: match sm.quote {
            Some(quote) => quote_of(quote, recipients),
            None => None,
        },
        preview: previews_of(sm.link_preview),
        timestamp: Some(timestamp),
        ..DataMessageView::empty()
    }
}

/// Build the message for a backup's text, attachments, quote and link previews, then wrap
/// it.
pub fn standard_message_to_contents(
    sm: &frames::StandardMessage,
    item: &frames::ChatItem,
    thread: &Thread,
    recipients: &HashMap<u64, RecipientInfo>,
    our_aci: Aci,
) -> (r: Vec<(Content, Thread)>)
    ensures
        r.deep_view() == message_contents(
            standard_message(sm.deep_view(), recipients@, item.date_sent),
            sm.deep_view().reactions,
            item.deep_view(),
            thread.deep_view(),
            recipients@,
            our_aci.deep_view(),
        ),
{
    let quote = match &sm.quote {
        Some(quote) => backup_quote_to_dm_quote(quote, recipients),
        None => None,
    };
    let dm = DataMessage {
        body: body_text(&sm.text),
        body_ranges: backup_body_ranges_to_wire(&sm.text),
        attachments: attachments(&sm.attachments),
        quote,
        preview: previews(&sm.link_preview),
        timestamp: Some(item.date_sent),
        ..DataMessage::default()
    };
    assert(dm.deep_view() =~= standard_message(sm.deep_view(), recipients@, item.date_sent));
    wrap_dm_with_reactions(dm, &sm.reactions, item, thread, recipients, our_aci)
}

/// The message of a backup's sticker.
pub open spec fn sticker_message(
    sm: frames::StickerMessageView,
    timestamp: u64,
) -> DataMessageView {
    DataMessageView {
        sticker: match sm.sticker {
            Some(sticker) => Some(sticker_of(sticker)),
            None => None,
        },
        timestamp: Some(timestamp),
        ..DataMessageView::empty()
    }
}

/// Build the message for a backup's sticker, then wrap it.
fn sticker_message_to_contents(
    sm: &frames::StickerMessage,
    item: &frames::ChatItem,
    thread: &Thread,
    recipients: &HashMap<u64, RecipientInfo>,
    our_aci: Aci,
) -> (r: Vec<(Content, Thread)>)
    ensures
        r.deep_view() == message_contents(
            sticker_message(sm.deep_view(), item.date_sent),
            sm.deep_view().reactions,
            item.deep_view(),
            thread.deep_view(),
            recipients@,
            our_aci.deep_view(),
        ),
{
    let sticker = match &sm.sticker {
        Some(sticker) => Some(backup_sticker_to_dm_sticker(sticker)),
        None => None,
    };
    let dm = DataMessage {
        sticker,
        timestamp: Some(item.date_sent),
        ..DataMessage::default()
    };
    assert(dm.deep_view() =~= sticker_message(sm.deep_view(), item.date_sent));
    wrap_dm_with_reactions(dm, &sm.reactions, item, thread, recipients, our_aci)
}

/// A call event, as another device of this account would send it.
pub open spec fn call_content(
    event: CallEventView,
    our_aci: Seq<u8>,
    timestamp: u64,
) -> ContentView {
    restored(
        ServiceIdView::Aci(our_aci),
        ServiceIdView::Aci(our_aci),
        timestamp,
        ContentBodyView::SynchronizeMessage(
            SyncMessageView { call_event: Some(event), ..SyncMessageView::empty() },
        ),
    )
}

fn restore_call(event: CallEvent, our_aci: Aci, timestamp: u64) -> (r: Content)
    ensures
        r.deep_view() == call_content(event.deep_view(), our_aci.deep_view(), timestamp),
{
    let message = SyncMessage { call_event: Some(event), ..SyncMessage::default() };
    assert(message.deep_view() =~= (SyncMessageView {
        call_event: Some(event.deep_view()),
        ..SyncMessageView::empty()
    }));
    let body = ContentBody::SynchronizeMessage(message);
    restore(ServiceId::Aci(our_aci), ServiceId::Aci(our_aci), timestamp, body)
}

/// When a call started: the time of its item where the backup does not say.
pub open spec fn call_timestamp(started: u64, fallback: u64) -> u64 {
    if started != 0 {
        started
    } else {
        fallback
    }
}

/// The event that a call with one person is restored from. The kind defaults to audio, the
/// direction to incoming and the state to accepted.
pub open spec fn individual_call_event(
    call: frames::IndividualCallView,
    peer: ServiceIdView,
    timestamp: u64,
) -> CallEventView {
    CallEventView {
        conversation_id: Some(peer.raw()),
        call_id: call.call_id,
        timestamp: Some(timestamp),
        kind: Some(
            if call.kind == frames::IndividualCallType::VideoCall {
                CallEventType::VideoCall
            } else {
                CallEventType::AudioCall
            },
        ),
        direction: Some(
            if call.direction == frames::IndividualCallDirection::Outgoing {
                CallEventDirection::Outgoing
            } else {
                CallEventDirection::Incoming
            },
        ),
        event: Some(
            match call.state {
                frames::IndividualCallState::Missed => CallEventEvent::NotAccepted,
                frames::IndividualCallState::MissedNotificationProfile => {
                    CallEventEvent::NotAccepted
                },
                frames::IndividualCallState::NotAccepted => CallEventEvent::NotAccepted,
                _ => CallEventEvent::Accepted,
            },
        ),
    }
}

/// What a call with one person becomes. In a group's chat it is dropped.
pub open spec fn individual_call_contents(
    call: frames::IndividualCallView,
    thread: ThreadView,
    our_aci: Seq<u8>,
    fallback_ts: u64,
) -> Seq<(ContentView, ThreadView)> {
    let timestamp = call_timestamp(call.started_call_timestamp, fallback_ts);
    match thread {
        ThreadView::Contact(peer) => seq![
            (
                call_content(individual_call_event(call, peer, timestamp), our_aci, timestamp),
                thread,
            ),
        ],
        ThreadView::Group(_) => Seq::empty(),
    }
}

/// Convert a call with one person into a synthetic call event, so it flows through the
/// normal path of saving a message. The backup carries the final state, so a single event
/// collapses through the state machine of calls to the right status.
fn individual_call_to_contents(
    call: &frames::IndividualCall,
    thread: &Thread,
    our_aci: Aci,
    fallback_ts: u64,
) -> (r: Vec<(Content, Thread)>)
    ensures
        r.deep_view() == individual_call_contents(
            call.deep_view(),
            thread.deep_view(),
            our_aci.deep_view(),
            fallback_ts,
        ),
{
    broadcast use text::lemma_bytes_view;

    let mut out: Vec<(Content, Thread)> = Vec::new();
    assert(out.deep_view() =~= Seq::<(ContentView, ThreadView)>::empty());
    // Only 1:1 calls are modelled. A group thread here is out of spec; drop.
    let peer = match thread {
        Thread::Contact(peer) => peer,
        Thread::Group(_) => return out,
    };
    let kind = match call.kind {
        frames::IndividualCallType::VideoCall => CallEventType::VideoCall,
        _ => CallEventType::AudioCall,
    };
    let direction = match call.direction {
        frames::IndividualCallDirection::Outgoing => CallEventDirection::Outgoing,
        _ => CallEventDirection::Incoming,
    };
    let event = match call.state {
        frames::IndividualCallState::Missed
        | frames::IndividualCallState::MissedNotificationProfile
        | frames::IndividualCallState::NotAccepted => CallEventEvent::NotAccepted,
        _ => CallEventEvent::Accepted,
    };
    let call_ts: u64 = if call.started_call_timestamp != 0 {
        call.started_call_timestamp
    } else {
        fallback_ts
    };
    let call_event = CallEvent {
        conversation_id: Some(peer.raw_uuid().to_vec()),
        call_id: call.call_id,
        timestamp: Some(call_ts),
        kind: Some(kind),
        direction: Some(direction),
        event: Some(event),
    };
    let content = restore_call(call_event, our_aci, call_ts);
    out.push((content, *thread));
    proof {
        let expected = individual_call_contents(
            call.deep_view(),
            thread.deep_view(),
            our_aci.deep_view(),
            fallback_ts,
        );
        assert(call_event.deep_view() =~= individual_call_event(
            call.deep_view(),
            peer.deep_view(),
            call_ts,
        ));
        assert(out.deep_view() =~= expected);
    }
    out
}

/// What a one-word event becomes: blocking and unblocking a contact, as the answer to a
/// message request that the account's other devices are told of. Every other event, and
/// every event in a group's chat, is dropped.
pub open spec fn simple_update_contents(
    update: frames::SimpleUpdateType,
    thread: ThreadView,
    our_aci: Seq<u8>,
    timestamp: u64,
) -> Seq<(ContentView, ThreadView)> {
    let kind = match update {
        frames::SimpleUpdateType::Blocked => Some(MessageRequestResponseType::Block),
        frames::SimpleUpdateType::Unblocked => Some(MessageRequestResponseType::Accept),
        frames::SimpleUpdateType::Other => None,
    };
    match (thread, kind) {
        (ThreadView::Contact(peer), Some(kind)) => seq![
            (
                restored(
                    ServiceIdView::Aci(our_aci),
                    peer,
                    timestamp,
                    ContentBodyView::SynchronizeMessage(
                        SyncMessageView {
                            message_request_response: Some(
                                MessageRequestResponseView {
                                    thread_aci_binary: Some(peer.raw()),
                                    kind: Some(kind),
                                    ..MessageRequestResponseView::empty()
                                },
                            ),
                            ..SyncMessageView::empty()
                        },
                    ),
                ),
                thread,
            ),
        ],
        _ => Seq::empty(),
    }
}

/// Convert a blocked or unblocked event into the answer to a message request, so it is
/// rendered as "You blocked/unblocked X".
fn simple_update_to_contents(
    update: frames::SimpleUpdateType,
    thread: &Thread,
    our_aci: Aci,
    timestamp: u64,
) -> (r: Vec<(Content, Thread)>)
    ensures
        r.deep_view() == simple_update_contents(
            update,
            thread.deep_view(),
            our_aci.deep_view(),
            timestamp,
        ),
{
    broadcast use text::lemma_bytes_view;

    let mut out: Vec<(Content, Thread)> = Vec::new();
    assert(out.deep_view() =~= Seq::<(ContentView, ThreadView)>::empty());
    // Block/unblock rows live on the 1:1 chat with the blocked contact.
    let peer = match thread {
        Thread::Contact(peer) => peer,
        Thread::Group(_) => return out,
    };
    let kind = match update {
        frames::SimpleUpdateType::Blocked => MessageRequestResponseType::Block,
        frames::SimpleUpdateType::Unblocked => MessageRequestResponseType::Accept,
        frames::SimpleUpdateType::Other => return out,
    };
    let response = MessageRequestResponse {
        thread_aci_binary: Some(peer.raw_uuid().to_vec()),
        kind: Some(kind),
        ..MessageRequestResponse::default()
    };
    let message = SyncMessage {
        message_request_response: Some(response),
        ..SyncMessage::default()
    };
    let content = restore(
        ServiceId::Aci(our_aci),
        *peer,
        timestamp,
        ContentBody::SynchronizeMessage(message),
    );
    out.push((content, *thread));
    proof {
        let expected = simple_update_contents(
            update,
            thread.deep_view(),
            our_aci.deep_view(),
            timestamp,
        );
        assert(response.deep_view() =~= (MessageRequestResponseView {
            thread_aci_binary: Some(peer.deep_view().raw()),
            kind: Some(kind),
            ..MessageRequestResponseView::empty()
        }));
        assert(message.deep_view() =~= (SyncMessageView {
            message_request_response: Some(response.deep_view()),
            ..SyncMessageView::empty()
        }));
        assert(out.deep_view() =~= expected);
    }
    out
}

/// Whether this account started a group call: an outgoing ring is ours whoever the backup
/// names, and of any other call the backup says who started it.
pub open spec fn started_by_us(
    call: frames::GroupCallView,
    recipients: Map<u64, RecipientInfo>,
    our_aci: Seq<u8>,
) -> bool {
    call.state == frames::GroupCallState::OutgoingRing || (
    call.started_call_recipient_id matches Some(id) && known_aci(recipients, id) == Some(our_aci))
}

/// The event that a group call is restored from: joined and accepted calls are accepted,
/// missed and declined ones not, and of every other it is only known that it was.
pub open spec fn group_call_event(
    call: frames::GroupCallView,
    recipients: Map<u64, RecipientInfo>,
    our_aci: Seq<u8>,
    group_id: Seq<u8>,
    timestamp: u64,
) -> CallEventView {
    CallEventView {
        conversation_id: Some(group_id),
        call_id: call.call_id,
        timestamp: Some(timestamp),
        kind: Some(CallEventType::GroupCall),
        direction: Some(
            if started_by_us(call, recipients, our_aci) {
                CallEventDirection::Outgoing
            } else {
                CallEventDirection::Incoming
            },
        ),
        event: Some(
            match call.state {
                frames::GroupCallState::Joined => CallEventEvent::Accepted,
                frames::GroupCallState::Accepted => CallEventEvent::Accepted,
                frames::GroupCallState::Missed => CallEventEvent::NotAccepted,
                frames::GroupCallState::MissedNotificationProfile => CallEventEvent::NotAccepted,
                frames::GroupCallState::Declined => CallEventEvent::NotAccepted,
                _ => CallEventEvent::Observed,
            },
        ),
    }
}

/// What a group call becomes. In a person's chat it is dropped.
pub open spec fn group_call_contents(
    call: frames::GroupCallView,
    thread: ThreadView,
    recipients: Map<u64, RecipientInfo>,
    our_aci: Seq<u8>,
    group_id: Seq<u8>,
    fallback_ts: u64,
) -> Seq<(ContentView, ThreadView)> {
    let timestamp = call_timestamp(call.started_call_timestamp, fallback_ts);
    match thread {
        ThreadView::Group(_) => seq![
            (
                call_content(
                    group_call_event(call, recipients, our_aci, group_id, timestamp),
                    our_aci,
                    timestamp,
                ),
                thread,
            ),
        ],
        ThreadView::Contact(_) => Seq::empty(),
    }
}

/// Convert a group call into a synthetic call event, so it flows through the normal path of
/// saving a message. `group_id` is the public id that derives from the group's master key:
/// a call event names the group by it.
fn group_call_to_contents(
    call: &frames::GroupCall,
    thread: &Thread,
    recipients: &HashMap<u64, RecipientInfo>,
    our_aci: Aci,
    group_id: &[u8; 32],
    fallback_ts: u64,
) -> (r: Vec<(Content, Thread)>)
    ensures
        r.deep_view() == group_call_contents(
            call.deep_view(),
            thread.deep_view(),
            recipients@,
            our_aci.deep_view(),
            group_id@,
            fallback_ts,
        ),
{
    broadcast use text::lemma_bytes_view;

    let mut out: Vec<(Content, Thread)> = Vec::new();
    assert(out.deep_view() =~= Seq::<(ContentView, ThreadView)>::empty());
    // Only group threads are modelled. A 1:1 thread here is out of spec; drop.
    match thread {
        Thread::Group(_) => {},
        Thread::Contact(_) => return out,
    }
    let starter = match call.started_call_recipient_id {
        Some(id) => lookup_aci(recipients, id),
        None => None,
    };
    let ours = call.state == frames::GroupCallState::OutgoingRing || match starter {
        Some(aci) => aci == our_aci,
        None => false,
    };
    let direction = if ours {
        CallEventDirection::Outgoing
    } else {
        CallEventDirection::Incoming
    };
    let event = match call.state {
        frames::GroupCallState::Joined | frames::GroupCallState::Accepted => {
            CallEventEvent::Accepted
        },
        frames::GroupCallState::Missed
        | frames::GroupCallState::MissedNotificationProfile
        | frames::GroupCallState::Declined => CallEventEvent::NotAccepted,
        _ => CallEventEvent::Observed,
    };
    let call_ts: u64 = if call.started_call_timestamp != 0 {
        call.started_call_timestamp
    } else {
        fallback_ts
    };
    let conversation = vstd::slice::slice_to_vec(group_id);
    assert(conversation@ =~= group_id@);
    let call_event = CallEvent {
        conversation_id: Some(conversation),
        call_id: call.call_id,
        timestamp: Some(call_ts),
        kind: Some(CallEventType::GroupCall),
        direction: Some(direction),
        event: Some(event),
    };
    let content = restore_call(call_event, our_aci, call_ts);
    out.push((content, *thread));
    proof {
        let expected = group_call_contents(
            call.deep_view(),
            thread.deep_view(),
            recipients@,
            our_aci.deep_view(),
            group_id@,
            fallback_ts,
        );
        assert(call_event.deep_view() =~= group_call_event(
            call.deep_view(),
            recipients@,
            our_aci.deep_view(),
            group_id@,
            call_ts,
        ));
        assert(out.deep_view() =~= expected);
    }
    out
}

/// The thread of an item.
pub open spec fn thread_of_item(item: frames::ChatItemView, chats: Map<u64, Thread>) -> Option<
    ThreadView,
> {
    if chats.contains_key(item.chat_id) {
        Some(chats[item.chat_id].deep_view())
    } else {
        None
    }
}

/// What an item of a known thread becomes.
pub open spec fn item_contents(
    item: frames::ChatItemView,
    thread: ThreadView,
    recipients: Map<u64, RecipientInfo>,
    our_aci: Seq<u8>,
    group_id: Seq<u8>,
) -> Seq<(ContentView, ThreadView)> {
    match item.item {
        Some(frames::ItemView::StandardMessage(sm)) => message_contents(
            standard_message(sm, recipients, item.date_sent),
            sm.reactions,
            item,
            thread,
            recipients,
            our_aci,
        ),
        Some(frames::ItemView::StickerMessage(sm)) => message_contents(
            sticker_message(sm, item.date_sent),
            sm.reactions,
            item,
            thread,
            recipients,
            our_aci,
        ),
        Some(frames::ItemView::UpdateMessage(update)) => match update.update {
            Some(frames::ChatUpdateView::IndividualCall(call)) => individual_call_contents(
                call,
                thread,
                our_aci,
                item.date_sent,
            ),
            Some(frames::ChatUpdateView::GroupCall(call)) => group_call_contents(
                call,
                thread,
                recipients,
                our_aci,
                group_id,
                item.date_sent,
            ),
            Some(frames::ChatUpdateView::SimpleUpdate(update)) => simple_update_contents(
                update,
                thread,
                our_aci,
                item.date_sent,
            ),
            _ => Seq::empty(),
        },
        _ => Seq::empty(),
    }
}

/// Converts a single backup item into zero or more messages, each with its thread.
///
/// Returns the main message first, followed by one entry for each reaction (each its own
/// envelope, matching the wire format).
///
/// Pure dispatcher: each item kind has its own helper. Blocked and unblocked events become
/// answers to a message request; unknown item kinds and other events drop silently.
///
/// `group_id` is the public id of the group that the item's chat is in; it is not looked at
/// for any other chat.
pub fn chat_item_to_contents(
    item: &frames::ChatItem,
    recipients: &HashMap<u64, RecipientInfo>,
    chats: &HashMap<u64, Thread>,
    our_aci: Aci,
    group_id: &[u8; 32],
) -> (r: Vec<(Content, Thread)>)
    ensures
        r.deep_view() == (match thread_of_item(item.deep_view(), chats@) {
            Some(thread) => item_contents(
                item.deep_view(),
                thread,
                recipients@,
                our_aci.deep_view(),
                group_id@,
            ),
            None => Seq::empty(),
        }),
{
    broadcast use vstd::std_specs::hash::group_hash_axioms;

    let none: Vec<(Content, Thread)> = Vec::new();
    assert(none.deep_view() =~= Seq::<(ContentView, ThreadView)>::empty());
    let thread = match chats.get(&item.chat_id) {
        Some(thread) => *thread,
        None => return none,
    };
    match &item.item {
        Some(frames::Item::StandardMessage(sm)) => standard_message_to_contents(
            sm,
            item,
            &thread,
            recipients,
            our_aci,
        ),
        Some(frames::Item::StickerMessage(sm)) => sticker_message_to_contents(
            sm,
            item,
            &thread,
            recipients,
            our_aci,
        ),
        Some(frames::Item::UpdateMessage(update)) => match &update.update {
            Some(frames::ChatUpdate::IndividualCall(call)) => individual_call_to_contents(
                call,
                &thread,
                our_aci,
                item.date_sent,
            ),
            Some(frames::ChatUpdate::GroupCall(call)) => group_call_to_contents(
                call,
                &thread,
                recipients,
                our_aci,
                group_id,
                item.date_sent,
            ),
            Some(frames::ChatUpdate::SimpleUpdate(update)) => simple_update_to_contents(
                *update,
                &thread,
                our_aci,
                item.date_sent,
            ),
            _ => none,
        },
        _ => none,
    }
}

/// Restored state for a backup message row that the message itself cannot carry: read
/// state, per-recipient send status, and when the message reached the device that made the
/// backup.
#[derive(Debug, PartialEq)]
pub struct BackupMessageState {
    pub thread: Thread,
    /// The message's sent timestamp: how the row is addressed.
    pub ts: u64,
    /// `Some` for incoming rows, `None` for outgoing.
    pub read: Option<bool>,
    pub send_states: Vec<(String, BackupSendStatus, u64)>,
    /// When the exporting device learned of this message. Restoring it keeps imported
    /// history in the order the primary device showed it. `None` when the backup omitted it.
    pub date_received: Option<u64>,
}

/// What a [`BackupMessageState`] holds.
#[verifier::ext_equal]
pub struct BackupMessageStateView {
    pub thread: ThreadView,
    pub ts: u64,
    pub read: Option<bool>,
    pub send_states: Seq<(Seq<char>, BackupSendStatus, u64)>,
    pub date_received: Option<u64>,
}

impl DeepView for BackupMessageState {
    type V = BackupMessageStateView;

    open spec fn deep_view(&self) -> BackupMessageStateView {
        BackupMessageStateView {
            thread: self.thread.deep_view(),
            ts: self.ts,
            read: self.read,
            send_states: self.send_states.deep_view(),
            date_received: self.date_received,
        }
    }
}

/// How far a message got, where that is worth a tick.
pub open spec fn send_status_of(status: Option<frames::DeliveryStatus>) -> Option<
    BackupSendStatus,
> {
    match status {
        Some(frames::DeliveryStatus::Sent) => Some(BackupSendStatus::Sent),
        Some(frames::DeliveryStatus::Delivered) => Some(BackupSendStatus::Delivered),
        Some(frames::DeliveryStatus::Read) => Some(BackupSendStatus::Read),
        Some(frames::DeliveryStatus::Viewed) => Some(BackupSendStatus::Viewed),
        _ => None,
    }
}

/// How far a message got to one recipient, where that is worth a tick and the recipient is
/// known.
pub open spec fn send_state_of(
    status: frames::SendStatusView,
    recipients: Map<u64, RecipientInfo>,
) -> Option<(Seq<char>, BackupSendStatus, u64)> {
    match (
        known_service_id(recipients, status.recipient_id),
        send_status_of(status.delivery_status),
    ) {
        (Some(id), Some(sent)) => Some((service_id::service_id_text(id), sent, status.timestamp)),
        _ => None,
    }
}

pub open spec fn send_states_of(
    list: Seq<frames::SendStatusView>,
    recipients: Map<u64, RecipientInfo>,
) -> Seq<(Seq<char>, BackupSendStatus, u64)>
    decreases list.len(),
{
    if list.len() == 0 {
        Seq::empty()
    } else {
        match send_state_of(list.last(), recipients) {
            Some(state) => send_states_of(list.drop_last(), recipients).push(state),
            None => send_states_of(list.drop_last(), recipients),
        }
    }
}

fn send_states(list: &Vec<frames::SendStatus>, recipients: &HashMap<u64, RecipientInfo>) -> (r: Vec<
    (String, BackupSendStatus, u64),
>)
    ensures
        r.deep_view() == send_states_of(list.deep_view(), recipients@),
{
    let mut out: Vec<(String, BackupSendStatus, u64)> = Vec::new();
    let mut i: usize = 0;
    let ghost all = list.deep_view();
    proof {
        assert(out.deep_view() =~= send_states_of(all.take(0), recipients@));
    }
    while i < list.len()
        invariant
            i <= list@.len(),
            all == list.deep_view(),
            out.deep_view() == send_states_of(all.take(i as int), recipients@),
        decreases list@.len() - i,
    {
        let status = &list[i];
        proof {
            assert(all.take(i + 1).drop_last() =~= all.take(i as int));
            assert(all.take(i + 1).last() == status.deep_view());
        }
        let sent = match status.delivery_status {
            Some(frames::DeliveryStatus::Sent) => Some(BackupSendStatus::Sent),
            Some(frames::DeliveryStatus::Delivered) => Some(BackupSendStatus::Delivered),
            Some(frames::DeliveryStatus::Read) => Some(BackupSendStatus::Read),
            Some(frames::DeliveryStatus::Viewed) => Some(BackupSendStatus::Viewed),
            // Pending, skipped and failed: no tick.
            _ => None,
        };
        if let Some(sent) = sent {
            if let Some(id) = lookup_service_id(recipients, status.recipient_id) {
                let ghost before = out.deep_view();
                let state = (id.service_id_string(), sent, status.timestamp);
                out.push(state);
                assert(out.deep_view() =~= before.push(state.deep_view()));
            }
        }
        i = i + 1;
    }
    assert(all.take(i as int) =~= all);
    out
}

/// When a message arrived: a backup that omits it has `0` there.
pub open spec fn arrival_of(date_received: u64) -> Option<u64> {
    if date_received == 0 {
        None
    } else {
        Some(date_received)
    }
}

fn arrival(date_received: u64) -> (r: Option<u64>)
    ensures
        r == arrival_of(date_received),
{
    if date_received == 0 {
        None
    } else {
        Some(date_received)
    }
}

/// What is restored of an item besides its message. Nothing for an unknown chat and for an
/// item without a direction.
pub open spec fn backup_state_of(
    item: frames::ChatItemView,
    recipients: Map<u64, RecipientInfo>,
    chats: Map<u64, Thread>,
) -> Option<BackupMessageStateView> {
    match thread_of_item(item, chats) {
        Some(thread) => match item.directional_details {
            Some(frames::DirectionalDetailsView::Incoming(details)) => Some(
                BackupMessageStateView {
                    thread,
                    ts: item.date_sent,
                    read: Some(details.read),
                    send_states: Seq::empty(),
                    date_received: arrival_of(details.date_received),
                },
            ),
            Some(frames::DirectionalDetailsView::Outgoing(details)) => Some(
                BackupMessageStateView {
                    thread,
                    ts: item.date_sent,
                    read: None,
                    send_states: send_states_of(details.send_status, recipients),
                    date_received: arrival_of(details.date_received),
                },
            ),
            _ => None,
        },
        None => None,
    }
}

/// Extract read / per-recipient send state and arrival time from a backup item so the store
/// can restore them after the row is saved: the message that the converter produces carries
/// none of it. Returns `None` when the chat is unknown or directional details are absent.
pub fn chat_item_backup_state(
    item: &frames::ChatItem,
    recipients: &HashMap<u64, RecipientInfo>,
    chats: &HashMap<u64, Thread>,
) -> (r: Option<BackupMessageState>)
    ensures
        r.deep_view() == backup_state_of(item.deep_view(), recipients@, chats@),
{
    broadcast use vstd::std_specs::hash::group_hash_axioms;

    let thread = match chats.get(&item.chat_id) {
        Some(thread) => *thread,
        None => return None,
    };
    let ts: u64 = item.date_sent;
    match &item.directional_details {
        Some(frames::DirectionalDetails::Incoming(details)) => {
            let none: Vec<(String, BackupSendStatus, u64)> = Vec::new();
            assert(none.deep_view() =~= Seq::<(Seq<char>, BackupSendStatus, u64)>::empty());
            Some(
                BackupMessageState {
                    thread,
                    ts,
                    read: Some(details.read),
                    send_states: none,
                    date_received: arrival(details.date_received),
                },
            )
        },
        Some(frames::DirectionalDetails::Outgoing(details)) => Some(
            BackupMessageState {
                thread,
                ts,
                read: None,
                send_states: send_states(&details.send_status, recipients),
                date_received: arrival(details.date_received),
            },
        ),
        _ => None,
    }
}

/// A text that may be missing or empty: either means absent.
pub open spec fn present_text(text: Option<Seq<char>>) -> Option<Seq<char>> {
    match text {
        Some(text) => contacts::present(text),
        None => None,
    }
}

fn nonempty(text: &Option<String>) -> (r: Option<String>)
    ensures
        r.deep_view() == present_text(text.deep_view()),
{
    match text {
        Some(text) => if text.as_str().is_empty() {
            None
        } else {
            Some(text.clone())
        },
        None => None,
    }
}

/// The phone number of a backed-up contact as text: a backup stores it as a number, and `0`
/// stands for none.
pub open spec fn e164_text(r: frames::RecipientView) -> Option<Seq<char>> {
    match r.destination {
        Some(frames::DestinationView::Contact(c)) => match c.e164 {
            Some(number) => if number == 0 {
                None
            } else {
                Some(seq!['+'] + text::decimal_text(number as nat))
            },
            None => None,
        },
        _ => None,
    }
}

/// The phone number of a backed-up contact as text, in the form that phone numbers are read
/// from.
pub fn recipient_e164(r: &frames::Recipient) -> (e164: Option<String>)
    ensures
        e164.deep_view() == e164_text(r.deep_view()),
{
    match &r.destination {
        Some(frames::Destination::Contact(c)) => match c.e164 {
            Some(number) => if number == 0 {
                None
            } else {
                proof {
                    reveal_strlit("+");
                    assert("+"@ =~= seq!['+']);
                }
                Some("+".to_owned().concat(text::decimal(number).as_str()))
            },
            None => None,
        },
        _ => None,
    }
}

/// The contact that a recipient is. `None` for every other destination, and without a valid
/// identity. `phone_number` is what the recipient's [`recipient_e164`] reads as.
pub open spec fn contact_of_recipient(
    r: frames::RecipientView,
    phone_number: Option<PhoneNumberView>,
) -> Option<ContactView> {
    match r.destination {
        Some(frames::DestinationView::Contact(c)) => match group_change::named(c.aci) {
            Some(uuid) => Some(
                ContactView {
                    uuid,
                    phone_number,
                    name: profile::profile_name_text(
                        c.profile_given_name.unwrap_or(Seq::empty()),
                        present_text(c.profile_family_name),
                    ),
                    profile_key: c.profile_key.unwrap_or(Seq::empty()),
                    pni: group_change::named(c.pni),
                    username: present_text(c.username),
                    blocked: c.blocked,
                    hide_story: c.hide_story,
                    system_given_name: c.system_given_name,
                    system_family_name: c.system_family_name,
                    system_nickname: c.system_nickname,
                    nickname_given_name: match c.nickname {
                        Some(name) => name.given,
                        None => Seq::empty(),
                    },
                    nickname_family_name: match c.nickname {
                        Some(name) => name.family,
                        None => Seq::empty(),
                    },
                    note: c.note,
                    ..contacts::minimal_contact(uuid)
                },
            ),
            None => None,
        },
        _ => None,
    }
}

/// Build a contact from a backup recipient whose destination is a contact. Returns `None`
/// for any other destination or when the identity is missing or invalid.
///
/// The display name is composed exactly like the storage-service sync derives it
/// ([`Contact::try_from_record`]), so when the later storage sync re-saves the same contact
/// it writes an identical string and the title never visibly changes.
pub fn recipient_to_contact(r: &frames::Recipient, phone_number: Option<PhoneNumber>) -> (contact:
    Option<Contact>)
    ensures
        contact.deep_view() == contact_of_recipient(r.deep_view(), phone_number.deep_view()),
{
    broadcast use text::lemma_bytes_view;

    let c = match &r.destination {
        Some(frames::Destination::Contact(c)) => c,
        _ => return None,
    };
    let uuid = match read_uuid(&c.aci) {
        Some(uuid) => uuid,
        None => return None,
    };
    let given_name = match &c.profile_given_name {
        Some(name) => name.clone(),
        None => String::new(),
    };
    let name = ProfileName {
        given_name,
        family_name: nonempty(&c.profile_family_name),
    }.to_string();
    let profile_key = match &c.profile_key {
        Some(key) => key.clone(),
        None => Vec::new(),
    };
    let (nickname_given_name, nickname_family_name) = match &c.nickname {
        Some(name) => (name.given.clone(), name.family.clone()),
        None => (String::new(), String::new()),
    };
    let contact = Contact {
        uuid,
        phone_number,
        name,
        verified: Verified::default(),
        profile_key,
        expire_timer: 0,
        expire_timer_version: contacts::default_expire_timer_version(),
        inbox_position: 0,
        avatar: None,
        pni: read_uuid(&c.pni),
        username: nonempty(&c.username),
        blocked: c.blocked,
        whitelisted: false,
        archived: false,
        marked_unread: false,
        muted_until_timestamp: 0,
        hide_story: c.hide_story,
        hidden: false,
        unregistered_at_timestamp: 0,
        pni_signature_verified: false,
        system_given_name: c.system_given_name.clone(),
        system_family_name: c.system_family_name.clone(),
        system_nickname: c.system_nickname.clone(),
        nickname_given_name,
        nickname_family_name,
        note: c.note.clone(),
    };
    proof {
        assert(contact.deep_view() =~= contact_of_recipient(
            r.deep_view(),
            phone_number.deep_view(),
        )->0);
    }
    Some(contact)
}

/// The title of a group in a backup.
pub open spec fn title_of(g: frames::GroupView) -> Option<Seq<char>> {
    match g.snapshot {
        Some(snapshot) => match snapshot.title {
            Some(blob) => match blob.content {
                Some(frames::GroupAttributeView::Title(title)) => contacts::present(title),
                _ => None,
            },
            None => None,
        },
        None => None,
    }
}

/// The master key and the stub of the group that a recipient is. `None` for every other
/// destination, and for a malformed master key.
pub open spec fn group_of_recipient(r: frames::RecipientView) -> Option<(Seq<u8>, GroupView)> {
    match r.destination {
        Some(frames::DestinationView::Group(g)) => if g.master_key.len() == 32 {
            Some(
                (
                    g.master_key,
                    GroupView {
                        title: title_of(g),
                        needs_hydration: true,
                        blocked: g.blocked,
                        whitelisted: g.whitelisted,
                        hide_story: g.hide_story,
                        story_send_mode: g.story_send_mode as i64,
                        ..GroupView::empty()
                    },
                ),
            )
        } else {
            None
        },
        _ => None,
    }
}

/// Build a group stub from a backup recipient whose destination is a group, taking the title
/// straight from the backup. Returns `None` for any other destination or a malformed master
/// key.
///
/// The stub still needs hydration, so members and avatar are fetched later: this only
/// sources the *title* from the backup so that it can be shown without a round-trip.
pub fn recipient_to_group(r: &frames::Recipient) -> (group: Option<([u8; 32], Group)>)
    ensures
        match group {
            Some((key, group)) => group_of_recipient(r.deep_view()) == Some(
                (key@, group.deep_view()),
            ),
            None => group_of_recipient(r.deep_view()) is None,
        },
{
    broadcast use text::lemma_bytes_view;

    let g = match &r.destination {
        Some(frames::Destination::Group(g)) => g,
        _ => return None,
    };
    let master_key = match service_id::thirty_two(g.master_key.as_slice()) {
        Some(key) => key,
        None => return None,
    };
    let title = match &g.snapshot {
        Some(snapshot) => match &snapshot.title {
            Some(blob) => match &blob.content {
                Some(frames::GroupAttribute::Title(title)) => if title.as_str().is_empty() {
                    None
                } else {
                    Some(title.clone())
                },
                _ => None,
            },
            None => None,
        },
        None => None,
    };
    let group = Group {
        title,
        needs_hydration: true,
        blocked: g.blocked,
        whitelisted: g.whitelisted,
        hide_story: g.hide_story,
        story_send_mode: g.story_send_mode as i64,
        ..Group::default()
    };
    proof {
        assert(group.deep_view() =~= (group_of_recipient(r.deep_view())->0).1);
    }
    Some((master_key, group))
}

} // verus!

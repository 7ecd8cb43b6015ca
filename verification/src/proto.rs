//! The messages that the library reads and writes, as plain values.
//!
//! Each type holds the fields that the library looks at. `rest` carries the others
//! through, encoded, so that a message that is only passed on loses nothing.
use vstd::prelude::*;

use crate::service_id::{ServiceId, ServiceIdView, Uuid};

verus! {

/// What an attachment is besides a file.
#[derive(Debug, Clone, Copy, PartialEq, Eq, Structural)]
pub enum AttachmentPointerFlag {
    VoiceMessage,
    Borderless,
    Gif,
}

impl DeepView for AttachmentPointerFlag {
    type V = AttachmentPointerFlag;

    open spec fn deep_view(&self) -> AttachmentPointerFlag {
        *self
    }
}

/// Where a CDN keeps an attachment.
#[derive(Debug, PartialEq)]
pub enum AttachmentIdentifier {
    CdnId(u64),
    CdnKey(String),
}

/// What a [`AttachmentIdentifier`] holds.
#[verifier::ext_equal]
pub enum AttachmentIdentifierView {
    CdnId(u64),
    CdnKey(Seq<char>),
}

impl DeepView for AttachmentIdentifier {
    type V = AttachmentIdentifierView;

    open spec fn deep_view(&self) -> AttachmentIdentifierView {
        match self {
            AttachmentIdentifier::CdnId(x) => AttachmentIdentifierView::CdnId(*x),
            AttachmentIdentifier::CdnKey(x) => AttachmentIdentifierView::CdnKey(x.deep_view()),
        }
    }
}

impl Clone for AttachmentIdentifier {
    fn clone(&self) -> (r: Self)
        ensures
            r.deep_view() == self.deep_view(),
    {
        let r = match self {
            AttachmentIdentifier::CdnId(x) => AttachmentIdentifier::CdnId(*x),
            AttachmentIdentifier::CdnKey(x) => AttachmentIdentifier::CdnKey(x.clone()),
        };
        proof {
            assert(r.deep_view() =~= self.deep_view());
        }
        r
    }
}

/// An encrypted attachment on a CDN.
#[derive(Debug, PartialEq)]
pub struct AttachmentPointer {
    pub attachment_identifier: Option<AttachmentIdentifier>,
    pub cdn_number: Option<u32>,
    pub content_type: Option<String>,
    pub key: Option<Vec<u8>>,
    pub size: Option<u32>,
    pub digest: Option<Vec<u8>>,
    pub incremental_mac: Option<Vec<u8>>,
    pub chunk_size: Option<u32>,
    pub file_name: Option<String>,
    pub flags: Option<AttachmentPointerFlag>,
    pub width: Option<u32>,
    pub height: Option<u32>,
    pub caption: Option<String>,
    pub blur_hash: Option<String>,
    pub upload_timestamp: Option<u64>,
}

/// What a [`AttachmentPointer`] holds.
#[verifier::ext_equal]
pub struct AttachmentPointerView {
    pub attachment_identifier: Option<AttachmentIdentifierView>,
    pub cdn_number: Option<u32>,
    pub content_type: Option<Seq<char>>,
    pub key: Option<Seq<u8>>,
    pub size: Option<u32>,
    pub digest: Option<Seq<u8>>,
    pub incremental_mac: Option<Seq<u8>>,
    pub chunk_size: Option<u32>,
    pub file_name: Option<Seq<char>>,
    pub flags: Option<AttachmentPointerFlag>,
    pub width: Option<u32>,
    pub height: Option<u32>,
    pub caption: Option<Seq<char>>,
    pub blur_hash: Option<Seq<char>>,
    pub upload_timestamp: Option<u64>,
}

impl DeepView for AttachmentPointer {
    type V = AttachmentPointerView;

    open spec fn deep_view(&self) -> AttachmentPointerView {
        AttachmentPointerView {
            attachment_identifier: self.attachment_identifier.deep_view(),
            cdn_number: self.cdn_number,
            content_type: self.content_type.deep_view(),
            key: self.key.deep_view(),
            size: self.size,
            digest: self.digest.deep_view(),
            incremental_mac: self.incremental_mac.deep_view(),
            chunk_size: self.chunk_size,
            file_name: self.file_name.deep_view(),
            flags: self.flags,
            width: self.width,
            height: self.height,
            caption: self.caption.deep_view(),
            blur_hash: self.blur_hash.deep_view(),
            upload_timestamp: self.upload_timestamp,
        }
    }
}

impl Clone for AttachmentPointer {
    fn clone(&self) -> (r: Self)
        ensures
            r.deep_view() == self.deep_view(),
    {
        let r = AttachmentPointer {
            attachment_identifier: self.attachment_identifier.clone(),
            cdn_number: self.cdn_number,
            content_type: self.content_type.clone(),
            key: self.key.clone(),
            size: self.size,
            digest: self.digest.clone(),
            incremental_mac: self.incremental_mac.clone(),
            chunk_size: self.chunk_size,
            file_name: self.file_name.clone(),
            flags: self.flags,
            width: self.width,
            height: self.height,
            caption: self.caption.clone(),
            blur_hash: self.blur_hash.clone(),
            upload_timestamp: self.upload_timestamp,
        };
        proof {
            assert(r.attachment_identifier.deep_view() =~= self.attachment_identifier.deep_view());
            assert(r.content_type.deep_view() =~= self.content_type.deep_view());
            assert(r.key.deep_view() =~= self.key.deep_view());
            assert(r.digest.deep_view() =~= self.digest.deep_view());
            assert(r.incremental_mac.deep_view() =~= self.incremental_mac.deep_view());
            assert(r.file_name.deep_view() =~= self.file_name.deep_view());
            assert(r.caption.deep_view() =~= self.caption.deep_view());
            assert(r.blur_hash.deep_view() =~= self.blur_hash.deep_view());
        }
        r
    }
}

impl AttachmentPointerView {
    /// Every field unset.
    pub open spec fn empty() -> AttachmentPointerView {
        AttachmentPointerView {
            attachment_identifier: None,
            cdn_number: None,
            content_type: None,
            key: None,
            size: None,
            digest: None,
            incremental_mac: None,
            chunk_size: None,
            file_name: None,
            flags: None,
            width: None,
            height: None,
            caption: None,
            blur_hash: None,
            upload_timestamp: None,
        }
    }
}

impl Default for AttachmentPointer {
    fn default() -> (r: Self)
        ensures
            r.deep_view() == AttachmentPointerView::empty(),
    {
        let r = AttachmentPointer {
            attachment_identifier: None,
            cdn_number: None,
            content_type: None,
            key: None,
            size: None,
            digest: None,
            incremental_mac: None,
            chunk_size: None,
            file_name: None,
            flags: None,
            width: None,
            height: None,
            caption: None,
            blur_hash: None,
            upload_timestamp: None,
        };
        proof {
            assert(r.deep_view() =~= AttachmentPointerView::empty());
        }
        r
    }
}

/// What a range of a body is marked with.
#[derive(Debug, PartialEq)]
pub enum AssociatedValue {
    MentionAci(String),
    MentionAciBinary(Vec<u8>),
    Style(i32),
}

/// What a [`AssociatedValue`] holds.
#[verifier::ext_equal]
pub enum AssociatedValueView {
    MentionAci(Seq<char>),
    MentionAciBinary(Seq<u8>),
    Style(i32),
}

impl DeepView for AssociatedValue {
    type V = AssociatedValueView;

    open spec fn deep_view(&self) -> AssociatedValueView {
        match self {
            AssociatedValue::MentionAci(x) => AssociatedValueView::MentionAci(x.deep_view()),
            AssociatedValue::MentionAciBinary(x) => AssociatedValueView::MentionAciBinary(
                x.deep_view(),
            ),
            AssociatedValue::Style(x) => AssociatedValueView::Style(*x),
        }
    }
}

impl Clone for AssociatedValue {
    fn clone(&self) -> (r: Self)
        ensures
            r.deep_view() == self.deep_view(),
    {
        let r = match self {
            AssociatedValue::MentionAci(x) => AssociatedValue::MentionAci(x.clone()),
            AssociatedValue::MentionAciBinary(x) => AssociatedValue::MentionAciBinary(x.clone()),
            AssociatedValue::Style(x) => AssociatedValue::Style(*x),
        };
        proof {
            assert(r.deep_view() =~= self.deep_view());
        }
        r
    }
}

/// A mention or a style in a message body.
#[derive(Debug, PartialEq)]
pub struct BodyRange {
    pub start: Option<u32>,
    pub length: Option<u32>,
    pub associated_value: Option<AssociatedValue>,
}

/// What a [`BodyRange`] holds.
#[verifier::ext_equal]
pub struct BodyRangeView {
    pub start: Option<u32>,
    pub length: Option<u32>,
    pub associated_value: Option<AssociatedValueView>,
}

impl DeepView for BodyRange {
    type V = BodyRangeView;

    open spec fn deep_view(&self) -> BodyRangeView {
        BodyRangeView {
            start: self.start,
            length: self.length,
            associated_value: self.associated_value.deep_view(),
        }
    }
}

impl Clone for BodyRange {
    fn clone(&self) -> (r: Self)
        ensures
            r.deep_view() == self.deep_view(),
    {
        let r = BodyRange {
            start: self.start,
            length: self.length,
            associated_value: self.associated_value.clone(),
        };
        proof {
            assert(r.associated_value.deep_view() =~= self.associated_value.deep_view());
        }
        r
    }
}

impl BodyRangeView {
    /// Every field unset.
    pub open spec fn empty() -> BodyRangeView {
        BodyRangeView {
            start: None,
            length: None,
            associated_value: None,
        }
    }
}

impl Default for BodyRange {
    fn default() -> (r: Self)
        ensures
            r.deep_view() == BodyRangeView::empty(),
    {
        let r = BodyRange {
            start: None,
            length: None,
            associated_value: None,
        };
        proof {
            assert(r.deep_view() =~= BodyRangeView::empty());
        }
        r
    }
}

/// What kind of message a quote quotes.
#[derive(Debug, Clone, Copy, PartialEq, Eq, Structural)]
pub enum QuoteType {
    Normal,
    GiftBadge,
    Poll,
}

impl DeepView for QuoteType {
    type V = QuoteType;

    open spec fn deep_view(&self) -> QuoteType {
        *self
    }
}

/// A quoted message.
#[derive(Debug, PartialEq)]
pub struct Quote {
    pub id: Option<u64>,
    pub author_aci: Option<String>,
    pub author_aci_binary: Option<Vec<u8>>,
    pub text: Option<String>,
    pub body_ranges: Vec<BodyRange>,
    pub kind: Option<QuoteType>,
}

/// What a [`Quote`] holds.
#[verifier::ext_equal]
pub struct QuoteView {
    pub id: Option<u64>,
    pub author_aci: Option<Seq<char>>,
    pub author_aci_binary: Option<Seq<u8>>,
    pub text: Option<Seq<char>>,
    pub body_ranges: Seq<BodyRangeView>,
    pub kind: Option<QuoteType>,
}

impl DeepView for Quote {
    type V = QuoteView;

    open spec fn deep_view(&self) -> QuoteView {
        QuoteView {
            id: self.id,
            author_aci: self.author_aci.deep_view(),
            author_aci_binary: self.author_aci_binary.deep_view(),
            text: self.text.deep_view(),
            body_ranges: self.body_ranges.deep_view(),
            kind: self.kind,
        }
    }
}

impl Clone for Quote {
    fn clone(&self) -> (r: Self)
        ensures
            r.deep_view() == self.deep_view(),
    {
        let r = Quote {
            id: self.id,
            author_aci: self.author_aci.clone(),
            author_aci_binary: self.author_aci_binary.clone(),
            text: self.text.clone(),
            body_ranges: self.body_ranges.clone(),
            kind: self.kind,
        };
        proof {
            assert(r.author_aci.deep_view() =~= self.author_aci.deep_view());
            assert(r.author_aci_binary.deep_view() =~= self.author_aci_binary.deep_view());
            assert(r.text.deep_view() =~= self.text.deep_view());
            assert(r.body_ranges.deep_view() =~= self.body_ranges.deep_view());
        }
        r
    }
}

impl QuoteView {
    /// Every field unset.
    pub open spec fn empty() -> QuoteView {
        QuoteView {
            id: None,
            author_aci: None,
            author_aci_binary: None,
            text: None,
            body_ranges: Seq::empty(),
            kind: None,
        }
    }
}

impl Default for Quote {
    fn default() -> (r: Self)
        ensures
            r.deep_view() == QuoteView::empty(),
    {
        let r = Quote {
            id: None,
            author_aci: None,
            author_aci_binary: None,
            text: None,
            body_ranges: Vec::new(),
            kind: None,
        };
        proof {
            assert(r.deep_view() =~= QuoteView::empty());
        }
        r
    }
}

/// A link preview.
#[derive(Debug, PartialEq)]
pub struct Preview {
    pub url: Option<String>,
    pub title: Option<String>,
    pub image: Option<AttachmentPointer>,
    pub description: Option<String>,
    pub date: Option<u64>,
}

/// What a [`Preview`] holds.
#[verifier::ext_equal]
pub struct PreviewView {
    pub url: Option<Seq<char>>,
    pub title: Option<Seq<char>>,
    pub image: Option<AttachmentPointerView>,
    pub description: Option<Seq<char>>,
    pub date: Option<u64>,
}

impl DeepView for Preview {
    type V = PreviewView;

    open spec fn deep_view(&self) -> PreviewView {
        PreviewView {
            url: self.url.deep_view(),
            title: self.title.deep_view(),
            image: self.image.deep_view(),
            description: self.description.deep_view(),
            date: self.date,
        }
    }
}

impl Clone for Preview {
    fn clone(&self) -> (r: Self)
        ensures
            r.deep_view() == self.deep_view(),
    {
        let r = Preview {
            url: self.url.clone(),
            title: self.title.clone(),
            image: self.image.clone(),
            description: self.description.clone(),
            date: self.date,
        };
        proof {
            assert(r.url.deep_view() =~= self.url.deep_view());
            assert(r.title.deep_view() =~= self.title.deep_view());
            assert(r.image.deep_view() =~= self.image.deep_view());
            assert(r.description.deep_view() =~= self.description.deep_view());
        }
        r
    }
}

impl PreviewView {
    /// Every field unset.
    pub open spec fn empty() -> PreviewView {
        PreviewView {
            url: None,
            title: None,
            image: None,
            description: None,
            date: None,
        }
    }
}

impl Default for Preview {
    fn default() -> (r: Self)
        ensures
            r.deep_view() == PreviewView::empty(),
    {
        let r = Preview {
            url: None,
            title: None,
            image: None,
            description: None,
            date: None,
        };
        proof {
            assert(r.deep_view() =~= PreviewView::empty());
        }
        r
    }
}

/// A sticker sent as a message.
#[derive(Debug, PartialEq)]
pub struct StickerContent {
    pub pack_id: Option<Vec<u8>>,
    pub pack_key: Option<Vec<u8>>,
    pub sticker_id: Option<u32>,
    pub data: Option<AttachmentPointer>,
    pub emoji: Option<String>,
}

/// What a [`StickerContent`] holds.
#[verifier::ext_equal]
pub struct StickerContentView {
    pub pack_id: Option<Seq<u8>>,
    pub pack_key: Option<Seq<u8>>,
    pub sticker_id: Option<u32>,
    pub data: Option<AttachmentPointerView>,
    pub emoji: Option<Seq<char>>,
}

impl DeepView for StickerContent {
    type V = StickerContentView;

    open spec fn deep_view(&self) -> StickerContentView {
        StickerContentView {
            pack_id: self.pack_id.deep_view(),
            pack_key: self.pack_key.deep_view(),
            sticker_id: self.sticker_id,
            data: self.data.deep_view(),
            emoji: self.emoji.deep_view(),
        }
    }
}

impl Clone for StickerContent {
    fn clone(&self) -> (r: Self)
        ensures
            r.deep_view() == self.deep_view(),
    {
        let r = StickerContent {
            pack_id: self.pack_id.clone(),
            pack_key: self.pack_key.clone(),
            sticker_id: self.sticker_id,
            data: self.data.clone(),
            emoji: self.emoji.clone(),
        };
        proof {
            assert(r.pack_id.deep_view() =~= self.pack_id.deep_view());
            assert(r.pack_key.deep_view() =~= self.pack_key.deep_view());
            assert(r.data.deep_view() =~= self.data.deep_view());
            assert(r.emoji.deep_view() =~= self.emoji.deep_view());
        }
        r
    }
}

impl StickerContentView {
    /// Every field unset.
    pub open spec fn empty() -> StickerContentView {
        StickerContentView {
            pack_id: None,
            pack_key: None,
            sticker_id: None,
            data: None,
            emoji: None,
        }
    }
}

impl Default for StickerContent {
    fn default() -> (r: Self)
        ensures
            r.deep_view() == StickerContentView::empty(),
    {
        let r = StickerContent {
            pack_id: None,
            pack_key: None,
            sticker_id: None,
            data: None,
            emoji: None,
        };
        proof {
            assert(r.deep_view() =~= StickerContentView::empty());
        }
        r
    }
}

/// A reaction to a message.
#[derive(Debug, PartialEq)]
pub struct Reaction {
    pub emoji: Option<String>,
    pub remove: Option<bool>,
    pub target_author_aci: Option<String>,
    pub target_author_aci_binary: Option<Vec<u8>>,
    pub target_sent_timestamp: Option<u64>,
}

/// What a [`Reaction`] holds.
#[verifier::ext_equal]
pub struct ReactionView {
    pub emoji: Option<Seq<char>>,
    pub remove: Option<bool>,
    pub target_author_aci: Option<Seq<char>>,
    pub target_author_aci_binary: Option<Seq<u8>>,
    pub target_sent_timestamp: Option<u64>,
}

impl DeepView for Reaction {
    type V = ReactionView;

    open spec fn deep_view(&self) -> ReactionView {
        ReactionView {
            emoji: self.emoji.deep_view(),
            remove: self.remove,
            target_author_aci: self.target_author_aci.deep_view(),
            target_author_aci_binary: self.target_author_aci_binary.deep_view(),
            target_sent_timestamp: self.target_sent_timestamp,
        }
    }
}

impl Clone for Reaction {
    fn clone(&self) -> (r: Self)
        ensures
            r.deep_view() == self.deep_view(),
    {
        let r = Reaction {
            emoji: self.emoji.clone(),
            remove: self.remove,
            target_author_aci: self.target_author_aci.clone(),
            target_author_aci_binary: self.target_author_aci_binary.clone(),
            target_sent_timestamp: self.target_sent_timestamp,
        };
        proof {
            assert(r.emoji.deep_view() =~= self.emoji.deep_view());
            assert(r.target_author_aci.deep_view() =~= self.target_author_aci.deep_view());
            assert(r.target_author_aci_binary.deep_view()
                =~= self.target_author_aci_binary.deep_view());
        }
        r
    }
}

impl ReactionView {
    /// Every field unset.
    pub open spec fn empty() -> ReactionView {
        ReactionView {
            emoji: None,
            remove: None,
            target_author_aci: None,
            target_author_aci_binary: None,
            target_sent_timestamp: None,
        }
    }
}

impl Default for Reaction {
    fn default() -> (r: Self)
        ensures
            r.deep_view() == ReactionView::empty(),
    {
        let r = Reaction {
            emoji: None,
            remove: None,
            target_author_aci: None,
            target_author_aci_binary: None,
            target_sent_timestamp: None,
        };
        proof {
            assert(r.deep_view() =~= ReactionView::empty());
        }
        r
    }
}

/// A request to delete a message for everybody.
#[derive(Debug, PartialEq)]
pub struct Delete {
    pub target_sent_timestamp: Option<u64>,
}

/// What a [`Delete`] holds.
#[verifier::ext_equal]
pub struct DeleteView {
    pub target_sent_timestamp: Option<u64>,
}

impl DeepView for Delete {
    type V = DeleteView;

    open spec fn deep_view(&self) -> DeleteView {
        DeleteView {
            target_sent_timestamp: self.target_sent_timestamp,
        }
    }
}

impl Clone for Delete {
    fn clone(&self) -> (r: Self)
        ensures
            r.deep_view() == self.deep_view(),
    {
        let r = Delete {
            target_sent_timestamp: self.target_sent_timestamp,
        };
        r
    }
}

impl DeleteView {
    /// Every field unset.
    pub open spec fn empty() -> DeleteView {
        DeleteView {
            target_sent_timestamp: None,
        }
    }
}

impl Default for Delete {
    fn default() -> (r: Self)
        ensures
            r.deep_view() == DeleteView::empty(),
    {
        let r = Delete {
            target_sent_timestamp: None,
        };
        proof {
            assert(r.deep_view() =~= DeleteView::empty());
        }
        r
    }
}

/// The group that a message belongs to.
#[derive(Debug, PartialEq)]
pub struct GroupContextV2 {
    pub master_key: Option<Vec<u8>>,
    pub revision: Option<u32>,
    pub group_change: Option<Vec<u8>>,
}

/// What a [`GroupContextV2`] holds.
#[verifier::ext_equal]
pub struct GroupContextV2View {
    pub master_key: Option<Seq<u8>>,
    pub revision: Option<u32>,
    pub group_change: Option<Seq<u8>>,
}

impl DeepView for GroupContextV2 {
    type V = GroupContextV2View;

    open spec fn deep_view(&self) -> GroupContextV2View {
        GroupContextV2View {
            master_key: self.master_key.deep_view(),
            revision: self.revision,
            group_change: self.group_change.deep_view(),
        }
    }
}

impl Clone for GroupContextV2 {
    fn clone(&self) -> (r: Self)
        ensures
            r.deep_view() == self.deep_view(),
    {
        let r = GroupContextV2 {
            master_key: self.master_key.clone(),
            revision: self.revision,
            group_change: self.group_change.clone(),
        };
        proof {
            assert(r.master_key.deep_view() =~= self.master_key.deep_view());
            assert(r.group_change.deep_view() =~= self.group_change.deep_view());
        }
        r
    }
}

impl GroupContextV2View {
    /// Every field unset.
    pub open spec fn empty() -> GroupContextV2View {
        GroupContextV2View {
            master_key: None,
            revision: None,
            group_change: None,
        }
    }
}

impl Default for GroupContextV2 {
    fn default() -> (r: Self)
        ensures
            r.deep_view() == GroupContextV2View::empty(),
    {
        let r = GroupContextV2 {
            master_key: None,
            revision: None,
            group_change: None,
        };
        proof {
            assert(r.deep_view() =~= GroupContextV2View::empty());
        }
        r
    }
}

/// A message to a person or a group.
#[derive(Debug, PartialEq)]
pub struct DataMessage {
    pub body: Option<String>,
    pub attachments: Vec<AttachmentPointer>,
    pub group_v2: Option<GroupContextV2>,
    pub flags: Option<u32>,
    pub expire_timer: Option<u32>,
    pub expire_timer_version: Option<u32>,
    pub profile_key: Option<Vec<u8>>,
    pub timestamp: Option<u64>,
    pub quote: Option<Quote>,
    pub preview: Vec<Preview>,
    pub sticker: Option<StickerContent>,
    pub required_protocol_version: Option<u32>,
    pub reaction: Option<Reaction>,
    pub delete: Option<Delete>,
    pub body_ranges: Vec<BodyRange>,
    pub rest: Vec<u8>,
}

/// What a [`DataMessage`] holds.
#[verifier::ext_equal]
pub struct DataMessageView {
    pub body: Option<Seq<char>>,
    pub attachments: Seq<AttachmentPointerView>,
    pub group_v2: Option<GroupContextV2View>,
    pub flags: Option<u32>,
    pub expire_timer: Option<u32>,
    pub expire_timer_version: Option<u32>,
    pub profile_key: Option<Seq<u8>>,
    pub timestamp: Option<u64>,
    pub quote: Option<QuoteView>,
    pub preview: Seq<PreviewView>,
    pub sticker: Option<StickerContentView>,
    pub required_protocol_version: Option<u32>,
    pub reaction: Option<ReactionView>,
    pub delete: Option<DeleteView>,
    pub body_ranges: Seq<BodyRangeView>,
    pub rest: Seq<u8>,
}

impl DeepView for DataMessage {
    type V = DataMessageView;

    open spec fn deep_view(&self) -> DataMessageView {
        DataMessageView {
            body: self.body.deep_view(),
            attachments: self.attachments.deep_view(),
            group_v2: self.group_v2.deep_view(),
            flags: self.flags,
            expire_timer: self.expire_timer,
            expire_timer_version: self.expire_timer_version,
            profile_key: self.profile_key.deep_view(),
            timestamp: self.timestamp,
            quote: self.quote.deep_view(),
            preview: self.preview.deep_view(),
            sticker: self.sticker.deep_view(),
            required_protocol_version: self.required_protocol_version,
            reaction: self.reaction.deep_view(),
            delete: self.delete.deep_view(),
            body_ranges: self.body_ranges.deep_view(),
            rest: self.rest.deep_view(),
        }
    }
}

impl Clone for DataMessage {
    fn clone(&self) -> (r: Self)
        ensures
            r.deep_view() == self.deep_view(),
    {
        let r = DataMessage {
            body: self.body.clone(),
            attachments: self.attachments.clone(),
            group_v2: self.group_v2.clone(),
            flags: self.flags,
            expire_timer: self.expire_timer,
            expire_timer_version: self.expire_timer_version,
            profile_key: self.profile_key.clone(),
            timestamp: self.timestamp,
            quote: self.quote.clone(),
            preview: self.preview.clone(),
            sticker: self.sticker.clone(),
            required_protocol_version: self.required_protocol_version,
            reaction: self.reaction.clone(),
            delete: self.delete.clone(),
            body_ranges: self.body_ranges.clone(),
            rest: self.rest.clone(),
        };
        proof {
            assert(r.body.deep_view() =~= self.body.deep_view());
            assert(r.attachments.deep_view() =~= self.attachments.deep_view());
            assert(r.group_v2.deep_view() =~= self.group_v2.deep_view());
            assert(r.profile_key.deep_view() =~= self.profile_key.deep_view());
            assert(r.quote.deep_view() =~= self.quote.deep_view());
            assert(r.preview.deep_view() =~= self.preview.deep_view());
            assert(r.sticker.deep_view() =~= self.sticker.deep_view());
            assert(r.reaction.deep_view() =~= self.reaction.deep_view());
            assert(r.delete.deep_view() =~= self.delete.deep_view());
            assert(r.body_ranges.deep_view() =~= self.body_ranges.deep_view());
            assert(r.rest.deep_view() =~= self.rest.deep_view());
        }
        r
    }
}

impl DataMessageView {
    /// Every field unset.
    pub open spec fn empty() -> DataMessageView {
        DataMessageView {
            body: None,
            attachments: Seq::empty(),
            group_v2: None,
            flags: None,
            expire_timer: None,
            expire_timer_version: None,
            profile_key: None,
            timestamp: None,
            quote: None,
            preview: Seq::empty(),
            sticker: None,
            required_protocol_version: None,
            reaction: None,
            delete: None,
            body_ranges: Seq::empty(),
            rest: Seq::empty(),
        }
    }
}

impl Default for DataMessage {
    fn default() -> (r: Self)
        ensures
            r.deep_view() == DataMessageView::empty(),
    {
        let r = DataMessage {
            body: None,
            attachments: Vec::new(),
            group_v2: None,
            flags: None,
            expire_timer: None,
            expire_timer_version: None,
            profile_key: None,
            timestamp: None,
            quote: None,
            preview: Vec::new(),
            sticker: None,
            required_protocol_version: None,
            reaction: None,
            delete: None,
            body_ranges: Vec::new(),
            rest: Vec::new(),
        };
        proof {
            assert(r.deep_view() =~= DataMessageView::empty());
        }
        r
    }
}

/// A new version of a message.
#[derive(Debug, PartialEq)]
pub struct EditMessage {
    pub target_sent_timestamp: Option<u64>,
    pub data_message: Option<DataMessage>,
}

/// What a [`EditMessage`] holds.
#[verifier::ext_equal]
pub struct EditMessageView {
    pub target_sent_timestamp: Option<u64>,
    pub data_message: Option<DataMessageView>,
}

impl DeepView for EditMessage {
    type V = EditMessageView;

    open spec fn deep_view(&self) -> EditMessageView {
        EditMessageView {
            target_sent_timestamp: self.target_sent_timestamp,
            data_message: self.data_message.deep_view(),
        }
    }
}

impl Clone for EditMessage {
    fn clone(&self) -> (r: Self)
        ensures
            r.deep_view() == self.deep_view(),
    {
        let r = EditMessage {
            target_sent_timestamp: self.target_sent_timestamp,
            data_message: self.data_message.clone(),
        };
        proof {
            assert(r.data_message.deep_view() =~= self.data_message.deep_view());
        }
        r
    }
}

impl EditMessageView {
    /// Every field unset.
    pub open spec fn empty() -> EditMessageView {
        EditMessageView {
            target_sent_timestamp: None,
            data_message: None,
        }
    }
}

impl Default for EditMessage {
    fn default() -> (r: Self)
        ensures
            r.deep_view() == EditMessageView::empty(),
    {
        let r = EditMessage {
            target_sent_timestamp: None,
            data_message: None,
        };
        proof {
            assert(r.deep_view() =~= EditMessageView::empty());
        }
        r
    }
}

/// A message that another device of this account sent.
#[derive(Debug, PartialEq)]
pub struct Sent {
    pub destination_service_id: Option<String>,
    pub destination_service_id_binary: Option<Vec<u8>>,
    pub timestamp: Option<u64>,
    pub message: Option<DataMessage>,
    pub edit_message: Option<EditMessage>,
    pub rest: Vec<u8>,
}

/// What a [`Sent`] holds.
#[verifier::ext_equal]
pub struct SentView {
    pub destination_service_id: Option<Seq<char>>,
    pub destination_service_id_binary: Option<Seq<u8>>,
    pub timestamp: Option<u64>,
    pub message: Option<DataMessageView>,
    pub edit_message: Option<EditMessageView>,
    pub rest: Seq<u8>,
}

impl DeepView for Sent {
    type V = SentView;

    open spec fn deep_view(&self) -> SentView {
        SentView {
            destination_service_id: self.destination_service_id.deep_view(),
            destination_service_id_binary: self.destination_service_id_binary.deep_view(),
            timestamp: self.timestamp,
            message: self.message.deep_view(),
            edit_message: self.edit_message.deep_view(),
            rest: self.rest.deep_view(),
        }
    }
}

impl Clone for Sent {
    fn clone(&self) -> (r: Self)
        ensures
            r.deep_view() == self.deep_view(),
    {
        let r = Sent {
            destination_service_id: self.destination_service_id.clone(),
            destination_service_id_binary: self.destination_service_id_binary.clone(),
            timestamp: self.timestamp,
            message: self.message.clone(),
            edit_message: self.edit_message.clone(),
            rest: self.rest.clone(),
        };
        proof {
            assert(r.destination_service_id.deep_view()
                =~= self.destination_service_id.deep_view());
            assert(r.destination_service_id_binary.deep_view()
                =~= self.destination_service_id_binary.deep_view());
            assert(r.message.deep_view() =~= self.message.deep_view());
            assert(r.edit_message.deep_view() =~= self.edit_message.deep_view());
            assert(r.rest.deep_view() =~= self.rest.deep_view());
        }
        r
    }
}

impl SentView {
    /// Every field unset.
    pub open spec fn empty() -> SentView {
        SentView {
            destination_service_id: None,
            destination_service_id_binary: None,
            timestamp: None,
            message: None,
            edit_message: None,
            rest: Seq::empty(),
        }
    }
}

impl Default for Sent {
    fn default() -> (r: Self)
        ensures
            r.deep_view() == SentView::empty(),
    {
        let r = Sent {
            destination_service_id: None,
            destination_service_id_binary: None,
            timestamp: None,
            message: None,
            edit_message: None,
            rest: Vec::new(),
        };
        proof {
            assert(r.deep_view() =~= SentView::empty());
        }
        r
    }
}

/// What a device asks another device of its account for.
#[derive(Debug, Clone, Copy, PartialEq, Eq, Structural)]
pub enum RequestType {
    Unknown,
    Contacts,
    Blocked,
    Configuration,
    Keys,
}

impl DeepView for RequestType {
    type V = RequestType;

    open spec fn deep_view(&self) -> RequestType {
        *self
    }
}

/// Everything that the account blocks.
#[derive(Debug, PartialEq)]
pub struct Blocked {
    pub numbers: Vec<String>,
    pub acis: Vec<String>,
    pub acis_binary: Vec<Vec<u8>>,
    pub group_ids: Vec<Vec<u8>>,
}

/// What a [`Blocked`] holds.
#[verifier::ext_equal]
pub struct BlockedView {
    pub numbers: Seq<Seq<char>>,
    pub acis: Seq<Seq<char>>,
    pub acis_binary: Seq<Seq<u8>>,
    pub group_ids: Seq<Seq<u8>>,
}

impl DeepView for Blocked {
    type V = BlockedView;

    open spec fn deep_view(&self) -> BlockedView {
        BlockedView {
            numbers: self.numbers.deep_view(),
            acis: self.acis.deep_view(),
            acis_binary: self.acis_binary.deep_view(),
            group_ids: self.group_ids.deep_view(),
        }
    }
}

impl Clone for Blocked {
    fn clone(&self) -> (r: Self)
        ensures
            r.deep_view() == self.deep_view(),
    {
        let r = Blocked {
            numbers: self.numbers.clone(),
            acis: self.acis.clone(),
            acis_binary: self.acis_binary.clone(),
            group_ids: self.group_ids.clone(),
        };
        proof {
            assert(r.numbers.deep_view() =~= self.numbers.deep_view());
            assert(r.acis.deep_view() =~= self.acis.deep_view());
            assert(r.acis_binary.deep_view() =~= self.acis_binary.deep_view());
            assert(r.group_ids.deep_view() =~= self.group_ids.deep_view());
        }
        r
    }
}

impl BlockedView {
    /// Every field unset.
    pub open spec fn empty() -> BlockedView {
        BlockedView {
            numbers: Seq::empty(),
            acis: Seq::empty(),
            acis_binary: Seq::empty(),
            group_ids: Seq::empty(),
        }
    }
}

impl Default for Blocked {
    fn default() -> (r: Self)
        ensures
            r.deep_view() == BlockedView::empty(),
    {
        let r = Blocked {
            numbers: Vec::new(),
            acis: Vec::new(),
            acis_binary: Vec::new(),
            group_ids: Vec::new(),
        };
        proof {
            assert(r.deep_view() =~= BlockedView::empty());
        }
        r
    }
}

/// The account's contacts, as one encrypted attachment.
#[derive(Debug, PartialEq)]
pub struct ContactsBlob {
    pub complete: Option<bool>,
    pub rest: Vec<u8>,
}

/// What a [`ContactsBlob`] holds.
#[verifier::ext_equal]
pub struct ContactsBlobView {
    pub complete: Option<bool>,
    pub rest: Seq<u8>,
}

impl DeepView for ContactsBlob {
    type V = ContactsBlobView;

    open spec fn deep_view(&self) -> ContactsBlobView {
        ContactsBlobView {
            complete: self.complete,
            rest: self.rest.deep_view(),
        }
    }
}

impl Clone for ContactsBlob {
    fn clone(&self) -> (r: Self)
        ensures
            r.deep_view() == self.deep_view(),
    {
        let r = ContactsBlob {
            complete: self.complete,
            rest: self.rest.clone(),
        };
        proof {
            assert(r.rest.deep_view() =~= self.rest.deep_view());
        }
        r
    }
}

impl ContactsBlobView {
    /// Every field unset.
    pub open spec fn empty() -> ContactsBlobView {
        ContactsBlobView {
            complete: None,
            rest: Seq::empty(),
        }
    }
}

impl Default for ContactsBlob {
    fn default() -> (r: Self)
        ensures
            r.deep_view() == ContactsBlobView::empty(),
    {
        let r = ContactsBlob {
            complete: None,
            rest: Vec::new(),
        };
        proof {
            assert(r.deep_view() =~= ContactsBlobView::empty());
        }
        r
    }
}

/// The account's keys.
#[derive(Debug, PartialEq)]
pub struct Keys {
    pub master: Option<Vec<u8>>,
    pub account_entropy_pool: Option<String>,
    pub media_root_backup_key: Option<Vec<u8>>,
}

/// What a [`Keys`] holds.
#[verifier::ext_equal]
pub struct KeysView {
    pub master: Option<Seq<u8>>,
    pub account_entropy_pool: Option<Seq<char>>,
    pub media_root_backup_key: Option<Seq<u8>>,
}

impl DeepView for Keys {
    type V = KeysView;

    open spec fn deep_view(&self) -> KeysView {
        KeysView {
            master: self.master.deep_view(),
            account_entropy_pool: self.account_entropy_pool.deep_view(),
            media_root_backup_key: self.media_root_backup_key.deep_view(),
        }
    }
}

impl Clone for Keys {
    fn clone(&self) -> (r: Self)
        ensures
            r.deep_view() == self.deep_view(),
    {
        let r = Keys {
            master: self.master.clone(),
            account_entropy_pool: self.account_entropy_pool.clone(),
            media_root_backup_key: self.media_root_backup_key.clone(),
        };
        proof {
            assert(r.master.deep_view() =~= self.master.deep_view());
            assert(r.account_entropy_pool.deep_view() =~= self.account_entropy_pool.deep_view());
            assert(r.media_root_backup_key.deep_view() =~= self.media_root_backup_key.deep_view());
        }
        r
    }
}

impl KeysView {
    /// Every field unset.
    pub open spec fn empty() -> KeysView {
        KeysView {
            master: None,
            account_entropy_pool: None,
            media_root_backup_key: None,
        }
    }
}

impl Default for Keys {
    fn default() -> (r: Self)
        ensures
            r.deep_view() == KeysView::empty(),
    {
        let r = Keys {
            master: None,
            account_entropy_pool: None,
            media_root_backup_key: None,
        };
        proof {
            assert(r.deep_view() =~= KeysView::empty());
        }
        r
    }
}

/// What happened to a sticker pack.
#[derive(Debug, Clone, Copy, PartialEq, Eq, Structural)]
pub enum StickerPackOperationType {
    Install,
    Remove,
}

impl DeepView for StickerPackOperationType {
    type V = StickerPackOperationType;

    open spec fn deep_view(&self) -> StickerPackOperationType {
        *self
    }
}

/// A sticker pack was installed or removed.
#[derive(Debug, PartialEq)]
pub struct StickerPackOperation {
    pub pack_id: Option<Vec<u8>>,
    pub pack_key: Option<Vec<u8>>,
    pub kind: Option<StickerPackOperationType>,
}

/// What a [`StickerPackOperation`] holds.
#[verifier::ext_equal]
pub struct StickerPackOperationView {
    pub pack_id: Option<Seq<u8>>,
    pub pack_key: Option<Seq<u8>>,
    pub kind: Option<StickerPackOperationType>,
}

impl DeepView for StickerPackOperation {
    type V = StickerPackOperationView;

    open spec fn deep_view(&self) -> StickerPackOperationView {
        StickerPackOperationView {
            pack_id: self.pack_id.deep_view(),
            pack_key: self.pack_key.deep_view(),
            kind: self.kind,
        }
    }
}

impl Clone for StickerPackOperation {
    fn clone(&self) -> (r: Self)
        ensures
            r.deep_view() == self.deep_view(),
    {
        let r = StickerPackOperation {
            pack_id: self.pack_id.clone(),
            pack_key: self.pack_key.clone(),
            kind: self.kind,
        };
        proof {
            assert(r.pack_id.deep_view() =~= self.pack_id.deep_view());
            assert(r.pack_key.deep_view() =~= self.pack_key.deep_view());
        }
        r
    }
}

impl StickerPackOperationView {
    /// Every field unset.
    pub open spec fn empty() -> StickerPackOperationView {
        StickerPackOperationView {
            pack_id: None,
            pack_key: None,
            kind: None,
        }
    }
}

impl Default for StickerPackOperation {
    fn default() -> (r: Self)
        ensures
            r.deep_view() == StickerPackOperationView::empty(),
    {
        let r = StickerPackOperation {
            pack_id: None,
            pack_key: None,
            kind: None,
        };
        proof {
            assert(r.deep_view() =~= StickerPackOperationView::empty());
        }
        r
    }
}

/// What a device should fetch again.
#[derive(Debug, Clone, Copy, PartialEq, Eq, Structural)]
pub enum FetchLatestType {
    Unknown,
    LocalProfile,
    StorageManifest,
    SubscriptionStatus,
}

impl DeepView for FetchLatestType {
    type V = FetchLatestType;

    open spec fn deep_view(&self) -> FetchLatestType {
        *self
    }
}

/// The kind of a call, in a call event.
#[derive(Debug, Clone, Copy, PartialEq, Eq, Structural)]
pub enum CallEventType {
    Unknown,
    AudioCall,
    VideoCall,
    GroupCall,
    AdHocCall,
}

impl DeepView for CallEventType {
    type V = CallEventType;

    open spec fn deep_view(&self) -> CallEventType {
        *self
    }
}

/// The direction of a call, in a call event.
#[derive(Debug, Clone, Copy, PartialEq, Eq, Structural)]
pub enum CallEventDirection {
    Unknown,
    Incoming,
    Outgoing,
}

impl DeepView for CallEventDirection {
    type V = CallEventDirection;

    open spec fn deep_view(&self) -> CallEventDirection {
        *self
    }
}

/// What a call event reports.
#[derive(Debug, Clone, Copy, PartialEq, Eq, Structural)]
pub enum CallEventEvent {
    Unknown,
    Accepted,
    NotAccepted,
    Delete,
    Observed,
}

impl DeepView for CallEventEvent {
    type V = CallEventEvent;

    open spec fn deep_view(&self) -> CallEventEvent {
        *self
    }
}

/// What happened to a call on another device.
#[derive(Debug, PartialEq)]
pub struct CallEvent {
    pub conversation_id: Option<Vec<u8>>,
    pub call_id: Option<u64>,
    pub timestamp: Option<u64>,
    pub kind: Option<CallEventType>,
    pub direction: Option<CallEventDirection>,
    pub event: Option<CallEventEvent>,
}

/// What a [`CallEvent`] holds.
#[verifier::ext_equal]
pub struct CallEventView {
    pub conversation_id: Option<Seq<u8>>,
    pub call_id: Option<u64>,
    pub timestamp: Option<u64>,
    pub kind: Option<CallEventType>,
    pub direction: Option<CallEventDirection>,
    pub event: Option<CallEventEvent>,
}

impl DeepView for CallEvent {
    type V = CallEventView;

    open spec fn deep_view(&self) -> CallEventView {
        CallEventView {
            conversation_id: self.conversation_id.deep_view(),
            call_id: self.call_id,
            timestamp: self.timestamp,
            kind: self.kind,
            direction: self.direction,
            event: self.event,
        }
    }
}

impl Clone for CallEvent {
    fn clone(&self) -> (r: Self)
        ensures
            r.deep_view() == self.deep_view(),
    {
        let r = CallEvent {
            conversation_id: self.conversation_id.clone(),
            call_id: self.call_id,
            timestamp: self.timestamp,
            kind: self.kind,
            direction: self.direction,
            event: self.event,
        };
        proof {
            assert(r.conversation_id.deep_view() =~= self.conversation_id.deep_view());
        }
        r
    }
}

impl CallEventView {
    /// Every field unset.
    pub open spec fn empty() -> CallEventView {
        CallEventView {
            conversation_id: None,
            call_id: None,
            timestamp: None,
            kind: None,
            direction: None,
            event: None,
        }
    }
}

impl Default for CallEvent {
    fn default() -> (r: Self)
        ensures
            r.deep_view() == CallEventView::empty(),
    {
        let r = CallEvent {
            conversation_id: None,
            call_id: None,
            timestamp: None,
            kind: None,
            direction: None,
            event: None,
        };
        proof {
            assert(r.deep_view() =~= CallEventView::empty());
        }
        r
    }
}

/// How a message request was answered.
#[derive(Debug, Clone, Copy, PartialEq, Eq, Structural)]
pub enum MessageRequestResponseType {
    Unknown,
    Accept,
    Delete,
    Block,
    BlockAndDelete,
    Spam,
    BlockAndSpam,
}

impl DeepView for MessageRequestResponseType {
    type V = MessageRequestResponseType;

    open spec fn deep_view(&self) -> MessageRequestResponseType {
        *self
    }
}

/// The answer to a message request.
#[derive(Debug, PartialEq)]
pub struct MessageRequestResponse {
    pub thread_aci: Option<String>,
    pub thread_aci_binary: Option<Vec<u8>>,
    pub group_id: Option<Vec<u8>>,
    pub kind: Option<MessageRequestResponseType>,
}

/// What a [`MessageRequestResponse`] holds.
#[verifier::ext_equal]
pub struct MessageRequestResponseView {
    pub thread_aci: Option<Seq<char>>,
    pub thread_aci_binary: Option<Seq<u8>>,
    pub group_id: Option<Seq<u8>>,
    pub kind: Option<MessageRequestResponseType>,
}

impl DeepView for MessageRequestResponse {
    type V = MessageRequestResponseView;

    open spec fn deep_view(&self) -> MessageRequestResponseView {
        MessageRequestResponseView {
            thread_aci: self.thread_aci.deep_view(),
            thread_aci_binary: self.thread_aci_binary.deep_view(),
            group_id: self.group_id.deep_view(),
            kind: self.kind,
        }
    }
}

impl Clone for MessageRequestResponse {
    fn clone(&self) -> (r: Self)
        ensures
            r.deep_view() == self.deep_view(),
    {
        let r = MessageRequestResponse {
            thread_aci: self.thread_aci.clone(),
            thread_aci_binary: self.thread_aci_binary.clone(),
            group_id: self.group_id.clone(),
            kind: self.kind,
        };
        proof {
            assert(r.thread_aci.deep_view() =~= self.thread_aci.deep_view());
            assert(r.thread_aci_binary.deep_view() =~= self.thread_aci_binary.deep_view());
            assert(r.group_id.deep_view() =~= self.group_id.deep_view());
        }
        r
    }
}

impl MessageRequestResponseView {
    /// Every field unset.
    pub open spec fn empty() -> MessageRequestResponseView {
        MessageRequestResponseView {
            thread_aci: None,
            thread_aci_binary: None,
            group_id: None,
            kind: None,
        }
    }
}

impl Default for MessageRequestResponse {
    fn default() -> (r: Self)
        ensures
            r.deep_view() == MessageRequestResponseView::empty(),
    {
        let r = MessageRequestResponse {
            thread_aci: None,
            thread_aci_binary: None,
            group_id: None,
            kind: None,
        };
        proof {
            assert(r.deep_view() =~= MessageRequestResponseView::empty());
        }
        r
    }
}

/// Who wrote a message.
#[derive(Debug, PartialEq)]
pub enum Author {
    AuthorServiceId(String),
    AuthorServiceIdBinary(Vec<u8>),
    AuthorE164(String),
}

/// What a [`Author`] holds.
#[verifier::ext_equal]
pub enum AuthorView {
    AuthorServiceId(Seq<char>),
    AuthorServiceIdBinary(Seq<u8>),
    AuthorE164(Seq<char>),
}

impl DeepView for Author {
    type V = AuthorView;

    open spec fn deep_view(&self) -> AuthorView {
        match self {
            Author::AuthorServiceId(x) => AuthorView::AuthorServiceId(x.deep_view()),
            Author::AuthorServiceIdBinary(x) => AuthorView::AuthorServiceIdBinary(x.deep_view()),
            Author::AuthorE164(x) => AuthorView::AuthorE164(x.deep_view()),
        }
    }
}

impl Clone for Author {
    fn clone(&self) -> (r: Self)
        ensures
            r.deep_view() == self.deep_view(),
    {
        let r = match self {
            Author::AuthorServiceId(x) => Author::AuthorServiceId(x.clone()),
            Author::AuthorServiceIdBinary(x) => Author::AuthorServiceIdBinary(x.clone()),
            Author::AuthorE164(x) => Author::AuthorE164(x.clone()),
        };
        proof {
            assert(r.deep_view() =~= self.deep_view());
        }
        r
    }
}

/// A message, by its author and the time it was sent.
#[derive(Debug, PartialEq)]
pub struct AddressableMessage {
    pub author: Option<Author>,
    pub sent_timestamp: Option<u64>,
}

/// What a [`AddressableMessage`] holds.
#[verifier::ext_equal]
pub struct AddressableMessageView {
    pub author: Option<AuthorView>,
    pub sent_timestamp: Option<u64>,
}

impl DeepView for AddressableMessage {
    type V = AddressableMessageView;

    open spec fn deep_view(&self) -> AddressableMessageView {
        AddressableMessageView {
            author: self.author.deep_view(),
            sent_timestamp: self.sent_timestamp,
        }
    }
}

impl Clone for AddressableMessage {
    fn clone(&self) -> (r: Self)
        ensures
            r.deep_view() == self.deep_view(),
    {
        let r = AddressableMessage {
            author: self.author.clone(),
            sent_timestamp: self.sent_timestamp,
        };
        proof {
            assert(r.author.deep_view() =~= self.author.deep_view());
        }
        r
    }
}

impl AddressableMessageView {
    /// Every field unset.
    pub open spec fn empty() -> AddressableMessageView {
        AddressableMessageView {
            author: None,
            sent_timestamp: None,
        }
    }
}

impl Default for AddressableMessage {
    fn default() -> (r: Self)
        ensures
            r.deep_view() == AddressableMessageView::empty(),
    {
        let r = AddressableMessage {
            author: None,
            sent_timestamp: None,
        };
        proof {
            assert(r.deep_view() =~= AddressableMessageView::empty());
        }
        r
    }
}

/// Messages of one conversation to delete.
#[derive(Debug, PartialEq)]
pub struct MessageDeletes {
    pub messages: Vec<AddressableMessage>,
}

/// What a [`MessageDeletes`] holds.
#[verifier::ext_equal]
pub struct MessageDeletesView {
    pub messages: Seq<AddressableMessageView>,
}

impl DeepView for MessageDeletes {
    type V = MessageDeletesView;

    open spec fn deep_view(&self) -> MessageDeletesView {
        MessageDeletesView {
            messages: self.messages.deep_view(),
        }
    }
}

impl Clone for MessageDeletes {
    fn clone(&self) -> (r: Self)
        ensures
            r.deep_view() == self.deep_view(),
    {
        let r = MessageDeletes {
            messages: self.messages.clone(),
        };
        proof {
            assert(r.messages.deep_view() =~= self.messages.deep_view());
        }
        r
    }
}

impl MessageDeletesView {
    /// Every field unset.
    pub open spec fn empty() -> MessageDeletesView {
        MessageDeletesView {
            messages: Seq::empty(),
        }
    }
}

impl Default for MessageDeletes {
    fn default() -> (r: Self)
        ensures
            r.deep_view() == MessageDeletesView::empty(),
    {
        let r = MessageDeletes {
            messages: Vec::new(),
        };
        proof {
            assert(r.deep_view() =~= MessageDeletesView::empty());
        }
        r
    }
}

/// Messages that were deleted on another device.
#[derive(Debug, PartialEq)]
pub struct DeleteForMe {
    pub message_deletes: Vec<MessageDeletes>,
}

/// What a [`DeleteForMe`] holds.
#[verifier::ext_equal]
pub struct DeleteForMeView {
    pub message_deletes: Seq<MessageDeletesView>,
}

impl DeepView for DeleteForMe {
    type V = DeleteForMeView;

    open spec fn deep_view(&self) -> DeleteForMeView {
        DeleteForMeView {
            message_deletes: self.message_deletes.deep_view(),
        }
    }
}

impl Clone for DeleteForMe {
    fn clone(&self) -> (r: Self)
        ensures
            r.deep_view() == self.deep_view(),
    {
        let r = DeleteForMe {
            message_deletes: self.message_deletes.clone(),
        };
        proof {
            assert(r.message_deletes.deep_view() =~= self.message_deletes.deep_view());
        }
        r
    }
}

impl DeleteForMeView {
    /// Every field unset.
    pub open spec fn empty() -> DeleteForMeView {
        DeleteForMeView {
            message_deletes: Seq::empty(),
        }
    }
}

impl Default for DeleteForMe {
    fn default() -> (r: Self)
        ensures
            r.deep_view() == DeleteForMeView::empty(),
    {
        let r = DeleteForMe {
            message_deletes: Vec::new(),
        };
        proof {
            assert(r.deep_view() =~= DeleteForMeView::empty());
        }
        r
    }
}

/// How far an identity key is trusted.
#[derive(Debug, Clone, Copy, PartialEq, Eq, Structural)]
pub enum VerifiedState {
    Default,
    Verified,
    Unverified,
}

impl DeepView for VerifiedState {
    type V = VerifiedState;

    open spec fn deep_view(&self) -> VerifiedState {
        *self
    }
}

/// The verification state of an identity key.
#[derive(Debug, PartialEq)]
pub struct Verified {
    pub destination_aci: Option<String>,
    pub destination_aci_binary: Option<Vec<u8>>,
    pub identity_key: Option<Vec<u8>>,
    pub state: Option<VerifiedState>,
    pub null_message: Option<Vec<u8>>,
}

/// What a [`Verified`] holds.
#[verifier::ext_equal]
pub struct VerifiedView {
    pub destination_aci: Option<Seq<char>>,
    pub destination_aci_binary: Option<Seq<u8>>,
    pub identity_key: Option<Seq<u8>>,
    pub state: Option<VerifiedState>,
    pub null_message: Option<Seq<u8>>,
}

impl DeepView for Verified {
    type V = VerifiedView;

    open spec fn deep_view(&self) -> VerifiedView {
        VerifiedView {
            destination_aci: self.destination_aci.deep_view(),
            destination_aci_binary: self.destination_aci_binary.deep_view(),
            identity_key: self.identity_key.deep_view(),
            state: self.state,
            null_message: self.null_message.deep_view(),
        }
    }
}

impl Clone for Verified {
    fn clone(&self) -> (r: Self)
        ensures
            r.deep_view() == self.deep_view(),
    {
        let r = Verified {
            destination_aci: self.destination_aci.clone(),
            destination_aci_binary: self.destination_aci_binary.clone(),
            identity_key: self.identity_key.clone(),
            state: self.state,
            null_message: self.null_message.clone(),
        };
        proof {
            assert(r.destination_aci.deep_view() =~= self.destination_aci.deep_view());
            assert(r.destination_aci_binary.deep_view()
                =~= self.destination_aci_binary.deep_view());
            assert(r.identity_key.deep_view() =~= self.identity_key.deep_view());
            assert(r.null_message.deep_view() =~= self.null_message.deep_view());
        }
        r
    }
}

impl VerifiedView {
    /// Every field unset.
    pub open spec fn empty() -> VerifiedView {
        VerifiedView {
            destination_aci: None,
            destination_aci_binary: None,
            identity_key: None,
            state: None,
            null_message: None,
        }
    }
}

impl Default for Verified {
    fn default() -> (r: Self)
        ensures
            r.deep_view() == VerifiedView::empty(),
    {
        let r = Verified {
            destination_aci: None,
            destination_aci_binary: None,
            identity_key: None,
            state: None,
            null_message: None,
        };
        proof {
            assert(r.deep_view() =~= VerifiedView::empty());
        }
        r
    }
}

/// A message between the devices of one account.
#[derive(Debug, PartialEq)]
pub struct SyncMessage {
    pub sent: Option<Sent>,
    pub contacts: Option<ContactsBlob>,
    pub request: Option<RequestType>,
    pub blocked: Option<Blocked>,
    pub verified: Option<Verified>,
    pub sticker_pack_operation: Vec<StickerPackOperation>,
    pub fetch_latest: Option<FetchLatestType>,
    pub keys: Option<Keys>,
    pub message_request_response: Option<MessageRequestResponse>,
    pub call_event: Option<CallEvent>,
    pub delete_for_me: Option<DeleteForMe>,
    pub padding: Option<Vec<u8>>,
    pub rest: Vec<u8>,
}

/// What a [`SyncMessage`] holds.
#[verifier::ext_equal]
pub struct SyncMessageView {
    pub sent: Option<SentView>,
    pub contacts: Option<ContactsBlobView>,
    pub request: Option<RequestType>,
    pub blocked: Option<BlockedView>,
    pub verified: Option<VerifiedView>,
    pub sticker_pack_operation: Seq<StickerPackOperationView>,
    pub fetch_latest: Option<FetchLatestType>,
    pub keys: Option<KeysView>,
    pub message_request_response: Option<MessageRequestResponseView>,
    pub call_event: Option<CallEventView>,
    pub delete_for_me: Option<DeleteForMeView>,
    pub padding: Option<Seq<u8>>,
    pub rest: Seq<u8>,
}

impl DeepView for SyncMessage {
    type V = SyncMessageView;

    open spec fn deep_view(&self) -> SyncMessageView {
        SyncMessageView {
            sent: self.sent.deep_view(),
            contacts: self.contacts.deep_view(),
            request: self.request,
            blocked: self.blocked.deep_view(),
            verified: self.verified.deep_view(),
            sticker_pack_operation: self.sticker_pack_operation.deep_view(),
            fetch_latest: self.fetch_latest,
            keys: self.keys.deep_view(),
            message_request_response: self.message_request_response.deep_view(),
            call_event: self.call_event.deep_view(),
            delete_for_me: self.delete_for_me.deep_view(),
            padding: self.padding.deep_view(),
            rest: self.rest.deep_view(),
        }
    }
}

impl Clone for SyncMessage {
    fn clone(&self) -> (r: Self)
        ensures
            r.deep_view() == self.deep_view(),
    {
        let r = SyncMessage {
            sent: self.sent.clone(),
            contacts: self.contacts.clone(),
            request: self.request,
            blocked: self.blocked.clone(),
            verified: self.verified.clone(),
            sticker_pack_operation: self.sticker_pack_operation.clone(),
            fetch_latest: self.fetch_latest,
            keys: self.keys.clone(),
            message_request_response: self.message_request_response.clone(),
            call_event: self.call_event.clone(),
            delete_for_me: self.delete_for_me.clone(),
            padding: self.padding.clone(),
            rest: self.rest.clone(),
        };
        proof {
            assert(r.sent.deep_view() =~= self.sent.deep_view());
            assert(r.contacts.deep_view() =~= self.contacts.deep_view());
            assert(r.blocked.deep_view() =~= self.blocked.deep_view());
            assert(r.verified.deep_view() =~= self.verified.deep_view());
            assert(r.sticker_pack_operation.deep_view()
                =~= self.sticker_pack_operation.deep_view());
            assert(r.keys.deep_view() =~= self.keys.deep_view());
            assert(r.message_request_response.deep_view()
                =~= self.message_request_response.deep_view());
            assert(r.call_event.deep_view() =~= self.call_event.deep_view());
            assert(r.delete_for_me.deep_view() =~= self.delete_for_me.deep_view());
            assert(r.padding.deep_view() =~= self.padding.deep_view());
            assert(r.rest.deep_view() =~= self.rest.deep_view());
        }
        r
    }
}

impl SyncMessageView {
    /// Every field unset.
    pub open spec fn empty() -> SyncMessageView {
        SyncMessageView {
            sent: None,
            contacts: None,
            request: None,
            blocked: None,
            verified: None,
            sticker_pack_operation: Seq::empty(),
            fetch_latest: None,
            keys: None,
            message_request_response: None,
            call_event: None,
            delete_for_me: None,
            padding: None,
            rest: Seq::empty(),
        }
    }
}

impl Default for SyncMessage {
    fn default() -> (r: Self)
        ensures
            r.deep_view() == SyncMessageView::empty(),
    {
        let r = SyncMessage {
            sent: None,
            contacts: None,
            request: None,
            blocked: None,
            verified: None,
            sticker_pack_operation: Vec::new(),
            fetch_latest: None,
            keys: None,
            message_request_response: None,
            call_event: None,
            delete_for_me: None,
            padding: None,
            rest: Vec::new(),
        };
        proof {
            assert(r.deep_view() =~= SyncMessageView::empty());
        }
        r
    }
}

/// What a decrypted message is. The kinds that the library only passes on or drops are
/// kept encoded.
#[derive(Debug, PartialEq)]
pub enum ContentBody {
    NullMessage(Vec<u8>),
    DataMessage(DataMessage),
    SynchronizeMessage(SyncMessage),
    CallMessage(Vec<u8>),
    ReceiptMessage(Vec<u8>),
    TypingMessage(Vec<u8>),
    StoryMessage(Vec<u8>),
    PniSignatureMessage(Vec<u8>),
    EditMessage(EditMessage),
    DecryptionErrorMessage(Vec<u8>),
}

/// What a [`ContentBody`] holds.
#[verifier::ext_equal]
pub enum ContentBodyView {
    NullMessage(Seq<u8>),
    DataMessage(DataMessageView),
    SynchronizeMessage(SyncMessageView),
    CallMessage(Seq<u8>),
    ReceiptMessage(Seq<u8>),
    TypingMessage(Seq<u8>),
    StoryMessage(Seq<u8>),
    PniSignatureMessage(Seq<u8>),
    EditMessage(EditMessageView),
    DecryptionErrorMessage(Seq<u8>),
}

impl DeepView for ContentBody {
    type V = ContentBodyView;

    open spec fn deep_view(&self) -> ContentBodyView {
        match self {
            ContentBody::NullMessage(x) => ContentBodyView::NullMessage(x.deep_view()),
            ContentBody::DataMessage(x) => ContentBodyView::DataMessage(x.deep_view()),
            ContentBody::SynchronizeMessage(x) => ContentBodyView::SynchronizeMessage(
                x.deep_view(),
            ),
            ContentBody::CallMessage(x) => ContentBodyView::CallMessage(x.deep_view()),
            ContentBody::ReceiptMessage(x) => ContentBodyView::ReceiptMessage(x.deep_view()),
            ContentBody::TypingMessage(x) => ContentBodyView::TypingMessage(x.deep_view()),
            ContentBody::StoryMessage(x) => ContentBodyView::StoryMessage(x.deep_view()),
            ContentBody::PniSignatureMessage(x) => ContentBodyView::PniSignatureMessage(
                x.deep_view(),
            ),
            ContentBody::EditMessage(x) => ContentBodyView::EditMessage(x.deep_view()),
            ContentBody::DecryptionErrorMessage(x) => ContentBodyView::DecryptionErrorMessage(
                x.deep_view(),
            ),
        }
    }
}

impl Clone for ContentBody {
    fn clone(&self) -> (r: Self)
        ensures
            r.deep_view() == self.deep_view(),
    {
        let r = match self {
            ContentBody::NullMessage(x) => ContentBody::NullMessage(x.clone()),
            ContentBody::DataMessage(x) => ContentBody::DataMessage(x.clone()),
            ContentBody::SynchronizeMessage(x) => ContentBody::SynchronizeMessage(x.clone()),
            ContentBody::CallMessage(x) => ContentBody::CallMessage(x.clone()),
            ContentBody::ReceiptMessage(x) => ContentBody::ReceiptMessage(x.clone()),
            ContentBody::TypingMessage(x) => ContentBody::TypingMessage(x.clone()),
            ContentBody::StoryMessage(x) => ContentBody::StoryMessage(x.clone()),
            ContentBody::PniSignatureMessage(x) => ContentBody::PniSignatureMessage(x.clone()),
            ContentBody::EditMessage(x) => ContentBody::EditMessage(x.clone()),
            ContentBody::DecryptionErrorMessage(x) => ContentBody::DecryptionErrorMessage(
                x.clone(),
            ),
        };
        proof {
            assert(r.deep_view() =~= self.deep_view());
        }
        r
    }
}

/// What is known of a message besides its content.
#[derive(Debug, PartialEq)]
pub struct Metadata {
    pub sender: ServiceId,
    pub destination: ServiceId,
    pub sender_device: u32,
    pub server_guid: Option<Uuid>,
    /// When the message was sent, in milliseconds since the epoch.
    pub timestamp: i64,
    /// When the server took it, in milliseconds since the epoch.
    pub server_timestamp: i64,
    pub needs_receipt: bool,
    pub unidentified_sender: bool,
    pub was_plaintext: bool,
    pub report_spam_token: Option<Vec<u8>>,
}

/// What a [`Metadata`] holds.
#[verifier::ext_equal]
pub struct MetadataView {
    pub sender: ServiceIdView,
    pub destination: ServiceIdView,
    pub sender_device: u32,
    pub server_guid: Option<Seq<u8>>,
    pub timestamp: i64,
    pub server_timestamp: i64,
    pub needs_receipt: bool,
    pub unidentified_sender: bool,
    pub was_plaintext: bool,
    pub report_spam_token: Option<Seq<u8>>,
}

impl DeepView for Metadata {
    type V = MetadataView;

    open spec fn deep_view(&self) -> MetadataView {
        MetadataView {
            sender: self.sender.deep_view(),
            destination: self.destination.deep_view(),
            sender_device: self.sender_device,
            server_guid: self.server_guid.deep_view(),
            timestamp: self.timestamp,
            server_timestamp: self.server_timestamp,
            needs_receipt: self.needs_receipt,
            unidentified_sender: self.unidentified_sender,
            was_plaintext: self.was_plaintext,
            report_spam_token: self.report_spam_token.deep_view(),
        }
    }
}

impl Clone for Metadata {
    fn clone(&self) -> (r: Self)
        ensures
            r.deep_view() == self.deep_view(),
    {
        let r = Metadata {
            sender: self.sender,
            destination: self.destination,
            sender_device: self.sender_device,
            server_guid: self.server_guid,
            timestamp: self.timestamp,
            server_timestamp: self.server_timestamp,
            needs_receipt: self.needs_receipt,
            unidentified_sender: self.unidentified_sender,
            was_plaintext: self.was_plaintext,
            report_spam_token: self.report_spam_token.clone(),
        };
        proof {
            assert(r.report_spam_token.deep_view() =~= self.report_spam_token.deep_view());
        }
        r
    }
}

/// A decrypted message.
#[derive(Debug, PartialEq)]
pub struct Content {
    pub metadata: Metadata,
    pub body: ContentBody,
}

/// What a [`Content`] holds.
#[verifier::ext_equal]
pub struct ContentView {
    pub metadata: MetadataView,
    pub body: ContentBodyView,
}

impl DeepView for Content {
    type V = ContentView;

    open spec fn deep_view(&self) -> ContentView {
        ContentView {
            metadata: self.metadata.deep_view(),
            body: self.body.deep_view(),
        }
    }
}

impl Clone for Content {
    fn clone(&self) -> (r: Self)
        ensures
            r.deep_view() == self.deep_view(),
    {
        let r = Content {
            metadata: self.metadata.clone(),
            body: self.body.clone(),
        };
        r
    }
}

/// A name in its two parts.
#[derive(Debug, PartialEq)]
pub struct ContactName {
    pub given: String,
    pub family: String,
}

/// What a [`ContactName`] holds.
#[verifier::ext_equal]
pub struct ContactNameView {
    pub given: Seq<char>,
    pub family: Seq<char>,
}

impl DeepView for ContactName {
    type V = ContactNameView;

    open spec fn deep_view(&self) -> ContactNameView {
        ContactNameView {
            given: self.given.deep_view(),
            family: self.family.deep_view(),
        }
    }
}

impl Clone for ContactName {
    fn clone(&self) -> (r: Self)
        ensures
            r.deep_view() == self.deep_view(),
    {
        let r = ContactName {
            given: self.given.clone(),
            family: self.family.clone(),
        };
        r
    }
}

impl ContactNameView {
    /// Every field unset.
    pub open spec fn empty() -> ContactNameView {
        ContactNameView {
            given: Seq::empty(),
            family: Seq::empty(),
        }
    }
}

impl Default for ContactName {
    fn default() -> (r: Self)
        ensures
            r.deep_view() == ContactNameView::empty(),
    {
        let r = ContactName {
            given: String::new(),
            family: String::new(),
        };
        proof {
            assert(r.deep_view() =~= ContactNameView::empty());
        }
        r
    }
}

/// A contact, as the storage service keeps it.
#[derive(Debug, PartialEq)]
pub struct ContactRecord {
    pub aci: String,
    pub aci_binary: Vec<u8>,
    pub pni: String,
    pub pni_binary: Vec<u8>,
    pub e164: String,
    pub profile_key: Vec<u8>,
    pub given_name: String,
    pub family_name: String,
    pub username: String,
    pub blocked: bool,
    pub whitelisted: bool,
    pub archived: bool,
    pub marked_unread: bool,
    pub muted_until_timestamp: u64,
    pub hide_story: bool,
    pub hidden: bool,
    pub unregistered_at_timestamp: u64,
    pub pni_signature_verified: bool,
    pub system_given_name: String,
    pub system_family_name: String,
    pub system_nickname: String,
    pub nickname: Option<ContactName>,
    pub note: String,
}

/// What a [`ContactRecord`] holds.
#[verifier::ext_equal]
pub struct ContactRecordView {
    pub aci: Seq<char>,
    pub aci_binary: Seq<u8>,
    pub pni: Seq<char>,
    pub pni_binary: Seq<u8>,
    pub e164: Seq<char>,
    pub profile_key: Seq<u8>,
    pub given_name: Seq<char>,
    pub family_name: Seq<char>,
    pub username: Seq<char>,
    pub blocked: bool,
    pub whitelisted: bool,
    pub archived: bool,
    pub marked_unread: bool,
    pub muted_until_timestamp: u64,
    pub hide_story: bool,
    pub hidden: bool,
    pub unregistered_at_timestamp: u64,
    pub pni_signature_verified: bool,
    pub system_given_name: Seq<char>,
    pub system_family_name: Seq<char>,
    pub system_nickname: Seq<char>,
    pub nickname: Option<ContactNameView>,
    pub note: Seq<char>,
}

impl DeepView for ContactRecord {
    type V = ContactRecordView;

    open spec fn deep_view(&self) -> ContactRecordView {
        ContactRecordView {
            aci: self.aci.deep_view(),
            aci_binary: self.aci_binary.deep_view(),
            pni: self.pni.deep_view(),
            pni_binary: self.pni_binary.deep_view(),
            e164: self.e164.deep_view(),
            profile_key: self.profile_key.deep_view(),
            given_name: self.given_name.deep_view(),
            family_name: self.family_name.deep_view(),
            username: self.username.deep_view(),
            blocked: self.blocked,
            whitelisted: self.whitelisted,
            archived: self.archived,
            marked_unread: self.marked_unread,
            muted_until_timestamp: self.muted_until_timestamp,
            hide_story: self.hide_story,
            hidden: self.hidden,
            unregistered_at_timestamp: self.unregistered_at_timestamp,
            pni_signature_verified: self.pni_signature_verified,
            system_given_name: self.system_given_name.deep_view(),
            system_family_name: self.system_family_name.deep_view(),
            system_nickname: self.system_nickname.deep_view(),
            nickname: self.nickname.deep_view(),
            note: self.note.deep_view(),
        }
    }
}

impl Clone for ContactRecord {
    fn clone(&self) -> (r: Self)
        ensures
            r.deep_view() == self.deep_view(),
    {
        let r = ContactRecord {
            aci: self.aci.clone(),
            aci_binary: self.aci_binary.clone(),
            pni: self.pni.clone(),
            pni_binary: self.pni_binary.clone(),
            e164: self.e164.clone(),
            profile_key: self.profile_key.clone(),
            given_name: self.given_name.clone(),
            family_name: self.family_name.clone(),
            username: self.username.clone(),
            blocked: self.blocked,
            whitelisted: self.whitelisted,
            archived: self.archived,
            marked_unread: self.marked_unread,
            muted_until_timestamp: self.muted_until_timestamp,
            hide_story: self.hide_story,
            hidden: self.hidden,
            unregistered_at_timestamp: self.unregistered_at_timestamp,
            pni_signature_verified: self.pni_signature_verified,
            system_given_name: self.system_given_name.clone(),
            system_family_name: self.system_family_name.clone(),
            system_nickname: self.system_nickname.clone(),
            nickname: self.nickname.clone(),
            note: self.note.clone(),
        };
        proof {
            assert(r.aci_binary.deep_view() =~= self.aci_binary.deep_view());
            assert(r.pni_binary.deep_view() =~= self.pni_binary.deep_view());
            assert(r.profile_key.deep_view() =~= self.profile_key.deep_view());
            assert(r.nickname.deep_view() =~= self.nickname.deep_view());
        }
        r
    }
}

impl ContactRecordView {
    /// Every field unset.
    pub open spec fn empty() -> ContactRecordView {
        ContactRecordView {
            aci: Seq::empty(),
            aci_binary: Seq::empty(),
            pni: Seq::empty(),
            pni_binary: Seq::empty(),
            e164: Seq::empty(),
            profile_key: Seq::empty(),
            given_name: Seq::empty(),
            family_name: Seq::empty(),
            username: Seq::empty(),
            blocked: false,
            whitelisted: false,
            archived: false,
            marked_unread: false,
            muted_until_timestamp: 0,
            hide_story: false,
            hidden: false,
            unregistered_at_timestamp: 0,
            pni_signature_verified: false,
            system_given_name: Seq::empty(),
            system_family_name: Seq::empty(),
            system_nickname: Seq::empty(),
            nickname: None,
            note: Seq::empty(),
        }
    }
}

impl Default for ContactRecord {
    fn default() -> (r: Self)
        ensures
            r.deep_view() == ContactRecordView::empty(),
    {
        let r = ContactRecord {
            aci: String::new(),
            aci_binary: Vec::new(),
            pni: String::new(),
            pni_binary: Vec::new(),
            e164: String::new(),
            profile_key: Vec::new(),
            given_name: String::new(),
            family_name: String::new(),
            username: String::new(),
            blocked: false,
            whitelisted: false,
            archived: false,
            marked_unread: false,
            muted_until_timestamp: 0,
            hide_story: false,
            hidden: false,
            unregistered_at_timestamp: 0,
            pni_signature_verified: false,
            system_given_name: String::new(),
            system_family_name: String::new(),
            system_nickname: String::new(),
            nickname: None,
            note: String::new(),
        };
        proof {
            assert(r.deep_view() =~= ContactRecordView::empty());
        }
        r
    }
}

/// A group, as the storage service keeps it.
#[derive(Debug, PartialEq)]
pub struct GroupV2Record {
    pub master_key: Vec<u8>,
    pub blocked: bool,
    pub whitelisted: bool,
    pub archived: bool,
    pub marked_unread: bool,
    pub muted_until_timestamp: u64,
    pub dont_notify_for_mentions_if_muted: bool,
    pub hide_story: bool,
    pub story_send_mode: i32,
    pub verified_name_hash: Vec<u8>,
    pub avatar_color: Option<i32>,
}

/// What a [`GroupV2Record`] holds.
#[verifier::ext_equal]
pub struct GroupV2RecordView {
    pub master_key: Seq<u8>,
    pub blocked: bool,
    pub whitelisted: bool,
    pub archived: bool,
    pub marked_unread: bool,
    pub muted_until_timestamp: u64,
    pub dont_notify_for_mentions_if_muted: bool,
    pub hide_story: bool,
    pub story_send_mode: i32,
    pub verified_name_hash: Seq<u8>,
    pub avatar_color: Option<i32>,
}

impl DeepView for GroupV2Record {
    type V = GroupV2RecordView;

    open spec fn deep_view(&self) -> GroupV2RecordView {
        GroupV2RecordView {
            master_key: self.master_key.deep_view(),
            blocked: self.blocked,
            whitelisted: self.whitelisted,
            archived: self.archived,
            marked_unread: self.marked_unread,
            muted_until_timestamp: self.muted_until_timestamp,
            dont_notify_for_mentions_if_muted: self.dont_notify_for_mentions_if_muted,
            hide_story: self.hide_story,
            story_send_mode: self.story_send_mode,
            verified_name_hash: self.verified_name_hash.deep_view(),
            avatar_color: self.avatar_color,
        }
    }
}

impl Clone for GroupV2Record {
    fn clone(&self) -> (r: Self)
        ensures
            r.deep_view() == self.deep_view(),
    {
        let r = GroupV2Record {
            master_key: self.master_key.clone(),
            blocked: self.blocked,
            whitelisted: self.whitelisted,
            archived: self.archived,
            marked_unread: self.marked_unread,
            muted_until_timestamp: self.muted_until_timestamp,
            dont_notify_for_mentions_if_muted: self.dont_notify_for_mentions_if_muted,
            hide_story: self.hide_story,
            story_send_mode: self.story_send_mode,
            verified_name_hash: self.verified_name_hash.clone(),
            avatar_color: self.avatar_color,
        };
        proof {
            assert(r.master_key.deep_view() =~= self.master_key.deep_view());
            assert(r.verified_name_hash.deep_view() =~= self.verified_name_hash.deep_view());
        }
        r
    }
}

impl GroupV2RecordView {
    /// Every field unset.
    pub open spec fn empty() -> GroupV2RecordView {
        GroupV2RecordView {
            master_key: Seq::empty(),
            blocked: false,
            whitelisted: false,
            archived: false,
            marked_unread: false,
            muted_until_timestamp: 0,
            dont_notify_for_mentions_if_muted: false,
            hide_story: false,
            story_send_mode: 0,
            verified_name_hash: Seq::empty(),
            avatar_color: None,
        }
    }
}

impl Default for GroupV2Record {
    fn default() -> (r: Self)
        ensures
            r.deep_view() == GroupV2RecordView::empty(),
    {
        let r = GroupV2Record {
            master_key: Vec::new(),
            blocked: false,
            whitelisted: false,
            archived: false,
            marked_unread: false,
            muted_until_timestamp: 0,
            dont_notify_for_mentions_if_muted: false,
            hide_story: false,
            story_send_mode: 0,
            verified_name_hash: Vec::new(),
            avatar_color: None,
        };
        proof {
            assert(r.deep_view() =~= GroupV2RecordView::empty());
        }
        r
    }
}

/// The type of a record in the storage manifest. A type that the library does not
/// know keeps its number.
#[derive(Debug, Clone, Copy, PartialEq, Eq, Structural)]
pub enum ItemType {
    Contact,
    GroupV2,
    Account,
    ChatFolder,
    Other(i32),
}

impl DeepView for ItemType {
    type V = ItemType;

    open spec fn deep_view(&self) -> ItemType {
        *self
    }
}

/// A record that the storage manifest lists.
#[derive(Debug, PartialEq)]
pub struct Identifier {
    pub raw: Vec<u8>,
    pub kind: ItemType,
}

/// What a [`Identifier`] holds.
#[verifier::ext_equal]
pub struct IdentifierView {
    pub raw: Seq<u8>,
    pub kind: ItemType,
}

impl DeepView for Identifier {
    type V = IdentifierView;

    open spec fn deep_view(&self) -> IdentifierView {
        IdentifierView {
            raw: self.raw.deep_view(),
            kind: self.kind,
        }
    }
}

impl Clone for Identifier {
    fn clone(&self) -> (r: Self)
        ensures
            r.deep_view() == self.deep_view(),
    {
        let r = Identifier {
            raw: self.raw.clone(),
            kind: self.kind,
        };
        proof {
            assert(r.raw.deep_view() =~= self.raw.deep_view());
        }
        r
    }
}

/// The storage service's index of everything it keeps for the account.
#[derive(Debug, PartialEq)]
pub struct ManifestRecord {
    pub version: u64,
    pub source_device: u32,
    pub identifiers: Vec<Identifier>,
    pub record_ikm: Vec<u8>,
}

/// What a [`ManifestRecord`] holds.
#[verifier::ext_equal]
pub struct ManifestRecordView {
    pub version: u64,
    pub source_device: u32,
    pub identifiers: Seq<IdentifierView>,
    pub record_ikm: Seq<u8>,
}

impl DeepView for ManifestRecord {
    type V = ManifestRecordView;

    open spec fn deep_view(&self) -> ManifestRecordView {
        ManifestRecordView {
            version: self.version,
            source_device: self.source_device,
            identifiers: self.identifiers.deep_view(),
            record_ikm: self.record_ikm.deep_view(),
        }
    }
}

impl Clone for ManifestRecord {
    fn clone(&self) -> (r: Self)
        ensures
            r.deep_view() == self.deep_view(),
    {
        let r = ManifestRecord {
            version: self.version,
            source_device: self.source_device,
            identifiers: self.identifiers.clone(),
            record_ikm: self.record_ikm.clone(),
        };
        proof {
            assert(r.identifiers.deep_view() =~= self.identifiers.deep_view());
            assert(r.record_ikm.deep_view() =~= self.record_ikm.deep_view());
        }
        r
    }
}

impl ManifestRecordView {
    /// Every field unset.
    pub open spec fn empty() -> ManifestRecordView {
        ManifestRecordView {
            version: 0,
            source_device: 0,
            identifiers: Seq::empty(),
            record_ikm: Seq::empty(),
        }
    }
}

impl Default for ManifestRecord {
    fn default() -> (r: Self)
        ensures
            r.deep_view() == ManifestRecordView::empty(),
    {
        let r = ManifestRecord {
            version: 0,
            source_device: 0,
            identifiers: Vec::new(),
            record_ikm: Vec::new(),
        };
        proof {
            assert(r.deep_view() =~= ManifestRecordView::empty());
        }
        r
    }
}

} // verus!

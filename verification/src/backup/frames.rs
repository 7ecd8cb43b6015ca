//! The frames of a message backup, as plain values: the fields that an import reads.
use vstd::prelude::*;

use crate::model::access::AccessRequired;
use crate::proto::{ContactName, ContactNameView};

verus! {

/// A person that the account knows.
#[derive(Debug, PartialEq)]
pub struct Contact {
    pub aci: Option<Vec<u8>>,
    pub pni: Option<Vec<u8>>,
    pub username: Option<String>,
    pub e164: Option<u64>,
    pub blocked: bool,
    pub profile_key: Option<Vec<u8>>,
    pub profile_given_name: Option<String>,
    pub profile_family_name: Option<String>,
    pub hide_story: bool,
    pub nickname: Option<ContactName>,
    pub system_given_name: String,
    pub system_family_name: String,
    pub system_nickname: String,
    pub note: String,
}

/// What a [`Contact`] holds.
#[verifier::ext_equal]
pub struct ContactView {
    pub aci: Option<Seq<u8>>,
    pub pni: Option<Seq<u8>>,
    pub username: Option<Seq<char>>,
    pub e164: Option<u64>,
    pub blocked: bool,
    pub profile_key: Option<Seq<u8>>,
    pub profile_given_name: Option<Seq<char>>,
    pub profile_family_name: Option<Seq<char>>,
    pub hide_story: bool,
    pub nickname: Option<ContactNameView>,
    pub system_given_name: Seq<char>,
    pub system_family_name: Seq<char>,
    pub system_nickname: Seq<char>,
    pub note: Seq<char>,
}

impl DeepView for Contact {
    type V = ContactView;

    open spec fn deep_view(&self) -> ContactView {
        ContactView {
            aci: self.aci.deep_view(),
            pni: self.pni.deep_view(),
            username: self.username.deep_view(),
            e164: self.e164,
            blocked: self.blocked,
            profile_key: self.profile_key.deep_view(),
            profile_given_name: self.profile_given_name.deep_view(),
            profile_family_name: self.profile_family_name.deep_view(),
            hide_story: self.hide_story,
            nickname: self.nickname.deep_view(),
            system_given_name: self.system_given_name.deep_view(),
            system_family_name: self.system_family_name.deep_view(),
            system_nickname: self.system_nickname.deep_view(),
            note: self.note.deep_view(),
        }
    }
}

impl Clone for Contact {
    fn clone(&self) -> (r: Self)
        ensures
            r.deep_view() == self.deep_view(),
    {
        let r = Contact {
            aci: self.aci.clone(),
            pni: self.pni.clone(),
            username: self.username.clone(),
            e164: self.e164,
            blocked: self.blocked,
            profile_key: self.profile_key.clone(),
            profile_given_name: self.profile_given_name.clone(),
            profile_family_name: self.profile_family_name.clone(),
            hide_story: self.hide_story,
            nickname: self.nickname.clone(),
            system_given_name: self.system_given_name.clone(),
            system_family_name: self.system_family_name.clone(),
            system_nickname: self.system_nickname.clone(),
            note: self.note.clone(),
        };
        proof {
            assert(r.aci.deep_view() =~= self.aci.deep_view());
            assert(r.pni.deep_view() =~= self.pni.deep_view());
            assert(r.username.deep_view() =~= self.username.deep_view());
            assert(r.profile_key.deep_view() =~= self.profile_key.deep_view());
            assert(r.profile_given_name.deep_view() =~= self.profile_given_name.deep_view());
            assert(r.profile_family_name.deep_view() =~= self.profile_family_name.deep_view());
            assert(r.nickname.deep_view() =~= self.nickname.deep_view());
        }
        r
    }
}

impl ContactView {
    /// Every field unset.
    pub open spec fn empty() -> ContactView {
        ContactView {
            aci: None,
            pni: None,
            username: None,
            e164: None,
            blocked: false,
            profile_key: None,
            profile_given_name: None,
            profile_family_name: None,
            hide_story: false,
            nickname: None,
            system_given_name: Seq::empty(),
            system_family_name: Seq::empty(),
            system_nickname: Seq::empty(),
            note: Seq::empty(),
        }
    }
}

impl Default for Contact {
    fn default() -> (r: Self)
        ensures
            r.deep_view() == ContactView::empty(),
    {
        let r = Contact {
            aci: None,
            pni: None,
            username: None,
            e164: None,
            blocked: false,
            profile_key: None,
            profile_given_name: None,
            profile_family_name: None,
            hide_story: false,
            nickname: None,
            system_given_name: String::new(),
            system_family_name: String::new(),
            system_nickname: String::new(),
            note: String::new(),
        };
        proof {
            assert(r.deep_view() =~= ContactView::empty());
        }
        r
    }
}

/// One attribute of a group.
#[derive(Debug, PartialEq)]
pub enum GroupAttribute {
    Title(String),
    Other,
}

/// What a [`GroupAttribute`] holds.
#[verifier::ext_equal]
pub enum GroupAttributeView {
    Title(Seq<char>),
    Other,
}

impl DeepView for GroupAttribute {
    type V = GroupAttributeView;

    open spec fn deep_view(&self) -> GroupAttributeView {
        match self {
            GroupAttribute::Title(x) => GroupAttributeView::Title(x.deep_view()),
            GroupAttribute::Other => GroupAttributeView::Other,
        }
    }
}

impl Clone for GroupAttribute {
    fn clone(&self) -> (r: Self)
        ensures
            r.deep_view() == self.deep_view(),
    {
        let r = match self {
            GroupAttribute::Title(x) => GroupAttribute::Title(x.clone()),
            GroupAttribute::Other => GroupAttribute::Other,
        };
        proof {
            assert(r.deep_view() =~= self.deep_view());
        }
        r
    }
}

/// An attribute of a group, where it is set.
#[derive(Debug, PartialEq)]
pub struct GroupAttributeBlob {
    pub content: Option<GroupAttribute>,
}

/// What a [`GroupAttributeBlob`] holds.
#[verifier::ext_equal]
pub struct GroupAttributeBlobView {
    pub content: Option<GroupAttributeView>,
}

impl DeepView for GroupAttributeBlob {
    type V = GroupAttributeBlobView;

    open spec fn deep_view(&self) -> GroupAttributeBlobView {
        GroupAttributeBlobView {
            content: self.content.deep_view(),
        }
    }
}

impl Clone for GroupAttributeBlob {
    fn clone(&self) -> (r: Self)
        ensures
            r.deep_view() == self.deep_view(),
    {
        let r = GroupAttributeBlob {
            content: self.content.clone(),
        };
        proof {
            assert(r.content.deep_view() =~= self.content.deep_view());
        }
        r
    }
}

impl GroupAttributeBlobView {
    /// Every field unset.
    pub open spec fn empty() -> GroupAttributeBlobView {
        GroupAttributeBlobView {
            content: None,
        }
    }
}

impl Default for GroupAttributeBlob {
    fn default() -> (r: Self)
        ensures
            r.deep_view() == GroupAttributeBlobView::empty(),
    {
        let r = GroupAttributeBlob {
            content: None,
        };
        proof {
            assert(r.deep_view() =~= GroupAttributeBlobView::empty());
        }
        r
    }
}

/// The state of a group when the backup was made.
#[derive(Debug, PartialEq)]
pub struct GroupSnapshot {
    pub title: Option<GroupAttributeBlob>,
}

/// What a [`GroupSnapshot`] holds.
#[verifier::ext_equal]
pub struct GroupSnapshotView {
    pub title: Option<GroupAttributeBlobView>,
}

impl DeepView for GroupSnapshot {
    type V = GroupSnapshotView;

    open spec fn deep_view(&self) -> GroupSnapshotView {
        GroupSnapshotView {
            title: self.title.deep_view(),
        }
    }
}

impl Clone for GroupSnapshot {
    fn clone(&self) -> (r: Self)
        ensures
            r.deep_view() == self.deep_view(),
    {
        let r = GroupSnapshot {
            title: self.title.clone(),
        };
        proof {
            assert(r.title.deep_view() =~= self.title.deep_view());
        }
        r
    }
}

impl GroupSnapshotView {
    /// Every field unset.
    pub open spec fn empty() -> GroupSnapshotView {
        GroupSnapshotView {
            title: None,
        }
    }
}

impl Default for GroupSnapshot {
    fn default() -> (r: Self)
        ensures
            r.deep_view() == GroupSnapshotView::empty(),
    {
        let r = GroupSnapshot {
            title: None,
        };
        proof {
            assert(r.deep_view() =~= GroupSnapshotView::empty());
        }
        r
    }
}

/// A group that the account is in.
#[derive(Debug, PartialEq)]
pub struct Group {
    pub master_key: Vec<u8>,
    pub whitelisted: bool,
    pub hide_story: bool,
    pub story_send_mode: i32,
    pub snapshot: Option<GroupSnapshot>,
    pub blocked: bool,
}

/// What a [`Group`] holds.
#[verifier::ext_equal]
pub struct GroupView {
    pub master_key: Seq<u8>,
    pub whitelisted: bool,
    pub hide_story: bool,
    pub story_send_mode: i32,
    pub snapshot: Option<GroupSnapshotView>,
    pub blocked: bool,
}

impl DeepView for Group {
    type V = GroupView;

    open spec fn deep_view(&self) -> GroupView {
        GroupView {
            master_key: self.master_key.deep_view(),
            whitelisted: self.whitelisted,
            hide_story: self.hide_story,
            story_send_mode: self.story_send_mode,
            snapshot: self.snapshot.deep_view(),
            blocked: self.blocked,
        }
    }
}

impl Clone for Group {
    fn clone(&self) -> (r: Self)
        ensures
            r.deep_view() == self.deep_view(),
    {
        let r = Group {
            master_key: self.master_key.clone(),
            whitelisted: self.whitelisted,
            hide_story: self.hide_story,
            story_send_mode: self.story_send_mode,
            snapshot: self.snapshot.clone(),
            blocked: self.blocked,
        };
        proof {
            assert(r.master_key.deep_view() =~= self.master_key.deep_view());
            assert(r.snapshot.deep_view() =~= self.snapshot.deep_view());
        }
        r
    }
}

impl GroupView {
    /// Every field unset.
    pub open spec fn empty() -> GroupView {
        GroupView {
            master_key: Seq::empty(),
            whitelisted: false,
            hide_story: false,
            story_send_mode: 0,
            snapshot: None,
            blocked: false,
        }
    }
}

impl Default for Group {
    fn default() -> (r: Self)
        ensures
            r.deep_view() == GroupView::empty(),
    {
        let r = Group {
            master_key: Vec::new(),
            whitelisted: false,
            hide_story: false,
            story_send_mode: 0,
            snapshot: None,
            blocked: false,
        };
        proof {
            assert(r.deep_view() =~= GroupView::empty());
        }
        r
    }
}

/// What a recipient is.
#[derive(Debug, PartialEq)]
pub enum Destination {
    Contact(Contact),
    Group(Group),
    Self_,
    /// A distribution list, the release notes channel, a call link.
    Other,
}

/// What a [`Destination`] holds.
#[verifier::ext_equal]
pub enum DestinationView {
    Contact(ContactView),
    Group(GroupView),
    Self_,
    Other,
}

impl DeepView for Destination {
    type V = DestinationView;

    open spec fn deep_view(&self) -> DestinationView {
        match self {
            Destination::Contact(x) => DestinationView::Contact(x.deep_view()),
            Destination::Group(x) => DestinationView::Group(x.deep_view()),
            Destination::Self_ => DestinationView::Self_,
            Destination::Other => DestinationView::Other,
        }
    }
}

impl Clone for Destination {
    fn clone(&self) -> (r: Self)
        ensures
            r.deep_view() == self.deep_view(),
    {
        let r = match self {
            Destination::Contact(x) => Destination::Contact(x.clone()),
            Destination::Group(x) => Destination::Group(x.clone()),
            Destination::Self_ => Destination::Self_,
            Destination::Other => Destination::Other,
        };
        proof {
            assert(r.deep_view() =~= self.deep_view());
        }
        r
    }
}

/// Somebody or something that messages go to or come from.
#[derive(Debug, PartialEq)]
pub struct Recipient {
    pub id: u64,
    pub destination: Option<Destination>,
}

/// What a [`Recipient`] holds.
#[verifier::ext_equal]
pub struct RecipientView {
    pub id: u64,
    pub destination: Option<DestinationView>,
}

impl DeepView for Recipient {
    type V = RecipientView;

    open spec fn deep_view(&self) -> RecipientView {
        RecipientView {
            id: self.id,
            destination: self.destination.deep_view(),
        }
    }
}

impl Clone for Recipient {
    fn clone(&self) -> (r: Self)
        ensures
            r.deep_view() == self.deep_view(),
    {
        let r = Recipient {
            id: self.id,
            destination: self.destination.clone(),
        };
        proof {
            assert(r.destination.deep_view() =~= self.destination.deep_view());
        }
        r
    }
}

impl RecipientView {
    /// Every field unset.
    pub open spec fn empty() -> RecipientView {
        RecipientView {
            id: 0,
            destination: None,
        }
    }
}

impl Default for Recipient {
    fn default() -> (r: Self)
        ensures
            r.deep_view() == RecipientView::empty(),
    {
        let r = Recipient {
            id: 0,
            destination: None,
        };
        proof {
            assert(r.deep_view() =~= RecipientView::empty());
        }
        r
    }
}

/// A conversation.
#[derive(Debug, PartialEq)]
pub struct Chat {
    pub id: u64,
    pub recipient_id: u64,
}

/// What a [`Chat`] holds.
#[verifier::ext_equal]
pub struct ChatView {
    pub id: u64,
    pub recipient_id: u64,
}

impl DeepView for Chat {
    type V = ChatView;

    open spec fn deep_view(&self) -> ChatView {
        ChatView {
            id: self.id,
            recipient_id: self.recipient_id,
        }
    }
}

impl Clone for Chat {
    fn clone(&self) -> (r: Self)
        ensures
            r.deep_view() == self.deep_view(),
    {
        let r = Chat {
            id: self.id,
            recipient_id: self.recipient_id,
        };
        r
    }
}

impl ChatView {
    /// Every field unset.
    pub open spec fn empty() -> ChatView {
        ChatView {
            id: 0,
            recipient_id: 0,
        }
    }
}

impl Default for Chat {
    fn default() -> (r: Self)
        ensures
            r.deep_view() == ChatView::empty(),
    {
        let r = Chat {
            id: 0,
            recipient_id: 0,
        };
        proof {
            assert(r.deep_view() =~= ChatView::empty());
        }
        r
    }
}

/// How far a message got.
#[derive(Debug, Clone, Copy, PartialEq, Eq, Structural)]
pub enum DeliveryStatus {
    Pending,
    Sent,
    Delivered,
    Read,
    Viewed,
    Skipped,
    Failed,
}

impl DeepView for DeliveryStatus {
    type V = DeliveryStatus;

    open spec fn deep_view(&self) -> DeliveryStatus {
        *self
    }
}

/// How far a message got to one recipient.
#[derive(Debug, PartialEq)]
pub struct SendStatus {
    pub recipient_id: u64,
    pub timestamp: u64,
    pub delivery_status: Option<DeliveryStatus>,
}

/// What a [`SendStatus`] holds.
#[verifier::ext_equal]
pub struct SendStatusView {
    pub recipient_id: u64,
    pub timestamp: u64,
    pub delivery_status: Option<DeliveryStatus>,
}

impl DeepView for SendStatus {
    type V = SendStatusView;

    open spec fn deep_view(&self) -> SendStatusView {
        SendStatusView {
            recipient_id: self.recipient_id,
            timestamp: self.timestamp,
            delivery_status: self.delivery_status,
        }
    }
}

impl Clone for SendStatus {
    fn clone(&self) -> (r: Self)
        ensures
            r.deep_view() == self.deep_view(),
    {
        let r = SendStatus {
            recipient_id: self.recipient_id,
            timestamp: self.timestamp,
            delivery_status: self.delivery_status,
        };
        r
    }
}

impl SendStatusView {
    /// Every field unset.
    pub open spec fn empty() -> SendStatusView {
        SendStatusView {
            recipient_id: 0,
            timestamp: 0,
            delivery_status: None,
        }
    }
}

impl Default for SendStatus {
    fn default() -> (r: Self)
        ensures
            r.deep_view() == SendStatusView::empty(),
    {
        let r = SendStatus {
            recipient_id: 0,
            timestamp: 0,
            delivery_status: None,
        };
        proof {
            assert(r.deep_view() =~= SendStatusView::empty());
        }
        r
    }
}

/// A message that came in.
#[derive(Debug, PartialEq)]
pub struct IncomingMessageDetails {
    pub date_received: u64,
    pub read: bool,
}

/// What a [`IncomingMessageDetails`] holds.
#[verifier::ext_equal]
pub struct IncomingMessageDetailsView {
    pub date_received: u64,
    pub read: bool,
}

impl DeepView for IncomingMessageDetails {
    type V = IncomingMessageDetailsView;

    open spec fn deep_view(&self) -> IncomingMessageDetailsView {
        IncomingMessageDetailsView {
            date_received: self.date_received,
            read: self.read,
        }
    }
}

impl Clone for IncomingMessageDetails {
    fn clone(&self) -> (r: Self)
        ensures
            r.deep_view() == self.deep_view(),
    {
        let r = IncomingMessageDetails {
            date_received: self.date_received,
            read: self.read,
        };
        r
    }
}

impl IncomingMessageDetailsView {
    /// Every field unset.
    pub open spec fn empty() -> IncomingMessageDetailsView {
        IncomingMessageDetailsView {
            date_received: 0,
            read: false,
        }
    }
}

impl Default for IncomingMessageDetails {
    fn default() -> (r: Self)
        ensures
            r.deep_view() == IncomingMessageDetailsView::empty(),
    {
        let r = IncomingMessageDetails {
            date_received: 0,
            read: false,
        };
        proof {
            assert(r.deep_view() =~= IncomingMessageDetailsView::empty());
        }
        r
    }
}

/// A message that went out.
#[derive(Debug, PartialEq)]
pub struct OutgoingMessageDetails {
    pub send_status: Vec<SendStatus>,
    pub date_received: u64,
}

/// What a [`OutgoingMessageDetails`] holds.
#[verifier::ext_equal]
pub struct OutgoingMessageDetailsView {
    pub send_status: Seq<SendStatusView>,
    pub date_received: u64,
}

impl DeepView for OutgoingMessageDetails {
    type V = OutgoingMessageDetailsView;

    open spec fn deep_view(&self) -> OutgoingMessageDetailsView {
        OutgoingMessageDetailsView {
            send_status: self.send_status.deep_view(),
            date_received: self.date_received,
        }
    }
}

impl Clone for OutgoingMessageDetails {
    fn clone(&self) -> (r: Self)
        ensures
            r.deep_view() == self.deep_view(),
    {
        let r = OutgoingMessageDetails {
            send_status: self.send_status.clone(),
            date_received: self.date_received,
        };
        proof {
            assert(r.send_status.deep_view() =~= self.send_status.deep_view());
        }
        r
    }
}

impl OutgoingMessageDetailsView {
    /// Every field unset.
    pub open spec fn empty() -> OutgoingMessageDetailsView {
        OutgoingMessageDetailsView {
            send_status: Seq::empty(),
            date_received: 0,
        }
    }
}

impl Default for OutgoingMessageDetails {
    fn default() -> (r: Self)
        ensures
            r.deep_view() == OutgoingMessageDetailsView::empty(),
    {
        let r = OutgoingMessageDetails {
            send_status: Vec::new(),
            date_received: 0,
        };
        proof {
            assert(r.deep_view() =~= OutgoingMessageDetailsView::empty());
        }
        r
    }
}

/// Which way a message went.
#[derive(Debug, PartialEq)]
pub enum DirectionalDetails {
    Incoming(IncomingMessageDetails),
    Outgoing(OutgoingMessageDetails),
    Directionless,
}

/// What a [`DirectionalDetails`] holds.
#[verifier::ext_equal]
pub enum DirectionalDetailsView {
    Incoming(IncomingMessageDetailsView),
    Outgoing(OutgoingMessageDetailsView),
    Directionless,
}

impl DeepView for DirectionalDetails {
    type V = DirectionalDetailsView;

    open spec fn deep_view(&self) -> DirectionalDetailsView {
        match self {
            DirectionalDetails::Incoming(x) => DirectionalDetailsView::Incoming(x.deep_view()),
            DirectionalDetails::Outgoing(x) => DirectionalDetailsView::Outgoing(x.deep_view()),
            DirectionalDetails::Directionless => DirectionalDetailsView::Directionless,
        }
    }
}

impl Clone for DirectionalDetails {
    fn clone(&self) -> (r: Self)
        ensures
            r.deep_view() == self.deep_view(),
    {
        let r = match self {
            DirectionalDetails::Incoming(x) => DirectionalDetails::Incoming(x.clone()),
            DirectionalDetails::Outgoing(x) => DirectionalDetails::Outgoing(x.clone()),
            DirectionalDetails::Directionless => DirectionalDetails::Directionless,
        };
        proof {
            assert(r.deep_view() =~= self.deep_view());
        }
        r
    }
}

/// What a range of a text is marked with.
#[derive(Debug, PartialEq)]
pub enum AssociatedValue {
    MentionAci(Vec<u8>),
    Style(i32),
}

/// What a [`AssociatedValue`] holds.
#[verifier::ext_equal]
pub enum AssociatedValueView {
    MentionAci(Seq<u8>),
    Style(i32),
}

impl DeepView for AssociatedValue {
    type V = AssociatedValueView;

    open spec fn deep_view(&self) -> AssociatedValueView {
        match self {
            AssociatedValue::MentionAci(x) => AssociatedValueView::MentionAci(x.deep_view()),
            AssociatedValue::Style(x) => AssociatedValueView::Style(*x),
        }
    }
}

impl Clone for AssociatedValue {
    fn clone(&self) -> (r: Self)
        ensures
            r.deep_view() == self.deep_view(),
    {
        let r = match self {
            AssociatedValue::MentionAci(x) => AssociatedValue::MentionAci(x.clone()),
            AssociatedValue::Style(x) => AssociatedValue::Style(*x),
        };
        proof {
            assert(r.deep_view() =~= self.deep_view());
        }
        r
    }
}

/// A mention or a style in a text.
#[derive(Debug, PartialEq)]
pub struct BodyRange {
    pub start: u32,
    pub length: u32,
    pub associated_value: Option<AssociatedValue>,
}

/// What a [`BodyRange`] holds.
#[verifier::ext_equal]
pub struct BodyRangeView {
    pub start: u32,
    pub length: u32,
    pub associated_value: Option<AssociatedValueView>,
}

impl DeepView for BodyRange {
    type V = BodyRangeView;

    open spec fn deep_view(&self) -> BodyRangeView {
        BodyRangeView {
            start: self.start,
            length: self.length,
            associated_value: self.associated_value.deep_view(),
        }
    }
}

impl Clone for BodyRange {
    fn clone(&self) -> (r: Self)
        ensures
            r.deep_view() == self.deep_view(),
    {
        let r = BodyRange {
            start: self.start,
            length: self.length,
            associated_value: self.associated_value.clone(),
        };
        proof {
            assert(r.associated_value.deep_view() =~= self.associated_value.deep_view());
        }
        r
    }
}

impl BodyRangeView {
    /// Every field unset.
    pub open spec fn empty() -> BodyRangeView {
        BodyRangeView {
            start: 0,
            length: 0,
            associated_value: None,
        }
    }
}

impl Default for BodyRange {
    fn default() -> (r: Self)
        ensures
            r.deep_view() == BodyRangeView::empty(),
    {
        let r = BodyRange {
            start: 0,
            length: 0,
            associated_value: None,
        };
        proof {
            assert(r.deep_view() =~= BodyRangeView::empty());
        }
        r
    }
}

/// A text with its ranges.
#[derive(Debug, PartialEq)]
pub struct Text {
    pub body: String,
    pub body_ranges: Vec<BodyRange>,
}

/// What a [`Text`] holds.
#[verifier::ext_equal]
pub struct TextView {
    pub body: Seq<char>,
    pub body_ranges: Seq<BodyRangeView>,
}

impl DeepView for Text {
    type V = TextView;

    open spec fn deep_view(&self) -> TextView {
        TextView {
            body: self.body.deep_view(),
            body_ranges: self.body_ranges.deep_view(),
        }
    }
}

impl Clone for Text {
    fn clone(&self) -> (r: Self)
        ensures
            r.deep_view() == self.deep_view(),
    {
        let r = Text {
            body: self.body.clone(),
            body_ranges: self.body_ranges.clone(),
        };
        proof {
            assert(r.body_ranges.deep_view() =~= self.body_ranges.deep_view());
        }
        r
    }
}

impl TextView {
    /// Every field unset.
    pub open spec fn empty() -> TextView {
        TextView {
            body: Seq::empty(),
            body_ranges: Seq::empty(),
        }
    }
}

impl Default for Text {
    fn default() -> (r: Self)
        ensures
            r.deep_view() == TextView::empty(),
    {
        let r = Text {
            body: String::new(),
            body_ranges: Vec::new(),
        };
        proof {
            assert(r.deep_view() =~= TextView::empty());
        }
        r
    }
}

/// What a file is checked against.
#[derive(Debug, PartialEq)]
pub enum IntegrityCheck {
    PlaintextHash(Vec<u8>),
    EncryptedDigest(Vec<u8>),
}

/// What a [`IntegrityCheck`] holds.
#[verifier::ext_equal]
pub enum IntegrityCheckView {
    PlaintextHash(Seq<u8>),
    EncryptedDigest(Seq<u8>),
}

impl DeepView for IntegrityCheck {
    type V = IntegrityCheckView;

    open spec fn deep_view(&self) -> IntegrityCheckView {
        match self {
            IntegrityCheck::PlaintextHash(x) => IntegrityCheckView::PlaintextHash(x.deep_view()),
            IntegrityCheck::EncryptedDigest(x) => IntegrityCheckView::EncryptedDigest(
                x.deep_view(),
            ),
        }
    }
}

impl Clone for IntegrityCheck {
    fn clone(&self) -> (r: Self)
        ensures
            r.deep_view() == self.deep_view(),
    {
        let r = match self {
            IntegrityCheck::PlaintextHash(x) => IntegrityCheck::PlaintextHash(x.clone()),
            IntegrityCheck::EncryptedDigest(x) => IntegrityCheck::EncryptedDigest(x.clone()),
        };
        proof {
            assert(r.deep_view() =~= self.deep_view());
        }
        r
    }
}

/// Where a file is.
#[derive(Debug, PartialEq)]
pub struct LocatorInfo {
    pub key: Vec<u8>,
    pub integrity_check: Option<IntegrityCheck>,
    pub size: u32,
    pub transit_cdn_key: Option<String>,
    pub transit_cdn_number: Option<u32>,
    pub transit_tier_upload_timestamp: Option<u64>,
}

/// What a [`LocatorInfo`] holds.
#[verifier::ext_equal]
pub struct LocatorInfoView {
    pub key: Seq<u8>,
    pub integrity_check: Option<IntegrityCheckView>,
    pub size: u32,
    pub transit_cdn_key: Option<Seq<char>>,
    pub transit_cdn_number: Option<u32>,
    pub transit_tier_upload_timestamp: Option<u64>,
}

impl DeepView for LocatorInfo {
    type V = LocatorInfoView;

    open spec fn deep_view(&self) -> LocatorInfoView {
        LocatorInfoView {
            key: self.key.deep_view(),
            integrity_check: self.integrity_check.deep_view(),
            size: self.size,
            transit_cdn_key: self.transit_cdn_key.deep_view(),
            transit_cdn_number: self.transit_cdn_number,
            transit_tier_upload_timestamp: self.transit_tier_upload_timestamp,
        }
    }
}

impl Clone for LocatorInfo {
    fn clone(&self) -> (r: Self)
        ensures
            r.deep_view() == self.deep_view(),
    {
        let r = LocatorInfo {
            key: self.key.clone(),
            integrity_check: self.integrity_check.clone(),
            size: self.size,
            transit_cdn_key: self.transit_cdn_key.clone(),
            transit_cdn_number: self.transit_cdn_number,
            transit_tier_upload_timestamp: self.transit_tier_upload_timestamp,
        };
        proof {
            assert(r.key.deep_view() =~= self.key.deep_view());
            assert(r.integrity_check.deep_view() =~= self.integrity_check.deep_view());
            assert(r.transit_cdn_key.deep_view() =~= self.transit_cdn_key.deep_view());
        }
        r
    }
}

impl LocatorInfoView {
    /// Every field unset.
    pub open spec fn empty() -> LocatorInfoView {
        LocatorInfoView {
            key: Seq::empty(),
            integrity_check: None,
            size: 0,
            transit_cdn_key: None,
            transit_cdn_number: None,
            transit_tier_upload_timestamp: None,
        }
    }
}

impl Default for LocatorInfo {
    fn default() -> (r: Self)
        ensures
            r.deep_view() == LocatorInfoView::empty(),
    {
        let r = LocatorInfo {
            key: Vec::new(),
            integrity_check: None,
            size: 0,
            transit_cdn_key: None,
            transit_cdn_number: None,
            transit_tier_upload_timestamp: None,
        };
        proof {
            assert(r.deep_view() =~= LocatorInfoView::empty());
        }
        r
    }
}

/// A file that a message refers to.
#[derive(Debug, PartialEq)]
pub struct FilePointer {
    pub content_type: Option<String>,
    pub incremental_mac: Option<Vec<u8>>,
    pub incremental_mac_chunk_size: Option<u32>,
    pub file_name: Option<String>,
    pub width: Option<u32>,
    pub height: Option<u32>,
    pub caption: Option<String>,
    pub blur_hash: Option<String>,
    pub locator_info: Option<LocatorInfo>,
}

/// What a [`FilePointer`] holds.
#[verifier::ext_equal]
pub struct FilePointerView {
    pub content_type: Option<Seq<char>>,
    pub incremental_mac: Option<Seq<u8>>,
    pub incremental_mac_chunk_size: Option<u32>,
    pub file_name: Option<Seq<char>>,
    pub width: Option<u32>,
    pub height: Option<u32>,
    pub caption: Option<Seq<char>>,
    pub blur_hash: Option<Seq<char>>,
    pub locator_info: Option<LocatorInfoView>,
}

impl DeepView for FilePointer {
    type V = FilePointerView;

    open spec fn deep_view(&self) -> FilePointerView {
        FilePointerView {
            content_type: self.content_type.deep_view(),
            incremental_mac: self.incremental_mac.deep_view(),
            incremental_mac_chunk_size: self.incremental_mac_chunk_size,
            file_name: self.file_name.deep_view(),
            width: self.width,
            height: self.height,
            caption: self.caption.deep_view(),
            blur_hash: self.blur_hash.deep_view(),
            locator_info: self.locator_info.deep_view(),
        }
    }
}

impl Clone for FilePointer {
    fn clone(&self) -> (r: Self)
        ensures
            r.deep_view() == self.deep_view(),
    {
        let r = FilePointer {
            content_type: self.content_type.clone(),
            incremental_mac: self.incremental_mac.clone(),
            incremental_mac_chunk_size: self.incremental_mac_chunk_size,
            file_name: self.file_name.clone(),
            width: self.width,
            height: self.height,
            caption: self.caption.clone(),
            blur_hash: self.blur_hash.clone(),
            locator_info: self.locator_info.clone(),
        };
        proof {
            assert(r.content_type.deep_view() =~= self.content_type.deep_view());
            assert(r.incremental_mac.deep_view() =~= self.incremental_mac.deep_view());
            assert(r.file_name.deep_view() =~= self.file_name.deep_view());
            assert(r.caption.deep_view() =~= self.caption.deep_view());
            assert(r.blur_hash.deep_view() =~= self.blur_hash.deep_view());
            assert(r.locator_info.deep_view() =~= self.locator_info.deep_view());
        }
        r
    }
}

impl FilePointerView {
    /// Every field unset.
    pub open spec fn empty() -> FilePointerView {
        FilePointerView {
            content_type: None,
            incremental_mac: None,
            incremental_mac_chunk_size: None,
            file_name: None,
            width: None,
            height: None,
            caption: None,
            blur_hash: None,
            locator_info: None,
        }
    }
}

impl Default for FilePointer {
    fn default() -> (r: Self)
        ensures
            r.deep_view() == FilePointerView::empty(),
    {
        let r = FilePointer {
            content_type: None,
            incremental_mac: None,
            incremental_mac_chunk_size: None,
            file_name: None,
            width: None,
            height: None,
            caption: None,
            blur_hash: None,
            locator_info: None,
        };
        proof {
            assert(r.deep_view() =~= FilePointerView::empty());
        }
        r
    }
}

/// What an attachment is besides a file.
#[derive(Debug, Clone, Copy, PartialEq, Eq, Structural)]
pub enum AttachmentFlag {
    Plain,
    VoiceMessage,
    Borderless,
    Gif,
    /// A number that stands for no flag.
    Unrecognized,
}

impl DeepView for AttachmentFlag {
    type V = AttachmentFlag;

    open spec fn deep_view(&self) -> AttachmentFlag {
        *self
    }
}

/// An attachment of a message.
#[derive(Debug, PartialEq)]
pub struct MessageAttachment {
    pub pointer: Option<FilePointer>,
    pub flag: AttachmentFlag,
}

/// What a [`MessageAttachment`] holds.
#[verifier::ext_equal]
pub struct MessageAttachmentView {
    pub pointer: Option<FilePointerView>,
    pub flag: AttachmentFlag,
}

impl DeepView for MessageAttachment {
    type V = MessageAttachmentView;

    open spec fn deep_view(&self) -> MessageAttachmentView {
        MessageAttachmentView {
            pointer: self.pointer.deep_view(),
            flag: self.flag,
        }
    }
}

impl Clone for MessageAttachment {
    fn clone(&self) -> (r: Self)
        ensures
            r.deep_view() == self.deep_view(),
    {
        let r = MessageAttachment {
            pointer: self.pointer.clone(),
            flag: self.flag,
        };
        proof {
            assert(r.pointer.deep_view() =~= self.pointer.deep_view());
        }
        r
    }
}

impl MessageAttachmentView {
    /// Every field unset.
    pub open spec fn empty() -> MessageAttachmentView {
        MessageAttachmentView {
            pointer: None,
            flag: AttachmentFlag::Plain,
        }
    }
}

impl Default for MessageAttachment {
    fn default() -> (r: Self)
        ensures
            r.deep_view() == MessageAttachmentView::empty(),
    {
        let r = MessageAttachment {
            pointer: None,
            flag: AttachmentFlag::Plain,
        };
        proof {
            assert(r.deep_view() =~= MessageAttachmentView::empty());
        }
        r
    }
}

/// What kind of message a quote quotes.
#[derive(Debug, Clone, Copy, PartialEq, Eq, Structural)]
pub enum QuoteType {
    Unknown,
    Normal,
    GiftBadge,
    ViewOnce,
    Poll,
}

impl DeepView for QuoteType {
    type V = QuoteType;

    open spec fn deep_view(&self) -> QuoteType {
        *self
    }
}

/// A quoted message.
#[derive(Debug, PartialEq)]
pub struct Quote {
    pub target_sent_timestamp: Option<u64>,
    pub author_id: u64,
    pub text: Option<Text>,
    pub kind: QuoteType,
}

/// What a [`Quote`] holds.
#[verifier::ext_equal]
pub struct QuoteView {
    pub target_sent_timestamp: Option<u64>,
    pub author_id: u64,
    pub text: Option<TextView>,
    pub kind: QuoteType,
}

impl DeepView for Quote {
    type V = QuoteView;

    open spec fn deep_view(&self) -> QuoteView {
        QuoteView {
            target_sent_timestamp: self.target_sent_timestamp,
            author_id: self.author_id,
            text: self.text.deep_view(),
            kind: self.kind,
        }
    }
}

impl Clone for Quote {
    fn clone(&self) -> (r: Self)
        ensures
            r.deep_view() == self.deep_view(),
    {
        let r = Quote {
            target_sent_timestamp: self.target_sent_timestamp,
            author_id: self.author_id,
            text: self.text.clone(),
            kind: self.kind,
        };
        proof {
            assert(r.text.deep_view() =~= self.text.deep_view());
        }
        r
    }
}

impl QuoteView {
    /// Every field unset.
    pub open spec fn empty() -> QuoteView {
        QuoteView {
            target_sent_timestamp: None,
            author_id: 0,
            text: None,
            kind: QuoteType::Unknown,
        }
    }
}

impl Default for Quote {
    fn default() -> (r: Self)
        ensures
            r.deep_view() == QuoteView::empty(),
    {
        let r = Quote {
            target_sent_timestamp: None,
            author_id: 0,
            text: None,
            kind: QuoteType::Unknown,
        };
        proof {
            assert(r.deep_view() =~= QuoteView::empty());
        }
        r
    }
}

/// A link preview.
#[derive(Debug, PartialEq)]
pub struct LinkPreview {
    pub url: String,
    pub title: Option<String>,
    pub image: Option<FilePointer>,
    pub description: Option<String>,
    pub date: Option<u64>,
}

/// What a [`LinkPreview`] holds.
#[verifier::ext_equal]
pub struct LinkPreviewView {
    pub url: Seq<char>,
    pub title: Option<Seq<char>>,
    pub image: Option<FilePointerView>,
    pub description: Option<Seq<char>>,
    pub date: Option<u64>,
}

impl DeepView for LinkPreview {
    type V = LinkPreviewView;

    open spec fn deep_view(&self) -> LinkPreviewView {
        LinkPreviewView {
            url: self.url.deep_view(),
            title: self.title.deep_view(),
            image: self.image.deep_view(),
            description: self.description.deep_view(),
            date: self.date,
        }
    }
}

impl Clone for LinkPreview {
    fn clone(&self) -> (r: Self)
        ensures
            r.deep_view() == self.deep_view(),
    {
        let r = LinkPreview {
            url: self.url.clone(),
            title: self.title.clone(),
            image: self.image.clone(),
            description: self.description.clone(),
            date: self.date,
        };
        proof {
            assert(r.title.deep_view() =~= self.title.deep_view());
            assert(r.image.deep_view() =~= self.image.deep_view());
            assert(r.description.deep_view() =~= self.description.deep_view());
        }
        r
    }
}

impl LinkPreviewView {
    /// Every field unset.
    pub open spec fn empty() -> LinkPreviewView {
        LinkPreviewView {
            url: Seq::empty(),
            title: None,
            image: None,
            description: None,
            date: None,
        }
    }
}

impl Default for LinkPreview {
    fn default() -> (r: Self)
        ensures
            r.deep_view() == LinkPreviewView::empty(),
    {
        let r = LinkPreview {
            url: String::new(),
            title: None,
            image: None,
            description: None,
            date: None,
        };
        proof {
            assert(r.deep_view() =~= LinkPreviewView::empty());
        }
        r
    }
}

/// A sticker.
#[derive(Debug, PartialEq)]
pub struct Sticker {
    pub pack_id: Vec<u8>,
    pub pack_key: Vec<u8>,
    pub sticker_id: u32,
    pub emoji: Option<String>,
    pub data: Option<FilePointer>,
}

/// What a [`Sticker`] holds.
#[verifier::ext_equal]
pub struct StickerView {
    pub pack_id: Seq<u8>,
    pub pack_key: Seq<u8>,
    pub sticker_id: u32,
    pub emoji: Option<Seq<char>>,
    pub data: Option<FilePointerView>,
}

impl DeepView for Sticker {
    type V = StickerView;

    open spec fn deep_view(&self) -> StickerView {
        StickerView {
            pack_id: self.pack_id.deep_view(),
            pack_key: self.pack_key.deep_view(),
            sticker_id: self.sticker_id,
            emoji: self.emoji.deep_view(),
            data: self.data.deep_view(),
        }
    }
}

impl Clone for Sticker {
    fn clone(&self) -> (r: Self)
        ensures
            r.deep_view() == self.deep_view(),
    {
        let r = Sticker {
            pack_id: self.pack_id.clone(),
            pack_key: self.pack_key.clone(),
            sticker_id: self.sticker_id,
            emoji: self.emoji.clone(),
            data: self.data.clone(),
        };
        proof {
            assert(r.pack_id.deep_view() =~= self.pack_id.deep_view());
            assert(r.pack_key.deep_view() =~= self.pack_key.deep_view());
            assert(r.emoji.deep_view() =~= self.emoji.deep_view());
            assert(r.data.deep_view() =~= self.data.deep_view());
        }
        r
    }
}

impl StickerView {
    /// Every field unset.
    pub open spec fn empty() -> StickerView {
        StickerView {
            pack_id: Seq::empty(),
            pack_key: Seq::empty(),
            sticker_id: 0,
            emoji: None,
            data: None,
        }
    }
}

impl Default for Sticker {
    fn default() -> (r: Self)
        ensures
            r.deep_view() == StickerView::empty(),
    {
        let r = Sticker {
            pack_id: Vec::new(),
            pack_key: Vec::new(),
            sticker_id: 0,
            emoji: None,
            data: None,
        };
        proof {
            assert(r.deep_view() =~= StickerView::empty());
        }
        r
    }
}

/// A reaction to the message it stands on.
#[derive(Debug, PartialEq)]
pub struct Reaction {
    pub emoji: String,
    pub author_id: u64,
    pub sent_timestamp: u64,
}

/// What a [`Reaction`] holds.
#[verifier::ext_equal]
pub struct ReactionView {
    pub emoji: Seq<char>,
    pub author_id: u64,
    pub sent_timestamp: u64,
}

impl DeepView for Reaction {
    type V = ReactionView;

    open spec fn deep_view(&self) -> ReactionView {
        ReactionView {
            emoji: self.emoji.deep_view(),
            author_id: self.author_id,
            sent_timestamp: self.sent_timestamp,
        }
    }
}

impl Clone for Reaction {
    fn clone(&self) -> (r: Self)
        ensures
            r.deep_view() == self.deep_view(),
    {
        let r = Reaction {
            emoji: self.emoji.clone(),
            author_id: self.author_id,
            sent_timestamp: self.sent_timestamp,
        };
        r
    }
}

impl ReactionView {
    /// Every field unset.
    pub open spec fn empty() -> ReactionView {
        ReactionView {
            emoji: Seq::empty(),
            author_id: 0,
            sent_timestamp: 0,
        }
    }
}

impl Default for Reaction {
    fn default() -> (r: Self)
        ensures
            r.deep_view() == ReactionView::empty(),
    {
        let r = Reaction {
            emoji: String::new(),
            author_id: 0,
            sent_timestamp: 0,
        };
        proof {
            assert(r.deep_view() =~= ReactionView::empty());
        }
        r
    }
}

/// A message with a text, files, or both.
#[derive(Debug, PartialEq)]
pub struct StandardMessage {
    pub quote: Option<Quote>,
    pub text: Option<Text>,
    pub attachments: Vec<MessageAttachment>,
    pub link_preview: Vec<LinkPreview>,
    pub reactions: Vec<Reaction>,
}

/// What a [`StandardMessage`] holds.
#[verifier::ext_equal]
pub struct StandardMessageView {
    pub quote: Option<QuoteView>,
    pub text: Option<TextView>,
    pub attachments: Seq<MessageAttachmentView>,
    pub link_preview: Seq<LinkPreviewView>,
    pub reactions: Seq<ReactionView>,
}

impl DeepView for StandardMessage {
    type V = StandardMessageView;

    open spec fn deep_view(&self) -> StandardMessageView {
        StandardMessageView {
            quote: self.quote.deep_view(),
            text: self.text.deep_view(),
            attachments: self.attachments.deep_view(),
            link_preview: self.link_preview.deep_view(),
            reactions: self.reactions.deep_view(),
        }
    }
}

impl Clone for StandardMessage {
    fn clone(&self) -> (r: Self)
        ensures
            r.deep_view() == self.deep_view(),
    {
        let r = StandardMessage {
            quote: self.quote.clone(),
            text: self.text.clone(),
            attachments: self.attachments.clone(),
            link_preview: self.link_preview.clone(),
            reactions: self.reactions.clone(),
        };
        proof {
            assert(r.quote.deep_view() =~= self.quote.deep_view());
            assert(r.text.deep_view() =~= self.text.deep_view());
            assert(r.attachments.deep_view() =~= self.attachments.deep_view());
            assert(r.link_preview.deep_view() =~= self.link_preview.deep_view());
            assert(r.reactions.deep_view() =~= self.reactions.deep_view());
        }
        r
    }
}

impl StandardMessageView {
    /// Every field unset.
    pub open spec fn empty() -> StandardMessageView {
        StandardMessageView {
            quote: None,
            text: None,
            attachments: Seq::empty(),
            link_preview: Seq::empty(),
            reactions: Seq::empty(),
        }
    }
}

impl Default for StandardMessage {
    fn default() -> (r: Self)
        ensures
            r.deep_view() == StandardMessageView::empty(),
    {
        let r = StandardMessage {
            quote: None,
            text: None,
            attachments: Vec::new(),
            link_preview: Vec::new(),
            reactions: Vec::new(),
        };
        proof {
            assert(r.deep_view() =~= StandardMessageView::empty());
        }
        r
    }
}

/// A message that is a sticker.
#[derive(Debug, PartialEq)]
pub struct StickerMessage {
    pub sticker: Option<Sticker>,
    pub reactions: Vec<Reaction>,
}

/// What a [`StickerMessage`] holds.
#[verifier::ext_equal]
pub struct StickerMessageView {
    pub sticker: Option<StickerView>,
    pub reactions: Seq<ReactionView>,
}

impl DeepView for StickerMessage {
    type V = StickerMessageView;

    open spec fn deep_view(&self) -> StickerMessageView {
        StickerMessageView {
            sticker: self.sticker.deep_view(),
            reactions: self.reactions.deep_view(),
        }
    }
}

impl Clone for StickerMessage {
    fn clone(&self) -> (r: Self)
        ensures
            r.deep_view() == self.deep_view(),
    {
        let r = StickerMessage {
            sticker: self.sticker.clone(),
            reactions: self.reactions.clone(),
        };
        proof {
            assert(r.sticker.deep_view() =~= self.sticker.deep_view());
            assert(r.reactions.deep_view() =~= self.reactions.deep_view());
        }
        r
    }
}

impl StickerMessageView {
    /// Every field unset.
    pub open spec fn empty() -> StickerMessageView {
        StickerMessageView {
            sticker: None,
            reactions: Seq::empty(),
        }
    }
}

impl Default for StickerMessage {
    fn default() -> (r: Self)
        ensures
            r.deep_view() == StickerMessageView::empty(),
    {
        let r = StickerMessage {
            sticker: None,
            reactions: Vec::new(),
        };
        proof {
            assert(r.deep_view() =~= StickerMessageView::empty());
        }
        r
    }
}

/// The kind of a call.
#[derive(Debug, Clone, Copy, PartialEq, Eq, Structural)]
pub enum IndividualCallType {
    Unknown,
    AudioCall,
    VideoCall,
}

impl DeepView for IndividualCallType {
    type V = IndividualCallType;

    open spec fn deep_view(&self) -> IndividualCallType {
        *self
    }
}

/// The direction of a call.
#[derive(Debug, Clone, Copy, PartialEq, Eq, Structural)]
pub enum IndividualCallDirection {
    Unknown,
    Incoming,
    Outgoing,
}

impl DeepView for IndividualCallDirection {
    type V = IndividualCallDirection;

    open spec fn deep_view(&self) -> IndividualCallDirection {
        *self
    }
}

/// How a call ended.
#[derive(Debug, Clone, Copy, PartialEq, Eq, Structural)]
pub enum IndividualCallState {
    Unknown,
    Accepted,
    NotAccepted,
    Missed,
    MissedNotificationProfile,
}

impl DeepView for IndividualCallState {
    type V = IndividualCallState;

    open spec fn deep_view(&self) -> IndividualCallState {
        *self
    }
}

/// A call with one person.
#[derive(Debug, PartialEq)]
pub struct IndividualCall {
    pub call_id: Option<u64>,
    pub kind: IndividualCallType,
    pub direction: IndividualCallDirection,
    pub state: IndividualCallState,
    pub started_call_timestamp: u64,
}

/// What a [`IndividualCall`] holds.
#[verifier::ext_equal]
pub struct IndividualCallView {
    pub call_id: Option<u64>,
    pub kind: IndividualCallType,
    pub direction: IndividualCallDirection,
    pub state: IndividualCallState,
    pub started_call_timestamp: u64,
}

impl DeepView for IndividualCall {
    type V = IndividualCallView;

    open spec fn deep_view(&self) -> IndividualCallView {
        IndividualCallView {
            call_id: self.call_id,
            kind: self.kind,
            direction: self.direction,
            state: self.state,
            started_call_timestamp: self.started_call_timestamp,
        }
    }
}

impl Clone for IndividualCall {
    fn clone(&self) -> (r: Self)
        ensures
            r.deep_view() == self.deep_view(),
    {
        let r = IndividualCall {
            call_id: self.call_id,
            kind: self.kind,
            direction: self.direction,
            state: self.state,
            started_call_timestamp: self.started_call_timestamp,
        };
        r
    }
}

impl IndividualCallView {
    /// Every field unset.
    pub open spec fn empty() -> IndividualCallView {
        IndividualCallView {
            call_id: None,
            kind: IndividualCallType::Unknown,
            direction: IndividualCallDirection::Unknown,
            state: IndividualCallState::Unknown,
            started_call_timestamp: 0,
        }
    }
}

impl Default for IndividualCall {
    fn default() -> (r: Self)
        ensures
            r.deep_view() == IndividualCallView::empty(),
    {
        let r = IndividualCall {
            call_id: None,
            kind: IndividualCallType::Unknown,
            direction: IndividualCallDirection::Unknown,
            state: IndividualCallState::Unknown,
            started_call_timestamp: 0,
        };
        proof {
            assert(r.deep_view() =~= IndividualCallView::empty());
        }
        r
    }
}

/// How a group call ended.
#[derive(Debug, Clone, Copy, PartialEq, Eq, Structural)]
pub enum GroupCallState {
    Unknown,
    Generic,
    OutgoingRing,
    Ringing,
    Joined,
    Accepted,
    Missed,
    MissedNotificationProfile,
    Declined,
}

impl DeepView for GroupCallState {
    type V = GroupCallState;

    open spec fn deep_view(&self) -> GroupCallState {
        *self
    }
}

/// A call in a group.
#[derive(Debug, PartialEq)]
pub struct GroupCall {
    pub call_id: Option<u64>,
    pub state: GroupCallState,
    pub started_call_recipient_id: Option<u64>,
    pub started_call_timestamp: u64,
}

/// What a [`GroupCall`] holds.
#[verifier::ext_equal]
pub struct GroupCallView {
    pub call_id: Option<u64>,
    pub state: GroupCallState,
    pub started_call_recipient_id: Option<u64>,
    pub started_call_timestamp: u64,
}

impl DeepView for GroupCall {
    type V = GroupCallView;

    open spec fn deep_view(&self) -> GroupCallView {
        GroupCallView {
            call_id: self.call_id,
            state: self.state,
            started_call_recipient_id: self.started_call_recipient_id,
            started_call_timestamp: self.started_call_timestamp,
        }
    }
}

impl Clone for GroupCall {
    fn clone(&self) -> (r: Self)
        ensures
            r.deep_view() == self.deep_view(),
    {
        let r = GroupCall {
            call_id: self.call_id,
            state: self.state,
            started_call_recipient_id: self.started_call_recipient_id,
            started_call_timestamp: self.started_call_timestamp,
        };
        r
    }
}

impl GroupCallView {
    /// Every field unset.
    pub open spec fn empty() -> GroupCallView {
        GroupCallView {
            call_id: None,
            state: GroupCallState::Unknown,
            started_call_recipient_id: None,
            started_call_timestamp: 0,
        }
    }
}

impl Default for GroupCall {
    fn default() -> (r: Self)
        ensures
            r.deep_view() == GroupCallView::empty(),
    {
        let r = GroupCall {
            call_id: None,
            state: GroupCallState::Unknown,
            started_call_recipient_id: None,
            started_call_timestamp: 0,
        };
        proof {
            assert(r.deep_view() =~= GroupCallView::empty());
        }
        r
    }
}

/// What happened in a conversation, where the kind says it all.
#[derive(Debug, Clone, Copy, PartialEq, Eq, Structural)]
pub enum SimpleUpdateType {
    Blocked,
    Unblocked,
    Other,
}

impl DeepView for SimpleUpdateType {
    type V = SimpleUpdateType;

    open spec fn deep_view(&self) -> SimpleUpdateType {
        *self
    }
}

/// Somebody whose invitation was withdrawn.
#[derive(Debug, PartialEq)]
pub struct Invitee {
    pub invitee_aci: Option<Vec<u8>>,
    pub invitee_pni: Option<Vec<u8>>,
}

/// What a [`Invitee`] holds.
#[verifier::ext_equal]
pub struct InviteeView {
    pub invitee_aci: Option<Seq<u8>>,
    pub invitee_pni: Option<Seq<u8>>,
}

impl DeepView for Invitee {
    type V = InviteeView;

    open spec fn deep_view(&self) -> InviteeView {
        InviteeView {
            invitee_aci: self.invitee_aci.deep_view(),
            invitee_pni: self.invitee_pni.deep_view(),
        }
    }
}

impl Clone for Invitee {
    fn clone(&self) -> (r: Self)
        ensures
            r.deep_view() == self.deep_view(),
    {
        let r = Invitee {
            invitee_aci: self.invitee_aci.clone(),
            invitee_pni: self.invitee_pni.clone(),
        };
        proof {
            assert(r.invitee_aci.deep_view() =~= self.invitee_aci.deep_view());
            assert(r.invitee_pni.deep_view() =~= self.invitee_pni.deep_view());
        }
        r
    }
}

impl InviteeView {
    /// Every field unset.
    pub open spec fn empty() -> InviteeView {
        InviteeView {
            invitee_aci: None,
            invitee_pni: None,
        }
    }
}

impl Default for Invitee {
    fn default() -> (r: Self)
        ensures
            r.deep_view() == InviteeView::empty(),
    {
        let r = Invitee {
            invitee_aci: None,
            invitee_pni: None,
        };
        proof {
            assert(r.deep_view() =~= InviteeView::empty());
        }
        r
    }
}

/// One change to a group. The identities are raw bytes, and may be missing or malformed.
#[derive(Debug, PartialEq)]
pub enum Update {
    GenericGroupUpdate { updater_aci: Option<Vec<u8>> },
    GroupCreationUpdate { updater_aci: Option<Vec<u8>> },
    GroupNameUpdate { updater_aci: Option<Vec<u8>>, new_group_name: Option<String> },
    GroupAvatarUpdate { updater_aci: Option<Vec<u8>>, was_removed: bool },
    GroupDescriptionUpdate { updater_aci: Option<Vec<u8>>, new_description: Option<String> },
    GroupMembershipAccessLevelChangeUpdate {
        updater_aci: Option<Vec<u8>>,
        access_level: Option<AccessRequired>,
    },
    GroupAttributesAccessLevelChangeUpdate {
        updater_aci: Option<Vec<u8>>,
        access_level: Option<AccessRequired>,
    },
    GroupAnnouncementOnlyChangeUpdate { updater_aci: Option<Vec<u8>>, is_announcement_only: bool },
    GroupAdminStatusUpdate {
        updater_aci: Option<Vec<u8>>,
        member_aci: Vec<u8>,
        was_admin_status_granted: bool,
    },
    GroupMemberLeftUpdate { aci: Vec<u8> },
    GroupMemberRemovedUpdate { remover_aci: Option<Vec<u8>>, removed_aci: Vec<u8> },
    SelfInvitedToGroupUpdate { inviter_aci: Option<Vec<u8>> },
    SelfInvitedOtherUserToGroupUpdate { invitee_service_id: Vec<u8> },
    GroupUnknownInviteeUpdate { inviter_aci: Option<Vec<u8>> },
    GroupInvitationAcceptedUpdate { new_member_aci: Vec<u8> },
    GroupInvitationDeclinedUpdate { inviter_aci: Option<Vec<u8>>, invitee_aci: Option<Vec<u8>> },
    GroupMemberJoinedUpdate { new_member_aci: Vec<u8> },
    GroupMemberJoinedByLinkUpdate { new_member_aci: Vec<u8> },
    GroupMemberAddedUpdate { updater_aci: Option<Vec<u8>>, new_member_aci: Vec<u8> },
    GroupSelfInvitationRevokedUpdate { revoker_aci: Option<Vec<u8>> },
    GroupInvitationRevokedUpdate { updater_aci: Option<Vec<u8>>, invitees: Vec<Invitee> },
    GroupJoinRequestUpdate { requestor_aci: Vec<u8> },
    GroupJoinRequestApprovalUpdate {
        requestor_aci: Vec<u8>,
        updater_aci: Option<Vec<u8>>,
        was_approved: bool,
    },
    GroupJoinRequestCanceledUpdate { requestor_aci: Vec<u8> },
    GroupSequenceOfRequestsAndCancelsUpdate { requestor_aci: Vec<u8> },
    GroupInviteLinkResetUpdate { updater_aci: Option<Vec<u8>> },
    GroupInviteLinkEnabledUpdate {
        updater_aci: Option<Vec<u8>>,
        link_requires_admin_approval: bool,
    },
    GroupInviteLinkAdminApprovalUpdate {
        updater_aci: Option<Vec<u8>>,
        link_requires_admin_approval: bool,
    },
    GroupInviteLinkDisabledUpdate { updater_aci: Option<Vec<u8>> },
    GroupV2MigrationUpdate,
    GroupV2MigrationSelfInvitedUpdate,
    GroupV2MigrationInvitedMembersUpdate,
    GroupV2MigrationDroppedMembersUpdate,
    GroupExpirationTimerUpdate { expires_in_ms: u64, updater_aci: Option<Vec<u8>> },
}

/// What a [`Update`] holds.
#[verifier::ext_equal]
pub enum UpdateView {
    GenericGroupUpdate { updater_aci: Option<Seq<u8>> },
    GroupCreationUpdate { updater_aci: Option<Seq<u8>> },
    GroupNameUpdate { updater_aci: Option<Seq<u8>>, new_group_name: Option<Seq<char>> },
    GroupAvatarUpdate { updater_aci: Option<Seq<u8>>, was_removed: bool },
    GroupDescriptionUpdate { updater_aci: Option<Seq<u8>>, new_description: Option<Seq<char>> },
    GroupMembershipAccessLevelChangeUpdate {
        updater_aci: Option<Seq<u8>>,
        access_level: Option<AccessRequired>,
    },
    GroupAttributesAccessLevelChangeUpdate {
        updater_aci: Option<Seq<u8>>,
        access_level: Option<AccessRequired>,
    },
    GroupAnnouncementOnlyChangeUpdate { updater_aci: Option<Seq<u8>>, is_announcement_only: bool },
    GroupAdminStatusUpdate {
        updater_aci: Option<Seq<u8>>,
        member_aci: Seq<u8>,
        was_admin_status_granted: bool,
    },
    GroupMemberLeftUpdate { aci: Seq<u8> },
    GroupMemberRemovedUpdate { remover_aci: Option<Seq<u8>>, removed_aci: Seq<u8> },
    SelfInvitedToGroupUpdate { inviter_aci: Option<Seq<u8>> },
    SelfInvitedOtherUserToGroupUpdate { invitee_service_id: Seq<u8> },
    GroupUnknownInviteeUpdate { inviter_aci: Option<Seq<u8>> },
    GroupInvitationAcceptedUpdate { new_member_aci: Seq<u8> },
    GroupInvitationDeclinedUpdate { inviter_aci: Option<Seq<u8>>, invitee_aci: Option<Seq<u8>> },
    GroupMemberJoinedUpdate { new_member_aci: Seq<u8> },
    GroupMemberJoinedByLinkUpdate { new_member_aci: Seq<u8> },
    GroupMemberAddedUpdate { updater_aci: Option<Seq<u8>>, new_member_aci: Seq<u8> },
    GroupSelfInvitationRevokedUpdate { revoker_aci: Option<Seq<u8>> },
    GroupInvitationRevokedUpdate { updater_aci: Option<Seq<u8>>, invitees: Seq<InviteeView> },
    GroupJoinRequestUpdate { requestor_aci: Seq<u8> },
    GroupJoinRequestApprovalUpdate {
        requestor_aci: Seq<u8>,
        updater_aci: Option<Seq<u8>>,
        was_approved: bool,
    },
    GroupJoinRequestCanceledUpdate { requestor_aci: Seq<u8> },
    GroupSequenceOfRequestsAndCancelsUpdate { requestor_aci: Seq<u8> },
    GroupInviteLinkResetUpdate { updater_aci: Option<Seq<u8>> },
    GroupInviteLinkEnabledUpdate {
        updater_aci: Option<Seq<u8>>,
        link_requires_admin_approval: bool,
    },
    GroupInviteLinkAdminApprovalUpdate {
        updater_aci: Option<Seq<u8>>,
        link_requires_admin_approval: bool,
    },
    GroupInviteLinkDisabledUpdate { updater_aci: Option<Seq<u8>> },
    GroupV2MigrationUpdate,
    GroupV2MigrationSelfInvitedUpdate,
    GroupV2MigrationInvitedMembersUpdate,
    GroupV2MigrationDroppedMembersUpdate,
    GroupExpirationTimerUpdate { expires_in_ms: u64, updater_aci: Option<Seq<u8>> },
}

impl DeepView for Update {
    type V = UpdateView;

    open spec fn deep_view(&self) -> UpdateView {
        match self {
            Update::GenericGroupUpdate { updater_aci } => UpdateView::GenericGroupUpdate {
                updater_aci: updater_aci.deep_view(),
            },
            Update::GroupCreationUpdate { updater_aci } => UpdateView::GroupCreationUpdate {
                updater_aci: updater_aci.deep_view(),
            },
            Update::GroupNameUpdate { updater_aci, new_group_name } => UpdateView::GroupNameUpdate {
                updater_aci: updater_aci.deep_view(),
                new_group_name: new_group_name.deep_view(),
            },
            Update::GroupAvatarUpdate { updater_aci, was_removed } => {
                UpdateView::GroupAvatarUpdate {
                    updater_aci: updater_aci.deep_view(),
                    was_removed: *was_removed,
                }
            },
            Update::GroupDescriptionUpdate { updater_aci, new_description } => {
                UpdateView::GroupDescriptionUpdate {
                    updater_aci: updater_aci.deep_view(),
                    new_description: new_description.deep_view(),
                }
            },
            Update::GroupMembershipAccessLevelChangeUpdate { updater_aci, access_level } => {
                UpdateView::GroupMembershipAccessLevelChangeUpdate {
                    updater_aci: updater_aci.deep_view(),
                    access_level: *access_level,
                }
            },
            Update::GroupAttributesAccessLevelChangeUpdate { updater_aci, access_level } => {
                UpdateView::GroupAttributesAccessLevelChangeUpdate {
                    updater_aci: updater_aci.deep_view(),
                    access_level: *access_level,
                }
            },
            Update::GroupAnnouncementOnlyChangeUpdate { updater_aci, is_announcement_only } => {
                UpdateView::GroupAnnouncementOnlyChangeUpdate {
                    updater_aci: updater_aci.deep_view(),
                    is_announcement_only: *is_announcement_only,
                }
            },
            Update::GroupAdminStatusUpdate {
                updater_aci,
                member_aci,
                was_admin_status_granted,
            } => UpdateView::GroupAdminStatusUpdate {
                updater_aci: updater_aci.deep_view(),
                member_aci: member_aci.deep_view(),
                was_admin_status_granted: *was_admin_status_granted,
            },
            Update::GroupMemberLeftUpdate { aci } => UpdateView::GroupMemberLeftUpdate {
                aci: aci.deep_view(),
            },
            Update::GroupMemberRemovedUpdate { remover_aci, removed_aci } => {
                UpdateView::GroupMemberRemovedUpdate {
                    remover_aci: remover_aci.deep_view(),
                    removed_aci: removed_aci.deep_view(),
                }
            },
            Update::SelfInvitedToGroupUpdate { inviter_aci } => {
                UpdateView::SelfInvitedToGroupUpdate { inviter_aci: inviter_aci.deep_view() }
            },
            Update::SelfInvitedOtherUserToGroupUpdate { invitee_service_id } => {
                UpdateView::SelfInvitedOtherUserToGroupUpdate {
                    invitee_service_id: invitee_service_id.deep_view(),
                }
            },
            Update::GroupUnknownInviteeUpdate { inviter_aci } => {
                UpdateView::GroupUnknownInviteeUpdate { inviter_aci: inviter_aci.deep_view() }
            },
            Update::GroupInvitationAcceptedUpdate { new_member_aci } => {
                UpdateView::GroupInvitationAcceptedUpdate {
                    new_member_aci: new_member_aci.deep_view(),
                }
            },
            Update::GroupInvitationDeclinedUpdate { inviter_aci, invitee_aci } => {
                UpdateView::GroupInvitationDeclinedUpdate {
                    inviter_aci: inviter_aci.deep_view(),
                    invitee_aci: invitee_aci.deep_view(),
                }
            },
            Update::GroupMemberJoinedUpdate { new_member_aci } => {
                UpdateView::GroupMemberJoinedUpdate { new_member_aci: new_member_aci.deep_view() }
            },
            Update::GroupMemberJoinedByLinkUpdate { new_member_aci } => {
                UpdateView::GroupMemberJoinedByLinkUpdate {
                    new_member_aci: new_member_aci.deep_view(),
                }
            },
            Update::GroupMemberAddedUpdate { updater_aci, new_member_aci } => {
                UpdateView::GroupMemberAddedUpdate {
                    updater_aci: updater_aci.deep_view(),
                    new_member_aci: new_member_aci.deep_view(),
                }
            },
            Update::GroupSelfInvitationRevokedUpdate { revoker_aci } => {
                UpdateView::GroupSelfInvitationRevokedUpdate {
                    revoker_aci: revoker_aci.deep_view(),
                }
            },
            Update::GroupInvitationRevokedUpdate { updater_aci, invitees } => {
                UpdateView::GroupInvitationRevokedUpdate {
                    updater_aci: updater_aci.deep_view(),
                    invitees: invitees.deep_view(),
                }
            },
            Update::GroupJoinRequestUpdate { requestor_aci } => UpdateView::GroupJoinRequestUpdate {
                requestor_aci: requestor_aci.deep_view(),
            },
            Update::GroupJoinRequestApprovalUpdate { requestor_aci, updater_aci, was_approved } => {
                UpdateView::GroupJoinRequestApprovalUpdate {
                    requestor_aci: requestor_aci.deep_view(),
                    updater_aci: updater_aci.deep_view(),
                    was_approved: *was_approved,
                }
            },
            Update::GroupJoinRequestCanceledUpdate { requestor_aci } => {
                UpdateView::GroupJoinRequestCanceledUpdate {
                    requestor_aci: requestor_aci.deep_view(),
                }
            },
            Update::GroupSequenceOfRequestsAndCancelsUpdate { requestor_aci } => {
                UpdateView::GroupSequenceOfRequestsAndCancelsUpdate {
                    requestor_aci: requestor_aci.deep_view(),
                }
            },
            Update::GroupInviteLinkResetUpdate { updater_aci } => {
                UpdateView::GroupInviteLinkResetUpdate { updater_aci: updater_aci.deep_view() }
            },
            Update::GroupInviteLinkEnabledUpdate { updater_aci, link_requires_admin_approval } => {
                UpdateView::GroupInviteLinkEnabledUpdate {
                    updater_aci: updater_aci.deep_view(),
                    link_requires_admin_approval: *link_requires_admin_approval,
                }
            },
            Update::GroupInviteLinkAdminApprovalUpdate {
                updater_aci,
                link_requires_admin_approval,
            } => UpdateView::GroupInviteLinkAdminApprovalUpdate {
                updater_aci: updater_aci.deep_view(),
                link_requires_admin_approval: *link_requires_admin_approval,
            },
            Update::GroupInviteLinkDisabledUpdate { updater_aci } => {
                UpdateView::GroupInviteLinkDisabledUpdate { updater_aci: updater_aci.deep_view() }
            },
            Update::GroupV2MigrationUpdate => UpdateView::GroupV2MigrationUpdate,
            Update::GroupV2MigrationSelfInvitedUpdate => {
                UpdateView::GroupV2MigrationSelfInvitedUpdate
            },
            Update::GroupV2MigrationInvitedMembersUpdate => {
                UpdateView::GroupV2MigrationInvitedMembersUpdate
            },
            Update::GroupV2MigrationDroppedMembersUpdate => {
                UpdateView::GroupV2MigrationDroppedMembersUpdate
            },
            Update::GroupExpirationTimerUpdate { expires_in_ms, updater_aci } => {
                UpdateView::GroupExpirationTimerUpdate {
                    expires_in_ms: *expires_in_ms,
                    updater_aci: updater_aci.deep_view(),
                }
            },
        }
    }
}

impl Clone for Update {
    fn clone(&self) -> (r: Self)
        ensures
            r.deep_view() == self.deep_view(),
    {
        let r = match self {
            Update::GenericGroupUpdate { updater_aci } => Update::GenericGroupUpdate {
                updater_aci: updater_aci.clone(),
            },
            Update::GroupCreationUpdate { updater_aci } => Update::GroupCreationUpdate {
                updater_aci: updater_aci.clone(),
            },
            Update::GroupNameUpdate { updater_aci, new_group_name } => Update::GroupNameUpdate {
                updater_aci: updater_aci.clone(),
                new_group_name: new_group_name.clone(),
            },
            Update::GroupAvatarUpdate { updater_aci, was_removed } => Update::GroupAvatarUpdate {
                updater_aci: updater_aci.clone(),
                was_removed: *was_removed,
            },
            Update::GroupDescriptionUpdate { updater_aci, new_description } => {
                Update::GroupDescriptionUpdate {
                    updater_aci: updater_aci.clone(),
                    new_description: new_description.clone(),
                }
            },
            Update::GroupMembershipAccessLevelChangeUpdate { updater_aci, access_level } => {
                Update::GroupMembershipAccessLevelChangeUpdate {
                    updater_aci: updater_aci.clone(),
                    access_level: *access_level,
                }
            },
            Update::GroupAttributesAccessLevelChangeUpdate { updater_aci, access_level } => {
                Update::GroupAttributesAccessLevelChangeUpdate {
                    updater_aci: updater_aci.clone(),
                    access_level: *access_level,
                }
            },
            Update::GroupAnnouncementOnlyChangeUpdate { updater_aci, is_announcement_only } => {
                Update::GroupAnnouncementOnlyChangeUpdate {
                    updater_aci: updater_aci.clone(),
                    is_announcement_only: *is_announcement_only,
                }
            },
            Update::GroupAdminStatusUpdate {
                updater_aci,
                member_aci,
                was_admin_status_granted,
            } => Update::GroupAdminStatusUpdate {
                updater_aci: updater_aci.clone(),
                member_aci: member_aci.clone(),
                was_admin_status_granted: *was_admin_status_granted,
            },
            Update::GroupMemberLeftUpdate { aci } => Update::GroupMemberLeftUpdate {
                aci: aci.clone(),
            },
            Update::GroupMemberRemovedUpdate { remover_aci, removed_aci } => {
                Update::GroupMemberRemovedUpdate {
                    remover_aci: remover_aci.clone(),
                    removed_aci: removed_aci.clone(),
                }
            },
            Update::SelfInvitedToGroupUpdate { inviter_aci } => Update::SelfInvitedToGroupUpdate {
                inviter_aci: inviter_aci.clone(),
            },
            Update::SelfInvitedOtherUserToGroupUpdate { invitee_service_id } => {
                Update::SelfInvitedOtherUserToGroupUpdate {
                    invitee_service_id: invitee_service_id.clone(),
                }
            },
            Update::GroupUnknownInviteeUpdate { inviter_aci } => Update::GroupUnknownInviteeUpdate {
                inviter_aci: inviter_aci.clone(),
            },
            Update::GroupInvitationAcceptedUpdate { new_member_aci } => {
                Update::GroupInvitationAcceptedUpdate { new_member_aci: new_member_aci.clone() }
            },
            Update::GroupInvitationDeclinedUpdate { inviter_aci, invitee_aci } => {
                Update::GroupInvitationDeclinedUpdate {
                    inviter_aci: inviter_aci.clone(),
                    invitee_aci: invitee_aci.clone(),
                }
            },
            Update::GroupMemberJoinedUpdate { new_member_aci } => Update::GroupMemberJoinedUpdate {
                new_member_aci: new_member_aci.clone(),
            },
            Update::GroupMemberJoinedByLinkUpdate { new_member_aci } => {
                Update::GroupMemberJoinedByLinkUpdate { new_member_aci: new_member_aci.clone() }
            },
            Update::GroupMemberAddedUpdate { updater_aci, new_member_aci } => {
                Update::GroupMemberAddedUpdate {
                    updater_aci: updater_aci.clone(),
                    new_member_aci: new_member_aci.clone(),
                }
            },
            Update::GroupSelfInvitationRevokedUpdate { revoker_aci } => {
                Update::GroupSelfInvitationRevokedUpdate { revoker_aci: revoker_aci.clone() }
            },
            Update::GroupInvitationRevokedUpdate { updater_aci, invitees } => {
                Update::GroupInvitationRevokedUpdate {
                    updater_aci: updater_aci.clone(),
                    invitees: invitees.clone(),
                }
            },
            Update::GroupJoinRequestUpdate { requestor_aci } => Update::GroupJoinRequestUpdate {
                requestor_aci: requestor_aci.clone(),
            },
            Update::GroupJoinRequestApprovalUpdate { requestor_aci, updater_aci, was_approved } => {
                Update::GroupJoinRequestApprovalUpdate {
                    requestor_aci: requestor_aci.clone(),
                    updater_aci: updater_aci.clone(),
                    was_approved: *was_approved,
                }
            },
            Update::GroupJoinRequestCanceledUpdate { requestor_aci } => {
                Update::GroupJoinRequestCanceledUpdate { requestor_aci: requestor_aci.clone() }
            },
            Update::GroupSequenceOfRequestsAndCancelsUpdate { requestor_aci } => {
                Update::GroupSequenceOfRequestsAndCancelsUpdate {
                    requestor_aci: requestor_aci.clone(),
                }
            },
            Update::GroupInviteLinkResetUpdate { updater_aci } => {
                Update::GroupInviteLinkResetUpdate { updater_aci: updater_aci.clone() }
            },
            Update::GroupInviteLinkEnabledUpdate { updater_aci, link_requires_admin_approval } => {
                Update::GroupInviteLinkEnabledUpdate {
                    updater_aci: updater_aci.clone(),
                    link_requires_admin_approval: *link_requires_admin_approval,
                }
            },
            Update::GroupInviteLinkAdminApprovalUpdate {
                updater_aci,
                link_requires_admin_approval,
            } => Update::GroupInviteLinkAdminApprovalUpdate {
                updater_aci: updater_aci.clone(),
                link_requires_admin_approval: *link_requires_admin_approval,
            },
            Update::GroupInviteLinkDisabledUpdate { updater_aci } => {
                Update::GroupInviteLinkDisabledUpdate { updater_aci: updater_aci.clone() }
            },
            Update::GroupV2MigrationUpdate => Update::GroupV2MigrationUpdate,
            Update::GroupV2MigrationSelfInvitedUpdate => Update::GroupV2MigrationSelfInvitedUpdate,
            Update::GroupV2MigrationInvitedMembersUpdate => {
                Update::GroupV2MigrationInvitedMembersUpdate
            },
            Update::GroupV2MigrationDroppedMembersUpdate => {
                Update::GroupV2MigrationDroppedMembersUpdate
            },
            Update::GroupExpirationTimerUpdate { expires_in_ms, updater_aci } => {
                Update::GroupExpirationTimerUpdate {
                    expires_in_ms: *expires_in_ms,
                    updater_aci: updater_aci.clone(),
                }
            },
        };
        proof {
            assert(r.deep_view() =~= self.deep_view());
        }
        r
    }
}

/// A change to a group, where its kind is known.
#[derive(Debug, PartialEq)]
pub struct GroupChangeUpdate {
    pub update: Option<Update>,
}

/// What a [`GroupChangeUpdate`] holds.
#[verifier::ext_equal]
pub struct GroupChangeUpdateView {
    pub update: Option<UpdateView>,
}

impl DeepView for GroupChangeUpdate {
    type V = GroupChangeUpdateView;

    open spec fn deep_view(&self) -> GroupChangeUpdateView {
        GroupChangeUpdateView {
            update: self.update.deep_view(),
        }
    }
}

impl Clone for GroupChangeUpdate {
    fn clone(&self) -> (r: Self)
        ensures
            r.deep_view() == self.deep_view(),
    {
        let r = GroupChangeUpdate {
            update: self.update.clone(),
        };
        proof {
            assert(r.update.deep_view() =~= self.update.deep_view());
        }
        r
    }
}

impl GroupChangeUpdateView {
    /// Every field unset.
    pub open spec fn empty() -> GroupChangeUpdateView {
        GroupChangeUpdateView {
            update: None,
        }
    }
}

impl Default for GroupChangeUpdate {
    fn default() -> (r: Self)
        ensures
            r.deep_view() == GroupChangeUpdateView::empty(),
    {
        let r = GroupChangeUpdate {
            update: None,
        };
        proof {
            assert(r.deep_view() =~= GroupChangeUpdateView::empty());
        }
        r
    }
}

/// What happened in a conversation.
#[derive(Debug, PartialEq)]
pub enum ChatUpdate {
    SimpleUpdate(SimpleUpdateType),
    GroupChange(Vec<GroupChangeUpdate>),
    IndividualCall(IndividualCall),
    GroupCall(GroupCall),
    Other,
}

/// What a [`ChatUpdate`] holds.
#[verifier::ext_equal]
pub enum ChatUpdateView {
    SimpleUpdate(SimpleUpdateType),
    GroupChange(Seq<GroupChangeUpdateView>),
    IndividualCall(IndividualCallView),
    GroupCall(GroupCallView),
    Other,
}

impl DeepView for ChatUpdate {
    type V = ChatUpdateView;

    open spec fn deep_view(&self) -> ChatUpdateView {
        match self {
            ChatUpdate::SimpleUpdate(x) => ChatUpdateView::SimpleUpdate(*x),
            ChatUpdate::GroupChange(x) => ChatUpdateView::GroupChange(x.deep_view()),
            ChatUpdate::IndividualCall(x) => ChatUpdateView::IndividualCall(x.deep_view()),
            ChatUpdate::GroupCall(x) => ChatUpdateView::GroupCall(x.deep_view()),
            ChatUpdate::Other => ChatUpdateView::Other,
        }
    }
}

impl Clone for ChatUpdate {
    fn clone(&self) -> (r: Self)
        ensures
            r.deep_view() == self.deep_view(),
    {
        let r = match self {
            ChatUpdate::SimpleUpdate(x) => ChatUpdate::SimpleUpdate(*x),
            ChatUpdate::GroupChange(x) => ChatUpdate::GroupChange(x.clone()),
            ChatUpdate::IndividualCall(x) => ChatUpdate::IndividualCall(x.clone()),
            ChatUpdate::GroupCall(x) => ChatUpdate::GroupCall(x.clone()),
            ChatUpdate::Other => ChatUpdate::Other,
        };
        proof {
            assert(r.deep_view() =~= self.deep_view());
        }
        r
    }
}

/// An event in a conversation that is no message.
#[derive(Debug, PartialEq)]
pub struct ChatUpdateMessage {
    pub update: Option<ChatUpdate>,
}

/// What a [`ChatUpdateMessage`] holds.
#[verifier::ext_equal]
pub struct ChatUpdateMessageView {
    pub update: Option<ChatUpdateView>,
}

impl DeepView for ChatUpdateMessage {
    type V = ChatUpdateMessageView;

    open spec fn deep_view(&self) -> ChatUpdateMessageView {
        ChatUpdateMessageView {
            update: self.update.deep_view(),
        }
    }
}

impl Clone for ChatUpdateMessage {
    fn clone(&self) -> (r: Self)
        ensures
            r.deep_view() == self.deep_view(),
    {
        let r = ChatUpdateMessage {
            update: self.update.clone(),
        };
        proof {
            assert(r.update.deep_view() =~= self.update.deep_view());
        }
        r
    }
}

impl ChatUpdateMessageView {
    /// Every field unset.
    pub open spec fn empty() -> ChatUpdateMessageView {
        ChatUpdateMessageView {
            update: None,
        }
    }
}

impl Default for ChatUpdateMessage {
    fn default() -> (r: Self)
        ensures
            r.deep_view() == ChatUpdateMessageView::empty(),
    {
        let r = ChatUpdateMessage {
            update: None,
        };
        proof {
            assert(r.deep_view() =~= ChatUpdateMessageView::empty());
        }
        r
    }
}

/// What stands in a conversation.
#[derive(Debug, PartialEq)]
pub enum Item {
    StandardMessage(StandardMessage),
    StickerMessage(StickerMessage),
    UpdateMessage(ChatUpdateMessage),
    Other,
}

/// What a [`Item`] holds.
#[verifier::ext_equal]
pub enum ItemView {
    StandardMessage(StandardMessageView),
    StickerMessage(StickerMessageView),
    UpdateMessage(ChatUpdateMessageView),
    Other,
}

impl DeepView for Item {
    type V = ItemView;

    open spec fn deep_view(&self) -> ItemView {
        match self {
            Item::StandardMessage(x) => ItemView::StandardMessage(x.deep_view()),
            Item::StickerMessage(x) => ItemView::StickerMessage(x.deep_view()),
            Item::UpdateMessage(x) => ItemView::UpdateMessage(x.deep_view()),
            Item::Other => ItemView::Other,
        }
    }
}

impl Clone for Item {
    fn clone(&self) -> (r: Self)
        ensures
            r.deep_view() == self.deep_view(),
    {
        let r = match self {
            Item::StandardMessage(x) => Item::StandardMessage(x.clone()),
            Item::StickerMessage(x) => Item::StickerMessage(x.clone()),
            Item::UpdateMessage(x) => Item::UpdateMessage(x.clone()),
            Item::Other => Item::Other,
        };
        proof {
            assert(r.deep_view() =~= self.deep_view());
        }
        r
    }
}

/// One entry of a conversation.
#[derive(Debug, PartialEq)]
pub struct ChatItem {
    pub chat_id: u64,
    pub author_id: u64,
    pub date_sent: u64,
    pub directional_details: Option<DirectionalDetails>,
    pub item: Option<Item>,
}

/// What a [`ChatItem`] holds.
#[verifier::ext_equal]
pub struct ChatItemView {
    pub chat_id: u64,
    pub author_id: u64,
    pub date_sent: u64,
    pub directional_details: Option<DirectionalDetailsView>,
    pub item: Option<ItemView>,
}

impl DeepView for ChatItem {
    type V = ChatItemView;

    open spec fn deep_view(&self) -> ChatItemView {
        ChatItemView {
            chat_id: self.chat_id,
            author_id: self.author_id,
            date_sent: self.date_sent,
            directional_details: self.directional_details.deep_view(),
            item: self.item.deep_view(),
        }
    }
}

impl Clone for ChatItem {
    fn clone(&self) -> (r: Self)
        ensures
            r.deep_view() == self.deep_view(),
    {
        let r = ChatItem {
            chat_id: self.chat_id,
            author_id: self.author_id,
            date_sent: self.date_sent,
            directional_details: self.directional_details.clone(),
            item: self.item.clone(),
        };
        proof {
            assert(r.directional_details.deep_view() =~= self.directional_details.deep_view());
            assert(r.item.deep_view() =~= self.item.deep_view());
        }
        r
    }
}

impl ChatItemView {
    /// Every field unset.
    pub open spec fn empty() -> ChatItemView {
        ChatItemView {
            chat_id: 0,
            author_id: 0,
            date_sent: 0,
            directional_details: None,
            item: None,
        }
    }
}

impl Default for ChatItem {
    fn default() -> (r: Self)
        ensures
            r.deep_view() == ChatItemView::empty(),
    {
        let r = ChatItem {
            chat_id: 0,
            author_id: 0,
            date_sent: 0,
            directional_details: None,
            item: None,
        };
        proof {
            assert(r.deep_view() =~= ChatItemView::empty());
        }
        r
    }
}

/// What a frame holds.
#[derive(Debug, PartialEq)]
pub enum FrameItem {
    Recipient(Recipient),
    Chat(Chat),
    ChatItem(ChatItem),
    Other,
}

/// What a [`FrameItem`] holds.
#[verifier::ext_equal]
pub enum FrameItemView {
    Recipient(RecipientView),
    Chat(ChatView),
    ChatItem(ChatItemView),
    Other,
}

impl DeepView for FrameItem {
    type V = FrameItemView;

    open spec fn deep_view(&self) -> FrameItemView {
        match self {
            FrameItem::Recipient(x) => FrameItemView::Recipient(x.deep_view()),
            FrameItem::Chat(x) => FrameItemView::Chat(x.deep_view()),
            FrameItem::ChatItem(x) => FrameItemView::ChatItem(x.deep_view()),
            FrameItem::Other => FrameItemView::Other,
        }
    }
}

impl Clone for FrameItem {
    fn clone(&self) -> (r: Self)
        ensures
            r.deep_view() == self.deep_view(),
    {
        let r = match self {
            FrameItem::Recipient(x) => FrameItem::Recipient(x.clone()),
            FrameItem::Chat(x) => FrameItem::Chat(x.clone()),
            FrameItem::ChatItem(x) => FrameItem::ChatItem(x.clone()),
            FrameItem::Other => FrameItem::Other,
        };
        proof {
            assert(r.deep_view() =~= self.deep_view());
        }
        r
    }
}

} // verus!

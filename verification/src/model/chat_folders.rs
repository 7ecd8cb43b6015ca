//! Chat folders as the storage service holds them.
//!
//! A folder is a record: a name, a position, four rule flags and two recipient lists.
use unicode_normalization::UnicodeNormalization;
use unicode_segmentation::UnicodeSegmentation;
use vstd::prelude::*;

use crate::service_id;
use crate::service_id::{ServiceId, ServiceIdView, Uuid};
use crate::text;

verus! {

/// The position of a tombstone.
pub const CHAT_FOLDER_DELETED_POSITION: u32 = 4294967295;

/// How long the name of a folder may be, in graphemes.
pub const CHAT_FOLDER_NAME_MAX_GRAPHEMES: usize = 32;

/// What kind of folder a folder is. The same in a record: a number that stands for no kind
/// reads as unknown.
#[derive(Debug, Clone, Copy, PartialEq, Eq, Structural)]
pub enum ChatFolderType {
    Unknown,
    /// The one "All chats" folder every account carries. Its name and rules are fixed (see
    /// [`ChatFolder::all_chats`]) and it cannot be deleted.
    All,
    Custom,
}

/// A person, as a record names them.
#[derive(Debug, PartialEq)]
pub struct RecipientContact {
    pub service_id: String,
    pub e164: String,
    pub service_id_binary: Vec<u8>,
}

/// What a [`RecipientContact`] holds.
#[verifier::ext_equal]
pub struct RecipientContactView {
    pub service_id: Seq<char>,
    pub e164: Seq<char>,
    pub service_id_binary: Seq<u8>,
}

impl DeepView for RecipientContact {
    type V = RecipientContactView;

    open spec fn deep_view(&self) -> RecipientContactView {
        RecipientContactView {
            service_id: self.service_id.deep_view(),
            e164: self.e164.deep_view(),
            service_id_binary: self.service_id_binary.deep_view(),
        }
    }
}

impl Clone for RecipientContact {
    fn clone(&self) -> (r: Self)
        ensures
            r.deep_view() == self.deep_view(),
    {
        let r = RecipientContact {
            service_id: self.service_id.clone(),
            e164: self.e164.clone(),
            service_id_binary: self.service_id_binary.clone(),
        };
        proof {
            assert(r.service_id_binary.deep_view() =~= self.service_id_binary.deep_view());
        }
        r
    }
}

impl RecipientContactView {
    /// Every field unset.
    pub open spec fn empty() -> RecipientContactView {
        RecipientContactView {
            service_id: Seq::empty(),
            e164: Seq::empty(),
            service_id_binary: Seq::empty(),
        }
    }
}

impl Default for RecipientContact {
    fn default() -> (r: Self)
        ensures
            r.deep_view() == RecipientContactView::empty(),
    {
        let r = RecipientContact {
            service_id: String::new(),
            e164: String::new(),
            service_id_binary: Vec::new(),
        };
        proof {
            assert(r.deep_view() =~= RecipientContactView::empty());
        }
        r
    }
}

/// A person or a group, as a record names it.
#[derive(Debug, PartialEq)]
pub enum RecipientIdentifier {
    Contact(RecipientContact),
    LegacyGroupId(Vec<u8>),
    GroupMasterKey(Vec<u8>),
}

/// What a [`RecipientIdentifier`] holds.
#[verifier::ext_equal]
pub enum RecipientIdentifierView {
    Contact(RecipientContactView),
    LegacyGroupId(Seq<u8>),
    GroupMasterKey(Seq<u8>),
}

impl DeepView for RecipientIdentifier {
    type V = RecipientIdentifierView;

    open spec fn deep_view(&self) -> RecipientIdentifierView {
        match self {
            RecipientIdentifier::Contact(x) => RecipientIdentifierView::Contact(x.deep_view()),
            RecipientIdentifier::LegacyGroupId(x) => RecipientIdentifierView::LegacyGroupId(
                x.deep_view(),
            ),
            RecipientIdentifier::GroupMasterKey(x) => RecipientIdentifierView::GroupMasterKey(
                x.deep_view(),
            ),
        }
    }
}

impl Clone for RecipientIdentifier {
    fn clone(&self) -> (r: Self)
        ensures
            r.deep_view() == self.deep_view(),
    {
        let r = match self {
            RecipientIdentifier::Contact(x) => RecipientIdentifier::Contact(x.clone()),
            RecipientIdentifier::LegacyGroupId(x) => RecipientIdentifier::LegacyGroupId(x.clone()),
            RecipientIdentifier::GroupMasterKey(x) => RecipientIdentifier::GroupMasterKey(
                x.clone(),
            ),
        };
        proof {
            assert(r.deep_view() =~= self.deep_view());
        }
        r
    }
}

/// One entry of the recipient lists of a record. Empty where it names something that this
/// library does not know.
#[derive(Debug, PartialEq)]
pub struct Recipient {
    pub identifier: Option<RecipientIdentifier>,
}

/// What a [`Recipient`] holds.
#[verifier::ext_equal]
pub struct RecipientView {
    pub identifier: Option<RecipientIdentifierView>,
}

impl DeepView for Recipient {
    type V = RecipientView;

    open spec fn deep_view(&self) -> RecipientView {
        RecipientView {
            identifier: self.identifier.deep_view(),
        }
    }
}

impl Clone for Recipient {
    fn clone(&self) -> (r: Self)
        ensures
            r.deep_view() == self.deep_view(),
    {
        let r = Recipient {
            identifier: self.identifier.clone(),
        };
        proof {
            assert(r.identifier.deep_view() =~= self.identifier.deep_view());
        }
        r
    }
}

impl RecipientView {
    /// Every field unset.
    pub open spec fn empty() -> RecipientView {
        RecipientView {
            identifier: None,
        }
    }
}

impl Default for Recipient {
    fn default() -> (r: Self)
        ensures
            r.deep_view() == RecipientView::empty(),
    {
        let r = Recipient {
            identifier: None,
        };
        proof {
            assert(r.deep_view() =~= RecipientView::empty());
        }
        r
    }
}

/// A folder, as the storage service keeps it.
#[derive(Debug, PartialEq)]
pub struct ChatFolderRecord {
    pub identifier: Vec<u8>,
    pub name: String,
    pub position: u32,
    pub show_only_unread: bool,
    pub show_muted_chats: bool,
    pub include_all_individual_chats: bool,
    pub include_all_group_chats: bool,
    pub folder_type: ChatFolderType,
    pub included_recipients: Vec<Recipient>,
    pub excluded_recipients: Vec<Recipient>,
    pub deleted_at_timestamp_ms: u64,
}

/// What a [`ChatFolderRecord`] holds.
#[verifier::ext_equal]
pub struct ChatFolderRecordView {
    pub identifier: Seq<u8>,
    pub name: Seq<char>,
    pub position: u32,
    pub show_only_unread: bool,
    pub show_muted_chats: bool,
    pub include_all_individual_chats: bool,
    pub include_all_group_chats: bool,
    pub folder_type: ChatFolderType,
    pub included_recipients: Seq<RecipientView>,
    pub excluded_recipients: Seq<RecipientView>,
    pub deleted_at_timestamp_ms: u64,
}

impl DeepView for ChatFolderRecord {
    type V = ChatFolderRecordView;

    open spec fn deep_view(&self) -> ChatFolderRecordView {
        ChatFolderRecordView {
            identifier: self.identifier.deep_view(),
            name: self.name.deep_view(),
            position: self.position,
            show_only_unread: self.show_only_unread,
            show_muted_chats: self.show_muted_chats,
            include_all_individual_chats: self.include_all_individual_chats,
            include_all_group_chats: self.include_all_group_chats,
            folder_type: self.folder_type,
            included_recipients: self.included_recipients.deep_view(),
            excluded_recipients: self.excluded_recipients.deep_view(),
            deleted_at_timestamp_ms: self.deleted_at_timestamp_ms,
        }
    }
}

impl Clone for ChatFolderRecord {
    fn clone(&self) -> (r: Self)
        ensures
            r.deep_view() == self.deep_view(),
    {
        let r = ChatFolderRecord {
            identifier: self.identifier.clone(),
            name: self.name.clone(),
            position: self.position,
            show_only_unread: self.show_only_unread,
            show_muted_chats: self.show_muted_chats,
            include_all_individual_chats: self.include_all_individual_chats,
            include_all_group_chats: self.include_all_group_chats,
            folder_type: self.folder_type,
            included_recipients: self.included_recipients.clone(),
            excluded_recipients: self.excluded_recipients.clone(),
            deleted_at_timestamp_ms: self.deleted_at_timestamp_ms,
        };
        proof {
            assert(r.identifier.deep_view() =~= self.identifier.deep_view());
            assert(r.included_recipients.deep_view() =~= self.included_recipients.deep_view());
            assert(r.excluded_recipients.deep_view() =~= self.excluded_recipients.deep_view());
        }
        r
    }
}

impl ChatFolderRecordView {
    /// Every field unset.
    pub open spec fn empty() -> ChatFolderRecordView {
        ChatFolderRecordView {
            identifier: Seq::empty(),
            name: Seq::empty(),
            position: 0,
            show_only_unread: false,
            show_muted_chats: false,
            include_all_individual_chats: false,
            include_all_group_chats: false,
            folder_type: ChatFolderType::Unknown,
            included_recipients: Seq::empty(),
            excluded_recipients: Seq::empty(),
            deleted_at_timestamp_ms: 0,
        }
    }
}

impl Default for ChatFolderRecord {
    fn default() -> (r: Self)
        ensures
            r.deep_view() == ChatFolderRecordView::empty(),
    {
        let r = ChatFolderRecord {
            identifier: Vec::new(),
            name: String::new(),
            position: 0,
            show_only_unread: false,
            show_muted_chats: false,
            include_all_individual_chats: false,
            include_all_group_chats: false,
            folder_type: ChatFolderType::Unknown,
            included_recipients: Vec::new(),
            excluded_recipients: Vec::new(),
            deleted_at_timestamp_ms: 0,
        };
        proof {
            assert(r.deep_view() =~= ChatFolderRecordView::empty());
        }
        r
    }
}

/// One entry of the recipient lists of a folder.
///
/// Kept as the identifiers the record carries rather than resolved to a local row, so a
/// recipient this device has never met still round-trips intact.
#[derive(Debug, PartialEq, Eq)]
pub enum FolderRecipient {
    Contact {
        /// The service id in its text form, when the record carried one that parses.
        service_id: Option<String>,
        e164: Option<String>,
    },
    GroupMasterKey([u8; 32]),
    LegacyGroupId(Vec<u8>),
}

/// What a [`FolderRecipient`] holds.
#[verifier::ext_equal]
pub enum FolderRecipientView {
    Contact { service_id: Option<Seq<char>>, e164: Option<Seq<char>> },
    GroupMasterKey(Seq<u8>),
    LegacyGroupId(Seq<u8>),
}

impl DeepView for FolderRecipient {
    type V = FolderRecipientView;

    open spec fn deep_view(&self) -> FolderRecipientView {
        match self {
            FolderRecipient::Contact { service_id, e164 } => FolderRecipientView::Contact {
                service_id: service_id.deep_view(),
                e164: e164.deep_view(),
            },
            FolderRecipient::GroupMasterKey(key) => FolderRecipientView::GroupMasterKey(key@),
            FolderRecipient::LegacyGroupId(id) => FolderRecipientView::LegacyGroupId(id@),
        }
    }
}

impl Clone for FolderRecipient {
    fn clone(&self) -> (r: Self)
        ensures
            r.deep_view() == self.deep_view(),
    {
        let r = match self {
            FolderRecipient::Contact { service_id, e164 } => FolderRecipient::Contact {
                service_id: service_id.clone(),
                e164: e164.clone(),
            },
            FolderRecipient::GroupMasterKey(key) => FolderRecipient::GroupMasterKey(*key),
            FolderRecipient::LegacyGroupId(id) => FolderRecipient::LegacyGroupId(id.clone()),
        };
        proof {
            assert(r.deep_view() =~= self.deep_view());
        }
        r
    }
}

/// A chat folder.
#[derive(Debug, PartialEq, Eq)]
pub struct ChatFolder {
    /// The identifier of the record. Also the local primary key.
    pub id: Uuid,
    pub folder_type: ChatFolderType,
    pub name: String,
    pub position: u32,
    pub show_only_unread: bool,
    pub show_muted_chats: bool,
    pub include_all_individual_chats: bool,
    pub include_all_group_chats: bool,
    pub included_recipients: Vec<FolderRecipient>,
    pub excluded_recipients: Vec<FolderRecipient>,
    /// `0` is live; anything else is a tombstone other devices must honour.
    pub deleted_at_timestamp_ms: u64,
}

/// What a [`ChatFolder`] holds.
#[verifier::ext_equal]
pub struct ChatFolderView {
    pub id: Seq<u8>,
    pub folder_type: ChatFolderType,
    pub name: Seq<char>,
    pub position: u32,
    pub show_only_unread: bool,
    pub show_muted_chats: bool,
    pub include_all_individual_chats: bool,
    pub include_all_group_chats: bool,
    pub included_recipients: Seq<FolderRecipientView>,
    pub excluded_recipients: Seq<FolderRecipientView>,
    pub deleted_at_timestamp_ms: u64,
}

impl DeepView for ChatFolder {
    type V = ChatFolderView;

    open spec fn deep_view(&self) -> ChatFolderView {
        ChatFolderView {
            id: self.id.deep_view(),
            folder_type: self.folder_type,
            name: self.name.deep_view(),
            position: self.position,
            show_only_unread: self.show_only_unread,
            show_muted_chats: self.show_muted_chats,
            include_all_individual_chats: self.include_all_individual_chats,
            include_all_group_chats: self.include_all_group_chats,
            included_recipients: self.included_recipients.deep_view(),
            excluded_recipients: self.excluded_recipients.deep_view(),
            deleted_at_timestamp_ms: self.deleted_at_timestamp_ms,
        }
    }
}

impl Clone for ChatFolder {
    fn clone(&self) -> (r: Self)
        ensures
            r.deep_view() == self.deep_view(),
    {
        let r = ChatFolder {
            id: self.id,
            folder_type: self.folder_type,
            name: self.name.clone(),
            position: self.position,
            show_only_unread: self.show_only_unread,
            show_muted_chats: self.show_muted_chats,
            include_all_individual_chats: self.include_all_individual_chats,
            include_all_group_chats: self.include_all_group_chats,
            included_recipients: self.included_recipients.clone(),
            excluded_recipients: self.excluded_recipients.clone(),
            deleted_at_timestamp_ms: self.deleted_at_timestamp_ms,
        };
        proof {
            assert(r.included_recipients.deep_view() =~= self.included_recipients.deep_view());
            assert(r.excluded_recipients.deep_view() =~= self.excluded_recipients.deep_view());
        }
        r
    }
}

#[derive(Debug, Clone, Copy, PartialEq, Eq, Structural)]
pub enum ChatFolderRecordError {
    /// The record has no 16-byte identifier.
    MissingIdentifier,
}

/// The person or group that an entry of a record names. `None` for an identifier this
/// library does not know, and for a master key of the wrong length. Of a person's two service
/// ids the binary one counts; the text one where that does not parse.
pub open spec fn recipient_of_record(r: RecipientView) -> Option<FolderRecipientView> {
    match r.identifier {
        Some(RecipientIdentifierView::Contact(c)) => Some(
            FolderRecipientView::Contact {
                service_id: match service_id::service_id_of_bytes(c.service_id_binary) {
                    Some(id) => Some(service_id::service_id_text(id)),
                    None => match service_id::service_id_of_text(c.service_id) {
                        Some(id) => Some(service_id::service_id_text(id)),
                        None => None,
                    },
                },
                e164: if c.e164.len() == 0 {
                    None
                } else {
                    Some(c.e164)
                },
            },
        ),
        Some(RecipientIdentifierView::LegacyGroupId(id)) => Some(
            FolderRecipientView::LegacyGroupId(id),
        ),
        Some(RecipientIdentifierView::GroupMasterKey(key)) => if key.len() == 32 {
            Some(FolderRecipientView::GroupMasterKey(key))
        } else {
            None
        },
        None => None,
    }
}

/// The service id that a folder's entry names, where its text parses.
pub open spec fn named_service_id(service_id: Option<Seq<char>>) -> Option<ServiceIdView> {
    match service_id {
        Some(text) => service_id::service_id_of_text(text),
        None => None,
    }
}

/// An entry of a record, for an entry of a folder: a person's service id goes out in both
/// its forms.
pub open spec fn record_of_recipient(r: FolderRecipientView) -> RecipientView {
    RecipientView {
        identifier: Some(
            match r {
                FolderRecipientView::Contact { service_id, e164 } => {
                    RecipientIdentifierView::Contact(
                        RecipientContactView {
                            service_id: match named_service_id(service_id) {
                                Some(id) => service_id::service_id_text(id),
                                None => Seq::empty(),
                            },
                            e164: e164.unwrap_or(Seq::empty()),
                            service_id_binary: match named_service_id(service_id) {
                                Some(id) => service_id::service_id_bytes(id),
                                None => Seq::empty(),
                            },
                        },
                    )
                },
                FolderRecipientView::LegacyGroupId(id) => RecipientIdentifierView::LegacyGroupId(
                    id,
                ),
                FolderRecipientView::GroupMasterKey(key) => {
                    RecipientIdentifierView::GroupMasterKey(key)
                },
            },
        ),
    }
}

/// The text of a service id.
pub open spec fn is_service_id_text(text: Seq<char>, id: ServiceIdView) -> bool {
    id.well_formed() && text == service_id::service_id_text(id)
}

/// The text of some service id.
pub open spec fn names_a_service_id(text: Seq<char>) -> bool {
    exists|id: ServiceIdView| is_service_id_text(text, id)
}

/// An entry in the form that reading a record gives it: a service id's text is the one that
/// service ids are written in, and a phone number is not empty.
pub open spec fn canonical_recipient(r: FolderRecipientView) -> bool {
    match r {
        FolderRecipientView::Contact { service_id, e164 } => {
            &&& service_id matches Some(text) ==> names_a_service_id(text)
            &&& e164 matches Some(number) ==> number.len() > 0
        },
        FolderRecipientView::GroupMasterKey(key) => key.len() == 32,
        FolderRecipientView::LegacyGroupId(_) => true,
    }
}

pub open spec fn all_canonical(list: Seq<FolderRecipientView>) -> bool {
    forall|i: int| 0 <= i < list.len() ==> canonical_recipient(#[trigger] list[i])
}

impl FolderRecipient {
    /// A person.
    pub fn contact(service_id: ServiceId) -> (r: FolderRecipient)
        ensures
            r.deep_view() == (FolderRecipientView::Contact {
                service_id: Some(service_id::service_id_text(service_id.deep_view())),
                e164: None,
            }),
            canonical_recipient(r.deep_view()),
    {
        proof {
            let id = service_id.deep_view();
            assert(is_service_id_text(service_id::service_id_text(id), id));
            assert(names_a_service_id(service_id::service_id_text(id)));
        }
        FolderRecipient::Contact { service_id: Some(service_id.service_id_string()), e164: None }
    }

    /// The person's service id, where this is a person and the text parses.
    pub fn service_id(&self) -> (id: Option<ServiceId>)
        ensures
            id.deep_view() == (match self.deep_view() {
                FolderRecipientView::Contact { service_id, .. } => named_service_id(service_id),
                _ => None,
            }),
    {
        match self {
            FolderRecipient::Contact { service_id: Some(text), .. } => {
                ServiceId::parse_from_service_id_string(text.as_str())
            },
            _ => None,
        }
    }

    /// Reads an entry of a record, into canonical form. `None` for an identifier this library
    /// does not know.
    pub fn from_proto(r: Recipient) -> (recipient: Option<FolderRecipient>)
        ensures
            recipient.deep_view() == recipient_of_record(r.deep_view()),
            recipient.deep_view() matches Some(recipient) ==> canonical_recipient(recipient),
    {
        broadcast use text::lemma_bytes_view;

        match r.identifier {
            Some(RecipientIdentifier::Contact(c)) => {
                let id = match ServiceId::parse_from_service_id_binary(
                    c.service_id_binary.as_slice(),
                ) {
                    Some(id) => Some(id),
                    None => ServiceId::parse_from_service_id_string(c.service_id.as_str()),
                };
                let service_id = match id {
                    Some(id) => {
                        proof {
                            let id = id.deep_view();
                            assert(is_service_id_text(service_id::service_id_text(id), id));
                            assert(names_a_service_id(service_id::service_id_text(id)));
                        }
                        Some(id.service_id_string())
                    },
                    None => None,
                };
                let e164 = if c.e164.as_str().is_empty() {
                    None
                } else {
                    Some(c.e164)
                };
                Some(FolderRecipient::Contact { service_id, e164 })
            },
            Some(RecipientIdentifier::LegacyGroupId(id)) => Some(
                FolderRecipient::LegacyGroupId(id),
            ),
            Some(RecipientIdentifier::GroupMasterKey(key)) => match service_id::thirty_two(
                key.as_slice(),
            ) {
                Some(key) => Some(FolderRecipient::GroupMasterKey(key)),
                None => None,
            },
            None => None,
        }
    }

    /// Writes an entry of a record. An entry in canonical form reads back as itself.
    pub fn to_proto(&self) -> (r: Recipient)
        ensures
            r.deep_view() == record_of_recipient(self.deep_view()),
            canonical_recipient(self.deep_view()) ==> recipient_of_record(r.deep_view()) == Some(
                self.deep_view(),
            ),
    {
        broadcast use text::lemma_bytes_view;

        let identifier = match self {
            FolderRecipient::Contact { service_id, e164 } => {
                let parsed = match service_id {
                    Some(text) => ServiceId::parse_from_service_id_string(text.as_str()),
                    None => None,
                };
                proof {
                    if canonical_recipient(self.deep_view()) {
                        if let Some(text) = service_id.deep_view() {
                            let id = choose|id: ServiceIdView| is_service_id_text(text, id);
                            assert(is_service_id_text(text, id));
                            assert(parsed.deep_view() == Some(id));
                            service_id::law_binary_round_trip(id);
                        } else {
                            lemma_nothing_named();
                        }
                    }
                }
                let number = match e164 {
                    Some(number) => number.clone(),
                    None => String::new(),
                };
                match parsed {
                    Some(id) => RecipientIdentifier::Contact(
                        RecipientContact {
                            service_id: id.service_id_string(),
                            e164: number,
                            service_id_binary: id.service_id_binary(),
                        },
                    ),
                    None => RecipientIdentifier::Contact(
                        RecipientContact {
                            service_id: String::new(),
                            e164: number,
                            service_id_binary: Vec::new(),
                        },
                    ),
                }
            },
            FolderRecipient::LegacyGroupId(id) => {
                let bytes = id.clone();
                assert(bytes@ =~= id@);
                RecipientIdentifier::LegacyGroupId(bytes)
            },
            FolderRecipient::GroupMasterKey(key) => {
                let bytes = vstd::slice::slice_to_vec(key);
                assert(bytes@ =~= key@);
                RecipientIdentifier::GroupMasterKey(bytes)
            },
        };
        let r = Recipient { identifier: Some(identifier) };
        proof {
            assert(identifier.deep_view() =~= record_of_recipient(
                self.deep_view(),
            ).identifier->0);
            if let FolderRecipient::Contact { service_id, e164 } = self {
                let back = recipient_of_record(r.deep_view())->0;
                if canonical_recipient(self.deep_view()) {
                    assert(back->Contact_service_id == service_id.deep_view());
                    assert(back->Contact_e164 == e164.deep_view());
                }
            }
        }
        r
    }
}

/// Nothing written reads as nobody.
proof fn lemma_nothing_named()
    ensures
        service_id::service_id_of_bytes(Seq::empty()) is None,
        service_id::service_id_of_text(Seq::empty()) is None,
{
    assert(vstd::utf8::encode_utf8(Seq::<char>::empty()).len() == 0);
}

/// The entries of a record's list that are known.
pub open spec fn recipients_of_record(list: Seq<RecipientView>) -> Seq<FolderRecipientView>
    decreases list.len(),
{
    if list.len() == 0 {
        Seq::empty()
    } else {
        match recipient_of_record(list.last()) {
            Some(r) => recipients_of_record(list.drop_last()).push(r),
            None => recipients_of_record(list.drop_last()),
        }
    }
}

pub open spec fn record_of_recipients(list: Seq<FolderRecipientView>) -> Seq<RecipientView> {
    list.map_values(|r: FolderRecipientView| record_of_recipient(r))
}

/// The folder that a record describes. `None` without a 16-byte identifier.
pub open spec fn folder_of_record(r: ChatFolderRecordView) -> Option<ChatFolderView> {
    match service_id::uuid_bytes(r.identifier) {
        Some(id) => Some(
            ChatFolderView {
                id,
                folder_type: r.folder_type,
                name: r.name,
                position: r.position,
                show_only_unread: r.show_only_unread,
                show_muted_chats: r.show_muted_chats,
                include_all_individual_chats: r.include_all_individual_chats,
                include_all_group_chats: r.include_all_group_chats,
                included_recipients: recipients_of_record(r.included_recipients),
                excluded_recipients: recipients_of_record(r.excluded_recipients),
                deleted_at_timestamp_ms: r.deleted_at_timestamp_ms,
            },
        ),
        None => None,
    }
}

/// The record of a folder.
pub open spec fn record_of_folder(f: ChatFolderView) -> ChatFolderRecordView {
    ChatFolderRecordView {
        identifier: f.id,
        name: f.name,
        position: f.position,
        show_only_unread: f.show_only_unread,
        show_muted_chats: f.show_muted_chats,
        include_all_individual_chats: f.include_all_individual_chats,
        include_all_group_chats: f.include_all_group_chats,
        folder_type: f.folder_type,
        included_recipients: record_of_recipients(f.included_recipients),
        excluded_recipients: record_of_recipients(f.excluded_recipients),
        deleted_at_timestamp_ms: f.deleted_at_timestamp_ms,
    }
}

fn write_recipients(list: &Vec<FolderRecipient>) -> (r: Vec<Recipient>)
    ensures
        r.deep_view() == record_of_recipients(list.deep_view()),
        all_canonical(list.deep_view()) ==> recipients_of_record(r.deep_view())
            == list.deep_view(),
{
    let mut out: Vec<Recipient> = Vec::new();
    let mut i: usize = 0;
    let ghost all = list.deep_view();
    proof {
        assert(out.deep_view() =~= record_of_recipients(all.take(0)));
        assert(recipients_of_record(out.deep_view()) =~= all.take(0));
    }
    while i < list.len()
        invariant
            i <= list@.len(),
            all == list.deep_view(),
            out.deep_view() == record_of_recipients(all.take(i as int)),
            all_canonical(all) ==> recipients_of_record(out.deep_view()) == all.take(i as int),
        decreases list@.len() - i,
    {
        let one = list[i].to_proto();
        let ghost before = out.deep_view();
        out.push(one);
        proof {
            assert(out.deep_view() =~= before.push(one.deep_view()));
            assert(all.take(i + 1) =~= all.take(i as int).push(all[i as int]));
            assert(record_of_recipients(all.take(i + 1)) =~= record_of_recipients(
                all.take(i as int),
            ).push(record_of_recipient(all[i as int])));
            assert(before.push(one.deep_view()).drop_last() =~= before);
            if all_canonical(all) {
                assert(canonical_recipient(all[i as int]));
            }
        }
        i = i + 1;
    }
    assert(all.take(i as int) =~= all);
    out
}

fn read_recipients(list: Vec<Recipient>) -> (r: Vec<FolderRecipient>)
    ensures
        r.deep_view() == recipients_of_record(list.deep_view()),
{
    let mut out: Vec<FolderRecipient> = Vec::new();
    let mut i: usize = 0;
    let ghost all = list.deep_view();
    proof {
        assert(out.deep_view() =~= recipients_of_record(all.take(0)));
    }
    while i < list.len()
        invariant
            i <= list@.len(),
            all == list.deep_view(),
            out.deep_view() == recipients_of_record(all.take(i as int)),
        decreases list@.len() - i,
    {
        proof {
            assert(all.take(i + 1).drop_last() =~= all.take(i as int));
            assert(all.take(i + 1).last() == list@[i as int].deep_view());
        }
        if let Some(recipient) = FolderRecipient::from_proto(list[i].clone()) {
            let ghost before = out.deep_view();
            out.push(recipient);
            assert(out.deep_view() =~= before.push(recipient.deep_view()));
        }
        i = i + 1;
    }
    assert(all.take(i as int) =~= all);
    out
}

/// What `unicode_normalization` makes of a text when it normalizes it to its composed form.
pub uninterp spec fn nfc_of(text: Seq<char>) -> Seq<char>;

/// Normalizes a text to its composed form (NFC), by `UnicodeNormalization::nfc` of
/// `unicode_normalization`. What that form is is not said, only that it depends on the text
/// alone.
#[verifier::external_body]
fn nfc(text: &str) -> (normalized: String)
    ensures
        normalized@ == nfc_of(text@),
{
    text.nfc().collect()
}

/// A character that Unicode counts as white space.
pub open spec fn white_space(c: char) -> bool {
    let code = c as u32;
    ||| 0x9 <= code <= 0xd
    ||| code == 0x20
    ||| code == 0x85
    ||| code == 0xa0
    ||| code == 0x1680
    ||| 0x2000 <= code <= 0x200a
    ||| code == 0x2028
    ||| code == 0x2029
    ||| code == 0x202f
    ||| code == 0x205f
    ||| code == 0x3000
}

/// A text without the white space at its start.
pub open spec fn trimmed_start(text: Seq<char>) -> Seq<char>
    decreases text.len(),
{
    if text.len() > 0 && white_space(text[0]) {
        trimmed_start(text.skip(1))
    } else {
        text
    }
}

/// A text without the white space at its end.
pub open spec fn trimmed_end(text: Seq<char>) -> Seq<char>
    decreases text.len(),
{
    if text.len() > 0 && white_space(text.last()) {
        trimmed_end(text.drop_last())
    } else {
        text
    }
}

/// A text without the white space around it.
pub open spec fn trimmed(text: Seq<char>) -> Seq<char> {
    trimmed_end(trimmed_start(text))
}

/// Removes the white space around a text, by `str::trim`: white space is what has the Unicode
/// property `White_Space`.
#[verifier::external_body]
fn trim(text: &str) -> (r: &str)
    ensures
        r@ == trimmed(text@),
{
    text.trim()
}

/// How many extended grapheme clusters `unicode_segmentation` counts in a text.
pub uninterp spec fn grapheme_count_of(text: Seq<char>) -> nat;

/// Counts the extended grapheme clusters of a text, by `UnicodeSegmentation::graphemes` of
/// `unicode_segmentation`. Where the clusters are is not said, only that it depends on the
/// text alone.
#[verifier::external_body]
fn grapheme_count(text: &str) -> (count: usize)
    ensures
        count == grapheme_count_of(text@),
{
    text.graphemes(true).count()
}

/// A name of `graphemes` graphemes that a folder may have: neither empty nor too long.
pub open spec fn valid_name(name: Seq<char>, graphemes: nat) -> bool {
    name.len() > 0 && graphemes <= CHAT_FOLDER_NAME_MAX_GRAPHEMES
}

impl ChatFolderView {
    pub open spec fn is_live(self) -> bool {
        self.deleted_at_timestamp_ms == 0
    }

    /// The folder as a tombstone: stripped of everything but its identity.
    pub open spec fn tombstone(self, deleted_at_ms: u64) -> ChatFolderView {
        ChatFolderView {
            deleted_at_timestamp_ms: deleted_at_ms,
            position: CHAT_FOLDER_DELETED_POSITION,
            included_recipients: Seq::empty(),
            excluded_recipients: Seq::empty(),
            ..self
        }
    }
}

/// A folder without a name, recipients or a place, that hides nothing.
pub open spec fn bare_folder(id: Seq<u8>, folder_type: ChatFolderType) -> ChatFolderView {
    ChatFolderView {
        id,
        folder_type,
        name: Seq::empty(),
        position: 0,
        show_only_unread: false,
        show_muted_chats: true,
        include_all_individual_chats: folder_type == ChatFolderType::All,
        include_all_group_chats: folder_type == ChatFolderType::All,
        included_recipients: Seq::empty(),
        excluded_recipients: Seq::empty(),
        deleted_at_timestamp_ms: 0,
    }
}

impl ChatFolder {
    pub fn is_live(&self) -> (r: bool)
        ensures
            r == self.deep_view().is_live(),
    {
        self.deleted_at_timestamp_ms == 0
    }

    /// The folder that every account carries.
    pub fn all_chats(id: Uuid) -> (folder: ChatFolder)
        ensures
            folder.deep_view() == bare_folder(id.deep_view(), ChatFolderType::All),
    {
        let folder = ChatFolder {
            id,
            folder_type: ChatFolderType::All,
            name: String::new(),
            position: 0,
            show_only_unread: false,
            show_muted_chats: true,
            include_all_individual_chats: true,
            include_all_group_chats: true,
            included_recipients: Vec::new(),
            excluded_recipients: Vec::new(),
            deleted_at_timestamp_ms: 0,
        };
        assert(folder.deep_view() =~= bare_folder(id.deep_view(), ChatFolderType::All));
        folder
    }

    /// A custom folder with the usual defaults and the given name. Callers fill in rules and
    /// recipients; the position is assigned on save.
    pub fn custom(id: Uuid, name: String) -> (folder: ChatFolder)
        ensures
            folder.deep_view() == (ChatFolderView {
                name: name@,
                ..bare_folder(id.deep_view(), ChatFolderType::Custom)
            }),
    {
        let folder = ChatFolder {
            id,
            folder_type: ChatFolderType::Custom,
            name,
            position: 0,
            show_only_unread: false,
            show_muted_chats: true,
            include_all_individual_chats: false,
            include_all_group_chats: false,
            included_recipients: Vec::new(),
            excluded_recipients: Vec::new(),
            deleted_at_timestamp_ms: 0,
        };
        assert(folder.deep_view() =~= (ChatFolderView {
            name: name@,
            ..bare_folder(id.deep_view(), ChatFolderType::Custom)
        }));
        folder
    }

    /// Makes the folder a tombstone: the record stays in the manifest, stripped of everything
    /// but its identity.
    pub fn tombstone(&mut self, deleted_at_ms: u64)
        ensures
            final(self).deep_view() == old(self).deep_view().tombstone(deleted_at_ms),
    {
        self.deleted_at_timestamp_ms = deleted_at_ms;
        self.position = CHAT_FOLDER_DELETED_POSITION;
        self.included_recipients = Vec::new();
        self.excluded_recipients = Vec::new();
        proof {
            assert(self.included_recipients.deep_view() =~= Seq::<FolderRecipientView>::empty());
            assert(self.excluded_recipients.deep_view() =~= Seq::<FolderRecipientView>::empty());
        }
    }

    /// A name without the white space around it.
    pub fn trimmed_name(name: &str) -> (r: String)
        ensures
            r@ == trimmed(name@),
    {
        trim(name).to_owned()
    }

    /// How a name is stored: normalized to its composed form, and trimmed.
    pub fn normalized_name(name: &str) -> (r: String)
        ensures
            r@ == trimmed(nfc_of(name@)),
    {
        let normalized = nfc(name);
        ChatFolder::trimmed_name(normalized.as_str())
    }

    /// Whether a name of that many graphemes is one that a folder may have.
    pub fn is_valid_name_of(name: &str, graphemes: usize) -> (r: bool)
        ensures
            r == valid_name(name@, graphemes as nat),
    {
        !name.is_empty() && graphemes <= CHAT_FOLDER_NAME_MAX_GRAPHEMES
    }

    /// Whether an already-normalized name is one that a folder may have.
    pub fn is_valid_name(name: &str) -> (r: bool)
        ensures
            r == valid_name(name@, grapheme_count_of(name@)),
    {
        ChatFolder::is_valid_name_of(name, grapheme_count(name))
    }

    /// The record of the folder. It reads back as the folder it was made from, where the
    /// recipients are in canonical form.
    pub fn to_record(&self) -> (r: ChatFolderRecord)
        ensures
            r.deep_view() == record_of_folder(self.deep_view()),
            all_canonical(self.deep_view().included_recipients) && all_canonical(
                self.deep_view().excluded_recipients,
            ) ==> folder_of_record(r.deep_view()) == Some(self.deep_view()),
    {
        broadcast use text::lemma_bytes_view;

        let r = ChatFolderRecord {
            identifier: self.id.to_vec(),
            name: self.name.clone(),
            position: self.position,
            show_only_unread: self.show_only_unread,
            show_muted_chats: self.show_muted_chats,
            include_all_individual_chats: self.include_all_individual_chats,
            include_all_group_chats: self.include_all_group_chats,
            folder_type: self.folder_type,
            included_recipients: write_recipients(&self.included_recipients),
            excluded_recipients: write_recipients(&self.excluded_recipients),
            deleted_at_timestamp_ms: self.deleted_at_timestamp_ms,
        };
        assert(r.deep_view() =~= record_of_folder(self.deep_view()));
        r
    }

    /// Reads a record. One without a 16-byte identifier is unaddressable and is dropped.
    /// Every other field takes its default when absent, so a record from a client that
    /// predates a rule reads as if the rule were off.
    pub fn try_from_record(
        r: ChatFolderRecord,
    ) -> (folder: Result<ChatFolder, ChatFolderRecordError>)
        ensures
            match folder {
                Ok(folder) => folder_of_record(r.deep_view()) == Some(folder.deep_view()),
                Err(e) => e == ChatFolderRecordError::MissingIdentifier && folder_of_record(
                    r.deep_view(),
                ) is None,
            },
    {
        broadcast use text::lemma_bytes_view;

        let id = match Uuid::from_slice(r.identifier.as_slice()) {
            Some(id) => id,
            None => return Err(ChatFolderRecordError::MissingIdentifier),
        };
        Ok(
            ChatFolder {
                id,
                folder_type: r.folder_type,
                name: r.name,
                position: r.position,
                show_only_unread: r.show_only_unread,
                show_muted_chats: r.show_muted_chats,
                include_all_individual_chats: r.include_all_individual_chats,
                include_all_group_chats: r.include_all_group_chats,
                included_recipients: read_recipients(r.included_recipients),
                excluded_recipients: read_recipients(r.excluded_recipients),
                deleted_at_timestamp_ms: r.deleted_at_timestamp_ms,
            },
        )
    }
}

/// The white space around a name goes once and for all: trimming twice is trimming once.
pub proof fn law_trim_is_idempotent(text: Seq<char>)
    ensures
        trimmed(trimmed(text)) == trimmed(text),
{
    lemma_trimmed_start(text);
    lemma_trimmed_end(trimmed_start(text));
}

proof fn lemma_trimmed_start(text: Seq<char>)
    ensures
        trimmed_start(text).len() > 0 ==> !white_space(trimmed_start(text)[0]),
    decreases text.len(),
{
    if text.len() > 0 && white_space(text[0]) {
        lemma_trimmed_start(text.skip(1));
    }
}

proof fn lemma_trimmed_end(text: Seq<char>)
    requires
        text.len() > 0 ==> !white_space(text[0]),
    ensures
        trimmed_end(text).len() > 0 ==> !white_space(trimmed_end(text).last()) && trimmed_end(
            text,
        )[0] == text[0],
    decreases text.len(),
{
    if text.len() > 0 && white_space(text.last()) {
        if text.len() > 1 {
            assert(text.drop_last()[0] == text[0]);
        }
        lemma_trimmed_end(text.drop_last());
    }
}

} // verus!

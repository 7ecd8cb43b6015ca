//! What is read from and written to the rows of an SQLite store.
use vstd::prelude::*;

use crate::endian;
use crate::manager::registered;
use crate::manager::registered::MasterKey;
use crate::model::contacts::{
    Attachment, AttachmentView, Contact, ContactView, PhoneNumber, PhoneNumberView,
};
use crate::model::groups::{
    AccessControl, Group, GroupView, Member, MemberView, PendingMember, PendingMemberView,
    RequestingMember, RequestingMemberView,
};
use crate::model::profile::ProfileName;
use crate::proto::{
    Content, ContentBody, ContentBodyView, ContentView, Metadata, MetadataView, Verified,
    VerifiedState, VerifiedView,
};
use crate::service_id;
use crate::service_id::{ServiceId, ServiceIdView, Uuid};
use crate::store::{StickerPack, StickerPackManifest, StickerPackManifestView, StickerPackView};
use crate::text;

verus! {

/// Why a row could not be read.
#[derive(Debug, Clone, Copy, PartialEq, Eq, Structural)]
pub enum SqliteStoreError {
    /// A column does not hold what it should.
    InvalidFormat,
    /// A column does not hold a phone number.
    InvalidPhoneNumber,
    /// A column does not hold the id of a device.
    InvalidDeviceId,
}

/// A row with a contact.
#[derive(Debug)]
pub struct SqlContact {
    pub uuid: Uuid,
    pub phone_number: Option<String>,
    pub name: String,
    pub profile_key: Vec<u8>,
    pub expire_timer: i64,
    pub expire_timer_version: i64,
    pub inbox_position: i64,
    pub avatar: Option<Vec<u8>>,
    /// From the verification state of the contact.
    pub destination_aci: Option<String>,
    pub identity_key: Option<Vec<u8>>,
    pub is_verified: Option<bool>,
    /// From the storage service, as are those that follow.
    pub pni: Option<String>,
    pub username: Option<String>,
    pub blocked: bool,
    pub whitelisted: bool,
    pub archived: bool,
    pub marked_unread: bool,
    pub muted_until_timestamp: i64,
    pub hide_story: bool,
    pub hidden: bool,
    pub unregistered_at_timestamp: i64,
    pub pni_signature_verified: bool,
    pub system_given_name: Option<String>,
    pub system_family_name: Option<String>,
    pub system_nickname: Option<String>,
    pub nickname_given_name: Option<String>,
    pub nickname_family_name: Option<String>,
    pub note: Option<String>,
}

/// What a [`SqlContact`] holds.
#[verifier::ext_equal]
pub struct SqlContactView {
    pub uuid: Seq<u8>,
    pub phone_number: Option<Seq<char>>,
    pub name: Seq<char>,
    pub profile_key: Seq<u8>,
    pub expire_timer: i64,
    pub expire_timer_version: i64,
    pub inbox_position: i64,
    pub avatar: Option<Seq<u8>>,
    pub destination_aci: Option<Seq<char>>,
    pub identity_key: Option<Seq<u8>>,
    pub is_verified: Option<bool>,
    pub pni: Option<Seq<char>>,
    pub username: Option<Seq<char>>,
    pub blocked: bool,
    pub whitelisted: bool,
    pub archived: bool,
    pub marked_unread: bool,
    pub muted_until_timestamp: i64,
    pub hide_story: bool,
    pub hidden: bool,
    pub unregistered_at_timestamp: i64,
    pub pni_signature_verified: bool,
    pub system_given_name: Option<Seq<char>>,
    pub system_family_name: Option<Seq<char>>,
    pub system_nickname: Option<Seq<char>>,
    pub nickname_given_name: Option<Seq<char>>,
    pub nickname_family_name: Option<Seq<char>>,
    pub note: Option<Seq<char>>,
}

impl DeepView for SqlContact {
    type V = SqlContactView;

    open spec fn deep_view(&self) -> SqlContactView {
        SqlContactView {
            uuid: self.uuid.deep_view(),
            phone_number: self.phone_number.deep_view(),
            name: self.name.deep_view(),
            profile_key: self.profile_key.deep_view(),
            expire_timer: self.expire_timer,
            expire_timer_version: self.expire_timer_version,
            inbox_position: self.inbox_position,
            avatar: self.avatar.deep_view(),
            destination_aci: self.destination_aci.deep_view(),
            identity_key: self.identity_key.deep_view(),
            is_verified: self.is_verified,
            pni: self.pni.deep_view(),
            username: self.username.deep_view(),
            blocked: self.blocked,
            whitelisted: self.whitelisted,
            archived: self.archived,
            marked_unread: self.marked_unread,
            muted_until_timestamp: self.muted_until_timestamp,
            hide_story: self.hide_story,
            hidden: self.hidden,
            unregistered_at_timestamp: self.unregistered_at_timestamp,
            pni_signature_verified: self.pni_signature_verified,
            system_given_name: self.system_given_name.deep_view(),
            system_family_name: self.system_family_name.deep_view(),
            system_nickname: self.system_nickname.deep_view(),
            nickname_given_name: self.nickname_given_name.deep_view(),
            nickname_family_name: self.nickname_family_name.deep_view(),
            note: self.note.deep_view(),
        }
    }
}

/// A row with a profile.
#[derive(Debug)]
pub struct SqlProfile {
    pub given_name: Option<String>,
    pub family_name: Option<String>,
    pub about: Option<String>,
    pub about_emoji: Option<String>,
    pub avatar: Option<String>,
    pub unrestricted_unidentified_access: bool,
}

/// What a [`SqlProfile`] holds.
#[verifier::ext_equal]
pub struct SqlProfileView {
    pub given_name: Option<Seq<char>>,
    pub family_name: Option<Seq<char>>,
    pub about: Option<Seq<char>>,
    pub about_emoji: Option<Seq<char>>,
    pub avatar: Option<Seq<char>>,
    pub unrestricted_unidentified_access: bool,
}

impl DeepView for SqlProfile {
    type V = SqlProfileView;

    open spec fn deep_view(&self) -> SqlProfileView {
        SqlProfileView {
            given_name: self.given_name.deep_view(),
            family_name: self.family_name.deep_view(),
            about: self.about.deep_view(),
            about_emoji: self.about_emoji.deep_view(),
            avatar: self.avatar.deep_view(),
            unrestricted_unidentified_access: self.unrestricted_unidentified_access,
        }
    }
}

/// A profile.
#[derive(Debug, PartialEq)]
pub struct Profile {
    pub name: Option<ProfileName>,
    pub about: Option<String>,
    pub about_emoji: Option<String>,
    pub avatar: Option<String>,
    pub unrestricted_unidentified_access: bool,
}

/// A row with a group. It has no column for the timer of disappearing messages, nor for
/// whether only administrators can write.
#[derive(Debug)]
pub struct SqlGroup {
    pub master_key: Vec<u8>,
    pub title: Option<String>,
    pub revision: u32,
    pub invite_link_password: Option<Vec<u8>>,
    pub access_control: Option<AccessControl>,
    pub avatar: Option<String>,
    pub description: Option<String>,
    pub members: Vec<Member>,
    pub pending_members: Vec<PendingMember>,
    pub requesting_members: Vec<RequestingMember>,
    pub needs_hydration: bool,
    pub blocked: bool,
    pub whitelisted: bool,
    pub archived: bool,
    pub marked_unread: bool,
    pub muted_until_timestamp: i64,
    pub dont_notify_for_mentions_if_muted: bool,
    pub hide_story: bool,
    pub story_send_mode: i64,
}

/// What a [`SqlGroup`] holds.
#[verifier::ext_equal]
pub struct SqlGroupView {
    pub master_key: Seq<u8>,
    pub title: Option<Seq<char>>,
    pub revision: u32,
    pub invite_link_password: Option<Seq<u8>>,
    pub access_control: Option<AccessControl>,
    pub avatar: Option<Seq<char>>,
    pub description: Option<Seq<char>>,
    pub members: Seq<MemberView>,
    pub pending_members: Seq<PendingMemberView>,
    pub requesting_members: Seq<RequestingMemberView>,
    pub needs_hydration: bool,
    pub blocked: bool,
    pub whitelisted: bool,
    pub archived: bool,
    pub marked_unread: bool,
    pub muted_until_timestamp: i64,
    pub dont_notify_for_mentions_if_muted: bool,
    pub hide_story: bool,
    pub story_send_mode: i64,
}

impl DeepView for SqlGroup {
    type V = SqlGroupView;

    open spec fn deep_view(&self) -> SqlGroupView {
        SqlGroupView {
            master_key: self.master_key.deep_view(),
            title: self.title.deep_view(),
            revision: self.revision,
            invite_link_password: self.invite_link_password.deep_view(),
            access_control: self.access_control,
            avatar: self.avatar.deep_view(),
            description: self.description.deep_view(),
            members: self.members.deep_view(),
            pending_members: self.pending_members.deep_view(),
            requesting_members: self.requesting_members.deep_view(),
            needs_hydration: self.needs_hydration,
            blocked: self.blocked,
            whitelisted: self.whitelisted,
            archived: self.archived,
            marked_unread: self.marked_unread,
            muted_until_timestamp: self.muted_until_timestamp,
            dont_notify_for_mentions_if_muted: self.dont_notify_for_mentions_if_muted,
            hide_story: self.hide_story,
            story_send_mode: self.story_send_mode,
        }
    }
}

/// A row with a message.
#[derive(Debug)]
pub struct SqlMessage {
    pub ts: u64,
    pub sender_service_id: String,
    pub sender_device_id: u8,
    pub destination_service_id: String,
    pub needs_receipt: bool,
    pub unidentified_sender: bool,
    pub content_body: Vec<u8>,
    pub was_plaintext: bool,
}

/// What a [`SqlMessage`] holds.
#[verifier::ext_equal]
pub struct SqlMessageView {
    pub ts: u64,
    pub sender_service_id: Seq<char>,
    pub sender_device_id: u8,
    pub destination_service_id: Seq<char>,
    pub needs_receipt: bool,
    pub unidentified_sender: bool,
    pub content_body: Seq<u8>,
    pub was_plaintext: bool,
}

impl DeepView for SqlMessage {
    type V = SqlMessageView;

    open spec fn deep_view(&self) -> SqlMessageView {
        SqlMessageView {
            ts: self.ts,
            sender_service_id: self.sender_service_id.deep_view(),
            sender_device_id: self.sender_device_id,
            destination_service_id: self.destination_service_id.deep_view(),
            needs_receipt: self.needs_receipt,
            unidentified_sender: self.unidentified_sender,
            content_body: self.content_body.deep_view(),
            was_plaintext: self.was_plaintext,
        }
    }
}

/// A row with a sticker pack.
#[derive(Debug)]
pub struct SqlStickerPack {
    pub id: Vec<u8>,
    pub key: Vec<u8>,
    pub manifest: StickerPackManifest,
}

/// What a [`SqlStickerPack`] holds.
#[verifier::ext_equal]
pub struct SqlStickerPackView {
    pub id: Seq<u8>,
    pub key: Seq<u8>,
    pub manifest: StickerPackManifestView,
}

impl DeepView for SqlStickerPack {
    type V = SqlStickerPackView;

    open spec fn deep_view(&self) -> SqlStickerPackView {
        SqlStickerPackView {
            id: self.id.deep_view(),
            key: self.key.deep_view(),
            manifest: self.manifest.deep_view(),
        }
    }
}

/// The binary form of an account identity, where the text names one.
pub open spec fn aci_binary(text: Option<Seq<char>>) -> Option<Seq<u8>> {
    match text {
        Some(text) => match service_id::service_id_of_text(text) {
            Some(ServiceIdView::Aci(bytes)) => Some(bytes),
            _ => None,
        },
        None => None,
    }
}

/// The contact in a row. `phone_number` is what the row's number reads as.
pub open spec fn contact_of_row(
    row: SqlContactView,
    phone_number: Option<PhoneNumberView>,
) -> ContactView {
    ContactView {
        uuid: row.uuid,
        phone_number: match row.phone_number {
            Some(_) => phone_number,
            None => None,
        },
        name: row.name,
        verified: VerifiedView {
            destination_aci: row.destination_aci,
            destination_aci_binary: aci_binary(row.destination_aci),
            identity_key: row.identity_key,
            state: match row.is_verified {
                Some(true) => Some(VerifiedState::Verified),
                Some(false) => Some(VerifiedState::Unverified),
                None => None,
            },
            null_message: None,
        },
        profile_key: row.profile_key,
        expire_timer: row.expire_timer as u32,
        expire_timer_version: row.expire_timer_version as u32,
        inbox_position: row.inbox_position as u32,
        avatar: match row.avatar {
            Some(bytes) => Some(
                AttachmentView { content_type: "application/octet-stream"@, reader: bytes },
            ),
            None => None,
        },
        pni: match row.pni {
            Some(text) => text::parsed_uuid(text),
            None => None,
        },
        username: row.username,
        blocked: row.blocked,
        whitelisted: row.whitelisted,
        archived: row.archived,
        marked_unread: row.marked_unread,
        muted_until_timestamp: row.muted_until_timestamp as u64,
        hide_story: row.hide_story,
        hidden: row.hidden,
        unregistered_at_timestamp: row.unregistered_at_timestamp as u64,
        pni_signature_verified: row.pni_signature_verified,
        system_given_name: row.system_given_name.unwrap_or(Seq::empty()),
        system_family_name: row.system_family_name.unwrap_or(Seq::empty()),
        system_nickname: row.system_nickname.unwrap_or(Seq::empty()),
        nickname_given_name: row.nickname_given_name.unwrap_or(Seq::empty()),
        nickname_family_name: row.nickname_family_name.unwrap_or(Seq::empty()),
        note: row.note.unwrap_or(Seq::empty()),
    }
}

fn or_empty(text: Option<String>) -> (r: String)
    ensures
        r@ == text.deep_view().unwrap_or(Seq::empty()),
{
    match text {
        Some(text) => text,
        None => String::new(),
    }
}

fn read_verified(
    destination_aci: Option<String>,
    identity_key: Option<Vec<u8>>,
    is_verified: Option<bool>,
) -> (verified: Verified)
    ensures
        verified.deep_view() == (VerifiedView {
            destination_aci: destination_aci.deep_view(),
            destination_aci_binary: aci_binary(destination_aci.deep_view()),
            identity_key: identity_key.deep_view(),
            state: match is_verified {
                Some(true) => Some(VerifiedState::Verified),
                Some(false) => Some(VerifiedState::Unverified),
                None => None,
            },
            null_message: None,
        }),
{
    broadcast use text::lemma_bytes_view;

    let destination_aci_binary = match &destination_aci {
        Some(text) => match ServiceId::parse_from_service_id_string(text.as_str()) {
            Some(ServiceId::Aci(aci)) => Some(ServiceId::Aci(aci).service_id_binary()),
            _ => None,
        },
        None => None,
    };
    let state = match is_verified {
        Some(true) => Some(VerifiedState::Verified),
        Some(false) => Some(VerifiedState::Unverified),
        None => None,
    };
    Verified { destination_aci, destination_aci_binary, identity_key, state, null_message: None }
}

impl SqlContact {
    /// The contact in a row. `phone_number` is what the row's number reads as, where it is one.
    #[verifier::rlimit(60)]
    pub fn try_into_contact(self, phone_number: Option<PhoneNumber>) -> (contact: Result<
        Contact,
        SqliteStoreError,
    >)
        ensures
            match contact {
                Ok(contact) => (self.deep_view().phone_number is Some ==> phone_number is Some)
                    && contact.deep_view() == contact_of_row(
                    self.deep_view(),
                    phone_number.deep_view(),
                ),
                Err(e) => e == SqliteStoreError::InvalidPhoneNumber
                    && self.deep_view().phone_number is Some && phone_number is None,
            },
    {
        let number = match &self.phone_number {
            Some(_) => match phone_number {
                Some(number) => Some(number),
                None => return Err(SqliteStoreError::InvalidPhoneNumber),
            },
            None => None,
        };
        let avatar = match self.avatar {
            Some(reader) => Some(
                Attachment { content_type: "application/octet-stream".to_owned(), reader },
            ),
            None => None,
        };
        let pni = match &self.pni {
            Some(text) => Uuid::parse_str(text.as_str()),
            None => None,
        };
        let contact = Contact {
            uuid: self.uuid,
            phone_number: number,
            name: self.name,
            verified: read_verified(self.destination_aci, self.identity_key, self.is_verified),
            profile_key: self.profile_key,
            expire_timer: self.expire_timer as u32,
            expire_timer_version: self.expire_timer_version as u32,
            inbox_position: self.inbox_position as u32,
            avatar,
            pni,
            username: self.username,
            blocked: self.blocked,
            whitelisted: self.whitelisted,
            archived: self.archived,
            marked_unread: self.marked_unread,
            muted_until_timestamp: self.muted_until_timestamp as u64,
            hide_story: self.hide_story,
            hidden: self.hidden,
            unregistered_at_timestamp: self.unregistered_at_timestamp as u64,
            pni_signature_verified: self.pni_signature_verified,
            system_given_name: or_empty(self.system_given_name),
            system_family_name: or_empty(self.system_family_name),
            system_nickname: or_empty(self.system_nickname),
            nickname_given_name: or_empty(self.nickname_given_name),
            nickname_family_name: or_empty(self.nickname_family_name),
            note: or_empty(self.note),
        };
        Ok(contact)
    }
}

impl Profile {
    /// The profile in a row. Without a given name there is no name.
    pub fn from_row(row: SqlProfile) -> (profile: Profile)
        ensures
            match (row.deep_view().given_name, profile.name) {
                (Some(given), Some(name)) => name.given_name@ == given
                    && name.family_name.deep_view() == row.deep_view().family_name,
                (None, None) => true,
                _ => false,
            },
            profile.about.deep_view() == row.deep_view().about,
            profile.about_emoji.deep_view() == row.deep_view().about_emoji,
            profile.avatar.deep_view() == row.deep_view().avatar,
            profile.unrestricted_unidentified_access == row.unrestricted_unidentified_access,
    {
        let family_name = row.family_name;
        let name = match row.given_name {
            Some(given_name) => Some(ProfileName { given_name, family_name }),
            None => None,
        };
        Profile {
            name,
            about: row.about,
            about_emoji: row.about_emoji,
            avatar: row.avatar,
            unrestricted_unidentified_access: row.unrestricted_unidentified_access,
        }
    }
}

/// The row for a group.
pub open spec fn row_of_group(master_key: Seq<u8>, group: GroupView) -> SqlGroupView {
    SqlGroupView {
        master_key,
        title: group.title,
        revision: group.revision,
        invite_link_password: Some(group.invite_link_password),
        access_control: group.access_control,
        avatar: group.avatar,
        description: group.description,
        members: group.members,
        pending_members: group.pending_members,
        requesting_members: group.requesting_members,
        needs_hydration: group.needs_hydration,
        blocked: group.blocked,
        whitelisted: group.whitelisted,
        archived: group.archived,
        marked_unread: group.marked_unread,
        muted_until_timestamp: group.muted_until_timestamp as i64,
        dont_notify_for_mentions_if_muted: group.dont_notify_for_mentions_if_muted,
        hide_story: group.hide_story,
        story_send_mode: group.story_send_mode,
    }
}

/// The group in a row.
pub open spec fn group_of_row(row: SqlGroupView) -> GroupView {
    GroupView {
        title: row.title,
        avatar: row.avatar,
        disappearing_messages_timer: None,
        access_control: row.access_control,
        revision: row.revision,
        members: row.members,
        pending_members: row.pending_members,
        requesting_members: row.requesting_members,
        invite_link_password: row.invite_link_password.unwrap_or(Seq::empty()),
        description: row.description,
        announcements_only: false,
        needs_hydration: row.needs_hydration,
        blocked: row.blocked,
        whitelisted: row.whitelisted,
        archived: row.archived,
        marked_unread: row.marked_unread,
        muted_until_timestamp: row.muted_until_timestamp as u64,
        dont_notify_for_mentions_if_muted: row.dont_notify_for_mentions_if_muted,
        hide_story: row.hide_story,
        story_send_mode: row.story_send_mode,
    }
}

impl SqlGroup {
    /// The row for a group.
    pub fn from_group(master_key: &[u8; 32], group: Group) -> (row: SqlGroup)
        ensures
            row.deep_view() == row_of_group(master_key@, group.deep_view()),
    {
        broadcast use text::lemma_bytes_view;

        let key = vstd::slice::slice_to_vec(master_key);
        proof {
            assert(key@ =~= master_key@);
        }
        let row = SqlGroup {
            master_key: key,
            title: group.title,
            revision: group.revision,
            invite_link_password: Some(group.invite_link_password),
            access_control: group.access_control,
            avatar: group.avatar,
            description: group.description,
            members: group.members,
            pending_members: group.pending_members,
            requesting_members: group.requesting_members,
            needs_hydration: group.needs_hydration,
            blocked: group.blocked,
            whitelisted: group.whitelisted,
            archived: group.archived,
            marked_unread: group.marked_unread,
            muted_until_timestamp: group.muted_until_timestamp as i64,
            dont_notify_for_mentions_if_muted: group.dont_notify_for_mentions_if_muted,
            hide_story: group.hide_story,
            story_send_mode: group.story_send_mode,
        };
        assert(row.deep_view() =~= row_of_group(master_key@, group.deep_view()));
        row
    }

    /// The group in a row, and the key that it is stored under.
    pub fn into_group(self) -> (r: Result<([u8; 32], Group), SqliteStoreError>)
        ensures
            match r {
                Ok((master_key, group)) => master_key@ == self.deep_view().master_key
                    && group.deep_view() == group_of_row(self.deep_view()),
                Err(e) => e == SqliteStoreError::InvalidFormat && self.deep_view().master_key.len()
                    != 32,
            },
    {
        broadcast use text::lemma_bytes_view;

        let master_key = match service_id::thirty_two(self.master_key.as_slice()) {
            Some(key) => key,
            None => return Err(SqliteStoreError::InvalidFormat),
        };
        let invite_link_password = match self.invite_link_password {
            Some(password) => password,
            None => Vec::new(),
        };
        let group = Group {
            title: self.title,
            avatar: self.avatar,
            disappearing_messages_timer: None,
            access_control: self.access_control,
            revision: self.revision,
            members: self.members,
            pending_members: self.pending_members,
            requesting_members: self.requesting_members,
            invite_link_password,
            description: self.description,
            announcements_only: false,
            needs_hydration: self.needs_hydration,
            blocked: self.blocked,
            whitelisted: self.whitelisted,
            archived: self.archived,
            marked_unread: self.marked_unread,
            muted_until_timestamp: self.muted_until_timestamp as u64,
            dont_notify_for_mentions_if_muted: self.dont_notify_for_mentions_if_muted,
            hide_story: self.hide_story,
            story_send_mode: self.story_send_mode,
        };
        assert(group.deep_view() =~= group_of_row(self.deep_view()));
        Ok((master_key, group))
    }
}

/// A group comes back from its row, but for what the row has no column for.
pub proof fn law_group_row_round_trip(master_key: Seq<u8>, group: GroupView)
    ensures
        row_of_group(master_key, group).master_key == master_key,
        group_of_row(row_of_group(master_key, group)) == (GroupView {
            disappearing_messages_timer: None,
            announcements_only: false,
            ..group
        }),
{
    let muted = group.muted_until_timestamp;
    assert((muted as i64) as u64 == muted) by (bit_vector);
    assert(group_of_row(row_of_group(master_key, group)) =~= (GroupView {
        disappearing_messages_timer: None,
        announcements_only: false,
        ..group
    }));
}

/// The message in a row, whose encoded body reads as `body`.
pub open spec fn content_of_row(row: SqlMessageView, body: Option<ContentBodyView>) -> Result<
    ContentView,
    SqliteStoreError,
> {
    match (
        body,
        service_id::service_id_of_text(row.sender_service_id),
        service_id::service_id_of_text(row.destination_service_id),
    ) {
        (Some(body), Some(sender), Some(destination)) => if registered::is_device_id(
            row.sender_device_id as u32,
        ) {
            Ok(
                ContentView {
                    metadata: MetadataView {
                        sender,
                        destination,
                        sender_device: row.sender_device_id as u32,
                        server_guid: None,
                        timestamp: row.ts as i64,
                        server_timestamp: row.ts as i64,
                        needs_receipt: row.needs_receipt,
                        unidentified_sender: row.unidentified_sender,
                        was_plaintext: row.was_plaintext,
                        report_spam_token: None,
                    },
                    body,
                },
            )
        } else {
            Err(SqliteStoreError::InvalidDeviceId)
        },
        _ => Err(SqliteStoreError::InvalidFormat),
    }
}

impl SqlMessage {
    /// The message in a row. `body` is what its encoded body reads as, where it is one.
    pub fn try_into_content(self, body: Option<ContentBody>) -> (content: Result<
        Content,
        SqliteStoreError,
    >)
        ensures
            match content {
                Ok(content) => content_of_row(self.deep_view(), body.deep_view()) == Ok::<
                    ContentView,
                    SqliteStoreError,
                >(content.deep_view()),
                Err(e) => content_of_row(self.deep_view(), body.deep_view()) == Err::<
                    ContentView,
                    SqliteStoreError,
                >(e),
            },
    {
        let body = match body {
            Some(body) => body,
            None => return Err(SqliteStoreError::InvalidFormat),
        };
        let sender = match ServiceId::parse_from_service_id_string(
            self.sender_service_id.as_str(),
        ) {
            Some(id) => id,
            None => return Err(SqliteStoreError::InvalidFormat),
        };
        let destination = match ServiceId::parse_from_service_id_string(
            self.destination_service_id.as_str(),
        ) {
            Some(id) => id,
            None => return Err(SqliteStoreError::InvalidFormat),
        };
        let sender_device: u32 = self.sender_device_id as u32;
        if sender_device == 0 || sender_device > registered::MAX_DEVICE_ID {
            return Err(SqliteStoreError::InvalidDeviceId);
        }
        let metadata = Metadata {
            sender,
            destination,
            sender_device,
            server_guid: None,
            timestamp: self.ts as i64,
            server_timestamp: self.ts as i64,
            needs_receipt: self.needs_receipt,
            unidentified_sender: self.unidentified_sender,
            was_plaintext: self.was_plaintext,
            report_spam_token: None,
        };
        Ok(Content { metadata, body })
    }
}

impl SqlStickerPack {
    /// The sticker pack in a row.
    pub fn into_sticker_pack(self) -> (pack: StickerPack)
        ensures
            pack.deep_view() == (StickerPackView {
                id: self.deep_view().id,
                key: self.deep_view().key,
                manifest: self.deep_view().manifest,
            }),
    {
        StickerPack { id: self.id, key: self.key, manifest: self.manifest }
    }
}

/// A text in which each `from` is replaced by `to`.
pub open spec fn replaced(text: Seq<char>, from: char, to: Seq<char>) -> Seq<char>
    decreases text.len(),
{
    if text.len() == 0 {
        Seq::empty()
    } else {
        (if text[0] == from {
            to
        } else {
            seq![text[0]]
        }) + replaced(text.skip(1), from, to)
    }
}

/// Replaces each occurrence of a character in a text, by `str::replace`.
#[verifier::external_body]
fn replace_char(text: &str, from: char, to: &str) -> (r: String)
    ensures
        r@ == replaced(text@, from, to@),
{
    text.replace(from, to)
}

/// A passphrase as it stands in an SQL statement: in quotes, with each quote in it doubled.
pub open spec fn quoted(passphrase: Seq<char>) -> Seq<char> {
    "'"@ + replaced(passphrase, '\'', "''"@) + "'"@
}

/// A passphrase as it stands in an SQL statement.
pub fn open_with_passphrase(passphrase: &str) -> (key: String)
    ensures
        key@ == quoted(passphrase@),
{
    "'".to_owned().concat(replace_char(passphrase, '\'', "''").as_str()).concat("'")
}

/// The text between the quotes, with each doubled quote read as one. `None` where a quote is
/// not doubled: there the text would end.
pub open spec fn unescaped(text: Seq<char>) -> Option<Seq<char>>
    decreases text.len(),
{
    if text.len() == 0 {
        Some(Seq::empty())
    } else if text[0] != '\'' {
        match unescaped(text.skip(1)) {
            Some(rest) => Some(seq![text[0]] + rest),
            None => None,
        }
    } else if text.len() > 1 && text[1] == '\'' {
        match unescaped(text.skip(2)) {
            Some(rest) => Some(seq!['\''] + rest),
            None => None,
        }
    } else {
        None
    }
}

/// No passphrase ends its own quotes: what stands between them reads as the passphrase.
pub proof fn law_passphrase_stays_quoted(passphrase: Seq<char>)
    ensures
        quoted(passphrase) == "'"@ + replaced(passphrase, '\'', "''"@) + "'"@,
        unescaped(replaced(passphrase, '\'', "''"@)) == Some(passphrase),
    decreases passphrase.len(),
{
    reveal_strlit("''");
    let all = replaced(passphrase, '\'', "''"@);
    if passphrase.len() > 0 {
        let rest = passphrase.skip(1);
        law_passphrase_stays_quoted(rest);
        let after = replaced(rest, '\'', "''"@);
        if passphrase[0] == '\'' {
            assert("''"@ =~= seq!['\'', '\'']);
            assert(all =~= seq!['\'', '\''] + after);
            assert(all.skip(2) =~= after);
            assert(seq!['\''] + rest =~= passphrase);
        } else {
            assert(all =~= seq![passphrase[0]] + after);
            assert(all.skip(1) =~= after);
            assert(seq![passphrase[0]] + rest =~= passphrase);
        }
    } else {
        assert(passphrase =~= Seq::<char>::empty());
    }
}

/// The version of the storage manifest in the store: eight bytes, least significant first. A
/// store that was never synced has none, which counts as zero.
pub fn fetch_storage_manifest_version(value: &Option<Vec<u8>>) -> (version: Result<
    u64,
    SqliteStoreError,
>)
    ensures
        version == (match value.deep_view() {
            None => Ok::<u64, SqliteStoreError>(0),
            Some(bytes) => if bytes.len() == 8 {
                Ok(endian::le_value(bytes) as u64)
            } else {
                Err(SqliteStoreError::InvalidFormat)
            },
        }),
{
    broadcast use text::lemma_bytes_view;

    match value {
        None => Ok(0),
        Some(bytes) => if bytes.len() == 8 {
            Ok(endian::u64_from_le(bytes.as_slice()))
        } else {
            Err(SqliteStoreError::InvalidFormat)
        },
    }
}

/// What is stored for a version of the storage manifest.
pub fn store_storage_manifest_version(version: u64) -> (value: Vec<u8>)
    ensures
        value@ == endian::le_bytes(version as nat, 8),
        value@.len() == 8,
        endian::le_value(value@) == version,
{
    endian::u64_to_le(version)
}

/// The master key in the store.
pub fn fetch_master_key(value: &Option<Vec<u8>>) -> (key: Result<
    Option<MasterKey>,
    SqliteStoreError,
>)
    ensures
        match (value.deep_view(), key) {
            (None, Ok(None)) => true,
            (Some(bytes), Ok(Some(key))) => key.deep_view() == bytes,
            (Some(bytes), Err(e)) => bytes.len() != 32 && e == SqliteStoreError::InvalidFormat,
            _ => false,
        },
{
    broadcast use text::lemma_bytes_view;

    match value {
        None => Ok(None),
        Some(bytes) => match MasterKey::from_slice(bytes.as_slice()) {
            Some(key) => Ok(Some(key)),
            None => Err(SqliteStoreError::InvalidFormat),
        },
    }
}

/// The key of the backups in the store.
pub fn fetch_backup_key(value: &Option<Vec<u8>>) -> (key: Result<
    Option<[u8; 32]>,
    SqliteStoreError,
>)
    ensures
        match (value.deep_view(), key) {
            (None, Ok(None)) => true,
            (Some(bytes), Ok(Some(key))) => key@ == bytes,
            (Some(bytes), Err(e)) => bytes.len() != 32 && e == SqliteStoreError::InvalidFormat,
            _ => false,
        },
{
    broadcast use text::lemma_bytes_view;

    match value {
        None => Ok(None),
        Some(bytes) => match service_id::thirty_two(bytes.as_slice()) {
            Some(key) => Ok(Some(key)),
            None => Err(SqliteStoreError::InvalidFormat),
        },
    }
}

/// The rows that hold a master key.
pub open spec fn proper_keys(rows: Seq<Seq<u8>>) -> Seq<Seq<u8>>
    decreases rows.len(),
{
    if rows.len() == 0 {
        Seq::empty()
    } else if rows.last().len() == 32 {
        proper_keys(rows.drop_last()).push(rows.last())
    } else {
        proper_keys(rows.drop_last())
    }
}

/// How many rows a backfill touches, and the master keys of the groups whose ids it fills in.
/// `rows` are the keys of the groups without an id; one of another length is skipped.
pub fn backfill_group_ids(rows: &Vec<Vec<u8>>) -> (r: (usize, Vec<MasterKey>))
    ensures
        r.0 == proper_keys(rows.deep_view()).len(),
        r.1.deep_view() == proper_keys(rows.deep_view()),
{
    broadcast use text::lemma_bytes_view;

    let mut keys: Vec<MasterKey> = Vec::new();
    let ghost all = rows.deep_view();
    let mut i: usize = 0;
    proof {
        assert(keys.deep_view() =~= proper_keys(all.take(0)));
    }
    while i < rows.len()
        invariant
            i <= rows@.len(),
            all == rows.deep_view(),
            keys.deep_view() == proper_keys(all.take(i as int)),
        decreases rows@.len() - i,
    {
        let ghost before = keys.deep_view();
        proof {
            assert(all.take(i + 1).drop_last() =~= all.take(i as int));
            assert(all.take(i + 1).last() == rows@[i as int].deep_view());
            text::lemma_bytes_view(rows@[i as int]);
        }
        match MasterKey::from_slice(rows[i].as_slice()) {
            Some(key) => {
                keys.push(key);
                assert(keys.deep_view() =~= before.push(key.deep_view()));
            },
            None => {},
        }
        i = i + 1;
    }
    assert(all.take(i as int) =~= all);
    assert(keys.deep_view().len() == keys@.len());
    (keys.len(), keys)
}

} // verus!

//! Contacts.
use vstd::prelude::*;

use crate::model::profile;
use crate::model::profile::{ProfileKey, ProfileName};
use crate::proto::{ContactRecord, ContactRecordView, Verified, VerifiedView};
use crate::service_id;
use crate::service_id::Uuid;
use crate::text;

verus! {

/// A phone number, in its E.164 form.
#[derive(Debug, PartialEq)]
pub struct PhoneNumber {
    pub e164: String,
}

/// What a [`PhoneNumber`] holds.
#[verifier::ext_equal]
pub struct PhoneNumberView {
    pub e164: Seq<char>,
}

impl DeepView for PhoneNumber {
    type V = PhoneNumberView;

    open spec fn deep_view(&self) -> PhoneNumberView {
        PhoneNumberView {
            e164: self.e164.deep_view(),
        }
    }
}

impl Clone for PhoneNumber {
    fn clone(&self) -> (r: Self)
        ensures
            r.deep_view() == self.deep_view(),
    {
        let r = PhoneNumber {
            e164: self.e164.clone(),
        };
        r
    }
}

/// A file that came with a contact.
#[derive(Debug, PartialEq)]
pub struct Attachment {
    pub content_type: String,
    pub reader: Vec<u8>,
}

/// What a [`Attachment`] holds.
#[verifier::ext_equal]
pub struct AttachmentView {
    pub content_type: Seq<char>,
    pub reader: Seq<u8>,
}

impl DeepView for Attachment {
    type V = AttachmentView;

    open spec fn deep_view(&self) -> AttachmentView {
        AttachmentView {
            content_type: self.content_type.deep_view(),
            reader: self.reader.deep_view(),
        }
    }
}

impl Clone for Attachment {
    fn clone(&self) -> (r: Self)
        ensures
            r.deep_view() == self.deep_view(),
    {
        let r = Attachment {
            content_type: self.content_type.clone(),
            reader: self.reader.clone(),
        };
        proof {
            assert(r.reader.deep_view() =~= self.reader.deep_view());
        }
        r
    }
}

/// What is stored of a person. The fields from `pni` on come from the storage service.
#[derive(Debug, PartialEq)]
pub struct Contact {
    pub uuid: Uuid,
    pub phone_number: Option<PhoneNumber>,
    pub name: String,
    pub verified: Verified,
    pub profile_key: Vec<u8>,
    pub expire_timer: u32,
    pub expire_timer_version: u32,
    pub inbox_position: u32,
    pub avatar: Option<Attachment>,
    pub pni: Option<Uuid>,
    pub username: Option<String>,
    pub blocked: bool,
    pub whitelisted: bool,
    pub archived: bool,
    pub marked_unread: bool,
    pub muted_until_timestamp: u64,
    pub hide_story: bool,
    pub hidden: bool,
    pub unregistered_at_timestamp: u64,
    pub pni_signature_verified: bool,
    pub system_given_name: String,
    pub system_family_name: String,
    pub system_nickname: String,
    pub nickname_given_name: String,
    pub nickname_family_name: String,
    pub note: String,
}

/// What a [`Contact`] holds.
#[verifier::ext_equal]
pub struct ContactView {
    pub uuid: Seq<u8>,
    pub phone_number: Option<PhoneNumberView>,
    pub name: Seq<char>,
    pub verified: VerifiedView,
    pub profile_key: Seq<u8>,
    pub expire_timer: u32,
    pub expire_timer_version: u32,
    pub inbox_position: u32,
    pub avatar: Option<AttachmentView>,
    pub pni: Option<Seq<u8>>,
    pub username: Option<Seq<char>>,
    pub blocked: bool,
    pub whitelisted: bool,
    pub archived: bool,
    pub marked_unread: bool,
    pub muted_until_timestamp: u64,
    pub hide_story: bool,
    pub hidden: bool,
    pub unregistered_at_timestamp: u64,
    pub pni_signature_verified: bool,
    pub system_given_name: Seq<char>,
    pub system_family_name: Seq<char>,
    pub system_nickname: Seq<char>,
    pub nickname_given_name: Seq<char>,
    pub nickname_family_name: Seq<char>,
    pub note: Seq<char>,
}

impl DeepView for Contact {
    type V = ContactView;

    open spec fn deep_view(&self) -> ContactView {
        ContactView {
            uuid: self.uuid.deep_view(),
            phone_number: self.phone_number.deep_view(),
            name: self.name.deep_view(),
            verified: self.verified.deep_view(),
            profile_key: self.profile_key.deep_view(),
            expire_timer: self.expire_timer,
            expire_timer_version: self.expire_timer_version,
            inbox_position: self.inbox_position,
            avatar: self.avatar.deep_view(),
            pni: self.pni.deep_view(),
            username: self.username.deep_view(),
            blocked: self.blocked,
            whitelisted: self.whitelisted,
            archived: self.archived,
            marked_unread: self.marked_unread,
            muted_until_timestamp: self.muted_until_timestamp,
            hide_story: self.hide_story,
            hidden: self.hidden,
            unregistered_at_timestamp: self.unregistered_at_timestamp,
            pni_signature_verified: self.pni_signature_verified,
            system_given_name: self.system_given_name.deep_view(),
            system_family_name: self.system_family_name.deep_view(),
            system_nickname: self.system_nickname.deep_view(),
            nickname_given_name: self.nickname_given_name.deep_view(),
            nickname_family_name: self.nickname_family_name.deep_view(),
            note: self.note.deep_view(),
        }
    }
}

impl Clone for Contact {
    fn clone(&self) -> (r: Self)
        ensures
            r.deep_view() == self.deep_view(),
    {
        let r = Contact {
            uuid: self.uuid,
            phone_number: self.phone_number.clone(),
            name: self.name.clone(),
            verified: self.verified.clone(),
            profile_key: self.profile_key.clone(),
            expire_timer: self.expire_timer,
            expire_timer_version: self.expire_timer_version,
            inbox_position: self.inbox_position,
            avatar: self.avatar.clone(),
            pni: self.pni,
            username: self.username.clone(),
            blocked: self.blocked,
            whitelisted: self.whitelisted,
            archived: self.archived,
            marked_unread: self.marked_unread,
            muted_until_timestamp: self.muted_until_timestamp,
            hide_story: self.hide_story,
            hidden: self.hidden,
            unregistered_at_timestamp: self.unregistered_at_timestamp,
            pni_signature_verified: self.pni_signature_verified,
            system_given_name: self.system_given_name.clone(),
            system_family_name: self.system_family_name.clone(),
            system_nickname: self.system_nickname.clone(),
            nickname_given_name: self.nickname_given_name.clone(),
            nickname_family_name: self.nickname_family_name.clone(),
            note: self.note.clone(),
        };
        proof {
            assert(r.phone_number.deep_view() =~= self.phone_number.deep_view());
            assert(r.profile_key.deep_view() =~= self.profile_key.deep_view());
            assert(r.avatar.deep_view() =~= self.avatar.deep_view());
            assert(r.username.deep_view() =~= self.username.deep_view());
        }
        r
    }
}

/// A contact as another device of the account sends it.
#[derive(Debug, PartialEq)]
pub struct SyncedContact {
    pub uuid: Uuid,
    pub phone_number: Option<PhoneNumber>,
    pub name: String,
    pub expire_timer: u32,
    pub expire_timer_version: u32,
    pub inbox_position: u32,
    pub avatar: Option<Attachment>,
}

/// What a [`SyncedContact`] holds.
#[verifier::ext_equal]
pub struct SyncedContactView {
    pub uuid: Seq<u8>,
    pub phone_number: Option<PhoneNumberView>,
    pub name: Seq<char>,
    pub expire_timer: u32,
    pub expire_timer_version: u32,
    pub inbox_position: u32,
    pub avatar: Option<AttachmentView>,
}

impl DeepView for SyncedContact {
    type V = SyncedContactView;

    open spec fn deep_view(&self) -> SyncedContactView {
        SyncedContactView {
            uuid: self.uuid.deep_view(),
            phone_number: self.phone_number.deep_view(),
            name: self.name.deep_view(),
            expire_timer: self.expire_timer,
            expire_timer_version: self.expire_timer_version,
            inbox_position: self.inbox_position,
            avatar: self.avatar.deep_view(),
        }
    }
}

impl Clone for SyncedContact {
    fn clone(&self) -> (r: Self)
        ensures
            r.deep_view() == self.deep_view(),
    {
        let r = SyncedContact {
            uuid: self.uuid,
            phone_number: self.phone_number.clone(),
            name: self.name.clone(),
            expire_timer: self.expire_timer,
            expire_timer_version: self.expire_timer_version,
            inbox_position: self.inbox_position,
            avatar: self.avatar.clone(),
        };
        proof {
            assert(r.phone_number.deep_view() =~= self.phone_number.deep_view());
            assert(r.avatar.deep_view() =~= self.avatar.deep_view());
        }
        r
    }
}

/// What is said of the avatar that follows a contact.
#[derive(Debug, PartialEq)]
pub struct ContactAvatar {
    pub content_type: Option<String>,
    pub length: Option<u32>,
}

/// What a [`ContactAvatar`] holds.
#[verifier::ext_equal]
pub struct ContactAvatarView {
    pub content_type: Option<Seq<char>>,
    pub length: Option<u32>,
}

impl DeepView for ContactAvatar {
    type V = ContactAvatarView;

    open spec fn deep_view(&self) -> ContactAvatarView {
        ContactAvatarView {
            content_type: self.content_type.deep_view(),
            length: self.length,
        }
    }
}

impl Clone for ContactAvatar {
    fn clone(&self) -> (r: Self)
        ensures
            r.deep_view() == self.deep_view(),
    {
        let r = ContactAvatar {
            content_type: self.content_type.clone(),
            length: self.length,
        };
        proof {
            assert(r.content_type.deep_view() =~= self.content_type.deep_view());
        }
        r
    }
}

/// A contact as it is sent to the other devices of the account.
#[derive(Debug, PartialEq)]
pub struct ContactDetails {
    pub number: Option<String>,
    pub aci: Option<String>,
    pub aci_binary: Option<Vec<u8>>,
    pub name: Option<String>,
    pub avatar: Option<ContactAvatar>,
    pub expire_timer: Option<u32>,
    pub expire_timer_version: Option<u32>,
    pub inbox_position: Option<u32>,
}

/// What a [`ContactDetails`] holds.
#[verifier::ext_equal]
pub struct ContactDetailsView {
    pub number: Option<Seq<char>>,
    pub aci: Option<Seq<char>>,
    pub aci_binary: Option<Seq<u8>>,
    pub name: Option<Seq<char>>,
    pub avatar: Option<ContactAvatarView>,
    pub expire_timer: Option<u32>,
    pub expire_timer_version: Option<u32>,
    pub inbox_position: Option<u32>,
}

impl DeepView for ContactDetails {
    type V = ContactDetailsView;

    open spec fn deep_view(&self) -> ContactDetailsView {
        ContactDetailsView {
            number: self.number.deep_view(),
            aci: self.aci.deep_view(),
            aci_binary: self.aci_binary.deep_view(),
            name: self.name.deep_view(),
            avatar: self.avatar.deep_view(),
            expire_timer: self.expire_timer,
            expire_timer_version: self.expire_timer_version,
            inbox_position: self.inbox_position,
        }
    }
}

impl Clone for ContactDetails {
    fn clone(&self) -> (r: Self)
        ensures
            r.deep_view() == self.deep_view(),
    {
        let r = ContactDetails {
            number: self.number.clone(),
            aci: self.aci.clone(),
            aci_binary: self.aci_binary.clone(),
            name: self.name.clone(),
            avatar: self.avatar.clone(),
            expire_timer: self.expire_timer,
            expire_timer_version: self.expire_timer_version,
            inbox_position: self.inbox_position,
        };
        proof {
            assert(r.number.deep_view() =~= self.number.deep_view());
            assert(r.aci.deep_view() =~= self.aci.deep_view());
            assert(r.aci_binary.deep_view() =~= self.aci_binary.deep_view());
            assert(r.name.deep_view() =~= self.name.deep_view());
            assert(r.avatar.deep_view() =~= self.avatar.deep_view());
        }
        r
    }
}

/// The version that a contact's timer starts with.
pub open spec fn default_expire_timer_version_of() -> u32 {
    2
}

/// The version that a contact's timer starts with.
pub fn default_expire_timer_version() -> (version: u32)
    ensures
        version == default_expire_timer_version_of(),
{
    2
}

/// A contact of which nothing but the identity is known.
pub open spec fn minimal_contact(uuid: Seq<u8>) -> ContactView {
    ContactView {
        uuid: uuid,
        phone_number: None,
        name: Seq::empty(),
        verified: VerifiedView::empty(),
        profile_key: Seq::empty(),
        expire_timer: 0,
        expire_timer_version: default_expire_timer_version_of(),
        inbox_position: 0,
        avatar: None,
        pni: None,
        username: None,
        blocked: false,
        whitelisted: false,
        archived: false,
        marked_unread: false,
        muted_until_timestamp: 0,
        hide_story: false,
        hidden: false,
        unregistered_at_timestamp: 0,
        pni_signature_verified: false,
        system_given_name: Seq::empty(),
        system_family_name: Seq::empty(),
        system_nickname: Seq::empty(),
        nickname_given_name: Seq::empty(),
        nickname_family_name: Seq::empty(),
        note: Seq::empty(),
    }
}

/// A contact that another device sent: what it does not carry takes its default.
pub open spec fn contact_of_synced(c: SyncedContactView) -> ContactView {
    ContactView {
        uuid: c.uuid,
        phone_number: c.phone_number,
        name: c.name,
        expire_timer: c.expire_timer,
        expire_timer_version: c.expire_timer_version,
        inbox_position: c.inbox_position,
        avatar: c.avatar,
        ..minimal_contact(c.uuid)
    }
}

/// The identity in a record: the binary field where it is set, else the text.
pub open spec fn record_uuid(binary: Seq<u8>, text: Seq<char>) -> Option<Seq<u8>> {
    if binary.len() > 0 {
        service_id::uuid_bytes(binary)
    } else {
        text::parsed_uuid(text)
    }
}

/// The phone-number identity in a record: absent where neither field is set.
pub open spec fn record_pni(binary: Seq<u8>, text: Seq<char>) -> Option<Seq<u8>> {
    if binary.len() == 0 && text.len() == 0 {
        None
    } else {
        record_uuid(binary, text)
    }
}

/// A text field without presence: empty means absent.
pub open spec fn present(text: Seq<char>) -> Option<Seq<char>> {
    if text.len() == 0 {
        None
    } else {
        Some(text)
    }
}

/// The contact that a storage record describes, `None` where its identity is missing or
/// invalid. `phone_number` is what the record's `e164` reads as.
pub open spec fn contact_of_record(
    r: ContactRecordView,
    phone_number: Option<PhoneNumberView>,
) -> Option<ContactView> {
    match record_uuid(r.aci_binary, r.aci) {
        None => None,
        Some(uuid) => Some(
            ContactView {
                uuid,
                phone_number,
                name: profile::profile_name_text(r.given_name, present(r.family_name)),
                profile_key: r.profile_key,
                pni: record_pni(r.pni_binary, r.pni),
                username: present(r.username),
                blocked: r.blocked,
                whitelisted: r.whitelisted,
                archived: r.archived,
                marked_unread: r.marked_unread,
                muted_until_timestamp: r.muted_until_timestamp,
                hide_story: r.hide_story,
                hidden: r.hidden,
                unregistered_at_timestamp: r.unregistered_at_timestamp,
                pni_signature_verified: r.pni_signature_verified,
                system_given_name: r.system_given_name,
                system_family_name: r.system_family_name,
                system_nickname: r.system_nickname,
                nickname_given_name: match r.nickname {
                    Some(name) => name.given,
                    None => Seq::empty(),
                },
                nickname_family_name: match r.nickname {
                    Some(name) => name.family,
                    None => Seq::empty(),
                },
                note: r.note,
                ..minimal_contact(uuid)
            },
        ),
    }
}

fn nonempty(text: String) -> (r: Option<String>)
    ensures
        r.deep_view() == present(text@),
{
    if text.as_str().is_empty() {
        None
    } else {
        Some(text)
    }
}

fn read_uuid(binary: &Vec<u8>, text: &String) -> (r: Option<Uuid>)
    ensures
        r.deep_view() == record_uuid(binary@, text@),
{
    if binary.len() > 0 {
        Uuid::from_slice(binary.as_slice())
    } else {
        Uuid::parse_str(text.as_str())
    }
}

/// Why a storage record is no contact: its identity is missing or invalid.
#[derive(Debug, Clone, Copy, PartialEq, Eq, Structural)]
pub struct InvalidAci;

/// What a contact is sent to the other devices as. The inbox position is not shared.
pub open spec fn contact_details_of(c: ContactView) -> ContactDetailsView {
    ContactDetailsView {
        number: match c.phone_number {
            Some(number) => Some(number.e164),
            None => None,
        },
        aci: Some(text::uuid_text(c.uuid)),
        aci_binary: Some(c.uuid),
        name: Some(c.name),
        avatar: match c.avatar {
            Some(avatar) => Some(
                ContactAvatarView {
                    content_type: Some(avatar.content_type),
                    length: if avatar.reader.len() <= u32::MAX {
                        Some(avatar.reader.len() as u32)
                    } else {
                        None
                    },
                },
            ),
            None => None,
        },
        expire_timer: Some(c.expire_timer),
        expire_timer_version: Some(c.expire_timer_version),
        inbox_position: None,
    }
}

impl Contact {
    /// A contact that another device of the account sent.
    pub fn from_synced(c: SyncedContact) -> (contact: Contact)
        ensures
            contact.deep_view() == contact_of_synced(c.deep_view()),
    {
        let contact = Contact {
            uuid: c.uuid,
            phone_number: c.phone_number,
            name: c.name,
            verified: Verified::default(),
            profile_key: Vec::new(),
            expire_timer: c.expire_timer,
            expire_timer_version: c.expire_timer_version,
            inbox_position: c.inbox_position,
            avatar: c.avatar,
            pni: None,
            username: None,
            blocked: false,
            whitelisted: false,
            archived: false,
            marked_unread: false,
            muted_until_timestamp: 0,
            hide_story: false,
            hidden: false,
            unregistered_at_timestamp: 0,
            pni_signature_verified: false,
            system_given_name: String::new(),
            system_family_name: String::new(),
            system_nickname: String::new(),
            nickname_given_name: String::new(),
            nickname_family_name: String::new(),
            note: String::new(),
        };
        assert(contact.deep_view() =~= contact_of_synced(c.deep_view()));
        contact
    }

    /// Build a bare contact record for a recipient that was never synced, keyed only by
    /// its identity. Used when blocking someone who isn't in the contact list yet: every
    /// other field takes its default.
    pub fn minimal(uuid: Uuid) -> (contact: Contact)
        ensures
            contact.deep_view() == minimal_contact(uuid.deep_view()),
    {
        let contact = Contact::from_synced(
            SyncedContact {
                uuid,
                phone_number: None,
                name: String::new(),
                expire_timer: 0,
                expire_timer_version: default_expire_timer_version(),
                inbox_position: 0,
                avatar: None,
            },
        );
        assert(contact.deep_view() =~= minimal_contact(uuid.deep_view()));
        contact
    }

    /// The contact that a storage record describes. `phone_number` is what the record's
    /// `e164` reads as.
    pub fn try_from_record(r: ContactRecord, phone_number: Option<PhoneNumber>) -> (contact: Result<
        Contact,
        InvalidAci,
    >)
        ensures
            match contact {
                Ok(contact) => contact_of_record(r.deep_view(), phone_number.deep_view()) == Some(
                    contact.deep_view(),
                ),
                Err(_) => contact_of_record(r.deep_view(), phone_number.deep_view()) is None,
            },
    {
        broadcast use text::lemma_bytes_view;

        let uuid = match read_uuid(&r.aci_binary, &r.aci) {
            Some(uuid) => uuid,
            None => return Err(InvalidAci),
        };
        let pni = if r.pni_binary.len() == 0 && r.pni.as_str().is_empty() {
            None
        } else {
            read_uuid(&r.pni_binary, &r.pni)
        };
        let name = ProfileName {
            given_name: r.given_name,
            family_name: nonempty(r.family_name),
        }.to_string();
        let (nickname_given_name, nickname_family_name) = match r.nickname {
            Some(name) => (name.given, name.family),
            None => (String::new(), String::new()),
        };
        let contact = Contact {
            uuid,
            phone_number,
            name,
            verified: Verified::default(),
            profile_key: r.profile_key,
            expire_timer: 0,
            expire_timer_version: default_expire_timer_version(),
            inbox_position: 0,
            avatar: None,
            pni,
            username: nonempty(r.username),
            blocked: r.blocked,
            whitelisted: r.whitelisted,
            archived: r.archived,
            marked_unread: r.marked_unread,
            muted_until_timestamp: r.muted_until_timestamp,
            hide_story: r.hide_story,
            hidden: r.hidden,
            unregistered_at_timestamp: r.unregistered_at_timestamp,
            pni_signature_verified: r.pni_signature_verified,
            system_given_name: r.system_given_name,
            system_family_name: r.system_family_name,
            system_nickname: r.system_nickname,
            nickname_given_name,
            nickname_family_name,
            note: r.note,
        };
        proof {
            assert(contact.deep_view() =~= contact_of_record(
                r.deep_view(),
                phone_number.deep_view(),
            )->0);
        }
        Ok(contact)
    }

    /// What this contact is sent to the other devices of the account as.
    pub fn details(&self) -> (details: ContactDetails)
        ensures
            details.deep_view() == contact_details_of(self.deep_view()),
    {
        broadcast use text::lemma_bytes_view;

        let number = match &self.phone_number {
            Some(number) => Some(number.e164.clone()),
            None => None,
        };
        let avatar = match &self.avatar {
            Some(avatar) => {
                let length = if avatar.reader.len() as u64 <= u32::MAX as u64 {
                    Some(avatar.reader.len() as u32)
                } else {
                    None
                };
                Some(ContactAvatar { content_type: Some(avatar.content_type.clone()), length })
            },
            None => None,
        };
        let details = ContactDetails {
            number,
            aci: Some(self.uuid.to_string()),
            aci_binary: Some(self.uuid.to_vec()),
            name: Some(self.name.clone()),
            avatar,
            expire_timer: Some(self.expire_timer),
            expire_timer_version: Some(self.expire_timer_version),
            inbox_position: None,
        };
        assert(details.deep_view() =~= contact_details_of(self.deep_view()));
        details
    }
}

/// The profile key of a contact. The field is legitimately empty, so anything that isn't
/// exactly 32 bytes is treated as absent.
pub fn contact_profile_key(contact: &Contact) -> (key: Option<ProfileKey>)
    ensures
        key.deep_view() == profile::profile_key_bytes(contact.deep_view().profile_key),
{
    broadcast use text::lemma_bytes_view;

    ProfileKey::from_slice(contact.profile_key.as_slice())
}

} // verus!

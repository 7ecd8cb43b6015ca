//! Groups.
use vstd::prelude::*;

use crate::model::access::{AccessRequired, Role};
use crate::model::profile::ProfileKey;
use crate::proto::{GroupV2Record, GroupV2RecordView};
use crate::service_id::{Aci, Pni, ServiceId, ServiceIdKind, ServiceIdView, Uuid};

verus! {

/// How long messages stay, in seconds.
#[derive(Debug, Clone, Copy, PartialEq, Eq, Structural)]
pub struct Timer {
    pub duration: u32,
}

/// Who may do what in a group.
#[derive(Debug, Clone, Copy, PartialEq, Eq, Structural)]
pub struct AccessControl {
    pub attributes: AccessRequired,
    pub members: AccessRequired,
    pub add_from_invite_link: AccessRequired,
    pub member_label: AccessRequired,
}

/// The member-label rule of a group that was stored without one.
pub fn default_access_required() -> (access: AccessRequired)
    ensures
        access == AccessRequired::Member,
{
    AccessRequired::Member
}

/// The rules of a group that is being created. No invite link exists until one is
/// explicitly made, so the rule for it cannot be satisfied.
pub fn new_group_access_control() -> (access: AccessControl)
    ensures
        access.attributes == AccessRequired::Member,
        access.members == AccessRequired::Member,
        access.add_from_invite_link == AccessRequired::Unsatisfiable,
        access.member_label == AccessRequired::Member,
{
    AccessControl {
        attributes: AccessRequired::Member,
        members: AccessRequired::Member,
        add_from_invite_link: AccessRequired::Unsatisfiable,
        member_label: AccessRequired::Member,
    }
}

/// Who a group lets do something: any member, or only its administrators.
///
/// The narrow form of [`AccessRequired`] for the attribute and membership rules; the
/// other variants belong to the invite-link rule, and the server rejects them here.
#[derive(Debug, Clone, Copy, PartialEq, Eq, Structural)]
pub enum GroupAccess {
    Members,
    Administrators,
}

impl From<GroupAccess> for AccessRequired {
    fn from(access: GroupAccess) -> (required: AccessRequired) {
        match access {
            GroupAccess::Members => AccessRequired::Member,
            GroupAccess::Administrators => AccessRequired::Administrator,
        }
    }
}

impl vstd::std_specs::convert::FromSpecImpl<GroupAccess> for AccessRequired {
    open spec fn obeys_from_spec() -> bool {
        true
    }

    open spec fn from_spec(access: GroupAccess) -> AccessRequired {
        match access {
            GroupAccess::Members => AccessRequired::Member,
            GroupAccess::Administrators => AccessRequired::Administrator,
        }
    }
}

/// The attributes a group change can carry.
///
/// `None` leaves a field as it is. An empty description clears it; a zero timer turns
/// disappearing messages off. `announcements_only` is the membership rule for sending:
/// set, only administrators may send to the group.
///
/// Setting `member_label_access` to [`GroupAccess::Administrators`] is not only a rule
/// change: it also clears the labels that rule takes away, in the same change. See
/// [`Group::members_losing_labels`].
#[derive(Debug, Clone, PartialEq, Eq)]
pub struct GroupUpdate {
    pub title: Option<String>,
    pub description: Option<String>,
    pub expire_timer_seconds: Option<u32>,
    pub attributes_access: Option<GroupAccess>,
    pub members_access: Option<GroupAccess>,
    pub member_label_access: Option<GroupAccess>,
    pub announcements_only: Option<bool>,
}

impl GroupUpdate {
    /// Nothing is set.
    pub open spec fn changes_nothing(&self) -> bool {
        &&& self.title is None
        &&& self.description is None
        &&& self.expire_timer_seconds is None
        &&& self.attributes_access is None
        &&& self.members_access is None
        &&& self.member_label_access is None
        &&& self.announcements_only is None
    }

    pub fn is_empty(&self) -> (r: bool)
        ensures
            r == self.changes_nothing(),
    {
        self.title.is_none() && self.description.is_none() && self.expire_timer_seconds.is_none()
            && self.attributes_access.is_none() && self.members_access.is_none()
            && self.member_label_access.is_none() && self.announcements_only.is_none()
    }
}

impl Default for GroupUpdate {
    fn default() -> (r: Self)
        ensures
            r.changes_nothing(),
    {
        GroupUpdate {
            title: None,
            description: None,
            expire_timer_seconds: None,
            attributes_access: None,
            members_access: None,
            member_label_access: None,
            announcements_only: None,
        }
    }
}

/// The membership changes one group change can carry.
///
/// `add` takes any service id: someone whose profile key this account holds joins
/// outright, anyone else, a PNI-only contact included, is invited and joins when they
/// accept. `remove` and the role changes are for full members; an invitation is
/// withdrawn with `remove_pending`.
#[derive(Debug, Clone, PartialEq, Eq)]
pub struct GroupMembersUpdate {
    pub add: Vec<ServiceId>,
    pub remove: Vec<Aci>,
    pub remove_pending: Vec<ServiceId>,
    pub promote: Vec<Aci>,
    pub demote: Vec<Aci>,
}

impl GroupMembersUpdate {
    /// Nobody is named.
    pub open spec fn changes_nothing(&self) -> bool {
        &&& self.add@.len() == 0
        &&& self.remove@.len() == 0
        &&& self.remove_pending@.len() == 0
        &&& self.promote@.len() == 0
        &&& self.demote@.len() == 0
    }

    pub fn is_empty(&self) -> (r: bool)
        ensures
            r == self.changes_nothing(),
    {
        self.add.len() == 0 && self.remove.len() == 0 && self.remove_pending.len() == 0
            && self.promote.len() == 0 && self.demote.len() == 0
    }
}

impl Default for GroupMembersUpdate {
    fn default() -> (r: Self)
        ensures
            r.changes_nothing(),
    {
        GroupMembersUpdate {
            add: Vec::new(),
            remove: Vec::new(),
            remove_pending: Vec::new(),
            promote: Vec::new(),
            demote: Vec::new(),
        }
    }
}

/// Which identity of an account a stored uuid is.
#[derive(Debug, Clone, Copy, PartialEq, Eq, Structural)]
pub enum ServiceIdType {
    AccountIdentity,
    PhoneNumberIdentity,
}

impl From<ServiceIdKind> for ServiceIdType {
    fn from(kind: ServiceIdKind) -> (r: ServiceIdType) {
        match kind {
            ServiceIdKind::Aci => ServiceIdType::AccountIdentity,
            ServiceIdKind::Pni => ServiceIdType::PhoneNumberIdentity,
        }
    }
}

impl vstd::std_specs::convert::FromSpecImpl<ServiceIdKind> for ServiceIdType {
    open spec fn obeys_from_spec() -> bool {
        true
    }

    open spec fn from_spec(kind: ServiceIdKind) -> ServiceIdType {
        match kind {
            ServiceIdKind::Aci => ServiceIdType::AccountIdentity,
            ServiceIdKind::Pni => ServiceIdType::PhoneNumberIdentity,
        }
    }
}

/// A member of a group.
#[derive(Debug, PartialEq)]
pub struct Member {
    pub aci: Aci,
    pub role: Role,
    pub profile_key: ProfileKey,
    pub joined_at_revision: u32,
    pub label: Option<String>,
    pub label_emoji: Option<String>,
}

/// What a [`Member`] holds.
#[verifier::ext_equal]
pub struct MemberView {
    pub aci: Seq<u8>,
    pub role: Role,
    pub profile_key: Seq<u8>,
    pub joined_at_revision: u32,
    pub label: Option<Seq<char>>,
    pub label_emoji: Option<Seq<char>>,
}

impl DeepView for Member {
    type V = MemberView;

    open spec fn deep_view(&self) -> MemberView {
        MemberView {
            aci: self.aci.deep_view(),
            role: self.role,
            profile_key: self.profile_key.deep_view(),
            joined_at_revision: self.joined_at_revision,
            label: self.label.deep_view(),
            label_emoji: self.label_emoji.deep_view(),
        }
    }
}

impl Clone for Member {
    fn clone(&self) -> (r: Self)
        ensures
            r.deep_view() == self.deep_view(),
    {
        let r = Member {
            aci: self.aci,
            role: self.role,
            profile_key: self.profile_key,
            joined_at_revision: self.joined_at_revision,
            label: self.label.clone(),
            label_emoji: self.label_emoji.clone(),
        };
        proof {
            assert(r.label.deep_view() =~= self.label.deep_view());
            assert(r.label_emoji.deep_view() =~= self.label_emoji.deep_view());
        }
        r
    }
}

/// Somebody who was invited to a group.
#[derive(Debug, PartialEq)]
pub struct PendingMember {
    pub uuid: Uuid,
    pub service_id_type: ServiceIdType,
    pub role: Role,
    pub added_by_aci: Aci,
    pub timestamp: u64,
}

/// What a [`PendingMember`] holds.
#[verifier::ext_equal]
pub struct PendingMemberView {
    pub uuid: Seq<u8>,
    pub service_id_type: ServiceIdType,
    pub role: Role,
    pub added_by_aci: Seq<u8>,
    pub timestamp: u64,
}

impl DeepView for PendingMember {
    type V = PendingMemberView;

    open spec fn deep_view(&self) -> PendingMemberView {
        PendingMemberView {
            uuid: self.uuid.deep_view(),
            service_id_type: self.service_id_type,
            role: self.role,
            added_by_aci: self.added_by_aci.deep_view(),
            timestamp: self.timestamp,
        }
    }
}

impl Clone for PendingMember {
    fn clone(&self) -> (r: Self)
        ensures
            r.deep_view() == self.deep_view(),
    {
        let r = PendingMember {
            uuid: self.uuid,
            service_id_type: self.service_id_type,
            role: self.role,
            added_by_aci: self.added_by_aci,
            timestamp: self.timestamp,
        };
        r
    }
}

/// Somebody who asked to join a group.
#[derive(Debug, PartialEq)]
pub struct RequestingMember {
    pub aci: Aci,
    pub profile_key: ProfileKey,
    pub timestamp: u64,
}

/// What a [`RequestingMember`] holds.
#[verifier::ext_equal]
pub struct RequestingMemberView {
    pub aci: Seq<u8>,
    pub profile_key: Seq<u8>,
    pub timestamp: u64,
}

impl DeepView for RequestingMember {
    type V = RequestingMemberView;

    open spec fn deep_view(&self) -> RequestingMemberView {
        RequestingMemberView {
            aci: self.aci.deep_view(),
            profile_key: self.profile_key.deep_view(),
            timestamp: self.timestamp,
        }
    }
}

impl Clone for RequestingMember {
    fn clone(&self) -> (r: Self)
        ensures
            r.deep_view() == self.deep_view(),
    {
        let r = RequestingMember {
            aci: self.aci,
            profile_key: self.profile_key,
            timestamp: self.timestamp,
        };
        r
    }
}

/// What is stored of a group. The fields from `blocked` on come from the storage service.
#[derive(Debug, PartialEq)]
pub struct Group {
    pub title: Option<String>,
    pub avatar: Option<String>,
    pub disappearing_messages_timer: Option<Timer>,
    pub access_control: Option<AccessControl>,
    pub revision: u32,
    pub members: Vec<Member>,
    pub pending_members: Vec<PendingMember>,
    pub requesting_members: Vec<RequestingMember>,
    pub invite_link_password: Vec<u8>,
    pub description: Option<String>,
    pub announcements_only: bool,
    pub needs_hydration: bool,
    pub blocked: bool,
    pub whitelisted: bool,
    pub archived: bool,
    pub marked_unread: bool,
    pub muted_until_timestamp: u64,
    pub dont_notify_for_mentions_if_muted: bool,
    pub hide_story: bool,
    /// 0 is the default, 1 disabled, 2 enabled.
    pub story_send_mode: i64,
}

/// What a [`Group`] holds.
#[verifier::ext_equal]
pub struct GroupView {
    pub title: Option<Seq<char>>,
    pub avatar: Option<Seq<char>>,
    pub disappearing_messages_timer: Option<Timer>,
    pub access_control: Option<AccessControl>,
    pub revision: u32,
    pub members: Seq<MemberView>,
    pub pending_members: Seq<PendingMemberView>,
    pub requesting_members: Seq<RequestingMemberView>,
    pub invite_link_password: Seq<u8>,
    pub description: Option<Seq<char>>,
    pub announcements_only: bool,
    pub needs_hydration: bool,
    pub blocked: bool,
    pub whitelisted: bool,
    pub archived: bool,
    pub marked_unread: bool,
    pub muted_until_timestamp: u64,
    pub dont_notify_for_mentions_if_muted: bool,
    pub hide_story: bool,
    pub story_send_mode: i64,
}

impl DeepView for Group {
    type V = GroupView;

    open spec fn deep_view(&self) -> GroupView {
        GroupView {
            title: self.title.deep_view(),
            avatar: self.avatar.deep_view(),
            disappearing_messages_timer: self.disappearing_messages_timer,
            access_control: self.access_control,
            revision: self.revision,
            members: self.members.deep_view(),
            pending_members: self.pending_members.deep_view(),
            requesting_members: self.requesting_members.deep_view(),
            invite_link_password: self.invite_link_password.deep_view(),
            description: self.description.deep_view(),
            announcements_only: self.announcements_only,
            needs_hydration: self.needs_hydration,
            blocked: self.blocked,
            whitelisted: self.whitelisted,
            archived: self.archived,
            marked_unread: self.marked_unread,
            muted_until_timestamp: self.muted_until_timestamp,
            dont_notify_for_mentions_if_muted: self.dont_notify_for_mentions_if_muted,
            hide_story: self.hide_story,
            story_send_mode: self.story_send_mode,
        }
    }
}

impl Clone for Group {
    fn clone(&self) -> (r: Self)
        ensures
            r.deep_view() == self.deep_view(),
    {
        let r = Group {
            title: self.title.clone(),
            avatar: self.avatar.clone(),
            disappearing_messages_timer: self.disappearing_messages_timer,
            access_control: self.access_control,
            revision: self.revision,
            members: self.members.clone(),
            pending_members: self.pending_members.clone(),
            requesting_members: self.requesting_members.clone(),
            invite_link_password: self.invite_link_password.clone(),
            description: self.description.clone(),
            announcements_only: self.announcements_only,
            needs_hydration: self.needs_hydration,
            blocked: self.blocked,
            whitelisted: self.whitelisted,
            archived: self.archived,
            marked_unread: self.marked_unread,
            muted_until_timestamp: self.muted_until_timestamp,
            dont_notify_for_mentions_if_muted: self.dont_notify_for_mentions_if_muted,
            hide_story: self.hide_story,
            story_send_mode: self.story_send_mode,
        };
        proof {
            assert(r.title.deep_view() =~= self.title.deep_view());
            assert(r.avatar.deep_view() =~= self.avatar.deep_view());
            assert(r.members.deep_view() =~= self.members.deep_view());
            assert(r.pending_members.deep_view() =~= self.pending_members.deep_view());
            assert(r.requesting_members.deep_view() =~= self.requesting_members.deep_view());
            assert(r.invite_link_password.deep_view() =~= self.invite_link_password.deep_view());
            assert(r.description.deep_view() =~= self.description.deep_view());
        }
        r
    }
}

impl GroupView {
    /// Every field unset.
    pub open spec fn empty() -> GroupView {
        GroupView {
            title: None,
            avatar: None,
            disappearing_messages_timer: None,
            access_control: None,
            revision: 0,
            members: Seq::empty(),
            pending_members: Seq::empty(),
            requesting_members: Seq::empty(),
            invite_link_password: Seq::empty(),
            description: None,
            announcements_only: false,
            needs_hydration: false,
            blocked: false,
            whitelisted: false,
            archived: false,
            marked_unread: false,
            muted_until_timestamp: 0,
            dont_notify_for_mentions_if_muted: false,
            hide_story: false,
            story_send_mode: 0,
        }
    }
}

impl Default for Group {
    fn default() -> (r: Self)
        ensures
            r.deep_view() == GroupView::empty(),
    {
        let r = Group {
            title: None,
            avatar: None,
            disappearing_messages_timer: None,
            access_control: None,
            revision: 0,
            members: Vec::new(),
            pending_members: Vec::new(),
            requesting_members: Vec::new(),
            invite_link_password: Vec::new(),
            description: None,
            announcements_only: false,
            needs_hydration: false,
            blocked: false,
            whitelisted: false,
            archived: false,
            marked_unread: false,
            muted_until_timestamp: 0,
            dont_notify_for_mentions_if_muted: false,
            hide_story: false,
            story_send_mode: 0,
        };
        proof {
            assert(r.deep_view() =~= GroupView::empty());
        }
        r
    }
}

/// A member, as the group server has it.
#[derive(Debug, PartialEq)]
pub struct ServerMember {
    pub aci: Aci,
    pub role: Role,
    pub profile_key: ProfileKey,
    pub joined_at_version: u32,
    pub label: Option<String>,
    pub label_emoji: Option<String>,
}

/// What a [`ServerMember`] holds.
#[verifier::ext_equal]
pub struct ServerMemberView {
    pub aci: Seq<u8>,
    pub role: Role,
    pub profile_key: Seq<u8>,
    pub joined_at_version: u32,
    pub label: Option<Seq<char>>,
    pub label_emoji: Option<Seq<char>>,
}

impl DeepView for ServerMember {
    type V = ServerMemberView;

    open spec fn deep_view(&self) -> ServerMemberView {
        ServerMemberView {
            aci: self.aci.deep_view(),
            role: self.role,
            profile_key: self.profile_key.deep_view(),
            joined_at_version: self.joined_at_version,
            label: self.label.deep_view(),
            label_emoji: self.label_emoji.deep_view(),
        }
    }
}

impl Clone for ServerMember {
    fn clone(&self) -> (r: Self)
        ensures
            r.deep_view() == self.deep_view(),
    {
        let r = ServerMember {
            aci: self.aci,
            role: self.role,
            profile_key: self.profile_key,
            joined_at_version: self.joined_at_version,
            label: self.label.clone(),
            label_emoji: self.label_emoji.clone(),
        };
        proof {
            assert(r.label.deep_view() =~= self.label.deep_view());
            assert(r.label_emoji.deep_view() =~= self.label_emoji.deep_view());
        }
        r
    }
}

/// An invitee, as the group server has it.
#[derive(Debug, PartialEq)]
pub struct ServerPendingMember {
    pub address: ServiceId,
    pub role: Role,
    pub added_by_aci: Aci,
    pub timestamp: u64,
}

/// What a [`ServerPendingMember`] holds.
#[verifier::ext_equal]
pub struct ServerPendingMemberView {
    pub address: ServiceIdView,
    pub role: Role,
    pub added_by_aci: Seq<u8>,
    pub timestamp: u64,
}

impl DeepView for ServerPendingMember {
    type V = ServerPendingMemberView;

    open spec fn deep_view(&self) -> ServerPendingMemberView {
        ServerPendingMemberView {
            address: self.address.deep_view(),
            role: self.role,
            added_by_aci: self.added_by_aci.deep_view(),
            timestamp: self.timestamp,
        }
    }
}

impl Clone for ServerPendingMember {
    fn clone(&self) -> (r: Self)
        ensures
            r.deep_view() == self.deep_view(),
    {
        let r = ServerPendingMember {
            address: self.address,
            role: self.role,
            added_by_aci: self.added_by_aci,
            timestamp: self.timestamp,
        };
        r
    }
}

/// Somebody who asked to join, as the group server has it.
#[derive(Debug, PartialEq)]
pub struct ServerRequestingMember {
    pub aci: Aci,
    pub profile_key: ProfileKey,
    pub timestamp: u64,
}

/// What a [`ServerRequestingMember`] holds.
#[verifier::ext_equal]
pub struct ServerRequestingMemberView {
    pub aci: Seq<u8>,
    pub profile_key: Seq<u8>,
    pub timestamp: u64,
}

impl DeepView for ServerRequestingMember {
    type V = ServerRequestingMemberView;

    open spec fn deep_view(&self) -> ServerRequestingMemberView {
        ServerRequestingMemberView {
            aci: self.aci.deep_view(),
            profile_key: self.profile_key.deep_view(),
            timestamp: self.timestamp,
        }
    }
}

impl Clone for ServerRequestingMember {
    fn clone(&self) -> (r: Self)
        ensures
            r.deep_view() == self.deep_view(),
    {
        let r = ServerRequestingMember {
            aci: self.aci,
            profile_key: self.profile_key,
            timestamp: self.timestamp,
        };
        r
    }
}

/// A group, as the group server has it and this account decrypted it.
#[derive(Debug, PartialEq)]
pub struct ServerGroup {
    pub title: String,
    pub avatar: String,
    pub disappearing_messages_timer: Option<Timer>,
    pub access_control: Option<AccessControl>,
    pub version: u32,
    pub members: Vec<ServerMember>,
    pub members_pending_profile_key: Vec<ServerPendingMember>,
    pub members_pending_admin_approval: Vec<ServerRequestingMember>,
    pub invite_link_password: Vec<u8>,
    pub description_text: Option<String>,
    pub announcements_only: bool,
}

/// What a [`ServerGroup`] holds.
#[verifier::ext_equal]
pub struct ServerGroupView {
    pub title: Seq<char>,
    pub avatar: Seq<char>,
    pub disappearing_messages_timer: Option<Timer>,
    pub access_control: Option<AccessControl>,
    pub version: u32,
    pub members: Seq<ServerMemberView>,
    pub members_pending_profile_key: Seq<ServerPendingMemberView>,
    pub members_pending_admin_approval: Seq<ServerRequestingMemberView>,
    pub invite_link_password: Seq<u8>,
    pub description_text: Option<Seq<char>>,
    pub announcements_only: bool,
}

impl DeepView for ServerGroup {
    type V = ServerGroupView;

    open spec fn deep_view(&self) -> ServerGroupView {
        ServerGroupView {
            title: self.title.deep_view(),
            avatar: self.avatar.deep_view(),
            disappearing_messages_timer: self.disappearing_messages_timer,
            access_control: self.access_control,
            version: self.version,
            members: self.members.deep_view(),
            members_pending_profile_key: self.members_pending_profile_key.deep_view(),
            members_pending_admin_approval: self.members_pending_admin_approval.deep_view(),
            invite_link_password: self.invite_link_password.deep_view(),
            description_text: self.description_text.deep_view(),
            announcements_only: self.announcements_only,
        }
    }
}

impl Clone for ServerGroup {
    fn clone(&self) -> (r: Self)
        ensures
            r.deep_view() == self.deep_view(),
    {
        let r = ServerGroup {
            title: self.title.clone(),
            avatar: self.avatar.clone(),
            disappearing_messages_timer: self.disappearing_messages_timer,
            access_control: self.access_control,
            version: self.version,
            members: self.members.clone(),
            members_pending_profile_key: self.members_pending_profile_key.clone(),
            members_pending_admin_approval: self.members_pending_admin_approval.clone(),
            invite_link_password: self.invite_link_password.clone(),
            description_text: self.description_text.clone(),
            announcements_only: self.announcements_only,
        };
        proof {
            assert(r.members.deep_view() =~= self.members.deep_view());
            assert(r.members_pending_profile_key.deep_view()
                =~= self.members_pending_profile_key.deep_view());
            assert(r.members_pending_admin_approval.deep_view()
                =~= self.members_pending_admin_approval.deep_view());
            assert(r.invite_link_password.deep_view() =~= self.invite_link_password.deep_view());
            assert(r.description_text.deep_view() =~= self.description_text.deep_view());
        }
        r
    }
}

pub open spec fn member_of(m: ServerMemberView) -> MemberView {
    MemberView {
        aci: m.aci,
        role: m.role,
        profile_key: m.profile_key,
        joined_at_revision: m.joined_at_version,
        label: m.label,
        label_emoji: m.label_emoji,
    }
}

pub open spec fn pending_member_of(m: ServerPendingMemberView) -> PendingMemberView {
    PendingMemberView {
        uuid: m.address.raw(),
        service_id_type: match m.address {
            ServiceIdView::Aci(_) => ServiceIdType::AccountIdentity,
            ServiceIdView::Pni(_) => ServiceIdType::PhoneNumberIdentity,
        },
        role: m.role,
        added_by_aci: m.added_by_aci,
        timestamp: m.timestamp,
    }
}

pub open spec fn requesting_member_of(m: ServerRequestingMemberView) -> RequestingMemberView {
    RequestingMemberView { aci: m.aci, profile_key: m.profile_key, timestamp: m.timestamp }
}

/// The server's copy of a group, with every storage-service flag at its default.
pub open spec fn group_of_server(g: ServerGroupView) -> GroupView {
    GroupView {
        title: Some(g.title),
        avatar: if g.avatar.len() == 0 {
            None
        } else {
            Some(g.avatar)
        },
        disappearing_messages_timer: g.disappearing_messages_timer,
        access_control: g.access_control,
        revision: g.version,
        members: g.members.map_values(|m: ServerMemberView| member_of(m)),
        pending_members: g.members_pending_profile_key.map_values(
            |m: ServerPendingMemberView| pending_member_of(m),
        ),
        requesting_members: g.members_pending_admin_approval.map_values(
            |m: ServerRequestingMemberView| requesting_member_of(m),
        ),
        invite_link_password: g.invite_link_password,
        description: g.description_text,
        announcements_only: g.announcements_only,
        ..GroupView::empty()
    }
}

/// The storage-service flags of `local` on `group`: what only this device knows.
pub open spec fn with_local_flags(group: GroupView, local: GroupView) -> GroupView {
    GroupView {
        blocked: local.blocked,
        whitelisted: local.whitelisted,
        archived: local.archived,
        marked_unread: local.marked_unread,
        muted_until_timestamp: local.muted_until_timestamp,
        dont_notify_for_mentions_if_muted: local.dont_notify_for_mentions_if_muted,
        hide_story: local.hide_story,
        story_send_mode: local.story_send_mode,
        ..group
    }
}

impl PendingMemberView {
    pub open spec fn service_id(self) -> ServiceIdView {
        match self.service_id_type {
            ServiceIdType::AccountIdentity => ServiceIdView::Aci(self.uuid),
            ServiceIdType::PhoneNumberIdentity => ServiceIdView::Pni(self.uuid),
        }
    }
}

impl PendingMember {
    pub fn service_id(&self) -> (id: ServiceId)
        ensures
            id.deep_view() == self.deep_view().service_id(),
    {
        match self.service_id_type {
            ServiceIdType::AccountIdentity => ServiceId::Aci(Aci { uuid: self.uuid }),
            ServiceIdType::PhoneNumberIdentity => ServiceId::Pni(Pni { uuid: self.uuid }),
        }
    }
}

impl GroupView {
    pub open spec fn is_member(self, aci: Seq<u8>) -> bool {
        exists|i: int| 0 <= i < self.members.len() && (#[trigger] self.members[i]).aci == aci
    }

    pub open spec fn is_pending(self, id: ServiceIdView) -> bool {
        exists|i: int|
            0 <= i < self.pending_members.len() && (
            #[trigger] self.pending_members[i]).service_id() == id
    }

    pub open spec fn is_active(self, aci: Seq<u8>) -> bool {
        self.is_member(aci) || self.is_pending(ServiceIdView::Aci(aci))
    }

    /// Only administrators may set member labels.
    pub open spec fn labels_restricted(self) -> bool {
        match self.access_control {
            Some(access) => access.member_label == AccessRequired::Administrator,
            None => false,
        }
    }

    /// The members whose labels a rule change to `new_access` takes away, in their order.
    pub open spec fn losing_labels(self, new_access: GroupAccess) -> Seq<Seq<u8>> {
        if new_access != GroupAccess::Administrators || self.labels_restricted() {
            Seq::empty()
        } else {
            labelled_members(self.members)
        }
    }

    /// The group once `self_aci` has left it at `revision`, with `promoted` made
    /// administrators on the way out.
    pub open spec fn left(
        self,
        self_aci: Seq<u8>,
        promoted: Seq<Seq<u8>>,
        revision: u32,
    ) -> GroupView {
        GroupView {
            members: promote(without_member(self.members, self_aci), promoted),
            pending_members: without_invitee(
                self.pending_members,
                ServiceIdView::Aci(self_aci),
            ),
            revision,
            ..self
        }
    }
}

/// A member who is no administrator and carries a label or a label emoji.
pub open spec fn loses_label(member: MemberView) -> bool {
    member.role != Role::Administrator && (member.label is Some || member.label_emoji is Some)
}

pub open spec fn labelled_members(members: Seq<MemberView>) -> Seq<Seq<u8>>
    decreases members.len(),
{
    if members.len() == 0 {
        Seq::empty()
    } else if loses_label(members.last()) {
        labelled_members(members.drop_last()).push(members.last().aci)
    } else {
        labelled_members(members.drop_last())
    }
}

pub open spec fn without_member(members: Seq<MemberView>, aci: Seq<u8>) -> Seq<MemberView>
    decreases members.len(),
{
    if members.len() == 0 {
        Seq::empty()
    } else if members.last().aci == aci {
        without_member(members.drop_last(), aci)
    } else {
        without_member(members.drop_last(), aci).push(members.last())
    }
}

pub open spec fn without_invitee(members: Seq<PendingMemberView>, id: ServiceIdView) -> Seq<
    PendingMemberView,
>
    decreases members.len(),
{
    if members.len() == 0 {
        Seq::empty()
    } else if members.last().service_id() == id {
        without_invitee(members.drop_last(), id)
    } else {
        without_invitee(members.drop_last(), id).push(members.last())
    }
}

pub open spec fn promoted_member(member: MemberView, promoted: Seq<Seq<u8>>) -> MemberView {
    if promoted.contains(member.aci) {
        MemberView { role: Role::Administrator, ..member }
    } else {
        member
    }
}

pub open spec fn promote(members: Seq<MemberView>, promoted: Seq<Seq<u8>>) -> Seq<MemberView> {
    members.map_values(|m: MemberView| promoted_member(m, promoted))
}

fn contains_aci(list: &Vec<Aci>, aci: Aci) -> (r: bool)
    ensures
        r == list.deep_view().contains(aci.deep_view()),
{
    let mut i: usize = 0;
    while i < list.len()
        invariant
            i <= list@.len(),
            forall|j: int| 0 <= j < i ==> list.deep_view()[j] != aci.deep_view(),
        decreases list@.len() - i,
    {
        if list[i] == aci {
            assert(list.deep_view()[i as int] == aci.deep_view());
            return true;
        }
        i = i + 1;
    }
    false
}

impl Member {
    /// A member, from the server's copy.
    pub fn from_server(m: ServerMember) -> (r: Member)
        ensures
            r.deep_view() == member_of(m.deep_view()),
    {
        Member {
            aci: m.aci,
            role: m.role,
            profile_key: m.profile_key,
            joined_at_revision: m.joined_at_version,
            label: m.label,
            label_emoji: m.label_emoji,
        }
    }
}

impl PendingMember {
    /// An invitee, from the server's copy.
    pub fn from_server(m: ServerPendingMember) -> (r: PendingMember)
        ensures
            r.deep_view() == pending_member_of(m.deep_view()),
    {
        PendingMember {
            uuid: m.address.raw_uuid(),
            service_id_type: ServiceIdType::from(m.address.kind()),
            role: m.role,
            added_by_aci: m.added_by_aci,
            timestamp: m.timestamp,
        }
    }
}

impl RequestingMember {
    /// Somebody who asked to join, from the server's copy.
    pub fn from_server(m: ServerRequestingMember) -> (r: RequestingMember)
        ensures
            r.deep_view() == requesting_member_of(m.deep_view()),
    {
        RequestingMember { aci: m.aci, profile_key: m.profile_key, timestamp: m.timestamp }
    }
}

fn members_from_server(list: Vec<ServerMember>) -> (r: Vec<Member>)
    ensures
        r.deep_view() == list.deep_view().map_values(|m: ServerMemberView| member_of(m)),
{
    let mut out: Vec<Member> = Vec::new();
    let mut i: usize = 0;
    while i < list.len()
        invariant
            i <= list@.len(),
            out@.len() == i,
            forall|j: int|
                0 <= j < i ==> #[trigger] out@[j].deep_view() == member_of(list@[j].deep_view()),
        decreases list@.len() - i,
    {
        out.push(Member::from_server(list[i].clone()));
        i = i + 1;
    }
    assert(out.deep_view() =~= list.deep_view().map_values(|m: ServerMemberView| member_of(m)));
    out
}

fn pending_members_from_server(list: Vec<ServerPendingMember>) -> (r: Vec<PendingMember>)
    ensures
        r.deep_view() == list.deep_view().map_values(
            |m: ServerPendingMemberView| pending_member_of(m),
        ),
{
    let mut out: Vec<PendingMember> = Vec::new();
    let mut i: usize = 0;
    while i < list.len()
        invariant
            i <= list@.len(),
            out@.len() == i,
            forall|j: int|
                0 <= j < i ==> #[trigger] out@[j].deep_view() == pending_member_of(
                    list@[j].deep_view(),
                ),
        decreases list@.len() - i,
    {
        out.push(PendingMember::from_server(list[i].clone()));
        i = i + 1;
    }
    assert(out.deep_view() =~= list.deep_view().map_values(
        |m: ServerPendingMemberView| pending_member_of(m),
    ));
    out
}

fn requesting_members_from_server(list: Vec<ServerRequestingMember>) -> (r: Vec<RequestingMember>)
    ensures
        r.deep_view() == list.deep_view().map_values(
            |m: ServerRequestingMemberView| requesting_member_of(m),
        ),
{
    let mut out: Vec<RequestingMember> = Vec::new();
    let mut i: usize = 0;
    while i < list.len()
        invariant
            i <= list@.len(),
            out@.len() == i,
            forall|j: int|
                0 <= j < i ==> #[trigger] out@[j].deep_view() == requesting_member_of(
                    list@[j].deep_view(),
                ),
        decreases list@.len() - i,
    {
        out.push(RequestingMember::from_server(list[i].clone()));
        i = i + 1;
    }
    assert(out.deep_view() =~= list.deep_view().map_values(
        |m: ServerRequestingMemberView| requesting_member_of(m),
    ));
    out
}

impl Group {
    pub fn is_member(&self, aci: Aci) -> (r: bool)
        ensures
            r == self.deep_view().is_member(aci.deep_view()),
    {
        let mut i: usize = 0;
        while i < self.members.len()
            invariant
                i <= self.members@.len(),
                forall|j: int|
                    0 <= j < i ==> (#[trigger] self.deep_view().members[j]).aci
                        != aci.deep_view(),
            decreases self.members@.len() - i,
        {
            if self.members[i].aci == aci {
                assert(self.deep_view().members[i as int].aci == aci.deep_view());
                return true;
            }
            i = i + 1;
        }
        false
    }

    pub fn is_pending(&self, service_id: ServiceId) -> (r: bool)
        ensures
            r == self.deep_view().is_pending(service_id.deep_view()),
    {
        let mut i: usize = 0;
        while i < self.pending_members.len()
            invariant
                i <= self.pending_members@.len(),
                forall|j: int|
                    0 <= j < i ==> (
                    #[trigger] self.deep_view().pending_members[j]).service_id()
                        != service_id.deep_view(),
            decreases self.pending_members@.len() - i,
        {
            if self.pending_members[i].service_id() == service_id {
                assert(self.deep_view().pending_members[i as int].service_id()
                    == service_id.deep_view());
                return true;
            }
            i = i + 1;
        }
        false
    }

    /// Whether this account is still in the group, as a member or an invitee. Leaving, or
    /// being removed, is what makes this false: there is no flag.
    pub fn is_active(&self, self_aci: Aci) -> (r: bool)
        ensures
            r == self.deep_view().is_active(self_aci.deep_view()),
    {
        self.is_member(self_aci) || self.is_pending(ServiceId::Aci(self_aci))
    }

    /// The members whose labels handing member labels to administrators takes away. They
    /// are cleared in the same change; a label a member may no longer set would otherwise
    /// stay on the group forever.
    ///
    /// Empty unless the rule is actually tightening: loosening it, or restating a
    /// restriction already in force, takes nothing away.
    pub fn members_losing_labels(&self, new_access: GroupAccess) -> (r: Vec<Aci>)
        ensures
            r.deep_view() == self.deep_view().losing_labels(new_access),
    {
        let already_restricted = match &self.access_control {
            Some(access) => access.member_label == AccessRequired::Administrator,
            None => false,
        };
        let mut out: Vec<Aci> = Vec::new();
        if new_access != GroupAccess::Administrators || already_restricted {
            assert(out.deep_view() =~= Seq::<Seq<u8>>::empty());
            return out;
        }
        let mut i: usize = 0;
        let ghost members = self.members.deep_view();
        proof {
            assert(out.deep_view() =~= labelled_members(members.take(0)));
        }
        while i < self.members.len()
            invariant
                i <= self.members@.len(),
                members == self.members.deep_view(),
                out.deep_view() == labelled_members(members.take(i as int)),
            decreases self.members@.len() - i,
        {
            let member = &self.members[i];
            proof {
                assert(members.take(i + 1).drop_last() =~= members.take(i as int));
                assert(members.take(i + 1).last() == member.deep_view());
            }
            if member.role != Role::Administrator && (member.label.is_some()
                || member.label_emoji.is_some()) {
                let ghost before = out.deep_view();
                out.push(member.aci);
                assert(out.deep_view() =~= before.push(member.aci.deep_view()));
            }
            i = i + 1;
        }
        assert(members.take(i as int) =~= members);
        out
    }

    /// What the stored copy becomes once this account has left at `revision`, with
    /// `promoted` made administrators on the way out: the server will not tell this
    /// account any more, so the change is applied by hand.
    pub fn mark_left(&mut self, self_aci: Aci, promoted: &Vec<Aci>, revision: u32)
        ensures
            final(self).deep_view() == old(self).deep_view().left(
                self_aci.deep_view(),
                promoted.deep_view(),
                revision,
            ),
    {
        let ghost before = self.deep_view();
        let ghost ps = promoted.deep_view();
        let mut members: Vec<Member> = Vec::new();
        let mut i: usize = 0;
        proof {
            assert(members.deep_view() =~= promote(
                without_member(before.members.take(0), self_aci.deep_view()),
                ps,
            ));
        }
        while i < self.members.len()
            invariant
                i <= self.members@.len(),
                before == self.deep_view(),
                ps == promoted.deep_view(),
                members.deep_view() == promote(
                    without_member(before.members.take(i as int), self_aci.deep_view()),
                    ps,
                ),
            decreases self.members@.len() - i,
        {
            proof {
                let all = before.members;
                assert(all.take(i + 1).drop_last() =~= all.take(i as int));
                assert(all.take(i + 1).last() == self.members@[i as int].deep_view());
            }
            if self.members[i].aci != self_aci {
                let mut member = self.members[i].clone();
                if contains_aci(promoted, member.aci) {
                    member.role = Role::Administrator;
                }
                let ghost kept = members.deep_view();
                members.push(member);
                proof {
                    assert(members.deep_view() =~= kept.push(member.deep_view()));
                    let was = without_member(before.members.take(i as int), self_aci.deep_view());
                    assert(promote(was.push(self.members@[i as int].deep_view()), ps) =~= promote(
                        was,
                        ps,
                    ).push(promoted_member(self.members@[i as int].deep_view(), ps)));
                }
            }
            i = i + 1;
        }
        let mut pending: Vec<PendingMember> = Vec::new();
        let mut k: usize = 0;
        let ghost us = ServiceIdView::Aci(self_aci.deep_view());
        proof {
            assert(before.members.take(i as int) =~= before.members);
            assert(pending.deep_view() =~= without_invitee(before.pending_members.take(0), us));
        }
        while k < self.pending_members.len()
            invariant
                k <= self.pending_members@.len(),
                before == self.deep_view(),
                us == ServiceIdView::Aci(self_aci.deep_view()),
                pending.deep_view() == without_invitee(before.pending_members.take(k as int), us),
            decreases self.pending_members@.len() - k,
        {
            proof {
                let all = before.pending_members;
                assert(all.take(k + 1).drop_last() =~= all.take(k as int));
                assert(all.take(k + 1).last() == self.pending_members@[k as int].deep_view());
            }
            if self.pending_members[k].service_id() != ServiceId::Aci(self_aci) {
                let ghost kept = pending.deep_view();
                let one = self.pending_members[k].clone();
                pending.push(one);
                assert(pending.deep_view() =~= kept.push(one.deep_view()));
            }
            k = k + 1;
        }
        proof {
            assert(before.pending_members.take(k as int) =~= before.pending_members);
        }
        self.members = members;
        self.pending_members = pending;
        self.revision = revision;
    }

    /// A group, from the server's copy alone.
    pub fn from_server_copy(g: ServerGroup) -> (group: Group)
        ensures
            group.deep_view() == group_of_server(g.deep_view()),
    {
        let avatar = if g.avatar.as_str().is_empty() {
            None
        } else {
            Some(g.avatar)
        };
        let group = Group {
            title: Some(g.title),
            avatar,
            disappearing_messages_timer: g.disappearing_messages_timer,
            access_control: g.access_control,
            revision: g.version,
            members: members_from_server(g.members),
            pending_members: pending_members_from_server(g.members_pending_profile_key),
            requesting_members: requesting_members_from_server(g.members_pending_admin_approval),
            invite_link_password: g.invite_link_password,
            description: g.description_text,
            announcements_only: g.announcements_only,
            ..Group::default()
        };
        assert(group.deep_view() =~= group_of_server(g.deep_view()));
        group
    }

    /// The server's copy of a group, keeping what only this device knows.
    ///
    /// The storage-service flags (blocked, muted, archived and the rest) never come from
    /// the group server, so [`Self::from_server_copy`] has to zero them. Saving that over
    /// a stored group would silently un-mute or un-block it; this carries them across from
    /// `local` instead.
    pub fn from_server(server: ServerGroup, local: Option<&Group>) -> (group: Group)
        ensures
            group.deep_view() == (match local {
                Some(local) => with_local_flags(
                    group_of_server(server.deep_view()),
                    local.deep_view(),
                ),
                None => group_of_server(server.deep_view()),
            }),
    {
        let mut group = Group::from_server_copy(server);
        if let Some(local) = local {
            group.blocked = local.blocked;
            group.whitelisted = local.whitelisted;
            group.archived = local.archived;
            group.marked_unread = local.marked_unread;
            group.muted_until_timestamp = local.muted_until_timestamp;
            group.dont_notify_for_mentions_if_muted = local.dont_notify_for_mentions_if_muted;
            group.hide_story = local.hide_story;
            group.story_send_mode = local.story_send_mode;
        }
        group
    }

    /// Build a `GroupV2Record` for a group the account has no storage-service record for
    /// yet.
    ///
    /// Lossy, and only sound because of where it is used: a group carries no avatar color
    /// and no verified name hash, so both come out unset. Appending a record where none
    /// exists cannot clobber anything; an *edit* must go through
    /// [`storage_record`](crate::storage_record) instead.
    pub fn to_new_storage_record(&self, master_key: [u8; 32]) -> (record: GroupV2Record)
        ensures
            record.deep_view() == new_group_record(self.deep_view(), master_key@),
    {
        let key = vstd::slice::slice_to_vec(&master_key);
        let record = GroupV2Record {
            master_key: key,
            blocked: self.blocked,
            whitelisted: self.whitelisted,
            archived: self.archived,
            marked_unread: self.marked_unread,
            muted_until_timestamp: self.muted_until_timestamp,
            dont_notify_for_mentions_if_muted: self.dont_notify_for_mentions_if_muted,
            hide_story: self.hide_story,
            story_send_mode: self.story_send_mode as i32,
            ..GroupV2Record::default()
        };
        proof {
            assert(record.master_key.deep_view() =~= master_key@);
            assert(record.deep_view() =~= new_group_record(self.deep_view(), master_key@));
        }
        record
    }
}

/// The storage record of a group that has none yet.
pub open spec fn new_group_record(group: GroupView, master_key: Seq<u8>) -> GroupV2RecordView {
    GroupV2RecordView {
        master_key,
        blocked: group.blocked,
        whitelisted: group.whitelisted,
        archived: group.archived,
        marked_unread: group.marked_unread,
        muted_until_timestamp: group.muted_until_timestamp,
        dont_notify_for_mentions_if_muted: group.dont_notify_for_mentions_if_muted,
        hide_story: group.hide_story,
        story_send_mode: group.story_send_mode as i32,
        ..GroupV2RecordView::empty()
    }
}

proof fn lemma_without_member(members: Seq<MemberView>, aci: Seq<u8>)
    ensures
        forall|i: int|
            0 <= i < without_member(members, aci).len() ==> (#[trigger] without_member(
                members,
                aci,
            )[i]).aci != aci,
    decreases members.len(),
{
    if members.len() > 0 {
        lemma_without_member(members.drop_last(), aci);
    }
}

proof fn lemma_without_invitee(members: Seq<PendingMemberView>, id: ServiceIdView)
    ensures
        forall|i: int|
            0 <= i < without_invitee(members, id).len() ==> (#[trigger] without_invitee(
                members,
                id,
            )[i]).service_id() != id,
    decreases members.len(),
{
    if members.len() > 0 {
        lemma_without_invitee(members.drop_last(), id);
    }
}

/// Whoever has left a group is not active in it any more.
pub proof fn law_leaving_ends_activity(
    group: GroupView,
    self_aci: Seq<u8>,
    promoted: Seq<Seq<u8>>,
    revision: u32,
)
    ensures
        !group.left(self_aci, promoted, revision).is_active(self_aci),
{
    lemma_without_member(group.members, self_aci);
    lemma_without_invitee(group.pending_members, ServiceIdView::Aci(self_aci));
    let kept = without_member(group.members, self_aci);
    let left = group.left(self_aci, promoted, revision);
    assert forall|i: int| 0 <= i < left.members.len() implies (#[trigger] left.members[i]).aci
        != self_aci by {
        assert(kept[i].aci != self_aci);
    }
}

/// Only a rule that becomes stricter takes labels away, and then only from members who
/// are no administrators.
pub proof fn law_losing_labels(group: GroupView, new_access: GroupAccess, i: int)
    requires
        0 <= i < group.losing_labels(new_access).len(),
    ensures
        new_access == GroupAccess::Administrators,
        !group.labels_restricted(),
        exists|j: int|
            0 <= j < group.members.len() && (#[trigger] group.members[j]).aci
                == group.losing_labels(new_access)[i] && loses_label(group.members[j]),
{
    lemma_labelled(group.members, i);
}

proof fn lemma_labelled(members: Seq<MemberView>, i: int)
    requires
        0 <= i < labelled_members(members).len(),
    ensures
        exists|j: int|
            0 <= j < members.len() && (#[trigger] members[j]).aci == labelled_members(members)[i]
                && loses_label(members[j]),
    decreases members.len(),
{
    let rest = members.drop_last();
    if loses_label(members.last()) && i == labelled_members(rest).len() {
        assert(members[members.len() - 1].aci == labelled_members(members)[i]);
    } else {
        lemma_labelled(rest, i);
        let j = choose|j: int|
            0 <= j < rest.len() && (#[trigger] rest[j]).aci == labelled_members(rest)[i]
                && loses_label(rest[j]);
        assert(members[j] == rest[j]);
    }
}

} // verus!

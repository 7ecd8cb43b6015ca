//! The actions of a group change, before they are encrypted for the group.
use vstd::prelude::*;

use crate::model::access::{AccessRequired, Role};
use crate::service_id::{Aci, ServiceId, ServiceIdView};

verus! {

/// Somebody joins.
#[derive(Debug, PartialEq)]
pub struct AddMember {
    pub member: Aci,
    pub role: Role,
    pub join_from_invite_link: bool,
}

/// What a [`AddMember`] holds.
#[verifier::ext_equal]
pub struct AddMemberView {
    pub member: Seq<u8>,
    pub role: Role,
    pub join_from_invite_link: bool,
}

impl DeepView for AddMember {
    type V = AddMemberView;

    open spec fn deep_view(&self) -> AddMemberView {
        AddMemberView {
            member: self.member.deep_view(),
            role: self.role,
            join_from_invite_link: self.join_from_invite_link,
        }
    }
}

impl Clone for AddMember {
    fn clone(&self) -> (r: Self)
        ensures
            r.deep_view() == self.deep_view(),
    {
        let r = AddMember {
            member: self.member,
            role: self.role,
            join_from_invite_link: self.join_from_invite_link,
        };
        r
    }
}

/// Somebody is given a role.
#[derive(Debug, PartialEq)]
pub struct MemberRole {
    pub member: Aci,
    pub role: Role,
}

/// What a [`MemberRole`] holds.
#[verifier::ext_equal]
pub struct MemberRoleView {
    pub member: Seq<u8>,
    pub role: Role,
}

impl DeepView for MemberRole {
    type V = MemberRoleView;

    open spec fn deep_view(&self) -> MemberRoleView {
        MemberRoleView {
            member: self.member.deep_view(),
            role: self.role,
        }
    }
}

impl Clone for MemberRole {
    fn clone(&self) -> (r: Self)
        ensures
            r.deep_view() == self.deep_view(),
    {
        let r = MemberRole {
            member: self.member,
            role: self.role,
        };
        r
    }
}

/// Somebody is invited.
#[derive(Debug, PartialEq)]
pub struct AddPendingMember {
    pub invitee: ServiceId,
    pub inviter: Aci,
    pub role: Role,
}

/// What a [`AddPendingMember`] holds.
#[verifier::ext_equal]
pub struct AddPendingMemberView {
    pub invitee: ServiceIdView,
    pub inviter: Seq<u8>,
    pub role: Role,
}

impl DeepView for AddPendingMember {
    type V = AddPendingMemberView;

    open spec fn deep_view(&self) -> AddPendingMemberView {
        AddPendingMemberView {
            invitee: self.invitee.deep_view(),
            inviter: self.inviter.deep_view(),
            role: self.role,
        }
    }
}

impl Clone for AddPendingMember {
    fn clone(&self) -> (r: Self)
        ensures
            r.deep_view() == self.deep_view(),
    {
        let r = AddPendingMember {
            invitee: self.invitee,
            inviter: self.inviter,
            role: self.role,
        };
        r
    }
}

/// The actions of one group change. Who made it, which group it is of and its version are
/// stamped on when it is encrypted.
#[derive(Debug, PartialEq)]
pub struct Actions {
    pub add_members: Vec<AddMember>,
    pub delete_members: Vec<Aci>,
    pub modify_member_roles: Vec<MemberRole>,
    /// Encoded: nothing here looks inside.
    pub modify_member_profile_keys: Vec<Vec<u8>>,
    pub add_members_pending_profile_key: Vec<AddPendingMember>,
    pub delete_members_pending_profile_key: Vec<ServiceId>,
    pub promote_members_pending_profile_key: Vec<Aci>,
    pub modify_title: Option<String>,
    pub modify_avatar: Option<String>,
    /// In seconds.
    pub modify_disappearing_message_timer: Option<u32>,
    pub modify_attributes_access: Option<AccessRequired>,
    pub modify_member_access: Option<AccessRequired>,
    pub modify_add_from_invite_link_access: Option<AccessRequired>,
    pub add_members_pending_admin_approval: Vec<Aci>,
    pub delete_members_pending_admin_approval: Vec<Aci>,
    pub promote_members_pending_admin_approval: Vec<MemberRole>,
    pub modify_invite_link_password: Option<Vec<u8>>,
    pub modify_description: Option<String>,
    pub modify_announcements_only: Option<bool>,
    /// Encoded: nothing here looks inside.
    pub add_members_banned: Vec<Vec<u8>>,
    /// Encoded: nothing here looks inside.
    pub delete_members_banned: Vec<Vec<u8>>,
    /// Encoded: nothing here looks inside.
    pub promote_members_pending_pni_aci_profile_key: Vec<Vec<u8>>,
    /// Encoded: nothing here looks inside.
    pub modify_member_labels: Vec<Vec<u8>>,
    pub modify_member_label_access: Option<AccessRequired>,
    /// Encoded: nothing here looks inside.
    pub terminate_group: Option<Vec<u8>>,
}

/// What a [`Actions`] holds.
#[verifier::ext_equal]
pub struct ActionsView {
    pub add_members: Seq<AddMemberView>,
    pub delete_members: Seq<Seq<u8>>,
    pub modify_member_roles: Seq<MemberRoleView>,
    pub modify_member_profile_keys: Seq<Seq<u8>>,
    pub add_members_pending_profile_key: Seq<AddPendingMemberView>,
    pub delete_members_pending_profile_key: Seq<ServiceIdView>,
    pub promote_members_pending_profile_key: Seq<Seq<u8>>,
    pub modify_title: Option<Seq<char>>,
    pub modify_avatar: Option<Seq<char>>,
    pub modify_disappearing_message_timer: Option<u32>,
    pub modify_attributes_access: Option<AccessRequired>,
    pub modify_member_access: Option<AccessRequired>,
    pub modify_add_from_invite_link_access: Option<AccessRequired>,
    pub add_members_pending_admin_approval: Seq<Seq<u8>>,
    pub delete_members_pending_admin_approval: Seq<Seq<u8>>,
    pub promote_members_pending_admin_approval: Seq<MemberRoleView>,
    pub modify_invite_link_password: Option<Seq<u8>>,
    pub modify_description: Option<Seq<char>>,
    pub modify_announcements_only: Option<bool>,
    pub add_members_banned: Seq<Seq<u8>>,
    pub delete_members_banned: Seq<Seq<u8>>,
    pub promote_members_pending_pni_aci_profile_key: Seq<Seq<u8>>,
    pub modify_member_labels: Seq<Seq<u8>>,
    pub modify_member_label_access: Option<AccessRequired>,
    pub terminate_group: Option<Seq<u8>>,
}

impl DeepView for Actions {
    type V = ActionsView;

    open spec fn deep_view(&self) -> ActionsView {
        ActionsView {
            add_members: self.add_members.deep_view(),
            delete_members: self.delete_members.deep_view(),
            modify_member_roles: self.modify_member_roles.deep_view(),
            modify_member_profile_keys: self.modify_member_profile_keys.deep_view(),
            add_members_pending_profile_key: self.add_members_pending_profile_key.deep_view(),
            delete_members_pending_profile_key: self.delete_members_pending_profile_key.deep_view(),
            promote_members_pending_profile_key: self
                .promote_members_pending_profile_key
                .deep_view(),
            modify_title: self.modify_title.deep_view(),
            modify_avatar: self.modify_avatar.deep_view(),
            modify_disappearing_message_timer: self.modify_disappearing_message_timer,
            modify_attributes_access: self.modify_attributes_access,
            modify_member_access: self.modify_member_access,
            modify_add_from_invite_link_access: self.modify_add_from_invite_link_access,
            add_members_pending_admin_approval: self.add_members_pending_admin_approval.deep_view(),
            delete_members_pending_admin_approval: self
                .delete_members_pending_admin_approval
                .deep_view(),
            promote_members_pending_admin_approval: self
                .promote_members_pending_admin_approval
                .deep_view(),
            modify_invite_link_password: self.modify_invite_link_password.deep_view(),
            modify_description: self.modify_description.deep_view(),
            modify_announcements_only: self.modify_announcements_only,
            add_members_banned: self.add_members_banned.deep_view(),
            delete_members_banned: self.delete_members_banned.deep_view(),
            promote_members_pending_pni_aci_profile_key: self
                .promote_members_pending_pni_aci_profile_key
                .deep_view(),
            modify_member_labels: self.modify_member_labels.deep_view(),
            modify_member_label_access: self.modify_member_label_access,
            terminate_group: self.terminate_group.deep_view(),
        }
    }
}

impl Clone for Actions {
    fn clone(&self) -> (r: Self)
        ensures
            r.deep_view() == self.deep_view(),
    {
        let r = Actions {
            add_members: self.add_members.clone(),
            delete_members: self.delete_members.clone(),
            modify_member_roles: self.modify_member_roles.clone(),
            modify_member_profile_keys: self.modify_member_profile_keys.clone(),
            add_members_pending_profile_key: self.add_members_pending_profile_key.clone(),
            delete_members_pending_profile_key: self.delete_members_pending_profile_key.clone(),
            promote_members_pending_profile_key: self.promote_members_pending_profile_key.clone(),
            modify_title: self.modify_title.clone(),
            modify_avatar: self.modify_avatar.clone(),
            modify_disappearing_message_timer: self.modify_disappearing_message_timer,
            modify_attributes_access: self.modify_attributes_access,
            modify_member_access: self.modify_member_access,
            modify_add_from_invite_link_access: self.modify_add_from_invite_link_access,
            add_members_pending_admin_approval: self.add_members_pending_admin_approval.clone(),
            delete_members_pending_admin_approval: self
                .delete_members_pending_admin_approval
                .clone(),
            promote_members_pending_admin_approval: self
                .promote_members_pending_admin_approval
                .clone(),
            modify_invite_link_password: self.modify_invite_link_password.clone(),
            modify_description: self.modify_description.clone(),
            modify_announcements_only: self.modify_announcements_only,
            add_members_banned: self.add_members_banned.clone(),
            delete_members_banned: self.delete_members_banned.clone(),
            promote_members_pending_pni_aci_profile_key: self
                .promote_members_pending_pni_aci_profile_key
                .clone(),
            modify_member_labels: self.modify_member_labels.clone(),
            modify_member_label_access: self.modify_member_label_access,
            terminate_group: self.terminate_group.clone(),
        };
        proof {
            assert(r.add_members.deep_view() =~= self.add_members.deep_view());
            assert(r.delete_members.deep_view() =~= self.delete_members.deep_view());
            assert(r.modify_member_roles.deep_view() =~= self.modify_member_roles.deep_view());
            assert(r.modify_member_profile_keys.deep_view()
                =~= self.modify_member_profile_keys.deep_view());
            assert(r.add_members_pending_profile_key.deep_view()
                =~= self.add_members_pending_profile_key.deep_view());
            assert(r.delete_members_pending_profile_key.deep_view()
                =~= self.delete_members_pending_profile_key.deep_view());
            assert(r.promote_members_pending_profile_key.deep_view()
                =~= self.promote_members_pending_profile_key.deep_view());
            assert(r.modify_title.deep_view() =~= self.modify_title.deep_view());
            assert(r.modify_avatar.deep_view() =~= self.modify_avatar.deep_view());
            assert(r.add_members_pending_admin_approval.deep_view()
                =~= self.add_members_pending_admin_approval.deep_view());
            assert(r.delete_members_pending_admin_approval.deep_view()
                =~= self.delete_members_pending_admin_approval.deep_view());
            assert(r.promote_members_pending_admin_approval.deep_view()
                =~= self.promote_members_pending_admin_approval.deep_view());
            assert(r.modify_invite_link_password.deep_view()
                =~= self.modify_invite_link_password.deep_view());
            assert(r.modify_description.deep_view() =~= self.modify_description.deep_view());
            assert(r.add_members_banned.deep_view() =~= self.add_members_banned.deep_view());
            assert(r.delete_members_banned.deep_view() =~= self.delete_members_banned.deep_view());
            assert(r.promote_members_pending_pni_aci_profile_key.deep_view()
                =~= self.promote_members_pending_pni_aci_profile_key.deep_view());
            assert(r.modify_member_labels.deep_view() =~= self.modify_member_labels.deep_view());
            assert(r.terminate_group.deep_view() =~= self.terminate_group.deep_view());
        }
        r
    }
}

impl ActionsView {
    /// Every field unset.
    pub open spec fn empty() -> ActionsView {
        ActionsView {
            add_members: Seq::empty(),
            delete_members: Seq::empty(),
            modify_member_roles: Seq::empty(),
            modify_member_profile_keys: Seq::empty(),
            add_members_pending_profile_key: Seq::empty(),
            delete_members_pending_profile_key: Seq::empty(),
            promote_members_pending_profile_key: Seq::empty(),
            modify_title: None,
            modify_avatar: None,
            modify_disappearing_message_timer: None,
            modify_attributes_access: None,
            modify_member_access: None,
            modify_add_from_invite_link_access: None,
            add_members_pending_admin_approval: Seq::empty(),
            delete_members_pending_admin_approval: Seq::empty(),
            promote_members_pending_admin_approval: Seq::empty(),
            modify_invite_link_password: None,
            modify_description: None,
            modify_announcements_only: None,
            add_members_banned: Seq::empty(),
            delete_members_banned: Seq::empty(),
            promote_members_pending_pni_aci_profile_key: Seq::empty(),
            modify_member_labels: Seq::empty(),
            modify_member_label_access: None,
            terminate_group: None,
        }
    }
}

impl Default for Actions {
    fn default() -> (r: Self)
        ensures
            r.deep_view() == ActionsView::empty(),
    {
        let r = Actions {
            add_members: Vec::new(),
            delete_members: Vec::new(),
            modify_member_roles: Vec::new(),
            modify_member_profile_keys: Vec::new(),
            add_members_pending_profile_key: Vec::new(),
            delete_members_pending_profile_key: Vec::new(),
            promote_members_pending_profile_key: Vec::new(),
            modify_title: None,
            modify_avatar: None,
            modify_disappearing_message_timer: None,
            modify_attributes_access: None,
            modify_member_access: None,
            modify_add_from_invite_link_access: None,
            add_members_pending_admin_approval: Vec::new(),
            delete_members_pending_admin_approval: Vec::new(),
            promote_members_pending_admin_approval: Vec::new(),
            modify_invite_link_password: None,
            modify_description: None,
            modify_announcements_only: None,
            add_members_banned: Vec::new(),
            delete_members_banned: Vec::new(),
            promote_members_pending_pni_aci_profile_key: Vec::new(),
            modify_member_labels: Vec::new(),
            modify_member_label_access: None,
            terminate_group: None,
        };
        proof {
            assert(r.deep_view() =~= ActionsView::empty());
        }
        r
    }
}

} // verus!

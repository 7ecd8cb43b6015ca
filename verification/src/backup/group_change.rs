//! What a backed-up group change becomes on the wire.
//!
//! A backup stores group history in plaintext, already resolved; the wire form stores
//! it as the actions of a group change, encrypted for the group. The functions here
//! say which actions a backed-up change stands for and who made it. Encrypting them is
//! the caller's part.
use vstd::prelude::*;

use crate::backup::actions::{
    Actions, ActionsView, AddMember, AddMemberView, AddPendingMember, AddPendingMemberView,
    MemberRole, MemberRoleView,
};
use crate::backup::frames::{
    GroupChangeUpdate,
    GroupChangeUpdateView,
    Invitee,
    InviteeView,
    Update,
    UpdateView,
};
use crate::model::access::{AccessRequired, Role};
use crate::service_id;
use crate::service_id::{Aci, Pni, ServiceId, ServiceIdView};

verus! {

/// What a single backup group update becomes on the wire.
#[derive(Debug, PartialEq)]
pub enum GroupUpdate {
    /// A group context at revision 0 with no change: how a live client signals group
    /// creation.
    Created,
    /// An encrypted group change for the group context. A change with no actions still
    /// encrypts to a blob, and then reads as a generic "updated the group" row.
    Change(Vec<u8>),
}

/// What a group change stands for, before its actions are encrypted.
#[derive(Debug, PartialEq)]
pub enum GroupUpdatePlan {
    /// The group was created.
    Created,
    /// The group was changed.
    Change(Actions),
}

/// What a [`GroupUpdatePlan`] holds.
#[verifier::ext_equal]
pub enum GroupUpdatePlanView {
    Created,
    Change(ActionsView),
}

impl DeepView for GroupUpdatePlan {
    type V = GroupUpdatePlanView;

    open spec fn deep_view(&self) -> GroupUpdatePlanView {
        match self {
            GroupUpdatePlan::Created => GroupUpdatePlanView::Created,
            GroupUpdatePlan::Change(actions) => GroupUpdatePlanView::Change(actions.deep_view()),
        }
    }
}

/// The path that stands for the new avatar of a group. A group avatar change on the wire
/// names the avatar's server path, which a backup does not keep. Readers only ask whether
/// the path is empty (removed) or not (changed).
pub open spec fn backup_avatar_path() -> Seq<char> {
    seq!['b', 'a', 'c', 'k', 'u', 'p']
}

/// Of two settings of a singular field, the later one, as the wire would have it after
/// two edits.
pub open spec fn later<T>(first: Option<T>, second: Option<T>) -> Option<T> {
    match second {
        Some(_) => second,
        None => first,
    }
}

/// The actions of two changes, one after the other: repeated fields concatenate, a
/// singular field takes the later value.
pub open spec fn merged(first: ActionsView, second: ActionsView) -> ActionsView {
    ActionsView {
        add_members: first.add_members + second.add_members,
        delete_members: first.delete_members + second.delete_members,
        modify_member_roles: first.modify_member_roles + second.modify_member_roles,
        modify_member_profile_keys: first.modify_member_profile_keys
            + second.modify_member_profile_keys,
        add_members_pending_profile_key: first.add_members_pending_profile_key
            + second.add_members_pending_profile_key,
        delete_members_pending_profile_key: first.delete_members_pending_profile_key
            + second.delete_members_pending_profile_key,
        promote_members_pending_profile_key: first.promote_members_pending_profile_key
            + second.promote_members_pending_profile_key,
        modify_title: later(first.modify_title, second.modify_title),
        modify_avatar: later(first.modify_avatar, second.modify_avatar),
        modify_disappearing_message_timer: later(
            first.modify_disappearing_message_timer,
            second.modify_disappearing_message_timer,
        ),
        modify_attributes_access: later(
            first.modify_attributes_access,
            second.modify_attributes_access,
        ),
        modify_member_access: later(first.modify_member_access, second.modify_member_access),
        modify_add_from_invite_link_access: later(
            first.modify_add_from_invite_link_access,
            second.modify_add_from_invite_link_access,
        ),
        add_members_pending_admin_approval: first.add_members_pending_admin_approval
            + second.add_members_pending_admin_approval,
        delete_members_pending_admin_approval: first.delete_members_pending_admin_approval
            + second.delete_members_pending_admin_approval,
        promote_members_pending_admin_approval: first.promote_members_pending_admin_approval
            + second.promote_members_pending_admin_approval,
        modify_invite_link_password: later(
            first.modify_invite_link_password,
            second.modify_invite_link_password,
        ),
        modify_description: later(first.modify_description, second.modify_description),
        modify_announcements_only: later(
            first.modify_announcements_only,
            second.modify_announcements_only,
        ),
        add_members_banned: first.add_members_banned + second.add_members_banned,
        delete_members_banned: first.delete_members_banned + second.delete_members_banned,
        promote_members_pending_pni_aci_profile_key: first
            .promote_members_pending_pni_aci_profile_key
            + second.promote_members_pending_pni_aci_profile_key,
        modify_member_labels: first.modify_member_labels + second.modify_member_labels,
        modify_member_label_access: later(
            first.modify_member_label_access,
            second.modify_member_label_access,
        ),
        terminate_group: later(first.terminate_group, second.terminate_group),
    }
}

fn pick_later<T>(first: Option<T>, second: Option<T>) -> (r: Option<T>)
    ensures
        r == later(first, second),
{
    match second {
        Some(_) => second,
        None => first,
    }
}

/// Folds one update's actions into the batch's.
pub fn merge_actions(into: &mut Actions, from: Actions)
    ensures
        final(into).deep_view() == merged(old(into).deep_view(), from.deep_view()),
{
    let ghost first = into.deep_view();
    let ghost second = from.deep_view();
    let mut from = from;
    into.add_members.append(&mut from.add_members);
    into.delete_members.append(&mut from.delete_members);
    into.modify_member_roles.append(&mut from.modify_member_roles);
    into.modify_member_profile_keys.append(&mut from.modify_member_profile_keys);
    into.add_members_pending_profile_key.append(&mut from.add_members_pending_profile_key);
    into.delete_members_pending_profile_key.append(&mut from.delete_members_pending_profile_key);
    into.promote_members_pending_profile_key.append(&mut from.promote_members_pending_profile_key);
    into.add_members_pending_admin_approval.append(&mut from.add_members_pending_admin_approval);
    into.delete_members_pending_admin_approval.append(
        &mut from.delete_members_pending_admin_approval,
    );
    into.promote_members_pending_admin_approval.append(
        &mut from.promote_members_pending_admin_approval,
    );
    into.add_members_banned.append(&mut from.add_members_banned);
    into.delete_members_banned.append(&mut from.delete_members_banned);
    into.promote_members_pending_pni_aci_profile_key.append(
        &mut from.promote_members_pending_pni_aci_profile_key,
    );
    into.modify_member_labels.append(&mut from.modify_member_labels);
    into.modify_title = pick_later(into.modify_title.take(), from.modify_title);
    into.modify_avatar = pick_later(into.modify_avatar.take(), from.modify_avatar);
    into.modify_disappearing_message_timer = pick_later(
        into.modify_disappearing_message_timer.take(),
        from.modify_disappearing_message_timer,
    );
    into.modify_attributes_access = pick_later(
        into.modify_attributes_access.take(),
        from.modify_attributes_access,
    );
    into.modify_member_access = pick_later(
        into.modify_member_access.take(),
        from.modify_member_access,
    );
    into.modify_add_from_invite_link_access = pick_later(
        into.modify_add_from_invite_link_access.take(),
        from.modify_add_from_invite_link_access,
    );
    into.modify_invite_link_password = pick_later(
        into.modify_invite_link_password.take(),
        from.modify_invite_link_password,
    );
    into.modify_description = pick_later(into.modify_description.take(), from.modify_description);
    into.modify_announcements_only = pick_later(
        into.modify_announcements_only.take(),
        from.modify_announcements_only,
    );
    into.modify_member_label_access = pick_later(
        into.modify_member_label_access.take(),
        from.modify_member_label_access,
    );
    into.terminate_group = pick_later(into.terminate_group.take(), from.terminate_group);
    proof {
        let all = merged(first, second);
        assert(into.add_members.deep_view() =~= all.add_members);
        assert(into.delete_members.deep_view() =~= all.delete_members);
        assert(into.modify_member_roles.deep_view() =~= all.modify_member_roles);
        assert(into.modify_member_profile_keys.deep_view() =~= all.modify_member_profile_keys);
        assert(into.add_members_pending_profile_key.deep_view()
            =~= all.add_members_pending_profile_key);
        assert(into.delete_members_pending_profile_key.deep_view()
            =~= all.delete_members_pending_profile_key);
        assert(into.promote_members_pending_profile_key.deep_view()
            =~= all.promote_members_pending_profile_key);
        assert(into.add_members_pending_admin_approval.deep_view()
            =~= all.add_members_pending_admin_approval);
        assert(into.delete_members_pending_admin_approval.deep_view()
            =~= all.delete_members_pending_admin_approval);
        assert(into.promote_members_pending_admin_approval.deep_view()
            =~= all.promote_members_pending_admin_approval);
        assert(into.add_members_banned.deep_view() =~= all.add_members_banned);
        assert(into.delete_members_banned.deep_view() =~= all.delete_members_banned);
        assert(into.promote_members_pending_pni_aci_profile_key.deep_view()
            =~= all.promote_members_pending_pni_aci_profile_key);
        assert(into.modify_member_labels.deep_view() =~= all.modify_member_labels);
        assert(into.deep_view() =~= all);
    }
}

/// Merging with a change that has no actions changes nothing.
pub proof fn law_merge_unit(actions: ActionsView)
    ensures
        merged(ActionsView::empty(), actions) == actions,
        merged(actions, ActionsView::empty()) == actions,
{
    assert(merged(ActionsView::empty(), actions) =~= actions);
    assert(merged(actions, ActionsView::empty()) =~= actions);
}

/// How a batch is split does not matter: merging is associative.
pub proof fn law_merge_associative(a: ActionsView, b: ActionsView, c: ActionsView)
    ensures
        merged(merged(a, b), c) == merged(a, merged(b, c)),
{
    assert(merged(merged(a, b), c) =~= merged(a, merged(b, c)));
}

/// The identity with these bytes.
pub(crate) fn aci_bytes(bytes: &[u8]) -> (r: Option<Aci>)
    ensures
        r.deep_view() == service_id::uuid_bytes(bytes@),
{
    match service_id::sixteen(bytes) {
        Some(bytes) => Some(Aci::from_uuid_bytes(bytes)),
        None => None,
    }
}

/// The identity that an optional field names.
pub open spec fn named(bytes: Option<Seq<u8>>) -> Option<Seq<u8>> {
    match bytes {
        Some(bytes) => service_id::uuid_bytes(bytes),
        None => None,
    }
}

fn aci(bytes: &Option<Vec<u8>>) -> (r: Option<Aci>)
    ensures
        r.deep_view() == named(bytes.deep_view()),
{
    broadcast use crate::text::lemma_bytes_view;

    match bytes {
        Some(bytes) => aci_bytes(bytes.as_slice()),
        None => None,
    }
}

fn pni(bytes: &Option<Vec<u8>>) -> (r: Option<Pni>)
    ensures
        r.deep_view() == named(bytes.deep_view()),
{
    broadcast use crate::text::lemma_bytes_view;

    match bytes {
        Some(bytes) => match service_id::sixteen(bytes.as_slice()) {
            Some(bytes) => Some(Pni::from_uuid_bytes(bytes)),
            None => None,
        },
        None => None,
    }
}

/// The invite-link rule that the approval setting stands for.
pub open spec fn link_access_of(requires_admin_approval: bool) -> AccessRequired {
    if requires_admin_approval {
        AccessRequired::Administrator
    } else {
        AccessRequired::Any
    }
}

fn link_access(requires_admin_approval: bool) -> (access: AccessRequired)
    ensures
        access == link_access_of(requires_admin_approval),
{
    if requires_admin_approval {
        AccessRequired::Administrator
    } else {
        AccessRequired::Any
    }
}

/// Somebody joins, as an ordinary member.
pub open spec fn add_member_view(aci: Seq<u8>, join_from_invite_link: bool) -> ActionsView {
    ActionsView {
        add_members: seq![
            AddMemberView { member: aci, role: Role::Default, join_from_invite_link },
        ],
        ..ActionsView::empty()
    }
}

fn add_member(aci: Aci, join_from_invite_link: bool) -> (r: Actions)
    ensures
        r.deep_view() == add_member_view(aci.deep_view(), join_from_invite_link),
{
    let r = Actions {
        add_members: vec![AddMember { member: aci, role: Role::Default, join_from_invite_link }],
        ..Actions::default()
    };
    assert(r.deep_view() =~= add_member_view(aci.deep_view(), join_from_invite_link));
    r
}

/// Somebody leaves or is removed.
pub open spec fn remove_member_view(aci: Seq<u8>) -> ActionsView {
    ActionsView { delete_members: seq![aci], ..ActionsView::empty() }
}

fn remove_member(aci: Aci) -> (r: Actions)
    ensures
        r.deep_view() == remove_member_view(aci.deep_view()),
{
    let r = Actions { delete_members: vec![aci], ..Actions::default() };
    assert(r.deep_view() =~= remove_member_view(aci.deep_view()));
    r
}

/// Somebody is invited.
pub open spec fn add_pending_member_view(invitee: ServiceIdView, inviter: Seq<u8>) -> ActionsView {
    ActionsView {
        add_members_pending_profile_key: seq![
            AddPendingMemberView { invitee, inviter, role: Role::Default },
        ],
        ..ActionsView::empty()
    }
}

fn add_pending_member(invitee: ServiceId, inviter: Aci) -> (r: Actions)
    ensures
        r.deep_view() == add_pending_member_view(invitee.deep_view(), inviter.deep_view()),
{
    let r = Actions {
        add_members_pending_profile_key: vec![
            AddPendingMember { invitee, inviter, role: Role::Default },
        ],
        ..Actions::default()
    };
    assert(r.deep_view() =~= add_pending_member_view(invitee.deep_view(), inviter.deep_view()));
    r
}

/// An invitation is withdrawn or declined.
pub open spec fn remove_pending_member_view(invitee: ServiceIdView) -> ActionsView {
    ActionsView { delete_members_pending_profile_key: seq![invitee], ..ActionsView::empty() }
}

fn remove_pending_member(invitee: ServiceId) -> (r: Actions)
    ensures
        r.deep_view() == remove_pending_member_view(invitee.deep_view()),
{
    let r = Actions { delete_members_pending_profile_key: vec![invitee], ..Actions::default() };
    assert(r.deep_view() =~= remove_pending_member_view(invitee.deep_view()));
    r
}

/// An invitation is accepted.
pub open spec fn promote_pending_member_view(aci: Seq<u8>) -> ActionsView {
    ActionsView { promote_members_pending_profile_key: seq![aci], ..ActionsView::empty() }
}

fn promote_pending_member(aci: Aci) -> (r: Actions)
    ensures
        r.deep_view() == promote_pending_member_view(aci.deep_view()),
{
    let r = Actions { promote_members_pending_profile_key: vec![aci], ..Actions::default() };
    assert(r.deep_view() =~= promote_pending_member_view(aci.deep_view()));
    r
}

/// Somebody asks to join.
pub open spec fn add_requesting_member_view(aci: Seq<u8>) -> ActionsView {
    ActionsView { add_members_pending_admin_approval: seq![aci], ..ActionsView::empty() }
}

fn add_requesting_member(aci: Aci) -> (r: Actions)
    ensures
        r.deep_view() == add_requesting_member_view(aci.deep_view()),
{
    let r = Actions { add_members_pending_admin_approval: vec![aci], ..Actions::default() };
    assert(r.deep_view() =~= add_requesting_member_view(aci.deep_view()));
    r
}

/// A request to join is withdrawn or denied.
pub open spec fn remove_requesting_member_view(aci: Seq<u8>) -> ActionsView {
    ActionsView { delete_members_pending_admin_approval: seq![aci], ..ActionsView::empty() }
}

fn remove_requesting_member(aci: Aci) -> (r: Actions)
    ensures
        r.deep_view() == remove_requesting_member_view(aci.deep_view()),
{
    let r = Actions { delete_members_pending_admin_approval: vec![aci], ..Actions::default() };
    assert(r.deep_view() =~= remove_requesting_member_view(aci.deep_view()));
    r
}

/// A request to join is granted.
pub open spec fn promote_requesting_member_view(aci: Seq<u8>) -> ActionsView {
    ActionsView {
        promote_members_pending_admin_approval: seq![
            MemberRoleView { member: aci, role: Role::Default },
        ],
        ..ActionsView::empty()
    }
}

fn promote_requesting_member(aci: Aci) -> (r: Actions)
    ensures
        r.deep_view() == promote_requesting_member_view(aci.deep_view()),
{
    let r = Actions {
        promote_members_pending_admin_approval: vec![
            MemberRole { member: aci, role: Role::Default },
        ],
        ..Actions::default()
    };
    assert(r.deep_view() =~= promote_requesting_member_view(aci.deep_view()));
    r
}

/// Somebody is given a role.
pub open spec fn modify_member_role_view(aci: Seq<u8>, role: Role) -> ActionsView {
    ActionsView {
        modify_member_roles: seq![MemberRoleView { member: aci, role }],
        ..ActionsView::empty()
    }
}

fn modify_member_role(aci: Aci, role: Role) -> (r: Actions)
    ensures
        r.deep_view() == modify_member_role_view(aci.deep_view(), role),
{
    let r = Actions {
        modify_member_roles: vec![MemberRole { member: aci, role }],
        ..Actions::default()
    };
    assert(r.deep_view() =~= modify_member_role_view(aci.deep_view(), role));
    r
}

/// The invite-link rule changes.
pub open spec fn invite_link_access_view(access: AccessRequired) -> ActionsView {
    ActionsView { modify_add_from_invite_link_access: Some(access), ..ActionsView::empty() }
}

fn invite_link_access(access: AccessRequired) -> (r: Actions)
    ensures
        r.deep_view() == invite_link_access_view(access),
{
    let r = Actions { modify_add_from_invite_link_access: Some(access), ..Actions::default() };
    assert(r.deep_view() =~= invite_link_access_view(access));
    r
}

/// The title changes.
pub open spec fn modify_title_view(title: Seq<char>) -> ActionsView {
    ActionsView { modify_title: Some(title), ..ActionsView::empty() }
}

fn modify_title(title: String) -> (r: Actions)
    ensures
        r.deep_view() == modify_title_view(title@),
{
    let r = Actions { modify_title: Some(title), ..Actions::default() };
    assert(r.deep_view() =~= modify_title_view(title@));
    r
}

/// The avatar changes, or goes where the path is empty.
pub open spec fn modify_avatar_view(path: Seq<char>) -> ActionsView {
    ActionsView { modify_avatar: Some(path), ..ActionsView::empty() }
}

fn modify_avatar(path: String) -> (r: Actions)
    ensures
        r.deep_view() == modify_avatar_view(path@),
{
    let r = Actions { modify_avatar: Some(path), ..Actions::default() };
    assert(r.deep_view() =~= modify_avatar_view(path@));
    r
}

/// The description changes.
pub open spec fn modify_description_view(description: Seq<char>) -> ActionsView {
    ActionsView { modify_description: Some(description), ..ActionsView::empty() }
}

fn modify_description(description: String) -> (r: Actions)
    ensures
        r.deep_view() == modify_description_view(description@),
{
    let r = Actions { modify_description: Some(description), ..Actions::default() };
    assert(r.deep_view() =~= modify_description_view(description@));
    r
}

/// The rule for adding members changes.
pub open spec fn modify_member_access_view(access: AccessRequired) -> ActionsView {
    ActionsView { modify_member_access: Some(access), ..ActionsView::empty() }
}

fn modify_member_access(access: AccessRequired) -> (r: Actions)
    ensures
        r.deep_view() == modify_member_access_view(access),
{
    let r = Actions { modify_member_access: Some(access), ..Actions::default() };
    assert(r.deep_view() =~= modify_member_access_view(access));
    r
}

/// The rule for editing the group changes.
pub open spec fn modify_attributes_access_view(access: AccessRequired) -> ActionsView {
    ActionsView { modify_attributes_access: Some(access), ..ActionsView::empty() }
}

fn modify_attributes_access(access: AccessRequired) -> (r: Actions)
    ensures
        r.deep_view() == modify_attributes_access_view(access),
{
    let r = Actions { modify_attributes_access: Some(access), ..Actions::default() };
    assert(r.deep_view() =~= modify_attributes_access_view(access));
    r
}

/// The rule for sending changes.
pub open spec fn modify_announcements_only_view(announcements_only: bool) -> ActionsView {
    ActionsView { modify_announcements_only: Some(announcements_only), ..ActionsView::empty() }
}

fn modify_announcements_only(announcements_only: bool) -> (r: Actions)
    ensures
        r.deep_view() == modify_announcements_only_view(announcements_only),
{
    let r = Actions { modify_announcements_only: Some(announcements_only), ..Actions::default() };
    assert(r.deep_view() =~= modify_announcements_only_view(announcements_only));
    r
}

/// The disappearing-messages timer changes.
pub open spec fn modify_timer_view(seconds: u32) -> ActionsView {
    ActionsView { modify_disappearing_message_timer: Some(seconds), ..ActionsView::empty() }
}

fn modify_timer(seconds: u32) -> (r: Actions)
    ensures
        r.deep_view() == modify_timer_view(seconds),
{
    let r = Actions { modify_disappearing_message_timer: Some(seconds), ..Actions::default() };
    assert(r.deep_view() =~= modify_timer_view(seconds));
    r
}

/// The invite link is replaced.
pub open spec fn reset_invite_link_view() -> ActionsView {
    ActionsView { modify_invite_link_password: Some(Seq::empty()), ..ActionsView::empty() }
}

fn reset_invite_link() -> (r: Actions)
    ensures
        r.deep_view() == reset_invite_link_view(),
{
    let password: Vec<u8> = Vec::new();
    let r = Actions { modify_invite_link_password: Some(password), ..Actions::default() };
    proof {
        assert(r.modify_invite_link_password->0.deep_view() =~= Seq::<u8>::empty());
        assert(r.deep_view() =~= reset_invite_link_view());
    }
    r
}

/// Whom an invitation was for: the account identity where the backup has one, else the
/// phone-number identity.
pub open spec fn invitee_of(invitee: InviteeView) -> Option<ServiceIdView> {
    match named(invitee.invitee_aci) {
        Some(aci) => Some(ServiceIdView::Aci(aci)),
        None => match named(invitee.invitee_pni) {
            Some(pni) => Some(ServiceIdView::Pni(pni)),
            None => None,
        },
    }
}

/// All those whom the withdrawn invitations were for, as far as the backup names them.
pub open spec fn invitees_of(invitees: Seq<InviteeView>) -> Seq<ServiceIdView>
    decreases invitees.len(),
{
    if invitees.len() == 0 {
        Seq::empty()
    } else {
        match invitee_of(invitees.last()) {
            Some(id) => invitees_of(invitees.drop_last()).push(id),
            None => invitees_of(invitees.drop_last()),
        }
    }
}

/// Invitations are withdrawn.
pub open spec fn remove_pending_members_view(invitees: Seq<ServiceIdView>) -> ActionsView {
    ActionsView { delete_members_pending_profile_key: invitees, ..ActionsView::empty() }
}

fn remove_pending_members(invitees: &Vec<Invitee>) -> (r: Actions)
    ensures
        r.deep_view() == remove_pending_members_view(invitees_of(invitees.deep_view())),
{
    let mut all = Actions::default();
    let mut i: usize = 0;
    let ghost list = invitees.deep_view();
    proof {
        assert(all.deep_view() =~= remove_pending_members_view(invitees_of(list.take(0))));
    }
    while i < invitees.len()
        invariant
            i <= invitees@.len(),
            list == invitees.deep_view(),
            all.deep_view() == remove_pending_members_view(invitees_of(list.take(i as int))),
        decreases invitees@.len() - i,
    {
        let id = match aci(&invitees[i].invitee_aci) {
            Some(id) => Some(ServiceId::Aci(id)),
            None => match pni(&invitees[i].invitee_pni) {
                Some(id) => Some(ServiceId::Pni(id)),
                None => None,
            },
        };
        proof {
            assert(list.take(i + 1).drop_last() =~= list.take(i as int));
            assert(list.take(i + 1).last() == invitees[i as int].deep_view());
        }
        if let Some(id) = id {
            let ghost before = all.deep_view();
            merge_actions(&mut all, remove_pending_member(id));
            proof {
                let ids = invitees_of(list.take(i as int));
                assert(ids + seq![id.deep_view()] =~= ids.push(id.deep_view()));
                assert(all.deep_view() =~= remove_pending_members_view(ids.push(id.deep_view())));
            }
        }
        i = i + 1;
    }
    proof {
        assert(list.take(i as int) =~= list);
    }
    all
}

fn text_or_empty(text: &Option<String>) -> (r: String)
    ensures
        r@ == text.deep_view().unwrap_or(Seq::empty()),
{
    match text {
        Some(text) => text.clone(),
        None => String::new(),
    }
}

fn avatar_path(was_removed: bool) -> (path: String)
    ensures
        path@ == (if was_removed {
            Seq::empty()
        } else {
            backup_avatar_path()
        }),
{
    if was_removed {
        String::new()
    } else {
        proof {
            reveal_strlit("backup");
            assert("backup"@ =~= backup_avatar_path());
        }
        "backup".to_owned()
    }
}

/// What one update stands for: the editor the backup names, if any, and the actions of
/// the change, `None` when the backup left out a participant that the actions need.
///
/// The editor is the person whose act it is: the updater where the backup names one, and
/// the member themself for what a member does on their own behalf (leaving, joining,
/// requesting, declining).
pub open spec fn planned(update: UpdateView, our_aci: Seq<u8>) -> (
    Option<Seq<u8>>,
    Option<ActionsView>,
) {
    match update {
        UpdateView::GenericGroupUpdate { updater_aci } => (named(updater_aci), None),
        UpdateView::GroupCreationUpdate { updater_aci } => (named(updater_aci), None),
        UpdateView::GroupNameUpdate { updater_aci, new_group_name } => (
            named(updater_aci),
            Some(modify_title_view(new_group_name.unwrap_or(Seq::empty()))),
        ),
        UpdateView::GroupAvatarUpdate { updater_aci, was_removed } => (
            named(updater_aci),
            Some(modify_avatar_view(if was_removed { Seq::empty() } else { backup_avatar_path() })),
        ),
        UpdateView::GroupDescriptionUpdate { updater_aci, new_description } => (
            named(updater_aci),
            Some(modify_description_view(new_description.unwrap_or(Seq::empty()))),
        ),
        UpdateView::GroupMembershipAccessLevelChangeUpdate { updater_aci, access_level } => (
            named(updater_aci),
            match access_level {
                Some(access) => Some(modify_member_access_view(access)),
                None => None,
            },
        ),
        UpdateView::GroupAttributesAccessLevelChangeUpdate { updater_aci, access_level } => (
            named(updater_aci),
            match access_level {
                Some(access) => Some(modify_attributes_access_view(access)),
                None => None,
            },
        ),
        UpdateView::GroupAnnouncementOnlyChangeUpdate { updater_aci, is_announcement_only } => (
            named(updater_aci),
            Some(modify_announcements_only_view(is_announcement_only)),
        ),
        UpdateView::GroupAdminStatusUpdate {
            updater_aci,
            member_aci,
            was_admin_status_granted,
        } => {
            (
                named(updater_aci),
                match service_id::uuid_bytes(member_aci) {
                    Some(member) => Some(
                        modify_member_role_view(
                            member,
                            if was_admin_status_granted {
                                Role::Administrator
                            } else {
                                Role::Default
                            },
                        ),
                    ),
                    None => None,
                },
            )
        },
        UpdateView::GroupMemberLeftUpdate { aci } => {
            let member = service_id::uuid_bytes(aci);
            (
                member,
                match member { Some(member) => Some(remove_member_view(member)), None => None },
            )
        },
        UpdateView::GroupMemberRemovedUpdate { remover_aci, removed_aci } => (
            named(remover_aci),
            match service_id::uuid_bytes(removed_aci) {
                Some(removed) => Some(remove_member_view(removed)),
                None => None,
            },
        ),
        UpdateView::SelfInvitedToGroupUpdate { inviter_aci } => {
            let inviter = named(inviter_aci);
            (
                inviter,
                Some(
                    add_pending_member_view(
                        ServiceIdView::Aci(our_aci),
                        inviter.unwrap_or(our_aci),
                    ),
                ),
            )
        },
        UpdateView::SelfInvitedOtherUserToGroupUpdate { invitee_service_id } => (
            Some(our_aci),
            match service_id::service_id_of_bytes(invitee_service_id) {
                Some(invitee) => Some(add_pending_member_view(invitee, our_aci)),
                None => None,
            },
        ),
        UpdateView::GroupUnknownInviteeUpdate { inviter_aci } => (named(inviter_aci), None),
        UpdateView::GroupInvitationAcceptedUpdate { new_member_aci } => {
            let member = service_id::uuid_bytes(new_member_aci);
            (
                member,
                match member {
                    Some(member) => Some(promote_pending_member_view(member)),
                    None => None,
                },
            )
        },
        UpdateView::GroupInvitationDeclinedUpdate { inviter_aci, invitee_aci } => {
            match named(invitee_aci) {
                Some(invitee) => (
                    Some(invitee),
                    Some(remove_pending_member_view(ServiceIdView::Aci(invitee))),
                ),
                None => (named(inviter_aci), None),
            }
        },
        UpdateView::GroupMemberJoinedUpdate { new_member_aci } => {
            let member = service_id::uuid_bytes(new_member_aci);
            (
                member,
                match member { Some(member) => Some(add_member_view(member, false)), None => None },
            )
        },
        UpdateView::GroupMemberJoinedByLinkUpdate { new_member_aci } => {
            let member = service_id::uuid_bytes(new_member_aci);
            (
                member,
                match member { Some(member) => Some(add_member_view(member, true)), None => None },
            )
        },
        UpdateView::GroupMemberAddedUpdate { updater_aci, new_member_aci } => (
            named(updater_aci),
            match service_id::uuid_bytes(new_member_aci) {
                Some(added) => Some(add_member_view(added, false)),
                None => None,
            },
        ),
        UpdateView::GroupSelfInvitationRevokedUpdate { revoker_aci } => (
            named(revoker_aci),
            Some(remove_pending_member_view(ServiceIdView::Aci(our_aci))),
        ),
        UpdateView::GroupInvitationRevokedUpdate { updater_aci, invitees } => (
            named(updater_aci),
            Some(remove_pending_members_view(invitees_of(invitees))),
        ),
        UpdateView::GroupJoinRequestUpdate { requestor_aci } => {
            let member = service_id::uuid_bytes(requestor_aci);
            (
                member,
                match member {
                    Some(member) => Some(add_requesting_member_view(member)),
                    None => None,
                },
            )
        },
        UpdateView::GroupJoinRequestApprovalUpdate { requestor_aci, updater_aci, was_approved } => (
            named(updater_aci),
            match service_id::uuid_bytes(requestor_aci) {
                Some(requester) => Some(
                    if was_approved {
                        promote_requesting_member_view(requester)
                    } else {
                        remove_requesting_member_view(requester)
                    },
                ),
                None => None,
            },
        ),
        UpdateView::GroupJoinRequestCanceledUpdate { requestor_aci } => {
            let member = service_id::uuid_bytes(requestor_aci);
            (
                member,
                match member {
                    Some(member) => Some(remove_requesting_member_view(member)),
                    None => None,
                },
            )
        },
        UpdateView::GroupSequenceOfRequestsAndCancelsUpdate { requestor_aci } => {
            let member = service_id::uuid_bytes(requestor_aci);
            (
                member,
                match member {
                    Some(member) => Some(remove_requesting_member_view(member)),
                    None => None,
                },
            )
        },
        UpdateView::GroupInviteLinkResetUpdate { updater_aci } => (
            named(updater_aci),
            Some(reset_invite_link_view()),
        ),
        UpdateView::GroupInviteLinkEnabledUpdate { updater_aci, link_requires_admin_approval } => (
            named(updater_aci),
            Some(invite_link_access_view(link_access_of(link_requires_admin_approval))),
        ),
        UpdateView::GroupInviteLinkAdminApprovalUpdate {
            updater_aci,
            link_requires_admin_approval,
        } => {
            (
                named(updater_aci),
                Some(invite_link_access_view(link_access_of(link_requires_admin_approval))),
            )
        },
        UpdateView::GroupInviteLinkDisabledUpdate { updater_aci } => (
            named(updater_aci),
            Some(invite_link_access_view(AccessRequired::Unsatisfiable)),
        ),
        UpdateView::GroupV2MigrationUpdate => (None, None),
        UpdateView::GroupV2MigrationSelfInvitedUpdate => (None, None),
        UpdateView::GroupV2MigrationInvitedMembersUpdate => (None, None),
        UpdateView::GroupV2MigrationDroppedMembersUpdate => (None, None),
        UpdateView::GroupExpirationTimerUpdate { expires_in_ms, updater_aci } => (
            named(updater_aci),
            Some(modify_timer_view((expires_in_ms / 1000) as u32)),
        ),
    }
}

/// The editor the backup names, if any, and the actions of the change: see [`planned`].
pub fn plan(update: &Update, our_aci: Aci) -> (r: (Option<Aci>, Option<Actions>))
    ensures
        (r.0.deep_view(), r.1.deep_view()) == planned(update.deep_view(), our_aci.deep_view()),
{
    broadcast use crate::text::lemma_bytes_view;

    match update {
        Update::GenericGroupUpdate { updater_aci } => (aci(updater_aci), None),
        Update::GroupCreationUpdate { updater_aci } => (aci(updater_aci), None),
        Update::GroupNameUpdate { updater_aci, new_group_name } => (
            aci(updater_aci),
            Some(modify_title(text_or_empty(new_group_name))),
        ),
        Update::GroupAvatarUpdate { updater_aci, was_removed } => (
            aci(updater_aci),
            Some(modify_avatar(avatar_path(*was_removed))),
        ),
        Update::GroupDescriptionUpdate { updater_aci, new_description } => (
            aci(updater_aci),
            Some(modify_description(text_or_empty(new_description))),
        ),
        Update::GroupMembershipAccessLevelChangeUpdate { updater_aci, access_level } => (
            aci(updater_aci),
            match access_level {
                Some(access) => Some(modify_member_access(*access)),
                None => None,
            },
        ),
        Update::GroupAttributesAccessLevelChangeUpdate { updater_aci, access_level } => (
            aci(updater_aci),
            match access_level {
                Some(access) => Some(modify_attributes_access(*access)),
                None => None,
            },
        ),
        Update::GroupAnnouncementOnlyChangeUpdate { updater_aci, is_announcement_only } => (
            aci(updater_aci),
            Some(modify_announcements_only(*is_announcement_only)),
        ),
        Update::GroupAdminStatusUpdate { updater_aci, member_aci, was_admin_status_granted } => {
            let role = if *was_admin_status_granted { Role::Administrator } else { Role::Default };
            (
                aci(updater_aci),
                match aci_bytes(member_aci.as_slice()) {
                    Some(member) => Some(modify_member_role(member, role)),
                    None => None,
                },
            )
        },
        Update::GroupMemberLeftUpdate { aci: leaver } => {
            let member = aci_bytes(leaver.as_slice());
            (member, match member { Some(member) => Some(remove_member(member)), None => None })
        },
        Update::GroupMemberRemovedUpdate { remover_aci, removed_aci } => (
            aci(remover_aci),
            match aci_bytes(removed_aci.as_slice()) {
                Some(removed) => Some(remove_member(removed)),
                None => None,
            },
        ),
        Update::SelfInvitedToGroupUpdate { inviter_aci } => {
            let inviter = aci(inviter_aci);
            let by = match inviter { Some(inviter) => inviter, None => our_aci };
            (inviter, Some(add_pending_member(ServiceId::Aci(our_aci), by)))
        },
        Update::SelfInvitedOtherUserToGroupUpdate { invitee_service_id } => (
            Some(our_aci),
            match ServiceId::parse_from_service_id_binary(invitee_service_id.as_slice()) {
                Some(invitee) => Some(add_pending_member(invitee, our_aci)),
                None => None,
            },
        ),
        Update::GroupUnknownInviteeUpdate { inviter_aci } => (aci(inviter_aci), None),
        Update::GroupInvitationAcceptedUpdate { new_member_aci } => {
            let member = aci_bytes(new_member_aci.as_slice());
            (
                member,
                match member { Some(member) => Some(promote_pending_member(member)), None => None },
            )
        },
        Update::GroupInvitationDeclinedUpdate { inviter_aci, invitee_aci } => {
            match aci(invitee_aci) {
                Some(invitee) => (
                    Some(invitee),
                    Some(remove_pending_member(ServiceId::Aci(invitee))),
                ),
                None => (aci(inviter_aci), None),
            }
        },
        Update::GroupMemberJoinedUpdate { new_member_aci } => {
            let member = aci_bytes(new_member_aci.as_slice());
            (member, match member { Some(member) => Some(add_member(member, false)), None => None })
        },
        Update::GroupMemberJoinedByLinkUpdate { new_member_aci } => {
            let member = aci_bytes(new_member_aci.as_slice());
            (member, match member { Some(member) => Some(add_member(member, true)), None => None })
        },
        Update::GroupMemberAddedUpdate { updater_aci, new_member_aci } => (
            aci(updater_aci),
            match aci_bytes(new_member_aci.as_slice()) {
                Some(added) => Some(add_member(added, false)),
                None => None,
            },
        ),
        Update::GroupSelfInvitationRevokedUpdate { revoker_aci } => (
            aci(revoker_aci),
            Some(remove_pending_member(ServiceId::Aci(our_aci))),
        ),
        Update::GroupInvitationRevokedUpdate { updater_aci, invitees } => (
            aci(updater_aci),
            Some(remove_pending_members(invitees)),
        ),
        Update::GroupJoinRequestUpdate { requestor_aci } => {
            let member = aci_bytes(requestor_aci.as_slice());
            (
                member,
                match member { Some(member) => Some(add_requesting_member(member)), None => None },
            )
        },
        Update::GroupJoinRequestApprovalUpdate { requestor_aci, updater_aci, was_approved } => (
            aci(updater_aci),
            match aci_bytes(requestor_aci.as_slice()) {
                Some(requester) => if *was_approved {
                    Some(promote_requesting_member(requester))
                } else {
                    Some(remove_requesting_member(requester))
                },
                None => None,
            },
        ),
        Update::GroupJoinRequestCanceledUpdate { requestor_aci } => {
            let member = aci_bytes(requestor_aci.as_slice());
            (
                member,
                match member {
                    Some(member) => Some(remove_requesting_member(member)),
                    None => None,
                },
            )
        },
        Update::GroupSequenceOfRequestsAndCancelsUpdate { requestor_aci } => {
            let member = aci_bytes(requestor_aci.as_slice());
            (
                member,
                match member {
                    Some(member) => Some(remove_requesting_member(member)),
                    None => None,
                },
            )
        },
        Update::GroupInviteLinkResetUpdate { updater_aci } => (
            aci(updater_aci),
            Some(reset_invite_link()),
        ),
        Update::GroupInviteLinkEnabledUpdate { updater_aci, link_requires_admin_approval } => (
            aci(updater_aci),
            Some(invite_link_access(link_access(*link_requires_admin_approval))),
        ),
        Update::GroupInviteLinkAdminApprovalUpdate {
            updater_aci,
            link_requires_admin_approval,
        } => {
            (aci(updater_aci), Some(invite_link_access(link_access(*link_requires_admin_approval))))
        },
        Update::GroupInviteLinkDisabledUpdate { updater_aci } => (
            aci(updater_aci),
            Some(invite_link_access(AccessRequired::Unsatisfiable)),
        ),
        Update::GroupV2MigrationUpdate => (None, None),
        Update::GroupV2MigrationSelfInvitedUpdate => (None, None),
        Update::GroupV2MigrationInvitedMembersUpdate => (None, None),
        Update::GroupV2MigrationDroppedMembersUpdate => (None, None),
        Update::GroupExpirationTimerUpdate { expires_in_ms, updater_aci } => (
            aci(updater_aci),
            Some(modify_timer((*expires_in_ms / 1000) as u32)),
        ),
    }
}

/// The change that created the group, where one is in the batch: the first one counts.
pub open spec fn creation_of(updates: Seq<GroupChangeUpdateView>) -> Option<Option<Seq<u8>>>
    decreases updates.len(),
{
    if updates.len() == 0 {
        None
    } else {
        match updates[0].update {
            Some(UpdateView::GroupCreationUpdate { updater_aci }) => Some(named(updater_aci)),
            _ => creation_of(updates.skip(1)),
        }
    }
}

/// The editor of a batch: the last update that names one.
pub open spec fn editor_of(updates: Seq<GroupChangeUpdateView>, our_aci: Seq<u8>) -> Option<
    Seq<u8>,
>
    decreases updates.len(),
{
    if updates.len() == 0 {
        None
    } else {
        match updates.last().update {
            Some(update) => later(
                editor_of(updates.drop_last(), our_aci),
                planned(update, our_aci).0,
            ),
            None => editor_of(updates.drop_last(), our_aci),
        }
    }
}

/// The actions of a batch: those of every update whose actions could be built, one after
/// the other.
pub open spec fn actions_of(
    updates: Seq<GroupChangeUpdateView>,
    buildable: Seq<bool>,
    our_aci: Seq<u8>,
) -> ActionsView
    decreases updates.len(),
{
    if updates.len() == 0 {
        ActionsView::empty()
    } else {
        let before = actions_of(updates.drop_last(), buildable, our_aci);
        match updates.last().update {
            Some(update) => match planned(update, our_aci).1 {
                Some(actions) if buildable[updates.len() - 1] => merged(before, actions),
                _ => before,
            },
            None => before,
        }
    }
}

/// What a batch of updates stands for, and who made it. A creation is known to be made by
/// the member it names; one that names nobody, and a change, by the editor of the batch.
pub open spec fn planned_group_update(
    updates: Seq<GroupChangeUpdateView>,
    buildable: Seq<bool>,
    our_aci: Seq<u8>,
    fallback_editor: Seq<u8>,
) -> (Seq<u8>, GroupUpdatePlanView) {
    let editor = editor_of(updates, our_aci).unwrap_or(fallback_editor);
    match creation_of(updates) {
        Some(creator) => (creator.unwrap_or(editor), GroupUpdatePlanView::Created),
        None => (editor, GroupUpdatePlanView::Change(actions_of(updates, buildable, our_aci))),
    }
}

fn find_creation(updates: &Vec<GroupChangeUpdate>) -> (r: Option<Option<Aci>>)
    ensures
        r.deep_view() == creation_of(updates.deep_view()),
{
    let ghost list = updates.deep_view();
    let mut i: usize = 0;
    proof {
        assert(list.skip(0) =~= list);
    }
    while i < updates.len()
        invariant
            i <= updates@.len(),
            list == updates.deep_view(),
            creation_of(list) == creation_of(list.skip(i as int)),
        decreases updates@.len() - i,
    {
        proof {
            assert(list.skip(i as int)[0] == updates[i as int].deep_view());
            assert(list.skip(i as int).skip(1) =~= list.skip(i + 1));
        }
        if let Some(Update::GroupCreationUpdate { updater_aci }) = &updates[i].update {
            return Some(aci(updater_aci));
        }
        i = i + 1;
    }
    proof {
        assert(list.skip(i as int) =~= Seq::<GroupChangeUpdateView>::empty());
    }
    None
}

/// Maps one backup group change, a batch of one or more updates that came from a single
/// group state change, to what it stands for and the member who made it. Every update
/// maps to something: the kinds the wire cannot express become a change with no actions,
/// and an update whose participant the backup left out keeps its editor and loses only
/// the actions. The batch becomes one change carrying every update's actions.
///
/// A batch has one editor: the last update that names one. `fallback_editor` stands in
/// when the backup names nobody. A creation that names its updater is by that one.
///
/// `buildable[i]` says whether the cipher of the group could build the actions of
/// `updates[i]`; those it could not build are left out.
pub fn plan_group_update(
    updates: &Vec<GroupChangeUpdate>,
    buildable: &Vec<bool>,
    our_aci: Aci,
    fallback_editor: Aci,
) -> (r: (Aci, GroupUpdatePlan))
    requires
        buildable@.len() == updates@.len(),
    ensures
        (r.0.deep_view(), r.1.deep_view()) == planned_group_update(
            updates.deep_view(),
            buildable@,
            our_aci.deep_view(),
            fallback_editor.deep_view(),
        ),
{
    let ghost list = updates.deep_view();
    let mut editor: Option<Aci> = None;
    let mut all = Actions::default();
    let mut j: usize = 0;
    proof {
        assert(list.take(0) =~= Seq::<GroupChangeUpdateView>::empty());
    }
    while j < updates.len()
        invariant
            j <= updates@.len(),
            buildable@.len() == updates@.len(),
            list == updates.deep_view(),
            editor.deep_view() == editor_of(list.take(j as int), our_aci.deep_view()),
            all.deep_view() == actions_of(
                list.take(j as int),
                buildable@,
                our_aci.deep_view(),
            ),
        decreases updates@.len() - j,
    {
        proof {
            assert(list.take(j + 1).drop_last() =~= list.take(j as int));
            assert(list.take(j + 1).last() == updates[j as int].deep_view());
        }
        if let Some(update) = &updates[j].update {
            let (update_editor, actions) = plan(update, our_aci);
            editor = pick_later(editor, update_editor);
            if let Some(actions) = actions {
                if buildable[j] {
                    merge_actions(&mut all, actions);
                }
            }
        }
        j = j + 1;
    }
    proof {
        assert(list.take(j as int) =~= list);
    }
    let editor = match editor {
        Some(editor) => editor,
        None => fallback_editor,
    };
    match find_creation(updates) {
        Some(Some(creator)) => (creator, GroupUpdatePlan::Created),
        Some(None) => (editor, GroupUpdatePlan::Created),
        None => (editor, GroupUpdatePlan::Change(all)),
    }
}

/// The wire form of a planned change, once the group's cipher has encrypted it:
/// `encrypted` is what came of that, and is not looked at for a creation. `None` where
/// the change could not be encrypted.
pub fn seal_group_update(editor: Aci, plan: GroupUpdatePlan, encrypted: Option<Vec<u8>>) -> (r:
    Option<(Aci, GroupUpdate)>)
    ensures
        r == (match plan {
            GroupUpdatePlan::Created => Some((editor, GroupUpdate::Created)),
            GroupUpdatePlan::Change(_) => match encrypted {
                Some(change) => Some((editor, GroupUpdate::Change(change))),
                None => None,
            },
        }),
{
    match plan {
        GroupUpdatePlan::Created => Some((editor, GroupUpdate::Created)),
        GroupUpdatePlan::Change(_) => match encrypted {
            Some(change) => Some((editor, GroupUpdate::Change(change))),
            None => None,
        },
    }
}

/// Every action of every update is in the batch, and nothing else is: a batch of two
/// parts has the actions of the one and then those of the other.
pub proof fn law_batch_concatenates(
    first: Seq<GroupChangeUpdateView>,
    second: Seq<GroupChangeUpdateView>,
    buildable: Seq<bool>,
    our_aci: Seq<u8>,
)
    requires
        buildable.len() == first.len() + second.len(),
    ensures
        actions_of(first + second, buildable, our_aci) == merged(
            actions_of(first, buildable, our_aci),
            actions_of(second, buildable.skip(first.len() as int), our_aci),
        ),
    decreases second.len(),
{
    let all = first + second;
    if second.len() == 0 {
        assert(all =~= first);
        law_merge_unit(actions_of(first, buildable, our_aci));
    } else {
        let rest = second.drop_last();
        assert(all.drop_last() =~= first + rest);
        lemma_actions_of_prefix(first + rest, buildable, buildable.drop_last(), our_aci);
        lemma_actions_of_prefix(first, buildable, buildable.drop_last(), our_aci);
        law_batch_concatenates(first, rest, buildable.drop_last(), our_aci);
        lemma_actions_of_prefix(
            rest,
            buildable.skip(first.len() as int),
            buildable.drop_last().skip(first.len() as int),
            our_aci,
        );
        if let Some(update) = all.last().update {
            if let Some(actions) = planned(update, our_aci).1 {
                law_merge_associative(
                    actions_of(first, buildable, our_aci),
                    actions_of(rest, buildable.skip(first.len() as int), our_aci),
                    actions,
                );
            }
        }
    }
}

proof fn lemma_actions_of_prefix(
    updates: Seq<GroupChangeUpdateView>,
    a: Seq<bool>,
    b: Seq<bool>,
    our_aci: Seq<u8>,
)
    requires
        updates.len() <= a.len(),
        updates.len() <= b.len(),
        forall|i: int| 0 <= i < updates.len() ==> a[i] == b[i],
    ensures
        actions_of(updates, a, our_aci) == actions_of(updates, b, our_aci),
    decreases updates.len(),
{
    if updates.len() > 0 {
        lemma_actions_of_prefix(updates.drop_last(), a, b, our_aci);
    }
}

/// An update that names an editor decides the editor of every batch it ends.
pub proof fn law_last_named_editor_wins(
    updates: Seq<GroupChangeUpdateView>,
    update: UpdateView,
    our_aci: Seq<u8>,
)
    requires
        planned(update, our_aci).0 is Some,
    ensures
        editor_of(updates.push(GroupChangeUpdateView { update: Some(update) }), our_aci)
            == planned(update, our_aci).0,
{
    let all = updates.push(GroupChangeUpdateView { update: Some(update) });
    assert(all.last().update == Some(update));
}

/// Whoever a batch names is preferred to the fallback, in a creation as in a change: the
/// fallback stands in only for a batch that names nobody.
pub proof fn law_fallback_only_for_the_unnamed(
    updates: Seq<GroupChangeUpdateView>,
    buildable: Seq<bool>,
    our_aci: Seq<u8>,
    one: Seq<u8>,
    other: Seq<u8>,
)
    requires
        editor_of(updates, our_aci) is Some,
    ensures
        planned_group_update(updates, buildable, our_aci, one) == planned_group_update(
            updates,
            buildable,
            our_aci,
            other,
        ),
{
}

} // verus!

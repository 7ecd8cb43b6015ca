//! What the operations of [`groups`](crate::model::groups) promise.
//!
//! Each law speaks of what a function was given and what it returned.
use vstd::prelude::*;

use crate::model::access::{AccessRequired, Role};
use crate::model::groups;
use crate::model::groups::{
    AccessControl, Group, GroupAccess, GroupMembersUpdate, GroupUpdate, GroupView, Member,
    MemberView, PendingMember, PendingMemberView, RequestingMember, ServerGroup, ServerMember,
    ServerPendingMember, ServerRequestingMember, ServiceIdType,
};
use crate::proto::GroupV2Record;
use crate::service_id::{Aci, ServiceId, ServiceIdView};
use crate::text;

verus! {

/// The members of a fetched group are the server's, one by one and in its order, each with the
/// role it has there: who administers the group on the server administers it here.
pub proof fn law_members_keep_their_roles(
    server: ServerGroup,
    local: Option<&Group>,
    group: Group,
    i: int,
)
    requires
        call_ensures(Group::from_server, (server, local), group),
    ensures
        group.members@.len() == server.members@.len(),
        0 <= i < group.members@.len() ==> {
            let member = group.members@[i];
            let of = server.members@[i];
            &&& member.aci.uuid.bytes@ == of.aci.uuid.bytes@
            &&& member.role == of.role
            &&& member.profile_key.bytes@ == of.profile_key.bytes@
            &&& member.joined_at_revision == of.joined_at_version
            &&& member.label is Some <==> of.label is Some
            &&& member.label is Some ==> member.label->0@ == of.label->0@
            &&& member.label_emoji is Some <==> of.label_emoji is Some
            &&& member.label_emoji is Some ==> member.label_emoji->0@ == of.label_emoji->0@
        },
{
    let view = group.deep_view();
    assert(view.members.len() == group.members@.len());
    if 0 <= i < group.members@.len() {
        assert(view.members[i] == group.members@[i].deep_view());
        assert(server.deep_view().members[i] == server.members@[i].deep_view());
        assert(group.members@[i].label.deep_view() == server.members@[i].label.deep_view());
        assert(group.members@[i].label_emoji.deep_view()
            == server.members@[i].label_emoji.deep_view());
    }
}

/// The invitees of a fetched group are the server's, under the identity they were invited by;
/// and so are those who asked to join.
pub proof fn law_invitees_and_requests_come_along(
    server: ServerGroup,
    local: Option<&Group>,
    group: Group,
    i: int,
)
    requires
        call_ensures(Group::from_server, (server, local), group),
    ensures
        group.pending_members@.len() == server.members_pending_profile_key@.len(),
        group.requesting_members@.len() == server.members_pending_admin_approval@.len(),
        0 <= i < group.pending_members@.len() ==> {
            let invitee = group.pending_members@[i];
            let of = server.members_pending_profile_key@[i];
            &&& of.address matches ServiceId::Aci(aci) ==> invitee.service_id_type
                == ServiceIdType::AccountIdentity && invitee.uuid.bytes@ == aci.uuid.bytes@
            &&& of.address matches ServiceId::Pni(pni) ==> invitee.service_id_type
                == ServiceIdType::PhoneNumberIdentity && invitee.uuid.bytes@ == pni.uuid.bytes@
            &&& invitee.role == of.role
            &&& invitee.added_by_aci.uuid.bytes@ == of.added_by_aci.uuid.bytes@
            &&& invitee.timestamp == of.timestamp
        },
        0 <= i < group.requesting_members@.len() ==> {
            let asking = group.requesting_members@[i];
            let of = server.members_pending_admin_approval@[i];
            &&& asking.aci.uuid.bytes@ == of.aci.uuid.bytes@
            &&& asking.profile_key.bytes@ == of.profile_key.bytes@
            &&& asking.timestamp == of.timestamp
        },
{
    let view = group.deep_view();
    assert(view.pending_members.len() == group.pending_members@.len());
    assert(view.requesting_members.len() == group.requesting_members@.len());
    if 0 <= i < group.pending_members@.len() {
        assert(view.pending_members[i] == group.pending_members@[i].deep_view());
        assert(server.deep_view().members_pending_profile_key[i]
            == server.members_pending_profile_key@[i].deep_view());
    }
    if 0 <= i < group.requesting_members@.len() {
        assert(view.requesting_members[i] == group.requesting_members@[i].deep_view());
        assert(server.deep_view().members_pending_admin_approval[i]
            == server.members_pending_admin_approval@[i].deep_view());
    }
}

/// What the server says of a group is taken over: its title, its rules, its revision and the
/// rest. An empty path is no avatar. And a group that was fetched is not waiting to be fetched.
pub proof fn law_the_server_decides_the_group(
    server: ServerGroup,
    local: Option<&Group>,
    group: Group,
)
    requires
        call_ensures(Group::from_server, (server, local), group),
    ensures
        group.title matches Some(title) && title@ == server.title@,
        group.avatar is Some <==> server.avatar@.len() > 0,
        group.avatar matches Some(avatar) ==> avatar@ == server.avatar@,
        group.description is Some <==> server.description_text is Some,
        group.description is Some ==> group.description->0@ == server.description_text->0@,
        group.disappearing_messages_timer == server.disappearing_messages_timer,
        group.access_control == server.access_control,
        group.revision == server.version,
        group.invite_link_password@ == server.invite_link_password@,
        group.announcements_only == server.announcements_only,
        !group.needs_hydration,
{
    broadcast use text::lemma_bytes_view;

    let view = group.deep_view();
    let of = server.deep_view();
    assert(view.title == group.title.deep_view());
    assert(view.avatar == group.avatar.deep_view());
    assert(view.description == group.description.deep_view());
    assert(of.description_text == server.description_text.deep_view());
    assert(view.invite_link_password == of.invite_link_password);
}

/// What only this device knows of a group survives a fetch; a group that is new here starts
/// without any of it.
pub proof fn law_a_fetch_keeps_the_local_flags(
    server: ServerGroup,
    local: Option<&Group>,
    group: Group,
)
    requires
        call_ensures(Group::from_server, (server, local), group),
    ensures
        local matches Some(local) ==> {
            &&& group.blocked == local.blocked
            &&& group.whitelisted == local.whitelisted
            &&& group.archived == local.archived
            &&& group.marked_unread == local.marked_unread
            &&& group.muted_until_timestamp == local.muted_until_timestamp
            &&& group.dont_notify_for_mentions_if_muted == local.dont_notify_for_mentions_if_muted
            &&& group.hide_story == local.hide_story
            &&& group.story_send_mode == local.story_send_mode
        },
        local is None ==> {
            &&& !group.blocked
            &&& !group.whitelisted
            &&& !group.archived
            &&& !group.marked_unread
            &&& group.muted_until_timestamp == 0
            &&& !group.dont_notify_for_mentions_if_muted
            &&& !group.hide_story
            &&& group.story_send_mode == 0
        },
{
}

/// An invitee is addressed by the identity that was invited.
pub proof fn law_an_invitee_is_addressed_as_invited(invitee: PendingMember, id: ServiceId)
    requires
        call_ensures(PendingMember::service_id, (&invitee,), id),
    ensures
        invitee.service_id_type == ServiceIdType::AccountIdentity ==> id is Aci
            && id->Aci_0.uuid.bytes@ == invitee.uuid.bytes@,
        invitee.service_id_type == ServiceIdType::PhoneNumberIdentity ==> id is Pni
            && id->Pni_0.uuid.bytes@ == invitee.uuid.bytes@,
{
    assert(id.deep_view() == invitee.deep_view().service_id());
}

/// Somebody is a member exactly where one of the members is theirs.
pub proof fn law_membership_is_being_listed(group: Group, aci: Aci, member: bool)
    requires
        call_ensures(Group::is_member, (&group, aci), member),
    ensures
        member <==> exists|i: int|
            0 <= i < group.members@.len() && (#[trigger] group.members@[i]).aci.uuid.bytes@
                == aci.uuid.bytes@,
{
    let view = group.deep_view();
    assert(view.members.len() == group.members@.len());
    assert forall|i: int| 0 <= i < group.members@.len() implies (
    #[trigger] group.members@[i]).deep_view() == view.members[i] by {}
    if member {
        let i = choose|i: int|
            0 <= i < view.members.len() && (#[trigger] view.members[i]).aci == aci.deep_view();
        assert(group.members@[i].aci.uuid.bytes@ == aci.uuid.bytes@);
    } else {
        assert forall|i: int| 0 <= i < group.members@.len() implies (
        #[trigger] group.members@[i]).aci.uuid.bytes@ != aci.uuid.bytes@ by {
            assert(view.members[i].aci != aci.deep_view());
        }
    }
}

/// Somebody is invited exactly where one of the invitations is to that identity.
pub proof fn law_invitation_is_being_listed(group: Group, id: ServiceId, pending: bool)
    requires
        call_ensures(Group::is_pending, (&group, id), pending),
    ensures
        pending <==> exists|i: int|
            0 <= i < group.pending_members@.len() && (
            #[trigger] group.pending_members@[i]).deep_view().service_id() == id.deep_view(),
{
    let view = group.deep_view();
    assert(view.pending_members.len() == group.pending_members@.len());
    assert forall|i: int| 0 <= i < group.pending_members@.len() implies (
    #[trigger] group.pending_members@[i]).deep_view() == view.pending_members[i] by {}
    if pending {
        let i = choose|i: int|
            0 <= i < view.pending_members.len() && (
            #[trigger] view.pending_members[i]).service_id() == id.deep_view();
        assert(group.pending_members@[i].deep_view().service_id() == id.deep_view());
    } else {
        assert forall|i: int| 0 <= i < group.pending_members@.len() implies (
        #[trigger] group.pending_members@[i]).deep_view().service_id() != id.deep_view() by {
            assert(view.pending_members[i].service_id() != id.deep_view());
        }
    }
}

/// This account is in a group as long as it is a member or is invited by its account identity.
pub proof fn law_activity_is_membership_or_invitation(
    group: Group,
    aci: Aci,
    active: bool,
    member: bool,
    pending: bool,
)
    requires
        call_ensures(Group::is_active, (&group, aci), active),
        call_ensures(Group::is_member, (&group, aci), member),
        call_ensures(Group::is_pending, (&group, ServiceId::Aci(aci)), pending),
    ensures
        active <==> member || pending,
{
}

/// Handing the labels to the administrators takes away the labels of everybody else, of each
/// member that has one; loosening the rule, or stating it again, takes away none.
pub proof fn law_tightening_takes_every_label(
    group: Group,
    access: GroupAccess,
    losing: Vec<Aci>,
    i: int,
)
    requires
        call_ensures(Group::members_losing_labels, (&group, access), losing),
        0 <= i < group.members@.len(),
    ensures
        access == GroupAccess::Members ==> losing@.len() == 0,
        group.access_control matches Some(rules) && rules.member_label
            == AccessRequired::Administrator ==> losing@.len() == 0,
        ({
            let member = group.members@[i];
            let labelled = member.label is Some || member.label_emoji is Some;
            let tightened = access == GroupAccess::Administrators && !(
            group.access_control matches Some(rules) && rules.member_label
                == AccessRequired::Administrator);
            &&& tightened && labelled && member.role != Role::Administrator
                ==> losing.deep_view().contains(member.aci.uuid.bytes@)
            &&& tightened ==> losing.deep_view() == groups::labelled_members(
                group.deep_view().members,
            )
        }),
{
    let view = group.deep_view();
    assert(view.members[i] == group.members@[i].deep_view());
    assert(losing.deep_view().len() == losing@.len());
    lemma_labels_are_found(view.members, i);
}

proof fn lemma_labels_are_found(members: Seq<MemberView>, i: int)
    requires
        0 <= i < members.len(),
    ensures
        groups::loses_label(members[i]) ==> groups::labelled_members(members).contains(
            members[i].aci,
        ),
    decreases members.len(),
{
    let found = groups::labelled_members(members);
    let rest = groups::labelled_members(members.drop_last());
    if i == members.len() - 1 {
        if groups::loses_label(members[i]) {
            assert(found[found.len() - 1] == members[i].aci);
        }
    } else {
        lemma_labels_are_found(members.drop_last(), i);
        assert(members.drop_last()[i] == members[i]);
        if groups::loses_label(members[i]) {
            let k = choose|k: int| 0 <= k < rest.len() && rest[k] == members[i].aci;
            assert(found[k] == members[i].aci);
        }
    }
}

/// Leaving takes this account out and nobody else: every other member stays, as an
/// administrator where it was promoted and else with the role it had.
pub proof fn law_the_others_stay(
    group: GroupView,
    self_aci: Seq<u8>,
    promoted: Seq<Seq<u8>>,
    revision: u32,
    i: int,
)
    requires
        0 <= i < group.members.len(),
        group.members[i].aci != self_aci,
    ensures
        group.left(self_aci, promoted, revision).members.contains(
            MemberView {
                role: if promoted.contains(group.members[i].aci) {
                    Role::Administrator
                } else {
                    group.members[i].role
                },
                ..group.members[i]
            },
        ),
{
    let kept = groups::without_member(group.members, self_aci);
    let left = group.left(self_aci, promoted, revision).members;
    lemma_the_others_are_kept(group.members, self_aci, i);
    let k = choose|k: int| 0 <= k < kept.len() && kept[k] == group.members[i];
    assert(left[k] == groups::promoted_member(kept[k], promoted));
    assert(left[k] == (MemberView {
        role: if promoted.contains(group.members[i].aci) {
            Role::Administrator
        } else {
            group.members[i].role
        },
        ..group.members[i]
    }));
}

proof fn lemma_the_others_are_kept(members: Seq<MemberView>, aci: Seq<u8>, i: int)
    requires
        0 <= i < members.len(),
        members[i].aci != aci,
    ensures
        groups::without_member(members, aci).contains(members[i]),
    decreases members.len(),
{
    let kept = groups::without_member(members, aci);
    let rest = groups::without_member(members.drop_last(), aci);
    if i == members.len() - 1 {
        assert(kept[kept.len() - 1] == members[i]);
    } else {
        assert(members.drop_last()[i] == members[i]);
        lemma_the_others_are_kept(members.drop_last(), aci, i);
        let k = choose|k: int| 0 <= k < rest.len() && rest[k] == members[i];
        assert(kept[k] == members[i]);
    }
}

/// Leaving withdraws no invitation but this account's own.
pub proof fn law_the_other_invitations_stay(
    group: GroupView,
    self_aci: Seq<u8>,
    promoted: Seq<Seq<u8>>,
    revision: u32,
    i: int,
)
    requires
        0 <= i < group.pending_members.len(),
        group.pending_members[i].service_id() != ServiceIdView::Aci(self_aci),
    ensures
        group.left(self_aci, promoted, revision).pending_members.contains(
            group.pending_members[i],
        ),
{
    lemma_the_other_invitees_are_kept(
        group.pending_members,
        ServiceIdView::Aci(self_aci),
        i,
    );
}

proof fn lemma_the_other_invitees_are_kept(
    members: Seq<PendingMemberView>,
    id: ServiceIdView,
    i: int,
)
    requires
        0 <= i < members.len(),
        members[i].service_id() != id,
    ensures
        groups::without_invitee(members, id).contains(members[i]),
    decreases members.len(),
{
    let kept = groups::without_invitee(members, id);
    let rest = groups::without_invitee(members.drop_last(), id);
    if i == members.len() - 1 {
        assert(kept[kept.len() - 1] == members[i]);
    } else {
        assert(members.drop_last()[i] == members[i]);
        lemma_the_other_invitees_are_kept(members.drop_last(), id, i);
        let k = choose|k: int| 0 <= k < rest.len() && rest[k] == members[i];
        assert(kept[k] == members[i]);
    }
}

/// Leaving adds nobody: whoever is in the group afterwards was in it before, and not as this
/// account.
pub proof fn law_leaving_adds_nobody(
    group: GroupView,
    self_aci: Seq<u8>,
    promoted: Seq<Seq<u8>>,
    revision: u32,
    i: int,
)
    requires
        0 <= i < group.left(self_aci, promoted, revision).members.len(),
    ensures
        group.left(self_aci, promoted, revision).members.len() <= group.members.len(),
        group.left(self_aci, promoted, revision).members[i].aci != self_aci,
        group.is_member(group.left(self_aci, promoted, revision).members[i].aci),
{
    let kept = groups::without_member(group.members, self_aci);
    let left = group.left(self_aci, promoted, revision).members;
    lemma_kept_were_there(group.members, self_aci, i);
    assert(left[i].aci == kept[i].aci);
    let j = choose|j: int| 0 <= j < group.members.len() && group.members[j] == kept[i];
    assert(group.members[j].aci == left[i].aci);
}

proof fn lemma_kept_were_there(members: Seq<MemberView>, aci: Seq<u8>, i: int)
    requires
        0 <= i < groups::without_member(members, aci).len(),
    ensures
        groups::without_member(members, aci).len() <= members.len(),
        groups::without_member(members, aci)[i].aci != aci,
        members.contains(groups::without_member(members, aci)[i]),
    decreases members.len(),
{
    let kept = groups::without_member(members, aci);
    let before = members.drop_last();
    let rest = groups::without_member(before, aci);
    if i < rest.len() {
        lemma_kept_were_there(before, aci, i);
        let j = choose|j: int| 0 <= j < before.len() && before[j] == rest[i];
        assert(members[j] == kept[i]);
    } else {
        assert(members[members.len() - 1] == kept[i]);
        if rest.len() > 0 {
            lemma_kept_were_there(before, aci, 0);
        }
    }
}

/// Leaving moves a group to the revision of the leave, and touches neither what it is called
/// and how it is ruled nor what this device keeps of it.
pub proof fn law_leaving_changes_only_membership(
    group: GroupView,
    self_aci: Seq<u8>,
    promoted: Seq<Seq<u8>>,
    revision: u32,
)
    ensures
        ({
            let left = group.left(self_aci, promoted, revision);
            &&& left.revision == revision
            &&& left.title == group.title
            &&& left.avatar == group.avatar
            &&& left.description == group.description
            &&& left.disappearing_messages_timer == group.disappearing_messages_timer
            &&& left.access_control == group.access_control
            &&& left.requesting_members == group.requesting_members
            &&& left.invite_link_password == group.invite_link_password
            &&& left.announcements_only == group.announcements_only
            &&& left.needs_hydration == group.needs_hydration
            &&& left.blocked == group.blocked
            &&& left.whitelisted == group.whitelisted
            &&& left.archived == group.archived
            &&& left.marked_unread == group.marked_unread
            &&& left.muted_until_timestamp == group.muted_until_timestamp
            &&& left.dont_notify_for_mentions_if_muted == group.dont_notify_for_mentions_if_muted
            &&& left.hide_story == group.hide_story
            &&& left.story_send_mode == group.story_send_mode
        }),
{
}

/// The first storage record of a group says what this device keeps of it, under its key.
pub proof fn law_a_new_record_says_what_is_kept(
    group: Group,
    master_key: [u8; 32],
    record: GroupV2Record,
)
    requires
        call_ensures(Group::to_new_storage_record, (&group, master_key), record),
    ensures
        record.master_key@ == master_key@,
        record.blocked == group.blocked,
        record.whitelisted == group.whitelisted,
        record.archived == group.archived,
        record.marked_unread == group.marked_unread,
        record.muted_until_timestamp == group.muted_until_timestamp,
        record.dont_notify_for_mentions_if_muted == group.dont_notify_for_mentions_if_muted,
        record.hide_story == group.hide_story,
        record.story_send_mode == group.story_send_mode as i32,
        record.avatar_color is None,
{
    broadcast use text::lemma_bytes_view;

    assert(record.deep_view().master_key == record.master_key.deep_view());
    assert(record.deep_view().avatar_color == record.avatar_color.deep_view());
}

/// A new group is open to its members and to nobody else: until a link is made, nobody can join
/// by one.
pub proof fn law_a_new_group_has_no_link(access: AccessControl)
    requires
        call_ensures(groups::new_group_access_control, (), access),
    ensures
        access.attributes == AccessRequired::Member,
        access.members == AccessRequired::Member,
        access.member_label == AccessRequired::Member,
        access.add_from_invite_link == AccessRequired::Unsatisfiable,
{
}

/// An update that sets anything is not empty, and one that sets nothing is.
pub proof fn law_an_update_is_empty_when_nothing_is_set(update: GroupUpdate, empty: bool)
    requires
        call_ensures(GroupUpdate::is_empty, (&update,), empty),
    ensures
        update.title is Some || update.description is Some || update.expire_timer_seconds is Some
            || update.attributes_access is Some || update.members_access is Some
            || update.member_label_access is Some || update.announcements_only is Some ==> !empty,
        update.title is None && update.description is None && update.expire_timer_seconds is None
            && update.attributes_access is None && update.members_access is None
            && update.member_label_access is None && update.announcements_only is None ==> empty,
{
}

/// A membership update that names anybody is not empty, and one that names nobody is.
pub proof fn law_a_members_update_is_empty_when_nobody_is_named(
    update: GroupMembersUpdate,
    empty: bool,
)
    requires
        call_ensures(GroupMembersUpdate::is_empty, (&update,), empty),
    ensures
        empty <==> update.add@.len() + update.remove@.len() + update.remove_pending@.len()
            + update.promote@.len() + update.demote@.len() == 0,
{
}

/// Leaving a group makes the stored copy the one without this account.
pub proof fn law_leaving_is_applied_to_the_copy(
    group: &mut Group,
    self_aci: Aci,
    promoted: Vec<Aci>,
    revision: u32,
)
    requires
        call_ensures(Group::mark_left, (group, self_aci, &promoted, revision), ()),
    ensures
        final(group).deep_view() == old(group).deep_view().left(
            self_aci.uuid.bytes@,
            promoted.deep_view(),
            revision,
        ),
        final(group).revision == revision,
        final(group).blocked == old(group).blocked,
        forall|i: int|
            0 <= i < final(group).members@.len() ==> (
            #[trigger] final(group).members@[i]).aci.uuid.bytes@ != self_aci.uuid.bytes@,
{
    let before = old(group).deep_view();
    let left = final(group).deep_view();
    assert forall|i: int| 0 <= i < final(group).members@.len() implies (
    #[trigger] final(group).members@[i]).aci.uuid.bytes@ != self_aci.uuid.bytes@ by {
        assert(left.members[i] == final(group).members@[i].deep_view());
        law_leaving_adds_nobody(before, self_aci.uuid.bytes@, promoted.deep_view(), revision, i);
    }
}

/// A member is who the server says, in the role and with the label that it says.
pub proof fn law_a_member_is_as_the_server_says(server: ServerMember, member: Member)
    requires
        call_ensures(Member::from_server, (server,), member),
    ensures
        member.aci.uuid.bytes@ == server.aci.uuid.bytes@,
        member.role == server.role,
        member.deep_view().profile_key == server.deep_view().profile_key,
        member.joined_at_revision == server.joined_at_version,
        member.deep_view().label == server.deep_view().label,
        member.deep_view().label_emoji == server.deep_view().label_emoji,
{
}

/// An invitee, and somebody who asks to join, are who the server says.
pub proof fn law_invitees_are_as_the_server_says(
    server: ServerPendingMember,
    invitee: PendingMember,
    asking: ServerRequestingMember,
    request: RequestingMember,
)
    requires
        call_ensures(PendingMember::from_server, (server,), invitee),
        call_ensures(RequestingMember::from_server, (asking,), request),
    ensures
        server.address matches ServiceId::Aci(aci) ==> invitee.uuid.bytes@ == aci.uuid.bytes@
            && invitee.service_id_type == ServiceIdType::AccountIdentity,
        server.address matches ServiceId::Pni(pni) ==> invitee.uuid.bytes@ == pni.uuid.bytes@
            && invitee.service_id_type == ServiceIdType::PhoneNumberIdentity,
        invitee.role == server.role,
        invitee.deep_view().added_by_aci == server.deep_view().added_by_aci,
        invitee.timestamp == server.timestamp,
        request.aci.uuid.bytes@ == asking.aci.uuid.bytes@,
        request.deep_view().profile_key == asking.deep_view().profile_key,
        request.timestamp == asking.timestamp,
{
}

/// A copy of the server's group is that group, without what only this device knows.
pub proof fn law_a_copy_is_the_servers(server: ServerGroup, copy: Group, fetched: Group)
    requires
        call_ensures(Group::from_server_copy, (server,), copy),
        call_ensures(Group::from_server, (server, None::<&Group>), fetched),
    ensures
        copy.deep_view() == fetched.deep_view(),
{
}

/// Without a rule, members may.
pub proof fn law_members_may_by_default(access: AccessRequired)
    requires
        call_ensures(groups::default_access_required, (), access),
    ensures
        access == AccessRequired::Member,
{
}

/// A member loses the label, behind those before them, exactly where they have one, or an emoji
/// for it, and are no administrator.
pub proof fn law_each_label_counts_for_itself(members: Seq<MemberView>, member: MemberView)
    ensures
        groups::labelled_members(Seq::empty()).len() == 0,
        member.role != Role::Administrator && (member.label is Some || member.label_emoji is Some)
            ==> groups::labelled_members(members.push(member)) == groups::labelled_members(
            members,
        ).push(member.aci),
        member.role == Role::Administrator || (member.label is None && member.label_emoji is None)
            ==> groups::labelled_members(members.push(member)) == groups::labelled_members(members),
{
    assert(members.push(member).drop_last() =~= members);
    assert(members.push(member).last() == member);
}

/// Whoever leaves is taken from the members and from the invitees, every time they are listed;
/// the others stay in their order.
pub proof fn law_only_the_leaver_is_taken_out(
    members: Seq<MemberView>,
    member: MemberView,
    invitees: Seq<PendingMemberView>,
    invitee: PendingMemberView,
    aci: Seq<u8>,
)
    ensures
        groups::without_member(Seq::empty(), aci).len() == 0,
        groups::without_invitee(Seq::empty(), ServiceIdView::Aci(aci)).len() == 0,
        member.aci == aci ==> groups::without_member(members.push(member), aci)
            == groups::without_member(members, aci),
        member.aci != aci ==> groups::without_member(members.push(member), aci)
            == groups::without_member(members, aci).push(member),
        invitee.service_id() == ServiceIdView::Aci(aci) ==> groups::without_invitee(
            invitees.push(invitee),
            ServiceIdView::Aci(aci),
        ) == groups::without_invitee(invitees, ServiceIdView::Aci(aci)),
        invitee.service_id() != ServiceIdView::Aci(aci) ==> groups::without_invitee(
            invitees.push(invitee),
            ServiceIdView::Aci(aci),
        ) == groups::without_invitee(invitees, ServiceIdView::Aci(aci)).push(invitee),
{
    assert(members.push(member).drop_last() =~= members);
    assert(members.push(member).last() == member);
    assert(invitees.push(invitee).drop_last() =~= invitees);
    assert(invitees.push(invitee).last() == invitee);
}

/// Whoever has left is neither a member nor invited any more.
pub proof fn law_the_leaver_is_gone(
    group: GroupView,
    self_aci: Seq<u8>,
    promoted: Seq<Seq<u8>>,
    revision: u32,
)
    ensures
        !group.left(self_aci, promoted, revision).is_member(self_aci),
        !group.left(self_aci, promoted, revision).is_pending(ServiceIdView::Aci(self_aci)),
{
    let left = group.left(self_aci, promoted, revision);
    assert forall|i: int| 0 <= i < left.members.len() implies (#[trigger] left.members[i]).aci
        != self_aci by {
        law_leaving_adds_nobody(group, self_aci, promoted, revision, i);
    }
    lemma_nobody_invited(group.pending_members, ServiceIdView::Aci(self_aci));
}

proof fn lemma_nobody_invited(invitees: Seq<PendingMemberView>, id: ServiceIdView)
    ensures
        forall|i: int|
            0 <= i < groups::without_invitee(invitees, id).len() ==> (
            #[trigger] groups::without_invitee(invitees, id)[i]).service_id() != id,
    decreases invitees.len(),
{
    if invitees.len() > 0 {
        lemma_nobody_invited(invitees.drop_last(), id);
    }
}

} // verus!

//! What the changes of a group promise once they are restored.
use vstd::prelude::*;

use crate::backup::actions::{Actions, ActionsView};
use crate::backup::frames;
use crate::backup::frames::{GroupChangeUpdate, GroupChangeUpdateView, InviteeView, UpdateView};
use crate::backup::group_change;
use crate::backup::group_change::{GroupUpdate, GroupUpdatePlan};
use crate::model::access::{AccessRequired, Role};
use crate::service_id;
use crate::service_id::{Aci, ServiceIdView};

verus! {

/// A change without an action does nothing to anybody and sets nothing.
pub proof fn law_a_change_starts_empty(actions: Actions)
    requires
        call_ensures(Actions::default, (), actions),
    ensures
        is_empty(actions.deep_view()),
{
}

/// Whether a change does nothing.
pub open spec fn is_empty(actions: ActionsView) -> bool {
    &&& adds_and_removes_nobody(actions)
    &&& sets_nothing(actions)
}

/// Whether a change leaves all people as they are.
pub open spec fn adds_and_removes_nobody(actions: ActionsView) -> bool {
    &&& actions.add_members.len() == 0
    &&& actions.delete_members.len() == 0
    &&& actions.modify_member_roles.len() == 0
    &&& actions.modify_member_profile_keys.len() == 0
    &&& actions.add_members_pending_profile_key.len() == 0
    &&& actions.delete_members_pending_profile_key.len() == 0
    &&& actions.promote_members_pending_profile_key.len() == 0
    &&& actions.add_members_pending_admin_approval.len() == 0
    &&& actions.delete_members_pending_admin_approval.len() == 0
    &&& actions.promote_members_pending_admin_approval.len() == 0
    &&& actions.add_members_banned.len() == 0
    &&& actions.delete_members_banned.len() == 0
    &&& actions.promote_members_pending_pni_aci_profile_key.len() == 0
    &&& actions.modify_member_labels.len() == 0
}

/// Whether a change leaves the group itself as it is.
pub open spec fn sets_nothing(actions: ActionsView) -> bool {
    &&& actions.modify_title is None
    &&& actions.modify_avatar is None
    &&& actions.modify_disappearing_message_timer is None
    &&& actions.modify_attributes_access is None
    &&& actions.modify_member_access is None
    &&& actions.modify_add_from_invite_link_access is None
    &&& actions.modify_invite_link_password is None
    &&& actions.modify_description is None
    &&& actions.modify_announcements_only is None
    &&& actions.modify_member_label_access is None
    &&& actions.terminate_group is None
}

/// One list after the other.
pub open spec fn is_both<T>(all: Seq<T>, first: Seq<T>, second: Seq<T>) -> bool {
    &&& all.len() == first.len() + second.len()
    &&& forall|i: int| 0 <= i < first.len() ==> #[trigger] all[i] == first[i]
    &&& forall|i: int| 0 <= i < second.len() ==> #[trigger] second[i] == all[first.len() + i]
}

/// The later of two values, where there is one.
pub open spec fn is_later<T>(value: Option<T>, first: Option<T>, second: Option<T>) -> bool {
    &&& second is Some ==> value == second
    &&& second is None ==> value == first
}

/// Two changes after one another do to people what the one does and then what the other does, and
/// set what the later one sets.
pub proof fn law_changes_follow_one_another(first: ActionsView, second: ActionsView)
    ensures
        ({
            let all = group_change::merged(first, second);
            &&& is_both(all.add_members, first.add_members, second.add_members)
            &&& is_both(all.delete_members, first.delete_members, second.delete_members)
            &&& is_both(
                all.modify_member_roles,
                first.modify_member_roles,
                second.modify_member_roles,
            )
            &&& is_both(
                all.modify_member_profile_keys,
                first.modify_member_profile_keys,
                second.modify_member_profile_keys,
            )
            &&& is_both(
                all.add_members_pending_profile_key,
                first.add_members_pending_profile_key,
                second.add_members_pending_profile_key,
            )
            &&& is_both(
                all.delete_members_pending_profile_key,
                first.delete_members_pending_profile_key,
                second.delete_members_pending_profile_key,
            )
            &&& is_both(
                all.promote_members_pending_profile_key,
                first.promote_members_pending_profile_key,
                second.promote_members_pending_profile_key,
            )
            &&& is_both(
                all.add_members_pending_admin_approval,
                first.add_members_pending_admin_approval,
                second.add_members_pending_admin_approval,
            )
            &&& is_both(
                all.delete_members_pending_admin_approval,
                first.delete_members_pending_admin_approval,
                second.delete_members_pending_admin_approval,
            )
            &&& is_both(
                all.promote_members_pending_admin_approval,
                first.promote_members_pending_admin_approval,
                second.promote_members_pending_admin_approval,
            )
            &&& is_both(all.add_members_banned, first.add_members_banned, second.add_members_banned)
            &&& is_both(
                all.delete_members_banned,
                first.delete_members_banned,
                second.delete_members_banned,
            )
            &&& is_both(
                all.promote_members_pending_pni_aci_profile_key,
                first.promote_members_pending_pni_aci_profile_key,
                second.promote_members_pending_pni_aci_profile_key,
            )
            &&& is_both(
                all.modify_member_labels,
                first.modify_member_labels,
                second.modify_member_labels,
            )
            &&& is_later(all.modify_title, first.modify_title, second.modify_title)
            &&& is_later(all.modify_avatar, first.modify_avatar, second.modify_avatar)
            &&& is_later(
                all.modify_disappearing_message_timer,
                first.modify_disappearing_message_timer,
                second.modify_disappearing_message_timer,
            )
            &&& is_later(
                all.modify_attributes_access,
                first.modify_attributes_access,
                second.modify_attributes_access,
            )
            &&& is_later(
                all.modify_member_access,
                first.modify_member_access,
                second.modify_member_access,
            )
            &&& is_later(
                all.modify_add_from_invite_link_access,
                first.modify_add_from_invite_link_access,
                second.modify_add_from_invite_link_access,
            )
            &&& is_later(
                all.modify_invite_link_password,
                first.modify_invite_link_password,
                second.modify_invite_link_password,
            )
            &&& is_later(all.modify_description, first.modify_description, second.modify_description)
            &&& is_later(
                all.modify_announcements_only,
                first.modify_announcements_only,
                second.modify_announcements_only,
            )
            &&& is_later(
                all.modify_member_label_access,
                first.modify_member_label_access,
                second.modify_member_label_access,
            )
            &&& is_later(all.terminate_group, first.terminate_group, second.terminate_group)
        }),
{
}

/// Whoever is named by sixteen bytes is taken for the editor.
pub open spec fn is_editor(editor: Option<Seq<u8>>, named: Option<Seq<u8>>) -> bool {
    &&& named is Some && named->0.len() == 16 ==> editor == named
    &&& named is None || named->0.len() != 16 ==> editor is None
}

/// An update of the group itself is the editor's, and sets what it says and nothing else.
pub proof fn law_updates_of_the_group_set_what_they_say(
    update: UpdateView,
    our_aci: Seq<u8>,
)
    ensures
        ({
            let (editor, planned) = group_change::planned(update, our_aci);
            let actions = planned->0;
            &&& update matches UpdateView::GroupNameUpdate { updater_aci, new_group_name } ==> {
                &&& is_editor(editor, updater_aci)
                &&& planned is Some
                &&& new_group_name is Some ==> actions.modify_title == new_group_name
                &&& new_group_name is None ==> actions.modify_title is Some
                    && actions.modify_title->0.len() == 0
                &&& is_empty(ActionsView { modify_title: None, ..actions })
            }
            &&& update matches UpdateView::GroupAvatarUpdate { updater_aci, was_removed } ==> {
                &&& is_editor(editor, updater_aci)
                &&& planned is Some
                &&& actions.modify_avatar is Some
                &&& was_removed ==> actions.modify_avatar->0.len() == 0
                &&& !was_removed ==> actions.modify_avatar->0 == "backup"@
                &&& is_empty(ActionsView { modify_avatar: None, ..actions })
            }
            &&& update matches UpdateView::GroupDescriptionUpdate { updater_aci, new_description }
                ==> {
                &&& is_editor(editor, updater_aci)
                &&& planned is Some
                &&& new_description is Some ==> actions.modify_description == new_description
                &&& new_description is None ==> actions.modify_description is Some
                    && actions.modify_description->0.len() == 0
                &&& is_empty(ActionsView { modify_description: None, ..actions })
            }
            &&& update matches UpdateView::GroupMembershipAccessLevelChangeUpdate {
                updater_aci,
                access_level,
            } ==> {
                &&& is_editor(editor, updater_aci)
                &&& planned is Some <==> access_level is Some
                &&& planned is Some ==> actions.modify_member_access == access_level
                &&& planned is Some ==> is_empty(
                    ActionsView { modify_member_access: None, ..actions },
                )
            }
            &&& update matches UpdateView::GroupAttributesAccessLevelChangeUpdate {
                updater_aci,
                access_level,
            } ==> {
                &&& is_editor(editor, updater_aci)
                &&& planned is Some <==> access_level is Some
                &&& planned is Some ==> actions.modify_attributes_access == access_level
                &&& planned is Some ==> is_empty(
                    ActionsView { modify_attributes_access: None, ..actions },
                )
            }
            &&& update matches UpdateView::GroupAnnouncementOnlyChangeUpdate {
                updater_aci,
                is_announcement_only,
            } ==> {
                &&& is_editor(editor, updater_aci)
                &&& planned is Some
                &&& actions.modify_announcements_only == Some(is_announcement_only)
                &&& is_empty(ActionsView { modify_announcements_only: None, ..actions })
            }
            &&& update matches UpdateView::GroupExpirationTimerUpdate {
                expires_in_ms,
                updater_aci,
            } ==> {
                &&& is_editor(editor, updater_aci)
                &&& planned is Some
                &&& actions.modify_disappearing_message_timer is Some
                &&& expires_in_ms <= 4294967295000
                    ==> actions.modify_disappearing_message_timer->0 * 1000 <= expires_in_ms
                    < actions.modify_disappearing_message_timer->0 * 1000 + 1000
                &&& is_empty(ActionsView { modify_disappearing_message_timer: None, ..actions })
            }
        }),
{
    reveal_strlit("backup");
    assert(group_change::backup_avatar_path() =~= "backup"@);
}

/// An update of the link of a group is the editor's. A new link is made without a password yet;
/// an open link is for anybody, one with approval for those whom an administrator lets in, and a
/// closed one for nobody.
pub proof fn law_updates_of_the_link_say_who_may_join(update: UpdateView, our_aci: Seq<u8>)
    ensures
        ({
            let (editor, planned) = group_change::planned(update, our_aci);
            let actions = planned->0;
            let access = actions.modify_add_from_invite_link_access;
            &&& update matches UpdateView::GroupInviteLinkResetUpdate { updater_aci } ==> {
                &&& is_editor(editor, updater_aci)
                &&& planned is Some
                &&& actions.modify_invite_link_password is Some
                &&& actions.modify_invite_link_password->0.len() == 0
                &&& is_empty(ActionsView { modify_invite_link_password: None, ..actions })
            }
            &&& update matches UpdateView::GroupInviteLinkEnabledUpdate {
                updater_aci,
                link_requires_admin_approval,
            } ==> {
                &&& is_editor(editor, updater_aci)
                &&& planned is Some
                &&& link_requires_admin_approval ==> access == Some(AccessRequired::Administrator)
                &&& !link_requires_admin_approval ==> access == Some(AccessRequired::Any)
                &&& is_empty(ActionsView { modify_add_from_invite_link_access: None, ..actions })
            }
            &&& update matches UpdateView::GroupInviteLinkAdminApprovalUpdate {
                updater_aci,
                link_requires_admin_approval,
            } ==> {
                &&& is_editor(editor, updater_aci)
                &&& planned is Some
                &&& link_requires_admin_approval ==> access == Some(AccessRequired::Administrator)
                &&& !link_requires_admin_approval ==> access == Some(AccessRequired::Any)
                &&& is_empty(ActionsView { modify_add_from_invite_link_access: None, ..actions })
            }
            &&& update matches UpdateView::GroupInviteLinkDisabledUpdate { updater_aci } ==> {
                &&& is_editor(editor, updater_aci)
                &&& planned is Some
                &&& access == Some(AccessRequired::Unsatisfiable)
                &&& is_empty(ActionsView { modify_add_from_invite_link_access: None, ..actions })
            }
        }),
{
}

/// Who joins is added as an ordinary member, by the link where that was the way; who leaves, or
/// is removed, is deleted; who becomes or ceases to be an administrator gets that role. Who does
/// it on their own is the editor, and otherwise whoever did it.
pub proof fn law_updates_of_members_change_that_member(
    update: UpdateView,
    our_aci: Seq<u8>,
)
    ensures
        ({
            let (editor, planned) = group_change::planned(update, our_aci);
            let actions = planned->0;
            &&& update matches UpdateView::GroupAdminStatusUpdate {
                updater_aci,
                member_aci,
                was_admin_status_granted,
            } ==> {
                &&& is_editor(editor, updater_aci)
                &&& planned is Some <==> member_aci.len() == 16
                &&& planned is Some ==> {
                    &&& actions.modify_member_roles.len() == 1
                    &&& actions.modify_member_roles[0].member == member_aci
                    &&& was_admin_status_granted ==> actions.modify_member_roles[0].role
                        == Role::Administrator
                    &&& !was_admin_status_granted ==> actions.modify_member_roles[0].role
                        == Role::Default
                    &&& is_empty(ActionsView { modify_member_roles: Seq::empty(), ..actions })
                }
            }
            &&& update matches UpdateView::GroupMemberLeftUpdate { aci } ==> {
                &&& is_editor(editor, Some(aci))
                &&& planned is Some <==> aci.len() == 16
                &&& planned is Some ==> deletes_only(actions, aci)
            }
            &&& update matches UpdateView::GroupMemberRemovedUpdate { remover_aci, removed_aci }
                ==> {
                &&& is_editor(editor, remover_aci)
                &&& planned is Some <==> removed_aci.len() == 16
                &&& planned is Some ==> deletes_only(actions, removed_aci)
            }
            &&& update matches UpdateView::GroupMemberJoinedUpdate { new_member_aci } ==> {
                &&& is_editor(editor, Some(new_member_aci))
                &&& planned is Some <==> new_member_aci.len() == 16
                &&& planned is Some ==> adds_only(actions, new_member_aci, false)
            }
            &&& update matches UpdateView::GroupMemberJoinedByLinkUpdate { new_member_aci } ==> {
                &&& is_editor(editor, Some(new_member_aci))
                &&& planned is Some <==> new_member_aci.len() == 16
                &&& planned is Some ==> adds_only(actions, new_member_aci, true)
            }
            &&& update matches UpdateView::GroupMemberAddedUpdate { updater_aci, new_member_aci }
                ==> {
                &&& is_editor(editor, updater_aci)
                &&& planned is Some <==> new_member_aci.len() == 16
                &&& planned is Some ==> adds_only(actions, new_member_aci, false)
            }
        }),
{
}

/// Whether a change deletes one member and does nothing else.
pub open spec fn deletes_only(actions: ActionsView, aci: Seq<u8>) -> bool {
    &&& actions.delete_members.len() == 1
    &&& actions.delete_members[0] == aci
    &&& is_empty(ActionsView { delete_members: Seq::empty(), ..actions })
}

/// Whether a change adds one ordinary member and does nothing else.
pub open spec fn adds_only(actions: ActionsView, aci: Seq<u8>, by_link: bool) -> bool {
    &&& actions.add_members.len() == 1
    &&& actions.add_members[0].member == aci
    &&& actions.add_members[0].role == Role::Default
    &&& actions.add_members[0].join_from_invite_link == by_link
    &&& is_empty(ActionsView { add_members: Seq::empty(), ..actions })
}

/// Whether a change invites one person and does nothing else.
pub open spec fn invites_only(
    actions: ActionsView,
    invitee: ServiceIdView,
    inviter: Seq<u8>,
) -> bool {
    &&& actions.add_members_pending_profile_key.len() == 1
    &&& actions.add_members_pending_profile_key[0].invitee == invitee
    &&& actions.add_members_pending_profile_key[0].inviter == inviter
    &&& actions.add_members_pending_profile_key[0].role == Role::Default
    &&& is_empty(ActionsView { add_members_pending_profile_key: Seq::empty(), ..actions })
}

/// Whether a change takes one invitation back and does nothing else.
pub open spec fn uninvites_only(actions: ActionsView, invitee: ServiceIdView) -> bool {
    &&& actions.delete_members_pending_profile_key.len() == 1
    &&& actions.delete_members_pending_profile_key[0] == invitee
    &&& is_empty(ActionsView { delete_members_pending_profile_key: Seq::empty(), ..actions })
}

/// Who is invited is noted with whoever invited them; an invitation that is accepted makes a
/// member, and one that is declined, or revoked, is gone.
pub proof fn law_updates_of_invitations_change_that_invitation(
    update: UpdateView,
    our_aci: Seq<u8>,
)
    ensures
        ({
            let (editor, planned) = group_change::planned(update, our_aci);
            let actions = planned->0;
            &&& update matches UpdateView::SelfInvitedToGroupUpdate { inviter_aci } ==> {
                &&& is_editor(editor, inviter_aci)
                &&& planned is Some
                &&& editor is Some ==> invites_only(
                    actions,
                    ServiceIdView::Aci(our_aci),
                    editor->0,
                )
                &&& editor is None ==> invites_only(actions, ServiceIdView::Aci(our_aci), our_aci)
            }
            &&& update matches UpdateView::SelfInvitedOtherUserToGroupUpdate { invitee_service_id }
                ==> {
                let invitee = service_id::service_id_of_bytes(invitee_service_id);
                &&& editor == Some(our_aci)
                &&& planned is Some <==> invitee is Some
                &&& planned is Some ==> invites_only(actions, invitee->0, our_aci)
            }
            &&& update matches UpdateView::GroupInvitationAcceptedUpdate { new_member_aci } ==> {
                &&& is_editor(editor, Some(new_member_aci))
                &&& planned is Some <==> new_member_aci.len() == 16
                &&& planned is Some ==> {
                    &&& actions.promote_members_pending_profile_key.len() == 1
                    &&& actions.promote_members_pending_profile_key[0] == new_member_aci
                    &&& is_empty(
                        ActionsView {
                            promote_members_pending_profile_key: Seq::empty(),
                            ..actions
                        },
                    )
                }
            }
            &&& update matches UpdateView::GroupInvitationDeclinedUpdate {
                inviter_aci,
                invitee_aci,
            } ==> {
                let known = invitee_aci is Some && invitee_aci->0.len() == 16;
                &&& known ==> editor == invitee_aci && planned is Some && uninvites_only(
                    actions,
                    ServiceIdView::Aci(invitee_aci->0),
                )
                &&& !known ==> is_editor(editor, inviter_aci) && planned is None
            }
            &&& update matches UpdateView::GroupSelfInvitationRevokedUpdate { revoker_aci } ==> {
                &&& is_editor(editor, revoker_aci)
                &&& planned is Some
                &&& uninvites_only(actions, ServiceIdView::Aci(our_aci))
            }
            &&& update matches UpdateView::GroupInvitationRevokedUpdate { updater_aci, invitees }
                ==> {
                &&& is_editor(editor, updater_aci)
                &&& planned is Some
                &&& actions.delete_members_pending_profile_key == group_change::invitees_of(
                    invitees,
                )
                &&& is_empty(
                    ActionsView { delete_members_pending_profile_key: Seq::empty(), ..actions },
                )
            }
        }),
{
}

/// An invitation is of the account identity, or of the phone number identity where there is no
/// account identity.
pub open spec fn is_invitee(invitee: InviteeView, id: ServiceIdView) -> bool {
    let has_aci = invitee.invitee_aci is Some && invitee.invitee_aci->0.len() == 16;
    let has_pni = invitee.invitee_pni is Some && invitee.invitee_pni->0.len() == 16;
    match id {
        ServiceIdView::Aci(aci) => has_aci && invitee.invitee_aci == Some(aci),
        ServiceIdView::Pni(pni) => !has_aci && has_pni && invitee.invitee_pni == Some(pni),
    }
}

/// Every invitation that is revoked is taken back, and no other.
pub proof fn law_every_revoked_invitation_is_taken_back(
    invitees: Seq<InviteeView>,
    id: ServiceIdView,
)
    ensures
        group_change::invitees_of(invitees).contains(id) <==> exists|i: int|
            0 <= i < invitees.len() && is_invitee(#[trigger] invitees[i], id),
    decreases invitees.len(),
{
    if invitees.len() > 0 {
        let before = invitees.drop_last();
        let end = invitees.len() - 1;
        let first = group_change::invitees_of(before);
        let all = group_change::invitees_of(invitees);
        law_every_revoked_invitation_is_taken_back(before, id);
        if all.contains(id) {
            let k = choose|k: int| 0 <= k < all.len() && all[k] == id;
            if k < first.len() {
                assert(first[k] == id);
                assert(first.contains(id));
                let i = choose|i: int| 0 <= i < before.len() && is_invitee(
                    #[trigger] before[i],
                    id,
                );
                assert(is_invitee(invitees[i], id));
            } else {
                assert(is_invitee(invitees[end], id));
            }
        }
        if exists|i: int| 0 <= i < invitees.len() && is_invitee(#[trigger] invitees[i], id) {
            let i = choose|i: int| 0 <= i < invitees.len() && is_invitee(
                #[trigger] invitees[i],
                id,
            );
            if i < end {
                assert(is_invitee(before[i], id));
                let k = choose|k: int| 0 <= k < first.len() && first[k] == id;
                assert(all[k] == id);
            } else {
                assert(all[all.len() - 1] == id);
            }
        }
    }
}

/// Who asks to join is noted; who is let in becomes an ordinary member, and who is not, or no
/// longer wants to, is gone.
pub proof fn law_updates_of_requests_change_that_request(
    update: UpdateView,
    our_aci: Seq<u8>,
)
    ensures
        ({
            let (editor, planned) = group_change::planned(update, our_aci);
            let actions = planned->0;
            &&& update matches UpdateView::GroupJoinRequestUpdate { requestor_aci } ==> {
                &&& is_editor(editor, Some(requestor_aci))
                &&& planned is Some <==> requestor_aci.len() == 16
                &&& planned is Some ==> {
                    &&& actions.add_members_pending_admin_approval.len() == 1
                    &&& actions.add_members_pending_admin_approval[0] == requestor_aci
                    &&& is_empty(
                        ActionsView { add_members_pending_admin_approval: Seq::empty(), ..actions },
                    )
                }
            }
            &&& update matches UpdateView::GroupJoinRequestApprovalUpdate {
                requestor_aci,
                updater_aci,
                was_approved,
            } ==> {
                &&& is_editor(editor, updater_aci)
                &&& planned is Some <==> requestor_aci.len() == 16
                &&& planned is Some && was_approved ==> {
                    &&& actions.promote_members_pending_admin_approval.len() == 1
                    &&& actions.promote_members_pending_admin_approval[0].member == requestor_aci
                    &&& actions.promote_members_pending_admin_approval[0].role == Role::Default
                    &&& is_empty(
                        ActionsView {
                            promote_members_pending_admin_approval: Seq::empty(),
                            ..actions
                        },
                    )
                }
                &&& planned is Some && !was_approved ==> refuses_only(actions, requestor_aci)
            }
            &&& update matches UpdateView::GroupJoinRequestCanceledUpdate { requestor_aci } ==> {
                &&& is_editor(editor, Some(requestor_aci))
                &&& planned is Some <==> requestor_aci.len() == 16
                &&& planned is Some ==> refuses_only(actions, requestor_aci)
            }
            &&& update matches UpdateView::GroupSequenceOfRequestsAndCancelsUpdate { requestor_aci }
                ==> {
                &&& is_editor(editor, Some(requestor_aci))
                &&& planned is Some <==> requestor_aci.len() == 16
                &&& planned is Some ==> refuses_only(actions, requestor_aci)
            }
        }),
{
}

/// Whether a change takes one request back and does nothing else.
pub open spec fn refuses_only(actions: ActionsView, aci: Seq<u8>) -> bool {
    &&& actions.delete_members_pending_admin_approval.len() == 1
    &&& actions.delete_members_pending_admin_approval[0] == aci
    &&& is_empty(ActionsView { delete_members_pending_admin_approval: Seq::empty(), ..actions })
}

/// An update that says nothing of what was changed names at most its editor, and a migration not
/// even that.
pub proof fn law_updates_that_say_nothing_change_nothing(
    update: UpdateView,
    our_aci: Seq<u8>,
)
    ensures
        ({
            let (editor, planned) = group_change::planned(update, our_aci);
            &&& update matches UpdateView::GenericGroupUpdate { updater_aci } ==> is_editor(
                editor,
                updater_aci,
            ) && planned is None
            &&& update matches UpdateView::GroupCreationUpdate { updater_aci } ==> is_editor(
                editor,
                updater_aci,
            ) && planned is None
            &&& update matches UpdateView::GroupUnknownInviteeUpdate { inviter_aci } ==> is_editor(
                editor,
                inviter_aci,
            ) && planned is None
            &&& update is GroupV2MigrationUpdate || update is GroupV2MigrationSelfInvitedUpdate
                || update is GroupV2MigrationInvitedMembersUpdate
                || update is GroupV2MigrationDroppedMembersUpdate ==> editor is None
                && planned is None
        }),
{
}

/// What an update leads to is read off it in the same way wherever it is read.
pub proof fn law_an_update_is_planned_as_it_says(
    update: frames::Update,
    our_aci: Aci,
    r: (Option<Aci>, Option<Actions>),
)
    requires
        call_ensures(group_change::plan, (&update, our_aci), r),
    ensures
        r.0 is Some <==> group_change::planned(update.deep_view(), our_aci.uuid.bytes@).0 is Some,
        r.0 is Some ==> Some(r.0->0.uuid.bytes@) == group_change::planned(
            update.deep_view(),
            our_aci.uuid.bytes@,
        ).0,
        r.1.deep_view() == group_change::planned(update.deep_view(), our_aci.uuid.bytes@).1,
{
}

/// A batch with a creation is a creation, by whoever it names; any other is a change.
pub proof fn law_a_creation_is_a_creation(
    updates: Vec<GroupChangeUpdate>,
    buildable: Vec<bool>,
    our_aci: Aci,
    fallback_editor: Aci,
    r: (Aci, GroupUpdatePlan),
)
    requires
        call_ensures(
            group_change::plan_group_update,
            (&updates, &buildable, our_aci, fallback_editor),
            r,
        ),
        buildable@.len() == updates@.len(),
    ensures
        r.1 is Created <==> exists|i: int|
            0 <= i < updates@.len() && creates(#[trigger] updates.deep_view()[i]),
        updates@.len() == 0 ==> r.0.uuid.bytes@ == fallback_editor.uuid.bytes@,
        updates@.len() == 0 ==> r.1 is Change && is_empty(r.1.deep_view()->Change_0),
{
    assert(updates.deep_view().len() == updates@.len());
    lemma_creation(updates.deep_view());
}

/// Whether an update says that the group was created.
pub open spec fn creates(update: GroupChangeUpdateView) -> bool {
    update.update is Some && update.update->0 is GroupCreationUpdate
}

proof fn lemma_creation(updates: Seq<GroupChangeUpdateView>)
    ensures
        group_change::creation_of(updates) is Some <==> exists|i: int|
            0 <= i < updates.len() && creates(#[trigger] updates[i]),
    decreases updates.len(),
{
    if updates.len() > 0 {
        let rest = updates.skip(1);
        lemma_creation(rest);
        if creates(updates[0]) {
        } else {
            if group_change::creation_of(rest) is Some {
                let i = choose|i: int| 0 <= i < rest.len() && creates(#[trigger] rest[i]);
                assert(creates(updates[i + 1]));
            }
            if exists|i: int| 0 <= i < updates.len() && creates(#[trigger] updates[i]) {
                let i = choose|i: int| 0 <= i < updates.len() && creates(#[trigger] updates[i]);
                assert(creates(rest[i - 1]));
            }
        }
    }
}

/// A batch of one update does what that update says, if it can be built; its editor is whoever
/// it names, and the fallback where it names nobody.
pub proof fn law_one_update_is_planned_alone(
    update: GroupChangeUpdateView,
    can_build: bool,
    our_aci: Seq<u8>,
    fallback_editor: Seq<u8>,
)
    requires
        update.update is Some,
        !creates(update),
    ensures
        ({
            let (editor, plan) = group_change::planned_group_update(
                seq![update],
                seq![can_build],
                our_aci,
                fallback_editor,
            );
            let (named, actions) = group_change::planned(update.update->0, our_aci);
            &&& named is Some ==> editor == named->0
            &&& named is None ==> editor == fallback_editor
            &&& plan is Change
            &&& actions is Some && can_build ==> plan->Change_0 == actions->0
            &&& actions is None || !can_build ==> is_empty(plan->Change_0)
        }),
{
    reveal_with_fuel(group_change::actions_of, 2);
    reveal_with_fuel(group_change::editor_of, 2);
    reveal_with_fuel(group_change::creation_of, 2);
    let one = seq![update];
    assert(one.drop_last() =~= Seq::<GroupChangeUpdateView>::empty());
    assert(one.skip(1) =~= Seq::<GroupChangeUpdateView>::empty());
    assert(one.last() == update);
    if let Some(actions) = group_change::planned(update.update->0, our_aci).1 {
        group_change::law_merge_unit(actions);
    }
}

/// A planned creation needs nothing else; a planned change is sealed with its encrypted form, and
/// not without. Its editor stays.
pub proof fn law_a_change_is_sealed_encrypted(
    editor: Aci,
    plan: GroupUpdatePlan,
    encrypted: Option<Vec<u8>>,
    r: Option<(Aci, GroupUpdate)>,
)
    requires
        call_ensures(group_change::seal_group_update, (editor, plan, encrypted), r),
    ensures
        plan is Created ==> r == Some((editor, GroupUpdate::Created)),
        plan is Change && encrypted is Some ==> r == Some(
            (editor, GroupUpdate::Change(encrypted->0)),
        ),
        plan is Change && encrypted is None ==> r is None,
{
}

/// Merging changes makes one of both.
pub proof fn law_merging_makes_one_of_both(into: &mut Actions, from: Actions)
    requires
        call_ensures(group_change::merge_actions, (into, from), ()),
    ensures
        final(into).deep_view() == group_change::merged(old(into).deep_view(), from.deep_view()),
{
}

/// A batch is planned by all its updates.
pub proof fn law_a_batch_is_planned_by_its_updates(
    updates: Vec<GroupChangeUpdate>,
    buildable: Vec<bool>,
    our_aci: Aci,
    fallback_editor: Aci,
    r: (Aci, GroupUpdatePlan),
)
    requires
        call_ensures(
            group_change::plan_group_update,
            (&updates, &buildable, our_aci, fallback_editor),
            r,
        ),
    ensures
        (r.0.uuid.bytes@, r.1.deep_view()) == group_change::planned_group_update(
            updates.deep_view(),
            buildable@,
            our_aci.uuid.bytes@,
            fallback_editor.uuid.bytes@,
        ),
{
}

/// An invitation is taken back, behind those before it, exactly where it names somebody.
pub proof fn law_each_invitation_counts_for_itself(
    invitees: Seq<InviteeView>,
    invitee: InviteeView,
    id: ServiceIdView,
)
    ensures
        is_invitee(invitee, id) ==> group_change::invitees_of(invitees.push(invitee))
            == group_change::invitees_of(invitees).push(id),
        (forall|any: ServiceIdView| !is_invitee(invitee, any)) ==> group_change::invitees_of(
            invitees.push(invitee),
        ) == group_change::invitees_of(invitees),
{
    assert(invitees.push(invitee).drop_last() =~= invitees);
    assert(invitees.push(invitee).last() == invitee);
    if forall|any: ServiceIdView| !is_invitee(invitee, any) {
        if group_change::invitee_of(invitee) is Some {
            assert(is_invitee(invitee, group_change::invitee_of(invitee)->0));
        }
    }
}

} // verus!

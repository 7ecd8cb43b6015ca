//! What saving a message promises.
use vstd::prelude::*;

use crate::errors::Error;
use crate::model::calls;
use crate::model::calls::GroupIdentity;
use crate::model::contacts::{Contact, ContactView};
use crate::model::groups::Group;
use crate::model::profile::{ProfileKey, ProfileName};
use crate::proto::{
    AddressableMessageView, AuthorView, Content, ContentBodyView, ContentView, DataMessage,
    DataMessageView, EditMessageView, MessageDeletesView, Metadata, SyncMessageView,
};
use crate::service_id;
use crate::service_id::{Aci, ServiceId, Uuid};
use crate::store::{Thread, ThreadError};

use super::save;
use super::save::{DeleteTargetView, ProfileUpdate, SaveOutcome, SaveOutcomeView, SavePlan};

verus! {

/// A content that carries a data message: one that was received, or one that another device of
/// this account sent.
pub open spec fn carries(content: ContentView, message: DataMessageView) -> bool {
    ||| content.body == ContentBodyView::DataMessage(message)
    ||| (content.body matches ContentBodyView::SynchronizeMessage(sync) && sync.sent is Some
        && sync.sent->0.message == Some(message))
}

/// A message that takes nothing back is kept, with a person and in a group alike.
pub proof fn law_messages_are_kept(
    content: Content,
    thread: Thread,
    message: DataMessageView,
    plan: SavePlan,
)
    requires
        call_ensures(save::save_message, (&content, &thread), plan),
        carries(content.deep_view(), message),
        message.delete is None || message.delete->0.target_sent_timestamp is None,
    ensures
        plan.outcome is Keep,
{
    assert(plan.deep_view().outcome is Keep);
}

/// A message that takes another one back leads to that one, by its time.
pub proof fn law_a_deletion_finds_its_target(
    content: Content,
    thread: Thread,
    message: DataMessageView,
    plan: SavePlan,
)
    requires
        call_ensures(save::save_message, (&content, &thread), plan),
        carries(content.deep_view(), message),
        message.delete is Some,
        message.delete->0.target_sent_timestamp is Some,
    ensures
        plan.outcome matches SaveOutcome::LookUp { timestamp } && timestamp
            == message.delete->0.target_sent_timestamp->0,
{
    assert(plan.deep_view().outcome == plan.outcome.deep_view());
}

/// The thread decides nothing but whether a timer is noted: what becomes of a content, and of
/// the profile key in it, is the same in every thread.
pub proof fn law_the_thread_decides_nothing_else(
    content: Content,
    thread: Thread,
    other_thread: Thread,
    plan: SavePlan,
    other_plan: SavePlan,
)
    requires
        call_ensures(save::save_message, (&content, &thread), plan),
        call_ensures(save::save_message, (&content, &other_thread), other_plan),
    ensures
        plan.outcome.deep_view() == other_plan.outcome.deep_view(),
        plan.profile.deep_view() == other_plan.profile.deep_view(),
{
    assert(plan.deep_view().outcome == plan.outcome.deep_view());
    assert(other_plan.deep_view().outcome == other_plan.outcome.deep_view());
    assert(plan.deep_view().profile == plan.profile.deep_view());
    assert(other_plan.deep_view().profile == other_plan.profile.deep_view());
}

/// The timer of a thread with a person follows every message in it: none is no timer, and no
/// version is the first. The timer of a group does not: the group has its own.
pub proof fn law_timers_follow_messages_of_people(
    content: Content,
    thread: Thread,
    message: DataMessageView,
    plan: SavePlan,
)
    requires
        call_ensures(save::save_message, (&content, &thread), plan),
        carries(content.deep_view(), message),
    ensures
        thread is Group ==> plan.timer is None,
        thread is Contact ==> plan.timer is Some,
        thread is Contact && message.expire_timer is Some ==> plan.timer->0.timer
            == message.expire_timer->0,
        thread is Contact && message.expire_timer is None ==> plan.timer->0.timer == 0,
        thread is Contact && message.expire_timer_version is Some ==> plan.timer->0.version
            == message.expire_timer_version->0,
        thread is Contact && message.expire_timer_version is None ==> plan.timer->0.version == 1,
{
    assert(plan.deep_view().timer == plan.timer.deep_view());
}

/// A proper profile key in a message is its sender's, and comes with the timer of the message.
/// Bytes of another length are none.
pub proof fn law_a_profile_key_belongs_to_the_sender(
    content: Content,
    thread: Thread,
    message: DataMessageView,
    plan: SavePlan,
)
    requires
        call_ensures(save::save_message, (&content, &thread), plan),
        carries(content.deep_view(), message),
    ensures
        plan.profile is Some <==> message.profile_key is Some && message.profile_key->0.len() == 32,
        plan.profile is Some ==> {
            &&& plan.profile->0.sender.deep_view() == content.deep_view().metadata.sender
            &&& plan.profile->0.profile_key.bytes@ == message.profile_key->0
            &&& plan.profile->0.expire_timer == message.expire_timer
            &&& plan.profile->0.expire_timer_version == message.expire_timer_version
        },
{
    assert(plan.deep_view().profile == plan.profile.deep_view());
}

/// A content without a data message says nothing of profiles and timers. An edit that is whole
/// is carried out; calls, receipts and empty messages are kept; a half edit, and everything else
/// that is no synchronisation, is not.
pub proof fn law_other_contents_change_nothing_else(
    content: Content,
    thread: Thread,
    plan: SavePlan,
)
    requires
        call_ensures(save::save_message, (&content, &thread), plan),
        !(content.body is DataMessage) && !(content.body is SynchronizeMessage),
    ensures
        plan.profile is None,
        plan.timer is None,
        content.body is NullMessage || content.body is CallMessage || content.body is ReceiptMessage
            ==> plan.outcome is Keep,
        content.body is TypingMessage || content.body is StoryMessage
            || content.body is PniSignatureMessage || content.body is DecryptionErrorMessage
            ==> plan.outcome is Skip,
        content.deep_view().body matches ContentBodyView::EditMessage(edit)
            ==> outcome_of_edit(plan.outcome.deep_view(), edit),
{
    assert(plan.deep_view().outcome == plan.outcome.deep_view());
    assert(plan.deep_view().timer == plan.timer.deep_view());
    assert(plan.deep_view().profile == plan.profile.deep_view());
}

/// An edit is carried out where it names what it replaces and what with, and only there.
pub open spec fn outcome_of_edit(outcome: SaveOutcomeView, edit: EditMessageView) -> bool {
    if edit.target_sent_timestamp is Some && edit.data_message is Some {
        outcome == SaveOutcomeView::Edit {
            target: edit.target_sent_timestamp->0,
            message: edit.data_message->0,
        }
    } else {
        outcome is Skip
    }
}

/// What another device of this account did: a deletion is carried out here too, then an edit,
/// then a call is kept. Anything else is not for the store.
pub proof fn law_other_devices_are_followed(
    content: Content,
    thread: Thread,
    sync: SyncMessageView,
    plan: SavePlan,
)
    requires
        call_ensures(save::save_message, (&content, &thread), plan),
        content.deep_view().body == ContentBodyView::SynchronizeMessage(sync),
        sync.sent is None || sync.sent->0.message is None,
    ensures
        plan.profile is None,
        plan.timer is None,
        sync.delete_for_me is Some ==> plan.outcome is DeleteForMe,
        sync.delete_for_me is None && sync.sent is None && sync.call_event is Some
            ==> plan.outcome is Keep,
        sync.delete_for_me is None && sync.sent is None && sync.call_event is None
            ==> plan.outcome is Skip,
        sync.delete_for_me is None && sync.sent is Some && sync.sent->0.edit_message is Some
            && sync.call_event is None ==> outcome_of_edit(
            plan.outcome.deep_view(),
            sync.sent->0.edit_message->0,
        ),
        sync.delete_for_me is None && sync.sent is Some && sync.sent->0.edit_message is Some
            && sync.sent->0.edit_message->0.target_sent_timestamp is Some
            && sync.sent->0.edit_message->0.data_message is Some ==> outcome_of_edit(
            plan.outcome.deep_view(),
            sync.sent->0.edit_message->0,
        ),
{
    assert(plan.deep_view().outcome == plan.outcome.deep_view());
    assert(plan.deep_view().timer == plan.timer.deep_view());
    assert(plan.deep_view().profile == plan.profile.deep_view());
}

/// A message that is named by its author and its time.
pub open spec fn names(message: AddressableMessageView, target: DeleteTargetView) -> bool {
    &&& message.sent_timestamp == Some(target.timestamp)
    &&& match message.author {
        Some(AuthorView::AuthorServiceId(text)) => service_id::service_id_of_text(text) == Some(
            target.sender,
        ),
        Some(AuthorView::AuthorServiceIdBinary(bytes)) => service_id::service_id_of_bytes(bytes)
            == Some(target.sender),
        _ => false,
    }
}

/// Every message that a deletion names is deleted, and no other.
pub proof fn law_exactly_the_named_messages_are_deleted(
    deletes: Seq<MessageDeletesView>,
    target: DeleteTargetView,
)
    ensures
        save::targets_of(deletes).contains(target) <==> exists|i: int, j: int|
            0 <= i < deletes.len() && 0 <= j < deletes[i].messages.len() && names(
                #[trigger] deletes[i].messages[j],
                target,
            ),
    decreases deletes.len(),
{
    if deletes.len() > 0 {
        let before = deletes.drop_last();
        let last = deletes[deletes.len() - 1];
        let first = save::targets_of(before);
        let rest = save::targets_in(last.messages);
        let all = save::targets_of(deletes);
        assert(all == first + rest);
        law_exactly_the_named_messages_are_deleted(before, target);
        lemma_named_in_one_chat(last.messages, target);
        if all.contains(target) {
            let k = choose|k: int| 0 <= k < all.len() && all[k] == target;
            if k < first.len() {
                assert(first[k] == target);
                assert(first.contains(target));
                let (i, j) = choose|i: int, j: int|
                    0 <= i < before.len() && 0 <= j < before[i].messages.len() && names(
                        #[trigger] before[i].messages[j],
                        target,
                    );
                assert(deletes[i] == before[i]);
                assert(names(deletes[i].messages[j], target));
            } else {
                assert(rest[k - first.len()] == target);
                assert(rest.contains(target));
                let j = choose|j: int|
                    0 <= j < last.messages.len() && names(#[trigger] last.messages[j], target);
                assert(names(deletes[deletes.len() - 1].messages[j], target));
            }
        }
        if exists|i: int, j: int|
            0 <= i < deletes.len() && 0 <= j < deletes[i].messages.len() && names(
                #[trigger] deletes[i].messages[j],
                target,
            ) {
            let (i, j) = choose|i: int, j: int|
                0 <= i < deletes.len() && 0 <= j < deletes[i].messages.len() && names(
                    #[trigger] deletes[i].messages[j],
                    target,
                );
            if i < before.len() {
                assert(before[i] == deletes[i]);
                assert(names(before[i].messages[j], target));
                let k = choose|k: int| 0 <= k < first.len() && first[k] == target;
                assert(all[k] == target);
            } else {
                assert(names(last.messages[j], target));
                let k = choose|k: int| 0 <= k < rest.len() && rest[k] == target;
                assert(all[first.len() + k] == target);
            }
        }
    }
}

proof fn lemma_named_in_one_chat(messages: Seq<AddressableMessageView>, target: DeleteTargetView)
    ensures
        save::targets_in(messages).contains(target) <==> exists|j: int|
            0 <= j < messages.len() && names(#[trigger] messages[j], target),
    decreases messages.len(),
{
    if messages.len() > 0 {
        let before = messages.drop_last();
        let last = messages[messages.len() - 1];
        let first = save::targets_in(before);
        let all = save::targets_in(messages);
        lemma_named_in_one_chat(before, target);
        if all.contains(target) {
            let k = choose|k: int| 0 <= k < all.len() && all[k] == target;
            if k < first.len() {
                assert(first[k] == target);
                assert(first.contains(target));
                let j = choose|j: int| 0 <= j < before.len() && names(
                    #[trigger] before[j],
                    target,
                );
                assert(names(messages[j], target));
            } else {
                assert(names(messages[messages.len() - 1], target));
            }
        }
        if exists|j: int| 0 <= j < messages.len() && names(#[trigger] messages[j], target) {
            let j = choose|j: int| 0 <= j < messages.len() && names(#[trigger] messages[j], target);
            if j < before.len() {
                assert(names(before[j], target));
                let k = choose|k: int| 0 <= k < first.len() && first[k] == target;
                assert(all[k] == target);
            } else {
                assert(all[all.len() - 1] == target);
            }
        }
    }
}

/// The targets in the plan are those that the deletion names.
pub proof fn law_the_plan_deletes_what_was_named(
    content: Content,
    thread: Thread,
    sync: SyncMessageView,
    plan: SavePlan,
    target: DeleteTargetView,
)
    requires
        call_ensures(save::save_message, (&content, &thread), plan),
        content.deep_view().body == ContentBodyView::SynchronizeMessage(sync),
        sync.sent is None,
        sync.delete_for_me is Some,
    ensures
        plan.outcome.deep_view()->targets.contains(target) <==> exists|i: int, j: int|
            0 <= i < sync.delete_for_me->0.message_deletes.len() && 0 <= j
                < sync.delete_for_me->0.message_deletes[i].messages.len() && names(
                #[trigger] sync.delete_for_me->0.message_deletes[i].messages[j],
                target,
            ),
{
    assert(plan.deep_view().outcome == plan.outcome.deep_view());
    law_exactly_the_named_messages_are_deleted(sync.delete_for_me->0.message_deletes, target);
}

/// A thread that the caller names is where a content goes, whatever the content says.
pub proof fn law_a_named_thread_is_taken(
    content: Content,
    named: Thread,
    groups: Vec<GroupIdentity>,
    destination: Option<ServiceId>,
    thread: Result<Thread, Error>,
)
    requires
        call_ensures(
            save::message_thread,
            (&content, Some(named), &groups, destination),
            thread,
        ),
    ensures
        thread is Ok,
        thread->Ok_0.deep_view() == named.deep_view(),
{
}

/// An edit of a known message is stored as one: under the same metadata, with what it replaces
/// and what with. One of an unknown message is not stored.
pub proof fn law_known_messages_are_edited(
    metadata: Metadata,
    target: u64,
    message: DataMessage,
    known: bool,
    content: Option<Content>,
)
    requires
        call_ensures(save::edit_message, (metadata, target, message, known), content),
    ensures
        content is Some <==> known,
        known ==> {
            &&& content->0.metadata.deep_view() == metadata.deep_view()
            &&& content->0.body is EditMessage
            &&& content->0.body->EditMessage_0.target_sent_timestamp == Some(target)
            &&& content->0.body->EditMessage_0.data_message.deep_view() == Some(
                message.deep_view(),
            )
        },
{
    if known {
        let view = content->0.deep_view();
        assert(view.body == content->0.body.deep_view());
        assert(content->0.body is EditMessage);
        assert(view.body->EditMessage_0 == content->0.body->EditMessage_0.deep_view());
    }
}

/// A profile is fetched of everybody with an account identity, but not again of somebody known
/// under the very same key.
pub proof fn law_profiles_are_fetched_once(
    known: bool,
    stored_key: Option<ProfileKey>,
    sender: ServiceId,
    profile_key: ProfileKey,
    aci: Option<Aci>,
)
    requires
        call_ensures(save::profile_needed, (known, stored_key, sender, profile_key), aci),
    ensures
        sender is Pni ==> aci is None,
        known && stored_key is Some && stored_key->0.bytes@ == profile_key.bytes@ ==> aci is None,
        sender matches ServiceId::Aci(of) ==> ((!known || stored_key is None
            || stored_key->0.bytes@ != profile_key.bytes@) ==> aci is Some
            && aci->0.uuid.bytes@ == of.uuid.bytes@),
{
}

/// A fetched profile changes the name, the key and the timer of a contact, and leaves what the
/// user chose, and how to reach them, alone.
pub proof fn law_a_profile_leaves_the_rest_alone(
    existing: Option<Contact>,
    uuid: Uuid,
    name: Option<ProfileName>,
    update: ProfileUpdate,
    contact: Contact,
)
    requires
        call_ensures(
            save::upsert_contact_from_profile,
            (existing, uuid, name, &update),
            contact,
        ),
    ensures
        contact.profile_key@ == update.profile_key.bytes@,
        update.expire_timer is Some ==> contact.expire_timer == update.expire_timer->0,
        update.expire_timer is None ==> contact.expire_timer == 0,
        name is Some && name->0.given_name@.len() > 0 && name->0.family_name is None
            ==> contact.name@ == name->0.given_name@,
        name is Some && name->0.family_name is Some ==> contact.name@ == name->0.given_name@ + seq![
            ' ',
        ] + name->0.family_name->0@,
        existing is None ==> contact.uuid.bytes@ == uuid.bytes@,
        existing matches Some(before) ==> {
            &&& contact.uuid.bytes@ == before.uuid.bytes@
            &&& name is None ==> contact.name@ == before.name@
            &&& contact.expire_timer_version >= before.expire_timer_version
            &&& update.expire_timer_version is None ==> contact.expire_timer_version
                == before.expire_timer_version
            &&& update.expire_timer_version is Some && update.expire_timer_version->0
                >= before.expire_timer_version ==> contact.expire_timer_version
                == update.expire_timer_version->0
            &&& contact.phone_number.deep_view() == before.phone_number.deep_view()
            &&& contact.verified.deep_view() == before.verified.deep_view()
            &&& contact.inbox_position == before.inbox_position
            &&& contact.avatar.deep_view() == before.avatar.deep_view()
            &&& contact.pni.deep_view() == before.pni.deep_view()
            &&& contact.username.deep_view() == before.username.deep_view()
            &&& contact.blocked == before.blocked
            &&& contact.whitelisted == before.whitelisted
            &&& contact.archived == before.archived
            &&& contact.marked_unread == before.marked_unread
            &&& contact.muted_until_timestamp == before.muted_until_timestamp
            &&& contact.hide_story == before.hide_story
            &&& contact.hidden == before.hidden
            &&& contact.unregistered_at_timestamp == before.unregistered_at_timestamp
            &&& contact.pni_signature_verified == before.pni_signature_verified
            &&& contact.system_given_name@ == before.system_given_name@
            &&& contact.system_family_name@ == before.system_family_name@
            &&& contact.system_nickname@ == before.system_nickname@
            &&& contact.nickname_given_name@ == before.nickname_given_name@
            &&& contact.nickname_family_name@ == before.nickname_family_name@
            &&& contact.note@ == before.note@
        },
{
    broadcast use crate::text::lemma_bytes_view;

    let after: ContactView = contact.deep_view();
    assert(after.profile_key == contact.profile_key.deep_view());
    assert(after.name == contact.name@);
    assert(update.deep_view().profile_key == update.profile_key.bytes@);
    assert(after.phone_number == contact.phone_number.deep_view());
    assert(after.avatar == contact.avatar.deep_view());
    assert(after.pni == contact.pni.deep_view());
    assert(after.username == contact.username.deep_view());
    if let Some(before) = existing {
        assert(existing.deep_view() == Some(before.deep_view()));
    }
}

/// A group is fetched where it is not known, or where a message speaks of a later revision.
pub proof fn law_groups_are_fetched_when_they_changed(
    stored: Option<Group>,
    revision: u32,
    fetch: bool,
)
    requires
        call_ensures(save::needs_group, (&stored, revision), fetch),
    ensures
        stored is None ==> fetch,
        stored is Some ==> (fetch <==> stored->0.revision < revision),
{
}

/// Each chat of a deletion adds the messages that it names, in their order, and a message that is
/// not named properly adds none.
pub proof fn law_each_named_message_counts_for_itself(
    deletes: Seq<MessageDeletesView>,
    chat: MessageDeletesView,
    messages: Seq<AddressableMessageView>,
    message: AddressableMessageView,
    target: DeleteTargetView,
)
    ensures
        save::targets_of(deletes.push(chat)) == save::targets_of(deletes) + save::targets_in(
            chat.messages,
        ),
        names(message, target) ==> save::targets_in(messages.push(message)) == save::targets_in(
            messages,
        ).push(target),
        (forall|any: DeleteTargetView| !names(message, any)) ==> save::targets_in(
            messages.push(message),
        ) == save::targets_in(messages),
{
    assert(deletes.push(chat).drop_last() =~= deletes);
    assert(deletes.push(chat).last() == chat);
    assert(messages.push(message).drop_last() =~= messages);
    assert(messages.push(message).last() == message);
    if forall|any: DeleteTargetView| !names(message, any) {
        if save::target_of(message) is Some {
            assert(names(message, save::target_of(message)->0));
        }
    }
}

/// Where the caller names no thread, a call goes to the thread with its other side, and anything
/// else to the thread that the content itself belongs to.
pub proof fn law_contents_find_their_own_thread(
    content: Content,
    groups: Vec<GroupIdentity>,
    destination: Option<ServiceId>,
    call: Option<Thread>,
    own: Result<Thread, ThreadError>,
    thread: Result<Thread, Error>,
)
    requires
        call_ensures(
            save::message_thread,
            (&content, None::<Thread>, &groups, destination),
            thread,
        ),
        call_ensures(calls::resolve_call_thread, (&content, &groups), call),
        call_ensures(Thread::try_from_content, (&content, destination), own),
    ensures
        call is Some ==> thread is Ok && thread->Ok_0.deep_view() == call->0.deep_view(),
        call is None ==> (thread is Ok <==> own is Ok),
        call is None && own is Ok ==> thread->Ok_0.deep_view() == own->Ok_0.deep_view(),
        call is None && own is Err ==> thread == Err::<Thread, Error>(
            Error::InvalidThread(own->Err_0),
        ),
{
    if call is Some {
        assert(call.deep_view() == Some(call->0.deep_view()));
    }
}

} // verus!

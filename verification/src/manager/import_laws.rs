//! What importing a backup promises.
use vstd::prelude::*;

use crate::backup::convert;
use crate::backup::convert::RecipientInfo;
use crate::backup::frames;
use crate::backup::frames::FrameItemView;
use crate::backup::{ArchiveReply, TransferArchive};
use crate::errors::Error;
use crate::model::calls;
use crate::model::calls::{CallEventInfoView, CallPeerView};
use crate::model::contacts::{PhoneNumber, PhoneNumberView};
use crate::proto::ContentView;
use crate::service_id::{Aci, ServiceIdView};
use crate::store::{Thread, ThreadView};

use super::import;
use super::import::{ArchiveSource, ImportAction, ImportActionView, ImportState};

verus! {

/// An import starts with nothing known.
pub proof fn law_an_import_starts_with_nothing(state: ImportState)
    requires
        call_ensures(ImportState::new, (), state),
    ensures
        forall|id: u64| !(#[trigger] state.recipients@.contains_key(id)),
        forall|id: u64| !(#[trigger] state.chats@.contains_key(id)),
{
}

/// A person in the backup is known from then on by the identity that the backup has for them, a
/// group by its key, and this account by its own. What was known of others stays.
pub proof fn law_recipients_are_remembered(
    before: Map<u64, RecipientInfo>,
    after: Map<u64, RecipientInfo>,
    recipient: frames::RecipientView,
    our_aci: Seq<u8>,
    other: u64,
)
    requires
        import::recipients_after(before, after, FrameItemView::Recipient(recipient), our_aci),
    ensures
        other != recipient.id ==> (after.contains_key(other) <==> before.contains_key(other)),
        other != recipient.id && before.contains_key(other) ==> after[other] == before[other],
        recipient.destination matches Some(frames::DestinationView::Self_) ==> after.contains_key(
            recipient.id,
        ) && after[recipient.id].deep_view().service_id == Some(ServiceIdView::Aci(our_aci)),
        recipient.destination matches Some(frames::DestinationView::Contact(contact)) ==> {
            &&& after.contains_key(recipient.id)
            &&& contact.aci is Some && contact.aci->0.len() == 16
                ==> after[recipient.id].deep_view().service_id == Some(
                ServiceIdView::Aci(contact.aci->0),
            )
            &&& after[recipient.id].deep_view().group_master_key is None
        },
        recipient.destination matches Some(frames::DestinationView::Group(group)) ==> (
        group.master_key.len() == 32 ==> after.contains_key(recipient.id)
            && after[recipient.id].deep_view().group_master_key == Some(group.master_key)),
{
}

/// A chat with somebody known is remembered as the thread with them; what was remembered of other
/// chats stays.
pub proof fn law_chats_are_remembered(
    before: Map<u64, Thread>,
    after: Map<u64, Thread>,
    chat: frames::ChatView,
    recipients: Map<u64, RecipientInfo>,
    other: u64,
)
    requires
        import::chats_after(before, after, FrameItemView::Chat(chat), recipients),
    ensures
        other != chat.id ==> (after.contains_key(other) <==> before.contains_key(other)),
        other != chat.id && before.contains_key(other) ==> after[other] == before[other],
        recipients.contains_key(chat.recipient_id) ==> {
            let known = recipients[chat.recipient_id].deep_view();
            &&& known.group_master_key is Some ==> after.contains_key(chat.id)
                && after[chat.id].deep_view() == ThreadView::Group(known.group_master_key->0)
            &&& known.group_master_key is None && known.service_id is Some ==> after.contains_key(
                chat.id,
            ) && after[chat.id].deep_view() == ThreadView::Contact(known.service_id->0)
        },
{
}

/// A frame that is no recipient changes nothing of whom is known, and one that is no chat nothing
/// of the chats.
pub proof fn law_other_frames_change_nothing(
    recipients: Map<u64, RecipientInfo>,
    recipients_now: Map<u64, RecipientInfo>,
    chats: Map<u64, Thread>,
    chats_now: Map<u64, Thread>,
    item: FrameItemView,
    our_aci: Seq<u8>,
    phone_number: Option<PhoneNumberView>,
    group_id: Seq<u8>,
)
    requires
        import::recipients_after(recipients, recipients_now, item, our_aci),
        import::chats_after(chats, chats_now, item, recipients),
    ensures
        !(item is Recipient) ==> recipients_now == recipients,
        !(item is Chat) ==> chats_now == chats,
        item is Chat || item is Other ==> import::frame_actions(
            item,
            recipients,
            chats,
            our_aci,
            phone_number,
            group_id,
        ).len() == 0,
{
}

/// A recipient frame leads to one thing: the contact is saved, or the group.
pub proof fn law_people_and_groups_are_saved(
    recipient: frames::RecipientView,
    recipients: Map<u64, RecipientInfo>,
    chats: Map<u64, Thread>,
    our_aci: Seq<u8>,
    phone_number: Option<PhoneNumberView>,
    group_id: Seq<u8>,
)
    ensures
        ({
            let actions = import::frame_actions(
                FrameItemView::Recipient(recipient),
                recipients,
                chats,
                our_aci,
                phone_number,
                group_id,
            );
            &&& recipient.destination matches Some(frames::DestinationView::Contact(contact)) ==> {
                &&& contact.aci is Some && contact.aci->0.len() == 16 ==> {
                    &&& actions.len() == 1
                    &&& actions[0] is SaveContact
                    &&& actions[0]->contact.uuid == contact.aci->0
                    &&& actions[0]->contact.blocked == contact.blocked
                    &&& actions[0]->contact.phone_number == phone_number
                }
                &&& contact.aci is None || contact.aci->0.len() != 16 ==> actions.len() == 0
            }
            &&& recipient.destination matches Some(frames::DestinationView::Group(group)) ==> {
                &&& group.master_key.len() == 32 ==> {
                    &&& actions.len() == 1
                    &&& actions[0] is SaveGroup
                    &&& actions[0]->master_key == group.master_key
                    &&& actions[0]->group.blocked == group.blocked
                    &&& actions[0]->group.whitelisted == group.whitelisted
                }
                &&& group.master_key.len() != 32 ==> actions.len() == 0
            }
            &&& recipient.destination is None ==> actions.len() == 0
        }),
{
}

/// Every content of a chat item is saved in its thread, a call in it is noted for that thread as
/// well, and what the backup says of the item is restored; nothing else comes of it.
pub proof fn law_everything_in_an_item_is_saved(
    item: frames::ChatItemView,
    recipients: Map<u64, RecipientInfo>,
    chats: Map<u64, Thread>,
    our_aci: Seq<u8>,
    phone_number: Option<PhoneNumberView>,
    group_id: Seq<u8>,
    action: ImportActionView,
)
    requires
        chats.contains_key(item.chat_id),
    ensures
        ({
            let thread = chats[item.chat_id].deep_view();
            let contents = convert::item_contents(item, thread, recipients, our_aci, group_id);
            let state = convert::backup_state_of(item, recipients, chats);
            import::frame_actions(
                FrameItemView::ChatItem(item),
                recipients,
                chats,
                our_aci,
                phone_number,
                group_id,
            ).contains(action) <==> match action {
                ImportActionView::SaveMessage { content, thread } => contents.contains(
                    (content, thread),
                ),
                ImportActionView::IngestCall { info, peer } => exists|i: int|
                    0 <= i < contents.len() && notes_call(#[trigger] contents[i], info, peer),
                ImportActionView::RestoreState { state: restored } => state == Some(restored),
                _ => false,
            }
        }),
{
    let thread = chats[item.chat_id].deep_view();
    let contents = convert::item_contents(item, thread, recipients, our_aci, group_id);
    let messages = import::messages_actions(contents);
    let state = match convert::backup_state_of(item, recipients, chats) {
        Some(state) => seq![ImportActionView::RestoreState { state }],
        None => Seq::empty(),
    };
    lemma_messages(contents, action);
    lemma_concat(messages, state, action);
    if state.len() > 0 {
        assert(state.contains(state[0]));
    }
}

/// A call in a content, noted for the other side of its thread.
pub open spec fn notes_call(
    content: (ContentView, ThreadView),
    info: CallEventInfoView,
    peer: CallPeerView,
) -> bool {
    &&& calls::call_event_of(content.0.body) == Some(info)
    &&& content.1 matches ThreadView::Contact(id) ==> peer == CallPeerView::Direct(id.raw())
    &&& content.1 matches ThreadView::Group(key) ==> peer == CallPeerView::Group(key)
}

proof fn lemma_concat(a: Seq<ImportActionView>, b: Seq<ImportActionView>, action: ImportActionView)
    ensures
        (a + b).contains(action) <==> a.contains(action) || b.contains(action),
{
    let all = a + b;
    if all.contains(action) {
        let k = choose|k: int| 0 <= k < all.len() && all[k] == action;
        if k < a.len() {
            assert(a[k] == action);
        } else {
            assert(b[k - a.len()] == action);
        }
    }
    if a.contains(action) {
        let k = choose|k: int| 0 <= k < a.len() && a[k] == action;
        assert(all[k] == action);
    }
    if b.contains(action) {
        let k = choose|k: int| 0 <= k < b.len() && b[k] == action;
        assert(all[a.len() + k] == action);
    }
}

spec fn comes_of(contents: Seq<(ContentView, ThreadView)>, action: ImportActionView) -> bool {
    match action {
        ImportActionView::SaveMessage { content, thread } => contents.contains((content, thread)),
        ImportActionView::IngestCall { info, peer } => exists|i: int|
            0 <= i < contents.len() && notes_call(#[trigger] contents[i], info, peer),
        _ => false,
    }
}

proof fn lemma_messages(contents: Seq<(ContentView, ThreadView)>, action: ImportActionView)
    ensures
        import::messages_actions(contents).contains(action) <==> comes_of(contents, action),
    decreases contents.len(),
{
    if contents.len() > 0 {
        let before = contents.drop_last();
        let end = contents.len() - 1;
        let last = contents[end];
        let one = import::message_actions(last.0, last.1);
        lemma_messages(before, action);
        lemma_concat(import::messages_actions(before), one, action);
        assert(one[0] == ImportActionView::SaveMessage { content: last.0, thread: last.1 });
        if one.len() > 1 {
            assert(one.contains(one[1]));
        }
        assert(one.contains(one[0]));
        if comes_of(before, action) {
            match action {
                ImportActionView::SaveMessage { content, thread } => {
                    let k = choose|k: int| 0 <= k < before.len() && before[k] == (content, thread);
                    assert(contents[k] == (content, thread));
                },
                ImportActionView::IngestCall { info, peer } => {
                    let i = choose|i: int|
                        0 <= i < before.len() && notes_call(#[trigger] before[i], info, peer);
                    assert(notes_call(contents[i], info, peer));
                },
                _ => {},
            }
        }
        if comes_of(contents, action) && !one.contains(action) {
            match action {
                ImportActionView::SaveMessage { content, thread } => {
                    let k = choose|k: int| 0 <= k < contents.len() && contents[k] == (content, thread);
                    assert(k < end);
                    assert(before[k] == (content, thread));
                },
                ImportActionView::IngestCall { info, peer } => {
                    let i = choose|i: int|
                        0 <= i < contents.len() && notes_call(#[trigger] contents[i], info, peer);
                    assert(i < end);
                    assert(notes_call(before[i], info, peer));
                },
                _ => {},
            }
        }
        if one.contains(action) {
            assert(contents[end] == last);
            match action {
                ImportActionView::IngestCall { info, peer } => {
                    assert(notes_call(contents[end], info, peer));
                },
                _ => {},
            }
        }
    }
}

/// The group of an item is that of its chat, where that is the chat of a group.
pub proof fn law_an_item_belongs_to_the_group_of_its_chat(
    state: ImportState,
    item: frames::FrameItem,
    key: Option<[u8; 32]>,
)
    requires
        call_ensures(ImportState::group_of, (&state, &item), key),
    ensures
        !(item is ChatItem) ==> key is None,
        item matches frames::FrameItem::ChatItem(of) ==> {
            &&& !state.chats@.contains_key(of.chat_id) ==> key is None
            &&& state.chats@.contains_key(of.chat_id) ==> {
                &&& state.chats@[of.chat_id] is Contact ==> key is None
                &&& state.chats@[of.chat_id] matches Thread::Group(group) ==> key is Some
                    && key->0@ == group@
            }
        },
{
}

/// An archive can be imported with the key that the link brought, the known one first.
pub proof fn law_a_known_archive_goes_first(has_key: bool, known: bool, source: ArchiveSource)
    requires
        call_ensures(import::download_and_import_backup, (has_key, known), source),
    ensures
        source is Unavailable <==> !has_key,
        source is Known <==> has_key && known,
        source is Awaited <==> has_key && !known,
{
}

/// The archive that is offered is the one that is downloaded, to the path that was given.
pub proof fn law_the_offered_archive_is_taken(
    reply: ArchiveReply,
    path: String,
    archive: Result<Option<TransferArchive>, Error>,
)
    requires
        call_ensures(import::transfer_archive, (reply, path), archive),
    ensures
        archive is Err <==> reply is RelinkRequested,
        archive is Err ==> archive->Err_0 == Error::BackupRelinkRequested,
        reply is ContinueWithoutUpload ==> archive is Ok && archive->Ok_0 is None,
        reply matches ArchiveReply::Available { cdn, key } ==> {
            &&& archive is Ok
            &&& archive->Ok_0 is Some
            &&& archive->Ok_0->0.cdn == cdn
            &&& archive->Ok_0->0.key == key
            &&& archive->Ok_0->0.path == path
        },
{
}

/// Importing a frame leads to the actions of that frame, with what was known before it, and
/// remembers what the frame says.
pub proof fn law_a_frame_is_imported_as_it_is(
    state: &mut ImportState,
    item: frames::FrameItem,
    our_aci: Aci,
    phone_number: Option<PhoneNumber>,
    group_id: [u8; 32],
    actions: Vec<ImportAction>,
)
    requires
        call_ensures(
            ImportState::import_from_file,
            (state, &item, our_aci, phone_number, &group_id),
            actions,
        ),
    ensures
        actions.deep_view() == import::frame_actions(
            item.deep_view(),
            old(state).recipients@,
            old(state).chats@,
            our_aci.uuid.bytes@,
            phone_number.deep_view(),
            group_id@,
        ),
        import::recipients_after(
            old(state).recipients@,
            final(state).recipients@,
            item.deep_view(),
            our_aci.uuid.bytes@,
        ),
        import::chats_after(
            old(state).chats@,
            final(state).chats@,
            item.deep_view(),
            old(state).recipients@,
        ),
{
}

/// Each content is saved once, behind those before it, and a call in it noted once after that.
pub proof fn law_each_content_counts_for_itself(
    contents: Seq<(ContentView, ThreadView)>,
    content: (ContentView, ThreadView),
)
    ensures
        import::messages_actions(Seq::empty()).len() == 0,
        ({
            let before = import::messages_actions(contents);
            let after = import::messages_actions(contents.push(content));
            let call = calls::call_event_of(content.0.body);
            &&& after.take(before.len() as int) == before
            &&& after[before.len() as int] == (ImportActionView::SaveMessage {
                content: content.0,
                thread: content.1,
            })
            &&& call is None ==> after.len() == before.len() + 1
            &&& call is Some ==> after.len() == before.len() + 2
            &&& call is Some ==> after[(before.len() + 1) as int] is IngestCall
                && after[(before.len() + 1) as int]->info == call->0
        }),
{
    assert(contents.push(content).drop_last() =~= contents);
    assert(contents.push(content).last() == content);
    let before = import::messages_actions(contents);
    let after = import::messages_actions(contents.push(content));
    assert(after.take(before.len() as int) =~= before);
}

} // verus!

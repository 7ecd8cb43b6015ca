//! What the store promises.
use vstd::prelude::*;

use crate::model::calls;
use crate::model::calls::{CallEventInfo, CallHistoryEntry, CallPeer};
use crate::model::contacts::{Contact, ContactView};
use crate::model::groups::{Group, GroupView};
use crate::proto::{Content, ContentBodyView, ContentView, DataMessageView, VerifiedState};
use crate::service_id;
use crate::service_id::ServiceId;
use crate::store;
use crate::store::{
    Pack, PackSticker, Sticker, StickerPack, StickerPackManifest, StickerView, Thread, ThreadError,
};
use crate::text;

verus! {

/// The key of the group that a message was written in.
pub open spec fn group_in(message: Option<DataMessageView>) -> Option<Seq<u8>> {
    if message is Some && message->0.group_v2 is Some {
        message->0.group_v2->0.master_key
    } else {
        None
    }
}

/// A message that somebody wrote belongs to the group it was written in, and otherwise to the
/// thread with whoever wrote it.
pub proof fn law_a_received_message_belongs_to_its_group_or_sender(
    content: Content,
    destination: Option<ServiceId>,
    message: DataMessageView,
    thread: Result<Thread, ThreadError>,
)
    requires
        call_ensures(Thread::try_from_content, (&content, destination), thread),
        content.deep_view().body == ContentBodyView::DataMessage(message)
            || (content.deep_view().body matches ContentBodyView::EditMessage(edit)
            && edit.data_message == Some(message)),
    ensures
        thread is Ok,
        group_in(Some(message)) matches Some(key) ==> thread->Ok_0 is Group && thread->Ok_0->Group_0@
            == key,
        group_in(Some(message)) is None ==> thread->Ok_0 is Contact
            && thread->Ok_0->Contact_0.deep_view() == content.deep_view().metadata.sender,
{
}

/// A message that another device of this account sent to a person belongs to the thread with that
/// person, and is refused where nobody is named properly.
pub proof fn law_a_sent_message_belongs_to_its_destination(
    content: Content,
    destination: Option<ServiceId>,
    thread: Result<Thread, ThreadError>,
)
    requires
        call_ensures(Thread::try_from_content, (&content, destination), thread),
        content.deep_view().body matches ContentBodyView::SynchronizeMessage(sync)
            && sync.sent is Some && (sync.sent->0.destination_service_id is Some
            || sync.sent->0.destination_service_id_binary is Some),
    ensures
        destination is None ==> thread == Err::<Thread, ThreadError>(ThreadError::InvalidServiceId),
        destination is Some ==> thread is Ok && thread->Ok_0 is Contact
            && thread->Ok_0->Contact_0.deep_view() == destination->0.deep_view(),
{
}

/// A message that another device of this account sent to a group belongs to that group, and an
/// edit to the group of what it edits; anything else that names no destination belongs to the
/// thread with its sender.
pub proof fn law_a_sent_message_belongs_to_its_group(
    content: Content,
    destination: Option<ServiceId>,
    thread: Result<Thread, ThreadError>,
)
    requires
        call_ensures(Thread::try_from_content, (&content, destination), thread),
        !(content.deep_view().body is DataMessage),
        !(content.deep_view().body is EditMessage),
        content.deep_view().body matches ContentBodyView::SynchronizeMessage(sync) ==> (
        sync.sent is Some ==> sync.sent->0.destination_service_id is None
            && sync.sent->0.destination_service_id_binary is None),
    ensures
        thread is Ok,
        !(content.deep_view().body is SynchronizeMessage) ==> thread->Ok_0 is Contact
            && thread->Ok_0->Contact_0.deep_view() == content.deep_view().metadata.sender,
        content.deep_view().body matches ContentBodyView::SynchronizeMessage(sync) ==> {
            let of_message = group_in(sync.sent->0.message);
            let of_edit = if sync.sent->0.edit_message is Some {
                group_in(sync.sent->0.edit_message->0.data_message)
            } else {
                None
            };
            &&& sync.sent is Some && of_message is Some ==> thread->Ok_0 is Group
                && thread->Ok_0->Group_0@ == of_message->0
            &&& sync.sent is Some && of_message is None && of_edit is Some
                ==> thread->Ok_0 is Group && thread->Ok_0->Group_0@ == of_edit->0
            &&& sync.sent is None || (of_message is None && of_edit is None)
                ==> thread->Ok_0 is Contact && thread->Ok_0->Contact_0.deep_view()
                == content.deep_view().metadata.sender
        },
{
}

/// A content is stored by the time it was sent at. That of a message of another device is in its
/// transcript, and an edit goes by the time of what it edits.
pub proof fn law_contents_go_by_the_time_they_were_sent(content: ContentView)
    ensures
        ({
            let stored = store::timestamp_of(content);
            let sent_at = content.metadata.timestamp as u64;
            &&& content.metadata.timestamp >= 0 ==> sent_at == content.metadata.timestamp
            &&& !(content.body is SynchronizeMessage) && !(content.body is EditMessage) ==> stored
                == sent_at
            &&& content.body matches ContentBodyView::EditMessage(edit) ==> {
                &&& edit.target_sent_timestamp is Some ==> stored == edit.target_sent_timestamp->0
                &&& edit.target_sent_timestamp is None ==> stored == sent_at
            }
            &&& content.body matches ContentBodyView::SynchronizeMessage(sync) ==> {
                let sent = sync.sent->0;
                &&& sync.sent is None ==> stored == sent_at
                &&& sync.sent is Some && sent.timestamp is Some ==> stored == sent.timestamp->0
                &&& sync.sent is Some && sent.timestamp is None && sent.edit_message is Some
                    && sent.edit_message->0.target_sent_timestamp is Some ==> stored
                    == sent.edit_message->0.target_sent_timestamp->0
                &&& sync.sent is Some && sent.timestamp is None && (sent.edit_message is None
                    || sent.edit_message->0.target_sent_timestamp is None) ==> stored == sent_at
            }
        }),
{
}

/// The timer of a thread is that of the contact, with its version, or that of the group, which
/// has no versions; without either there is none.
pub proof fn law_the_timer_is_that_of_the_contact_or_group(
    thread: Thread,
    contact: Option<Contact>,
    group: Option<Group>,
    timer: Option<(u32, u32)>,
)
    requires
        call_ensures(store::expire_timer, (&thread, &contact, &group), timer),
    ensures
        thread is Contact ==> (timer is Some <==> contact is Some),
        thread is Contact && contact is Some ==> timer == Some(
            (contact->0.expire_timer, contact->0.expire_timer_version),
        ),
        thread is Group ==> (timer is Some <==> group is Some
            && group->0.disappearing_messages_timer is Some),
        thread is Group && timer is Some ==> timer == Some(
            (group->0.disappearing_messages_timer->0.duration, 1u32),
        ),
{
}

/// A newer timer of a contact takes the place of an older one, and changes nothing else; one that
/// is not newer is ignored. It is told whether anything changed.
pub proof fn law_only_a_newer_timer_counts(
    contact: &mut Contact,
    timer: u32,
    version: u32,
    changed: bool,
)
    requires
        call_ensures(store::update_contact_timer, (contact, timer, version), changed),
    ensures
        changed <==> version > old(contact).expire_timer_version,
        changed ==> final(contact).expire_timer == timer && final(contact).expire_timer_version
            == version,
        !changed ==> final(contact).deep_view() == old(contact).deep_view(),
        final(contact).deep_view() == (ContactView {
            expire_timer: final(contact).expire_timer,
            expire_timer_version: final(contact).expire_timer_version,
            ..old(contact).deep_view()
        }),
{
}

/// The timer of a group is set to the seconds that are given, and zero is none; nothing else of
/// the group changes.
pub proof fn law_a_group_timer_of_zero_is_none(group: &mut Group, timer: u32)
    requires
        call_ensures(store::update_group_timer, (group, timer), ()),
    ensures
        timer == 0 ==> final(group).disappearing_messages_timer is None,
        timer != 0 ==> final(group).disappearing_messages_timer is Some
            && final(group).disappearing_messages_timer->0.duration == timer,
        final(group).deep_view() == (GroupView {
            disappearing_messages_timer: final(group).disappearing_messages_timer,
            ..old(group).deep_view()
        }),
{
}

/// A call is noted under the id of its other side.
pub proof fn law_a_call_is_noted_under_its_other_side(
    prev: Option<&CallHistoryEntry>,
    info: CallEventInfo,
    peer: CallPeer,
    id: String,
    noted: Option<CallHistoryEntry>,
    same: Option<CallHistoryEntry>,
)
    requires
        call_ensures(store::ingest_call_event, (prev, &info, &peer), noted),
        call_ensures(CallPeer::peer_id, (&peer,), id),
        call_ensures(calls::transition_call_history, (prev, &info, id), same),
    ensures
        noted.deep_view() == same.deep_view(),
{
}

/// That an identity changed is told in the thread with whoever it belongs to, as a message from
/// them with the new key and what is known of it.
pub proof fn law_a_changed_identity_is_told_in_its_thread(
    address_name: &str,
    identity_key: Vec<u8>,
    verified_state: VerifiedState,
    timestamp: i64,
    server_timestamp: i64,
    r: Option<(Thread, Content)>,
)
    requires
        call_ensures(
            store::save_trusted_identity_message,
            (address_name, identity_key, verified_state, timestamp, server_timestamp),
            r,
        ),
    ensures
        r is Some <==> service_id::service_id_of_text(address_name@) is Some,
        r is Some ==> {
            let of = service_id::service_id_of_text(address_name@)->0;
            let content = (r->0).1.deep_view();
            let verified = content.body->SynchronizeMessage_0.verified;
            &&& (r->0).0.deep_view() == store::ThreadView::Contact(of)
            &&& content.metadata.sender == of
            &&& content.metadata.destination == of
            &&& content.metadata.timestamp == timestamp
            &&& content.metadata.server_timestamp == server_timestamp
            &&& content.metadata.sender_device == 1
            &&& !content.metadata.needs_receipt
            &&& !content.metadata.unidentified_sender
            &&& !content.metadata.was_plaintext
            &&& content.metadata.server_guid is None
            &&& content.metadata.report_spam_token is None
            &&& content.body is SynchronizeMessage
            &&& content.body->SynchronizeMessage_0.sent is None
            &&& verified is Some
            &&& verified->0.identity_key == Some(identity_key@)
            &&& verified->0.state == Some(verified_state)
            &&& verified->0.destination_aci is None
            &&& content.body->SynchronizeMessage_0.call_event is None
            &&& content.body->SynchronizeMessage_0.delete_for_me is None
        },
{
}

/// A sticker of a pack keeps its number, its emoji and its type; its picture is fetched later.
pub proof fn law_a_sticker_is_the_one_in_the_pack(sticker: PackSticker, read: Sticker)
    requires
        call_ensures(Sticker::from_pack, (sticker,), read),
    ensures
        sticker.id is Some ==> read.id == sticker.id->0,
        sticker.id is None ==> read.id == 0,
        read.emoji.deep_view() == sticker.emoji.deep_view(),
        read.content_type.deep_view() == sticker.content_type.deep_view(),
        read.bytes is None,
{
    let view = read.deep_view();
    assert(view.emoji == read.emoji.deep_view());
    assert(view.content_type == read.content_type.deep_view());
    assert(view.bytes == read.bytes.deep_view());
    assert(sticker.deep_view().emoji == sticker.emoji.deep_view());
    assert(sticker.deep_view().content_type == sticker.content_type.deep_view());
}

/// The manifest of a pack has its title, its author, its cover and every sticker in its place.
pub proof fn law_a_manifest_has_every_sticker(pack: Pack, read: StickerPackManifest, i: int)
    requires
        call_ensures(StickerPackManifest::from_pack, (pack,), read),
        0 <= i < pack.stickers@.len(),
    ensures
        pack.title is Some ==> read.title@ == pack.title->0@,
        pack.title is None ==> read.title@.len() == 0,
        pack.author is Some ==> read.author@ == pack.author->0@,
        pack.author is None ==> read.author@.len() == 0,
        read.cover is Some <==> pack.cover is Some,
        pack.cover is Some ==> read.deep_view().cover->0.emoji == pack.deep_view().cover->0.emoji,
        pack.cover is Some && pack.cover->0.id is Some ==> read.cover->0.id == pack.cover->0.id->0,
        read.stickers@.len() == pack.stickers@.len(),
        pack.stickers@[i].id is Some ==> read.stickers@[i].id == pack.stickers@[i].id->0,
        read.stickers@[i].deep_view().emoji == pack.stickers@[i].deep_view().emoji,
        read.stickers@[i].deep_view().content_type == pack.stickers@[i].deep_view().content_type,
{
    let view = read.deep_view();
    let given = pack.deep_view();
    assert(given.title == pack.title.deep_view());
    assert(given.author == pack.author.deep_view());
    assert(given.cover == pack.cover.deep_view());
    assert(view.cover == read.cover.deep_view());
    assert(view.stickers.len() == read.stickers@.len());
    assert(given.stickers.len() == pack.stickers@.len());
    assert(view.stickers[i] == read.stickers@[i].deep_view());
    assert(given.stickers[i] == pack.stickers@[i].deep_view());
    if pack.cover is Some {
        assert(given.cover == Some(pack.cover->0.deep_view()));
        assert(view.cover == Some(read.cover->0.deep_view()));
    }
}

/// A sticker is found by its number: the first of the pack that has it.
pub proof fn law_a_sticker_is_found_by_its_number(
    pack: Option<StickerPack>,
    id: u32,
    found: Option<Sticker>,
)
    requires
        call_ensures(store::sticker_metadata, (&pack, id), found),
    ensures
        pack is None ==> found is None,
        pack is Some ==> {
            let stickers = pack->0.deep_view().manifest.stickers;
            &&& found is None <==> forall|i: int|
                0 <= i < stickers.len() ==> (#[trigger] stickers[i]).id != id
            &&& found is Some ==> exists|i: int|
                0 <= i < stickers.len() && #[trigger] stickers[i] == found->0.deep_view()
                    && stickers[i].id == id && forall|j: int|
                    0 <= j < i ==> (#[trigger] stickers[j]).id != id
        },
{
    if let Some(of) = pack {
        assert(pack.deep_view() == Some(of.deep_view()));
        lemma_found(of.deep_view().manifest.stickers, id);
    }
    if found is Some {
        assert(found.deep_view() == Some(found->0.deep_view()));
    }
}

proof fn lemma_found(stickers: Seq<StickerView>, id: u32)
    ensures
        store::find_sticker(stickers, id) is None <==> forall|i: int|
            0 <= i < stickers.len() ==> (#[trigger] stickers[i]).id != id,
        store::find_sticker(stickers, id) matches Some(found) ==> exists|i: int|
            0 <= i < stickers.len() && #[trigger] stickers[i] == found && stickers[i].id == id
                && forall|j: int| 0 <= j < i ==> (#[trigger] stickers[j]).id != id,
    decreases stickers.len(),
{
    if stickers.len() > 0 && stickers[0].id != id {
        let rest = stickers.skip(1);
        lemma_found(rest, id);
        if store::find_sticker(rest, id) is None {
            assert forall|i: int| 0 <= i < stickers.len() implies (#[trigger] stickers[i]).id
                != id by {
                if i > 0 {
                    assert(rest[i - 1] == stickers[i]);
                }
            }
        } else {
            let found = store::find_sticker(rest, id)->0;
            let i = choose|i: int|
                0 <= i < rest.len() && #[trigger] rest[i] == found && rest[i].id == id && forall|
                    j: int,
                |
                    0 <= j < i ==> (#[trigger] rest[j]).id != id;
            assert(stickers[i + 1] == found);
            assert forall|j: int| 0 <= j < i + 1 implies (#[trigger] stickers[j]).id != id by {
                if j > 0 {
                    assert(rest[j - 1] == stickers[j]);
                }
            }
        }
    }
}

/// A thread is written with the identity of the person, or with the first bytes of the key of
/// the group.
pub proof fn law_a_thread_is_written_as_what_it_is(thread: Thread, text: String)
    requires
        call_ensures(Thread::to_string, (&thread,), text),
    ensures
        thread.deep_view() matches store::ThreadView::Contact(id) ==> {
            &&& "Thread(contact="@.is_prefix_of(text@)
            &&& text@ == "Thread(contact="@ + service_id::service_id_text(id) + ")"@
        },
        thread.deep_view() matches store::ThreadView::Group(key) ==> {
            &&& "Thread(group=["@.is_prefix_of(text@)
            &&& text@ == "Thread(group=["@ + text::short_hex_text(key[0]) + ", "@
                + text::short_hex_text(key[1]) + ", "@ + text::short_hex_text(key[2]) + ", "@
                + text::short_hex_text(key[3]) + "])"@
        },
{
    reveal_strlit("Thread(contact=");
    reveal_strlit("Thread(group=[");
}

} // verus!

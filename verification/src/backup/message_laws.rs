//! What the messages of a backup promise once they are restored.
//!
//! Each law speaks of an item of the backup and of what came out for it.
use std::collections::HashMap;

use vstd::prelude::*;

use crate::backup::convert;
use crate::backup::convert::{BackupMessageState, RecipientInfo};
use crate::backup::frames;
use crate::backup::frames::ChatItem;
use crate::proto::{
    AssociatedValueView, AttachmentIdentifierView, AttachmentPointerFlag, AttachmentPointerView,
    CallEventDirection, CallEventEvent, CallEventType, CallEventView, Content, ContentBodyView,
    ContentView, DataMessageView, MessageRequestResponseType, QuoteType,
};
use crate::service_id;
use crate::service_id::{Aci, ServiceId, ServiceIdView};
use crate::store::{BackupSendStatus, Thread, ThreadView};

verus! {

/// The message in a restored content, whichever way it went.
pub open spec fn message_in(content: ContentView) -> Option<DataMessageView> {
    match content.body {
        ContentBodyView::DataMessage(message) => Some(message),
        ContentBodyView::SynchronizeMessage(sync) => match sync.sent {
            Some(sent) => sent.message,
            None => None,
        },
        _ => None,
    }
}

/// The reactions on an item.
pub open spec fn reactions_on(item: frames::ChatItemView) -> Seq<frames::ReactionView> {
    match item.item {
        Some(frames::ItemView::StandardMessage(message)) => message.reactions,
        Some(frames::ItemView::StickerMessage(message)) => message.reactions,
        _ => Seq::empty(),
    }
}

/// An item that is a message: a text, files, or a sticker.
pub open spec fn is_message(item: frames::ChatItemView) -> bool {
    item.item matches Some(kind) && (kind is StandardMessage || kind is StickerMessage)
}

/// A message that somebody known wrote is restored in its chat, with a person and in a group
/// alike, as a message from them to this account.
pub proof fn law_received_messages_are_restored(
    item: ChatItem,
    recipients: HashMap<u64, RecipientInfo>,
    chats: HashMap<u64, Thread>,
    our_aci: Aci,
    group_id: [u8; 32],
    contents: Vec<(Content, Thread)>,
    author: ServiceId,
)
    requires
        call_ensures(
            convert::chat_item_to_contents,
            (&item, &recipients, &chats, our_aci, &group_id),
            contents,
        ),
        chats@.contains_key(item.chat_id),
        is_message(item.deep_view()),
        item.directional_details matches Some(details) && details is Incoming,
        recipients@.contains_key(item.author_id),
        recipients@[item.author_id].service_id == Some(author),
    ensures
        contents@.len() > 0,
        contents.deep_view()[0].1 == chats@[item.chat_id].deep_view(),
        ({
            let content = contents.deep_view()[0].0;
            &&& content.body is DataMessage
            &&& content.metadata.sender == author.deep_view()
            &&& content.metadata.destination == ServiceIdView::Aci(our_aci.uuid.bytes@)
            &&& content.body->DataMessage_0.timestamp == Some(item.date_sent)
        }),
{
    assert(contents.deep_view().len() == contents@.len());
}

/// A message that this account wrote is restored in its chat as the transcript that its other
/// devices get: from this account, to the person, or to the group without naming anybody.
pub proof fn law_sent_messages_are_restored(
    item: ChatItem,
    recipients: HashMap<u64, RecipientInfo>,
    chats: HashMap<u64, Thread>,
    our_aci: Aci,
    group_id: [u8; 32],
    contents: Vec<(Content, Thread)>,
)
    requires
        call_ensures(
            convert::chat_item_to_contents,
            (&item, &recipients, &chats, our_aci, &group_id),
            contents,
        ),
        chats@.contains_key(item.chat_id),
        is_message(item.deep_view()),
        item.directional_details matches Some(details) && details is Outgoing,
    ensures
        contents@.len() > 0,
        contents.deep_view()[0].1 == chats@[item.chat_id].deep_view(),
        ({
            let content = contents.deep_view()[0].0;
            let sent = content.body->SynchronizeMessage_0.sent;
            &&& content.body is SynchronizeMessage
            &&& content.metadata.sender == ServiceIdView::Aci(our_aci.uuid.bytes@)
            &&& sent is Some
            &&& sent->0.timestamp == Some(item.date_sent)
            &&& sent->0.message is Some
            &&& sent->0.message->0.timestamp == Some(item.date_sent)
            &&& sent->0.edit_message is None
            &&& chats@[item.chat_id].deep_view() matches ThreadView::Contact(id) ==> {
                &&& sent->0.destination_service_id == Some(service_id::service_id_text(id))
                &&& content.metadata.destination == id
            }
            &&& chats@[item.chat_id].deep_view() is Group ==> {
                &&& content.metadata.destination == ServiceIdView::Aci(our_aci.uuid.bytes@)
                &&& sent->0.destination_service_id is None
                &&& sent->0.destination_service_id_binary is None
            }
        }),
{
    assert(contents.deep_view().len() == contents@.len());
}

/// Nothing is restored of an item whose chat is unknown or that is of another kind, of a message
/// that went neither in nor out, and of one that nobody known wrote.
pub proof fn law_unplaced_messages_are_dropped(
    item: ChatItem,
    recipients: HashMap<u64, RecipientInfo>,
    chats: HashMap<u64, Thread>,
    our_aci: Aci,
    group_id: [u8; 32],
    contents: Vec<(Content, Thread)>,
)
    requires
        call_ensures(
            convert::chat_item_to_contents,
            (&item, &recipients, &chats, our_aci, &group_id),
            contents,
        ),
    ensures
        !chats@.contains_key(item.chat_id) ==> contents@.len() == 0,
        item.item is None ==> contents@.len() == 0,
        is_message(item.deep_view()) && !(item.directional_details matches Some(details) && (
        details is Incoming || details is Outgoing)) ==> contents@.len() == 0,
        item.item matches Some(kind) && !(kind is StandardMessage) && !(kind is StickerMessage)
            && !(kind is UpdateMessage) ==> contents@.len() == 0,
        is_message(item.deep_view()) && (item.directional_details matches Some(details)
            && details is Incoming) && (!recipients@.contains_key(item.author_id)
            || recipients@[item.author_id].service_id is None) ==> contents@.len() == 0,
{
    assert(contents.deep_view().len() == contents@.len());
    if recipients@.contains_key(item.author_id) {
        assert(recipients@[item.author_id].deep_view().service_id
            == recipients@[item.author_id].service_id.deep_view());
    }
}

/// A restored text says what was written: the text, the links and nothing that was not there.
pub proof fn law_a_restored_text_is_what_was_written(
    item: frames::ChatItemView,
    text: frames::StandardMessageView,
    thread: ThreadView,
    recipients: Map<u64, RecipientInfo>,
    our_aci: Seq<u8>,
    group_id: Seq<u8>,
)
    requires
        item.item == Some(frames::ItemView::StandardMessage(text)),
        convert::item_contents(item, thread, recipients, our_aci, group_id).len() > 0,
    ensures
        ({
            let content = convert::item_contents(item, thread, recipients, our_aci, group_id)[0].0;
            let message = message_in(content)->0;
            &&& message_in(content) is Some
            &&& message.body is Some <==> text.text is Some
            &&& text.text is Some ==> message.body->0 == text.text->0.body
            &&& message.timestamp == Some(item.date_sent)
            &&& message == convert::standard_message(text, recipients, item.date_sent)
            &&& message.preview.len() == text.link_preview.len()
            &&& text.quote is None ==> message.quote is None
            &&& text.attachments.len() == 0 ==> message.attachments.len() == 0
            &&& text.text is None ==> message.body_ranges.len() == 0
            &&& message.reaction is None
            &&& message.delete is None
            &&& message.sticker is None
            &&& message.group_v2 is None
            &&& message.flags is None
            &&& message.expire_timer is None
            &&& message.profile_key is None
        }),
{
}

/// A restored sticker is the one that was sent, with its pack and its key.
pub proof fn law_a_restored_sticker_is_the_one_that_was_sent(
    item: frames::ChatItemView,
    sent: frames::StickerMessageView,
    thread: ThreadView,
    recipients: Map<u64, RecipientInfo>,
    our_aci: Seq<u8>,
    group_id: Seq<u8>,
)
    requires
        item.item == Some(frames::ItemView::StickerMessage(sent)),
        convert::item_contents(item, thread, recipients, our_aci, group_id).len() > 0,
    ensures
        ({
            let content = convert::item_contents(item, thread, recipients, our_aci, group_id)[0].0;
            let message = message_in(content)->0;
            &&& message_in(content) is Some
            &&& message.timestamp == Some(item.date_sent)
            &&& message.sticker is Some <==> sent.sticker is Some
            &&& sent.sticker is Some ==> {
                &&& message.sticker->0.pack_id == Some(sent.sticker->0.pack_id)
                &&& message.sticker->0.pack_key == Some(sent.sticker->0.pack_key)
                &&& message.sticker->0.sticker_id == Some(sent.sticker->0.sticker_id)
                &&& message.sticker->0.emoji == sent.sticker->0.emoji
                &&& sent.sticker->0.data is None || !is_hosted(sent.sticker->0.data->0)
                    ==> message.sticker->0.data is None
                &&& sent.sticker->0.data is Some && is_hosted(sent.sticker->0.data->0)
                    ==> message.sticker->0.data is Some && points_to(
                    message.sticker->0.data->0,
                    sent.sticker->0.data->0,
                )
            }
            &&& message.body is None
            &&& message.reaction is None
            &&& message.delete is None
        }),
{
}

/// Whether a file can still be fetched.
pub open spec fn is_hosted(file: frames::FilePointerView) -> bool {
    file.locator_info is Some && file.locator_info->0.transit_cdn_key is Some
}

/// A pointer to a file: where it is, the key it is encrypted with, and what it should hash to.
pub open spec fn points_to(
    pointer: AttachmentPointerView,
    file: frames::FilePointerView,
) -> bool {
    let locator = file.locator_info->0;
    &&& pointer.attachment_identifier == Some(
        AttachmentIdentifierView::CdnKey(locator.transit_cdn_key->0),
    )
    &&& pointer.cdn_number == locator.transit_cdn_number
    &&& pointer.size == Some(locator.size)
    &&& pointer.upload_timestamp == locator.transit_tier_upload_timestamp
    &&& locator.key.len() > 0 ==> pointer.key == Some(locator.key)
    &&& locator.key.len() == 0 ==> pointer.key is None
    &&& locator.integrity_check matches Some(frames::IntegrityCheckView::EncryptedDigest(digest))
        ==> pointer.digest == Some(digest)
    &&& locator.integrity_check matches Some(frames::IntegrityCheckView::PlaintextHash(_))
        ==> pointer.digest is None
    &&& locator.integrity_check is None ==> pointer.digest is None
    &&& pointer.content_type == file.content_type
    &&& pointer.file_name == file.file_name
    &&& pointer.width == file.width
    &&& pointer.height == file.height
    &&& pointer.caption == file.caption
    &&& pointer.blur_hash == file.blur_hash
    &&& pointer.incremental_mac == file.incremental_mac
    &&& pointer.chunk_size == file.incremental_mac_chunk_size
}

/// Of a message whose files can all be fetched, every file is restored, in its place, and still
/// as a voice message, a sticker-like picture or a moving picture where it was one.
pub proof fn law_every_hosted_file_is_restored(list: Seq<frames::MessageAttachmentView>, i: int)
    requires
        forall|j: int|
            0 <= j < list.len() ==> (#[trigger] list[j]).pointer is Some && is_hosted(
                list[j].pointer->0,
            ),
        0 <= i < list.len(),
    ensures
        convert::attachments_of(list).len() == list.len(),
        points_to(convert::attachments_of(list)[i], list[i].pointer->0),
        convert::attachments_of(list)[i].flags == Some(AttachmentPointerFlag::VoiceMessage)
            <==> list[i].flag == frames::AttachmentFlag::VoiceMessage,
        convert::attachments_of(list)[i].flags == Some(AttachmentPointerFlag::Borderless)
            <==> list[i].flag == frames::AttachmentFlag::Borderless,
        convert::attachments_of(list)[i].flags == Some(AttachmentPointerFlag::Gif)
            <==> list[i].flag == frames::AttachmentFlag::Gif,
    decreases list.len(),
{
    let before = list.drop_last();
    assert forall|j: int| 0 <= j < before.len() implies (#[trigger] before[j]).pointer is Some
        && is_hosted(before[j].pointer->0) by {
        assert(before[j] == list[j]);
    }
    assert(list[list.len() - 1].pointer is Some);
    if before.len() > 0 {
        law_every_hosted_file_is_restored(before, if i < before.len() {
            i
        } else {
            0
        });
    }
    if i < before.len() {
        assert(before[i] == list[i]);
        assert(convert::attachments_of(list)[i] == convert::attachments_of(before)[i]);
    }
}

/// A file that cannot be fetched any more leaves no attachment behind.
pub proof fn law_a_file_without_a_host_is_dropped(
    list: Seq<frames::MessageAttachmentView>,
    file: frames::MessageAttachmentView,
)
    requires
        file.pointer is None || !is_hosted(file.pointer->0),
    ensures
        convert::attachments_of(list.push(file)) == convert::attachments_of(list),
{
    assert(list.push(file).drop_last() =~= list);
}

/// A mention keeps whom it mentions, and a style which one it is, both at their place in the
/// text; every range that says something is restored.
pub proof fn law_every_range_is_restored(ranges: Seq<frames::BodyRangeView>, i: int)
    requires
        forall|j: int|
            0 <= j < ranges.len() ==> (#[trigger] ranges[j]).associated_value is Some,
        0 <= i < ranges.len(),
    ensures
        convert::ranges_of(ranges).len() == ranges.len(),
        ({
            let range = convert::ranges_of(ranges)[i];
            &&& range.start == Some(ranges[i].start)
            &&& range.length == Some(ranges[i].length)
            &&& ranges[i].associated_value matches Some(
                frames::AssociatedValueView::MentionAci(aci),
            ) ==> range.associated_value == Some(AssociatedValueView::MentionAciBinary(aci))
            &&& ranges[i].associated_value matches Some(frames::AssociatedValueView::Style(style))
                ==> range.associated_value == Some(AssociatedValueView::Style(style))
        }),
    decreases ranges.len(),
{
    let before = ranges.drop_last();
    assert forall|j: int| 0 <= j < before.len() implies (
    #[trigger] before[j]).associated_value is Some by {
        assert(before[j] == ranges[j]);
    }
    assert(ranges[ranges.len() - 1].associated_value is Some);
    if before.len() > 0 {
        law_every_range_is_restored(before, if i < before.len() {
            i
        } else {
            0
        });
    }
    if i < before.len() {
        assert(before[i] == ranges[i]);
        assert(convert::ranges_of(ranges)[i] == convert::ranges_of(before)[i]);
    }
}

/// The ranges, files and quote of a text are those that the backup has with it.
pub proof fn law_a_restored_text_keeps_what_goes_with_it(
    text: frames::StandardMessageView,
    recipients: Map<u64, RecipientInfo>,
    timestamp: u64,
    i: int,
)
    ensures
        ({
            let message = convert::standard_message(text, recipients, timestamp);
            &&& text.text is Some ==> message.body_ranges == convert::ranges_of(
                text.text->0.body_ranges,
            )
            &&& message.attachments == convert::attachments_of(text.attachments)
            &&& message.preview.len() == text.link_preview.len()
            &&& 0 <= i < text.link_preview.len() ==> {
                &&& message.preview[i].url == Some(text.link_preview[i].url)
                &&& message.preview[i].title == text.link_preview[i].title
                &&& message.preview[i].description == text.link_preview[i].description
                &&& message.preview[i].date == text.link_preview[i].date
                &&& text.link_preview[i].image is Some && is_hosted(text.link_preview[i].image->0)
                    ==> message.preview[i].image is Some && points_to(
                    message.preview[i].image->0,
                    text.link_preview[i].image->0,
                )
                &&& text.link_preview[i].image is None || !is_hosted(text.link_preview[i].image->0)
                    ==> message.preview[i].image is None
            }
        }),
{
}

/// A quote of somebody known is restored with its author, its text and the time of what it
/// quotes; without a known author it cannot be.
pub proof fn law_a_quote_names_its_author(
    text: frames::StandardMessageView,
    recipients: Map<u64, RecipientInfo>,
    timestamp: u64,
)
    requires
        text.quote is Some,
    ensures
        ({
            let quote = text.quote->0;
            let restored = convert::standard_message(text, recipients, timestamp).quote;
            let known = recipients.contains_key(quote.author_id);
            let author = recipients[quote.author_id].service_id;
            &&& known ==> (author matches Some(ServiceId::Aci(aci)) ==> {
                &&& restored is Some
                &&& restored->0.id == quote.target_sent_timestamp
                &&& restored->0.author_aci_binary == Some(aci.uuid.bytes@)
                &&& restored->0.author_aci == Some(
                    service_id::service_id_text(ServiceIdView::Aci(aci.uuid.bytes@)),
                )
                &&& restored->0.text is Some <==> quote.text is Some
                &&& quote.text is Some ==> restored->0.text->0 == quote.text->0.body
                &&& quote.text is Some ==> restored->0.body_ranges == convert::ranges_of(
                    quote.text->0.body_ranges,
                )
                &&& restored->0.kind == Some(QuoteType::GiftBadge) <==> quote.kind
                    == frames::QuoteType::GiftBadge
                &&& restored->0.kind == Some(QuoteType::Poll) <==> quote.kind
                    == frames::QuoteType::Poll
            })
            &&& !known ==> restored is None
            &&& known && author is None ==> restored is None
            &&& known && author is Some && author->0 is Pni ==> restored is None
        }),
{
    let quote = text.quote->0;
    if recipients.contains_key(quote.author_id) {
        assert(recipients[quote.author_id].deep_view().service_id
            == recipients[quote.author_id].service_id.deep_view());
    }
}

/// A reaction is restored as a message of its own: from whoever reacted, with the emoji and the
/// time of the reaction, and to the message that it stands on.
pub open spec fn says_reaction(
    content: ContentView,
    reaction: frames::ReactionView,
    reactor: ServiceIdView,
    target_author: Seq<u8>,
    target: u64,
) -> bool {
    &&& content.metadata.sender == reactor
    &&& message_in(content) is Some
    &&& message_in(content)->0.timestamp == Some(reaction.sent_timestamp)
    &&& message_in(content)->0.body is None
    &&& message_in(content)->0.reaction is Some
    &&& message_in(content)->0.reaction->0.emoji == Some(reaction.emoji)
    &&& message_in(content)->0.reaction->0.remove == Some(false)
    &&& message_in(content)->0.reaction->0.target_sent_timestamp == Some(target)
    &&& message_in(content)->0.reaction->0.target_author_aci_binary == Some(target_author)
    &&& message_in(content)->0.reaction->0.target_author_aci == Some(
        service_id::service_id_text(ServiceIdView::Aci(target_author)),
    )
}

/// A message with reactions of people who are all known is followed by one message for each of
/// them, in their order, in the same thread; each says who reacted how to what.
pub proof fn law_every_reaction_is_restored(
    item: frames::ChatItemView,
    thread: ThreadView,
    recipients: Map<u64, RecipientInfo>,
    our_aci: Seq<u8>,
    group_id: Seq<u8>,
    author: Aci,
    i: int,
)
    requires
        is_message(item),
        item.directional_details matches Some(details) && (details is Incoming
            || details is Outgoing),
        recipients.contains_key(item.author_id),
        recipients[item.author_id].service_id == Some(ServiceId::Aci(author)),
        forall|j: int|
            0 <= j < reactions_on(item).len() ==> recipients.contains_key(
                (#[trigger] reactions_on(item)[j]).author_id,
            ) && recipients[reactions_on(item)[j].author_id].service_id is Some,
        0 <= i < reactions_on(item).len(),
    ensures
        ({
            let contents = convert::item_contents(item, thread, recipients, our_aci, group_id);
            let reaction = reactions_on(item)[i];
            let reactor = recipients[reaction.author_id].service_id->0.deep_view();
            &&& contents.len() == 1 + reactions_on(item).len()
            &&& contents[1 + i].1 == thread
            &&& says_reaction(
                contents[1 + i].0,
                reaction,
                reactor,
                author.uuid.bytes@,
                item.date_sent,
            )
        }),
{
    let reactions = reactions_on(item);
    let of = author.uuid.bytes@;
    let contents = convert::item_contents(item, thread, recipients, our_aci, group_id);
    assert(recipients[item.author_id].deep_view().service_id
        == recipients[item.author_id].service_id.deep_view());
    assert(convert::reacted_author(item.author_id, recipients, our_aci) == of);
    let following = convert::reaction_contents(
        reactions,
        of,
        item.date_sent,
        recipients,
        thread,
        our_aci,
    );
    lemma_reactions_in_order(reactions, of, item.date_sent, recipients, thread, our_aci, i);
    assert(contents =~= seq![contents[0]] + following);
    assert(contents[1 + i] == following[i]);
}

proof fn lemma_reactions_in_order(
    reactions: Seq<frames::ReactionView>,
    author: Seq<u8>,
    sent: u64,
    recipients: Map<u64, RecipientInfo>,
    thread: ThreadView,
    our_aci: Seq<u8>,
    i: int,
)
    requires
        forall|j: int|
            0 <= j < reactions.len() ==> recipients.contains_key(
                (#[trigger] reactions[j]).author_id,
            ) && recipients[reactions[j].author_id].service_id is Some,
        0 <= i < reactions.len(),
    ensures
        ({
            let contents = convert::reaction_contents(
                reactions,
                author,
                sent,
                recipients,
                thread,
                our_aci,
            );
            let reactor = recipients[reactions[i].author_id].service_id->0.deep_view();
            &&& contents.len() == reactions.len()
            &&& contents[i].1 == thread
            &&& says_reaction(contents[i].0, reactions[i], reactor, author, sent)
        }),
    decreases reactions.len(),
{
    let before = reactions.drop_last();
    let last = reactions[reactions.len() - 1];
    assert forall|j: int| 0 <= j < before.len() implies recipients.contains_key(
        (#[trigger] before[j]).author_id,
    ) && recipients[before[j].author_id].service_id is Some by {
        assert(before[j] == reactions[j]);
    }
    assert(recipients[last.author_id].deep_view().service_id
        == recipients[last.author_id].service_id.deep_view());
    if before.len() > 0 {
        lemma_reactions_in_order(
            before,
            author,
            sent,
            recipients,
            thread,
            our_aci,
            if i < before.len() {
                i
            } else {
                0
            },
        );
    }
    if i < before.len() {
        assert(before[i] == reactions[i]);
    }
}

/// A restored content carries the date it was sent at, as it came from a primary device, and
/// asks for nothing: no receipt is owed for it.
pub open spec fn is_history(content: ContentView, timestamp: u64) -> bool {
    &&& timestamp <= 8210266876799999 ==> content.metadata.timestamp == timestamp
    &&& timestamp <= 8210266876799999 ==> content.metadata.server_timestamp == timestamp
    &&& content.metadata.sender_device == 1
    &&& !content.metadata.needs_receipt
    &&& !content.metadata.unidentified_sender
    &&& !content.metadata.was_plaintext
    &&& content.metadata.server_guid is None
    &&& content.metadata.report_spam_token is None
}

/// A restored message is history.
pub proof fn law_a_restored_message_is_history(
    item: frames::ChatItemView,
    thread: ThreadView,
    recipients: Map<u64, RecipientInfo>,
    our_aci: Seq<u8>,
    group_id: Seq<u8>,
)
    requires
        is_message(item),
        convert::item_contents(item, thread, recipients, our_aci, group_id).len() > 0,
    ensures
        is_history(
            convert::item_contents(item, thread, recipients, our_aci, group_id)[0].0,
            item.date_sent,
        ),
{
}

/// The call that a restored content reports.
pub open spec fn call_in(content: ContentView) -> Option<CallEventView> {
    match content.body {
        ContentBodyView::SynchronizeMessage(sync) => sync.call_event,
        _ => None,
    }
}

/// A call with a person is one report to this account, in the thread with that person: who it
/// was with, which call, whether it was a video call, who called, and when.
pub proof fn law_a_call_with_a_person_is_reported(
    item: frames::ChatItemView,
    update: frames::ChatUpdateMessageView,
    call: frames::IndividualCallView,
    peer: ServiceIdView,
    recipients: Map<u64, RecipientInfo>,
    our_aci: Seq<u8>,
    group_id: Seq<u8>,
)
    requires
        item.item == Some(frames::ItemView::UpdateMessage(update)),
        update.update == Some(frames::ChatUpdateView::IndividualCall(call)),
    ensures
        ({
            let contents = convert::item_contents(
                item,
                ThreadView::Contact(peer),
                recipients,
                our_aci,
                group_id,
            );
            let event = call_in(contents[0].0)->0;
            let when = if call.started_call_timestamp != 0 {
                call.started_call_timestamp
            } else {
                item.date_sent
            };
            &&& contents.len() == 1
            &&& contents[0].1 == ThreadView::Contact(peer)
            &&& contents[0].0.metadata.sender == ServiceIdView::Aci(our_aci)
            &&& contents[0].0.metadata.destination == ServiceIdView::Aci(our_aci)
            &&& is_history(contents[0].0, when)
            &&& call_in(contents[0].0) is Some
            &&& event.conversation_id == Some(peer.raw())
            &&& event.call_id == call.call_id
            &&& event.timestamp == Some(when)
            &&& event.kind == Some(CallEventType::VideoCall) <==> call.kind
                == frames::IndividualCallType::VideoCall
            &&& event.kind == Some(CallEventType::AudioCall) <==> call.kind
                != frames::IndividualCallType::VideoCall
            &&& event.direction == Some(CallEventDirection::Outgoing) <==> call.direction
                == frames::IndividualCallDirection::Outgoing
            &&& event.direction == Some(CallEventDirection::Incoming) <==> call.direction
                != frames::IndividualCallDirection::Outgoing
            &&& event.event == Some(CallEventEvent::NotAccepted) || event.event == Some(
                CallEventEvent::Accepted,
            )
            &&& event.event == Some(CallEventEvent::NotAccepted) <==> (call.state
                == frames::IndividualCallState::Missed || call.state
                == frames::IndividualCallState::MissedNotificationProfile || call.state
                == frames::IndividualCallState::NotAccepted)
        }),
{
}

/// A call of a group is one report to this account, in the thread of the group and under its
/// public id. It went out where it rang from here, or where this account started it.
pub proof fn law_a_call_of_a_group_is_reported(
    item: frames::ChatItemView,
    update: frames::ChatUpdateMessageView,
    call: frames::GroupCallView,
    key: Seq<u8>,
    recipients: Map<u64, RecipientInfo>,
    our_aci: Seq<u8>,
    group_id: Seq<u8>,
)
    requires
        item.item == Some(frames::ItemView::UpdateMessage(update)),
        update.update == Some(frames::ChatUpdateView::GroupCall(call)),
    ensures
        ({
            let contents = convert::item_contents(
                item,
                ThreadView::Group(key),
                recipients,
                our_aci,
                group_id,
            );
            let event = call_in(contents[0].0)->0;
            let when = if call.started_call_timestamp != 0 {
                call.started_call_timestamp
            } else {
                item.date_sent
            };
            &&& contents.len() == 1
            &&& contents[0].1 == ThreadView::Group(key)
            &&& contents[0].0.metadata.sender == ServiceIdView::Aci(our_aci)
            &&& contents[0].0.metadata.destination == ServiceIdView::Aci(our_aci)
            &&& is_history(contents[0].0, when)
            &&& call_in(contents[0].0) is Some
            &&& event.conversation_id == Some(group_id)
            &&& event.call_id == call.call_id
            &&& event.timestamp == Some(when)
            &&& event.kind == Some(CallEventType::GroupCall)
            &&& call.state == frames::GroupCallState::OutgoingRing ==> event.direction == Some(
                CallEventDirection::Outgoing,
            )
            &&& call.state != frames::GroupCallState::OutgoingRing
                && call.started_call_recipient_id is None ==> event.direction == Some(
                CallEventDirection::Incoming,
            )
            &&& call.state == frames::GroupCallState::Joined || call.state
                == frames::GroupCallState::Accepted <==> event.event == Some(
                CallEventEvent::Accepted,
            )
            &&& call.state == frames::GroupCallState::Missed || call.state
                == frames::GroupCallState::MissedNotificationProfile || call.state
                == frames::GroupCallState::Declined <==> event.event == Some(
                CallEventEvent::NotAccepted,
            )
            &&& event.event is Some
            &&& event.event == Some(CallEventEvent::NotAccepted) || event.event == Some(
                CallEventEvent::Accepted,
            ) || event.event == Some(CallEventEvent::Observed)
        }),
{
}

/// Who started a call of a group tells which way it went: out where it was this account, in
/// where it was somebody else.
pub proof fn law_the_starter_tells_the_direction(
    call: frames::GroupCallView,
    starter: u64,
    aci: Aci,
    recipients: Map<u64, RecipientInfo>,
    our_aci: Seq<u8>,
    group_id: Seq<u8>,
    timestamp: u64,
)
    requires
        call.state != frames::GroupCallState::OutgoingRing,
        call.started_call_recipient_id == Some(starter),
        recipients.contains_key(starter),
        recipients[starter].service_id == Some(ServiceId::Aci(aci)),
    ensures
        ({
            let event = convert::group_call_event(
                call,
                recipients,
                our_aci,
                group_id,
                timestamp,
            );
            &&& aci.uuid.bytes@ == our_aci ==> event.direction == Some(CallEventDirection::Outgoing)
            &&& aci.uuid.bytes@ != our_aci ==> event.direction == Some(CallEventDirection::Incoming)
        }),
{
    assert(recipients[starter].deep_view().service_id
        == recipients[starter].service_id.deep_view());
}

/// A call of a person stands in no group, and a call of a group with no person: neither is
/// reported there. Updates of other kinds are reported nowhere.
pub proof fn law_calls_stand_where_they_belong(
    item: frames::ChatItemView,
    update: frames::ChatUpdateMessageView,
    thread: ThreadView,
    recipients: Map<u64, RecipientInfo>,
    our_aci: Seq<u8>,
    group_id: Seq<u8>,
)
    requires
        item.item == Some(frames::ItemView::UpdateMessage(update)),
    ensures
        ({
            let contents = convert::item_contents(item, thread, recipients, our_aci, group_id);
            &&& update.update is None ==> contents.len() == 0
            &&& (update.update matches Some(change) && (change is GroupChange || change is Other))
                ==> contents.len() == 0
            &&& (update.update matches Some(change) && change is IndividualCall) && thread is Group
                ==> contents.len() == 0
            &&& (update.update matches Some(change) && change is GroupCall) && thread is Contact
                ==> contents.len() == 0
            &&& update.update == Some(
                frames::ChatUpdateView::SimpleUpdate(frames::SimpleUpdateType::Other),
            ) ==> contents.len() == 0
            &&& (update.update matches Some(change) && change is SimpleUpdate) && thread is Group
                ==> contents.len() == 0
        }),
{
}

/// That a person was blocked or unblocked is restored as this account's answer to them: block
/// for the one, accept for the other.
pub proof fn law_blocking_is_restored(
    item: frames::ChatItemView,
    update: frames::ChatUpdateMessageView,
    change: frames::SimpleUpdateType,
    peer: ServiceIdView,
    recipients: Map<u64, RecipientInfo>,
    our_aci: Seq<u8>,
    group_id: Seq<u8>,
)
    requires
        item.item == Some(frames::ItemView::UpdateMessage(update)),
        update.update == Some(frames::ChatUpdateView::SimpleUpdate(change)),
        change == frames::SimpleUpdateType::Blocked || change == frames::SimpleUpdateType::Unblocked,
    ensures
        ({
            let contents = convert::item_contents(
                item,
                ThreadView::Contact(peer),
                recipients,
                our_aci,
                group_id,
            );
            let content = contents[0].0;
            let answer = content.body->SynchronizeMessage_0.message_request_response;
            &&& contents.len() == 1
            &&& contents[0].1 == ThreadView::Contact(peer)
            &&& content.metadata.sender == ServiceIdView::Aci(our_aci)
            &&& content.metadata.destination == peer
            &&& is_history(content, item.date_sent)
            &&& content.body is SynchronizeMessage
            &&& answer is Some
            &&& answer->0.thread_aci_binary == Some(peer.raw())
            &&& answer->0.group_id is None
            &&& change == frames::SimpleUpdateType::Blocked ==> answer->0.kind == Some(
                MessageRequestResponseType::Block,
            )
            &&& change == frames::SimpleUpdateType::Unblocked ==> answer->0.kind == Some(
                MessageRequestResponseType::Accept,
            )
        }),
{
}

/// What a backup says of a received message is kept under its thread and time: whether it was
/// read, and when it arrived where that is known.
pub proof fn law_reading_is_restored(
    item: ChatItem,
    recipients: HashMap<u64, RecipientInfo>,
    chats: HashMap<u64, Thread>,
    state: Option<BackupMessageState>,
    details: frames::IncomingMessageDetails,
)
    requires
        call_ensures(convert::chat_item_backup_state, (&item, &recipients, &chats), state),
        chats@.contains_key(item.chat_id),
        item.directional_details == Some(frames::DirectionalDetails::Incoming(details)),
    ensures
        state is Some,
        state->0.thread.deep_view() == chats@[item.chat_id].deep_view(),
        state->0.ts == item.date_sent,
        state->0.read == Some(details.read),
        state->0.send_states@.len() == 0,
        details.date_received != 0 ==> state->0.date_received == Some(details.date_received),
        details.date_received == 0 ==> state->0.date_received is None,
{
    let view = state->0.deep_view();
    assert(view.send_states.len() == state->0.send_states@.len());
}

/// What a backup says of a sent message is kept under its thread and time. Of people who are
/// all known and to whom it got, every one is kept in their place: under which identity, how
/// far it got, and when.
pub proof fn law_delivery_is_restored(
    item: ChatItem,
    recipients: HashMap<u64, RecipientInfo>,
    chats: HashMap<u64, Thread>,
    state: Option<BackupMessageState>,
    details: frames::OutgoingMessageDetails,
)
    requires
        call_ensures(convert::chat_item_backup_state, (&item, &recipients, &chats), state),
        chats@.contains_key(item.chat_id),
        item.directional_details == Some(frames::DirectionalDetails::Outgoing(details)),
        forall|j: int|
            0 <= j < details.send_status@.len() ==> got_there(
                (#[trigger] details.send_status@[j]).deep_view(),
                recipients@,
            ),
    ensures
        state is Some,
        state->0.thread.deep_view() == chats@[item.chat_id].deep_view(),
        state->0.ts == item.date_sent,
        state->0.read is None,
        details.date_received != 0 ==> state->0.date_received == Some(details.date_received),
        details.date_received == 0 ==> state->0.date_received is None,
        state->0.send_states@.len() == details.send_status@.len(),
        state->0.send_states.deep_view() == convert::send_states_of(
            details.send_status.deep_view(),
            recipients@,
        ),
        forall|i: int|
            0 <= i < details.send_status@.len() ==> is_delivery(
                #[trigger] state->0.send_states.deep_view()[i],
                details.send_status@[i].deep_view(),
                recipients@,
            ),
{
    let view = state->0.deep_view();
    let list = details.send_status.deep_view();
    assert(view.send_states.len() == state->0.send_states@.len());
    assert forall|j: int| 0 <= j < list.len() implies got_there(#[trigger] list[j], recipients@) by {
        assert(list[j] == details.send_status@[j].deep_view());
    }
    assert forall|i: int| 0 <= i < list.len() implies is_delivery(
        #[trigger] state->0.send_states.deep_view()[i],
        details.send_status@[i].deep_view(),
        recipients@,
    ) by {
        lemma_every_delivery(list, recipients@, i);
    }
    if list.len() > 0 {
        lemma_every_delivery(list, recipients@, 0);
    }
}

/// A message that got to somebody known.
pub open spec fn got_there(
    status: frames::SendStatusView,
    recipients: Map<u64, RecipientInfo>,
) -> bool {
    &&& recipients.contains_key(status.recipient_id)
    &&& recipients[status.recipient_id].service_id is Some
    &&& status.delivery_status == Some(frames::DeliveryStatus::Sent) || status.delivery_status
        == Some(frames::DeliveryStatus::Delivered) || status.delivery_status == Some(
        frames::DeliveryStatus::Read,
    ) || status.delivery_status == Some(frames::DeliveryStatus::Viewed)
}

/// To whom a message got, how far, and when.
pub open spec fn is_delivery(
    kept: (Seq<char>, BackupSendStatus, u64),
    status: frames::SendStatusView,
    recipients: Map<u64, RecipientInfo>,
) -> bool {
    let id = recipients[status.recipient_id].service_id->0.deep_view();
    &&& kept.0 == service_id::service_id_text(id)
    &&& kept.1 == BackupSendStatus::Sent <==> status.delivery_status == Some(
        frames::DeliveryStatus::Sent,
    )
    &&& kept.1 == BackupSendStatus::Delivered <==> status.delivery_status == Some(
        frames::DeliveryStatus::Delivered,
    )
    &&& kept.1 == BackupSendStatus::Read <==> status.delivery_status == Some(
        frames::DeliveryStatus::Read,
    )
    &&& kept.1 == BackupSendStatus::Viewed <==> status.delivery_status == Some(
        frames::DeliveryStatus::Viewed,
    )
    &&& kept.2 == status.timestamp
}

proof fn lemma_every_delivery(
    list: Seq<frames::SendStatusView>,
    recipients: Map<u64, RecipientInfo>,
    i: int,
)
    requires
        forall|j: int| 0 <= j < list.len() ==> got_there(#[trigger] list[j], recipients),
        0 <= i < list.len(),
    ensures
        convert::send_states_of(list, recipients).len() == list.len(),
        is_delivery(convert::send_states_of(list, recipients)[i], list[i], recipients),
    decreases list.len(),
{
    let before = list.drop_last();
    let last = list[list.len() - 1];
    assert forall|j: int| 0 <= j < before.len() implies got_there(
        #[trigger] before[j],
        recipients,
    ) by {
        assert(before[j] == list[j]);
    }
    assert(got_there(last, recipients));
    assert(recipients[last.recipient_id].deep_view().service_id
        == recipients[last.recipient_id].service_id.deep_view());
    if before.len() > 0 {
        lemma_every_delivery(before, recipients, if i < before.len() {
            i
        } else {
            0
        });
    }
    if i < before.len() {
        assert(before[i] == list[i]);
    }
}

/// A message that did not get to somebody, or to nobody known, leaves no mark of a delivery.
pub proof fn law_failed_deliveries_are_dropped(
    list: Seq<frames::SendStatusView>,
    status: frames::SendStatusView,
    recipients: Map<u64, RecipientInfo>,
)
    requires
        !got_there(status, recipients),
    ensures
        convert::send_states_of(list.push(status), recipients) == convert::send_states_of(
            list,
            recipients,
        ),
{
    assert(list.push(status).drop_last() =~= list);
    if recipients.contains_key(status.recipient_id) {
        assert(recipients[status.recipient_id].deep_view().service_id
            == recipients[status.recipient_id].service_id.deep_view());
    }
}

/// Nothing is kept of an item whose chat is unknown or that went neither in nor out.
pub proof fn law_other_items_have_no_state(
    item: ChatItem,
    recipients: HashMap<u64, RecipientInfo>,
    chats: HashMap<u64, Thread>,
    state: Option<BackupMessageState>,
)
    requires
        call_ensures(convert::chat_item_backup_state, (&item, &recipients, &chats), state),
        !chats@.contains_key(item.chat_id) || !(item.directional_details matches Some(details) && (
        details is Incoming || details is Outgoing)),
    ensures
        state is None,
{
}

/// An item is restored in its chat, and a text alone is restored as an item with that text is.
pub proof fn law_a_text_is_restored_as_its_item(
    message: frames::StandardMessage,
    item: ChatItem,
    recipients: HashMap<u64, RecipientInfo>,
    chats: HashMap<u64, Thread>,
    our_aci: Aci,
    group_id: [u8; 32],
    contents: Vec<(Content, Thread)>,
    same: Vec<(Content, Thread)>,
)
    requires
        call_ensures(
            convert::chat_item_to_contents,
            (&item, &recipients, &chats, our_aci, &group_id),
            contents,
        ),
        chats@.contains_key(item.chat_id),
        call_ensures(
            convert::standard_message_to_contents,
            (&message, &item, &chats@[item.chat_id], &recipients, our_aci),
            same,
        ),
    ensures
        contents.deep_view() == convert::item_contents(
            item.deep_view(),
            chats@[item.chat_id].deep_view(),
            recipients@,
            our_aci.uuid.bytes@,
            group_id@,
        ),
        item.item == Some(frames::Item::StandardMessage(message)) ==> same.deep_view()
            == contents.deep_view(),
{
    if item.item == Some(frames::Item::StandardMessage(message)) {
        assert(item.deep_view().item == Some(
            frames::ItemView::StandardMessage(message.deep_view()),
        ));
    }
}

/// A file is restored, behind those before it, exactly where it can be fetched, whatever the
/// others are.
pub proof fn law_each_file_counts_for_itself(
    list: Seq<frames::MessageAttachmentView>,
    file: frames::MessageAttachmentView,
)
    ensures
        convert::attachments_of(Seq::empty()).len() == 0,
        ({
            let before = convert::attachments_of(list);
            let after = convert::attachments_of(list.push(file));
            &&& file.pointer is Some && is_hosted(file.pointer->0) ==> {
                &&& after.len() == before.len() + 1
                &&& after.take(before.len() as int) == before
                &&& points_to(after[before.len() as int], file.pointer->0)
                &&& after[before.len() as int].flags == Some(AttachmentPointerFlag::VoiceMessage)
                    <==> file.flag == frames::AttachmentFlag::VoiceMessage
                &&& after[before.len() as int].flags == Some(AttachmentPointerFlag::Borderless)
                    <==> file.flag == frames::AttachmentFlag::Borderless
                &&& after[before.len() as int].flags == Some(AttachmentPointerFlag::Gif)
                    <==> file.flag == frames::AttachmentFlag::Gif
            }
            &&& file.pointer is None || !is_hosted(file.pointer->0) ==> after == before
        }),
{
    assert(list.push(file).drop_last() =~= list);
    assert(list.push(file).last() == file);
    let before = convert::attachments_of(list);
    let after = convert::attachments_of(list.push(file));
    if file.pointer is Some && is_hosted(file.pointer->0) {
        assert(after.take(before.len() as int) =~= before);
    }
}

/// A range is restored, behind those before it, exactly where it says something.
pub proof fn law_each_range_counts_for_itself(
    ranges: Seq<frames::BodyRangeView>,
    range: frames::BodyRangeView,
)
    ensures
        convert::ranges_of(Seq::empty()).len() == 0,
        ({
            let before = convert::ranges_of(ranges);
            let after = convert::ranges_of(ranges.push(range));
            &&& range.associated_value is None ==> after == before
            &&& range.associated_value is Some ==> {
                &&& after.len() == before.len() + 1
                &&& after.take(before.len() as int) == before
                &&& after[before.len() as int].start == Some(range.start)
                &&& after[before.len() as int].length == Some(range.length)
                &&& range.associated_value matches Some(
                    frames::AssociatedValueView::MentionAci(aci),
                ) ==> after[before.len() as int].associated_value == Some(
                    AssociatedValueView::MentionAciBinary(aci),
                )
                &&& range.associated_value matches Some(frames::AssociatedValueView::Style(style))
                    ==> after[before.len() as int].associated_value == Some(
                    AssociatedValueView::Style(style),
                )
            }
        }),
{
    assert(ranges.push(range).drop_last() =~= ranges);
    assert(ranges.push(range).last() == range);
    let before = convert::ranges_of(ranges);
    let after = convert::ranges_of(ranges.push(range));
    if range.associated_value is Some {
        assert(after.take(before.len() as int) =~= before);
    }
}

/// A reaction is restored, behind those before it, exactly where whoever reacted is known: as a
/// transcript where it was this account, and as a message to it otherwise.
pub proof fn law_each_reaction_counts_for_itself(
    reactions: Seq<frames::ReactionView>,
    reaction: frames::ReactionView,
    author: Seq<u8>,
    sent: u64,
    recipients: Map<u64, RecipientInfo>,
    thread: ThreadView,
    our_aci: Seq<u8>,
)
    ensures
        ({
            let before = convert::reaction_contents(
                reactions,
                author,
                sent,
                recipients,
                thread,
                our_aci,
            );
            let after = convert::reaction_contents(
                reactions.push(reaction),
                author,
                sent,
                recipients,
                thread,
                our_aci,
            );
            let is_known = recipients.contains_key(reaction.author_id)
                && recipients[reaction.author_id].service_id is Some;
            let reactor = recipients[reaction.author_id].service_id->0.deep_view();
            &&& !is_known ==> after == before
            &&& is_known ==> {
                let content = after[before.len() as int].0;
                &&& after.len() == before.len() + 1
                &&& after.take(before.len() as int) == before
                &&& after[before.len() as int].1 == thread
                &&& says_reaction(content, reaction, reactor, author, sent)
                &&& is_history(content, reaction.sent_timestamp)
                &&& reactor != ServiceIdView::Aci(our_aci) ==> content.body is DataMessage
                    && content.metadata.destination == ServiceIdView::Aci(our_aci)
                &&& reactor == ServiceIdView::Aci(our_aci) ==> {
                    &&& content.body is SynchronizeMessage
                    &&& content.body->SynchronizeMessage_0.sent->0.timestamp == Some(
                        reaction.sent_timestamp,
                    )
                    &&& thread matches ThreadView::Contact(id) ==> content.metadata.destination
                        == id
                        && content.body->SynchronizeMessage_0.sent->0.destination_service_id
                        == Some(service_id::service_id_text(id))
                    &&& thread is Group
                        ==> content.body->SynchronizeMessage_0.sent->0.destination_service_id is None
                }
            }
        }),
{
    assert(reactions.push(reaction).drop_last() =~= reactions);
    assert(reactions.push(reaction).last() == reaction);
    if recipients.contains_key(reaction.author_id) {
        assert(recipients[reaction.author_id].deep_view().service_id
            == recipients[reaction.author_id].service_id.deep_view());
        let before = convert::reaction_contents(
            reactions,
            author,
            sent,
            recipients,
            thread,
            our_aci,
        );
        let after = convert::reaction_contents(
            reactions.push(reaction),
            author,
            sent,
            recipients,
            thread,
            our_aci,
        );
        if recipients[reaction.author_id].service_id is Some {
            assert(after.take(before.len() as int) =~= before);
        }
    }
}

/// What follows a message are its reactions. They stand on a message of whoever wrote it, and of
/// this account where the writer is not known.
pub proof fn law_reactions_follow_their_message(
    item: frames::ChatItemView,
    thread: ThreadView,
    recipients: Map<u64, RecipientInfo>,
    our_aci: Seq<u8>,
    group_id: Seq<u8>,
)
    requires
        is_message(item),
        convert::item_contents(item, thread, recipients, our_aci, group_id).len() > 0,
    ensures
        ({
            let contents = convert::item_contents(item, thread, recipients, our_aci, group_id);
            let is_known = recipients.contains_key(item.author_id)
                && recipients[item.author_id].service_id is Some
                && recipients[item.author_id].service_id->0 is Aci;
            let author = if is_known {
                recipients[item.author_id].service_id->0->Aci_0.uuid.bytes@
            } else {
                our_aci
            };
            contents.skip(1) == convert::reaction_contents(
                reactions_on(item),
                author,
                item.date_sent,
                recipients,
                thread,
                our_aci,
            )
        }),
{
    let contents = convert::item_contents(item, thread, recipients, our_aci, group_id);
    if recipients.contains_key(item.author_id) {
        assert(recipients[item.author_id].deep_view().service_id
            == recipients[item.author_id].service_id.deep_view());
    }
    let author = convert::reacted_author(item.author_id, recipients, our_aci);
    let following = convert::reaction_contents(
        reactions_on(item),
        author,
        item.date_sent,
        recipients,
        thread,
        our_aci,
    );
    assert(contents =~= seq![contents[0]] + following);
    assert(contents.skip(1) =~= following);
}

/// A delivery is kept, behind those before it, exactly where the message got to somebody known.
pub proof fn law_each_delivery_counts_for_itself(
    list: Seq<frames::SendStatusView>,
    status: frames::SendStatusView,
    recipients: Map<u64, RecipientInfo>,
)
    ensures
        ({
            let before = convert::send_states_of(list, recipients);
            let after = convert::send_states_of(list.push(status), recipients);
            &&& !got_there(status, recipients) ==> after == before
            &&& got_there(status, recipients) ==> {
                &&& after.len() == before.len() + 1
                &&& after.take(before.len() as int) == before
                &&& is_delivery(after[before.len() as int], status, recipients)
            }
        }),
{
    assert(list.push(status).drop_last() =~= list);
    assert(list.push(status).last() == status);
    if recipients.contains_key(status.recipient_id) {
        assert(recipients[status.recipient_id].deep_view().service_id
            == recipients[status.recipient_id].service_id.deep_view());
    }
    if got_there(status, recipients) {
        let before = convert::send_states_of(list, recipients);
        let after = convert::send_states_of(list.push(status), recipients);
        assert(after.take(before.len() as int) =~= before);
    }
}

/// Every delivery of a sent message that got to somebody known is kept, whatever became of the
/// others.
pub proof fn law_deliveries_are_kept_one_by_one(
    item: ChatItem,
    recipients: HashMap<u64, RecipientInfo>,
    chats: HashMap<u64, Thread>,
    state: Option<BackupMessageState>,
    details: frames::OutgoingMessageDetails,
)
    requires
        call_ensures(convert::chat_item_backup_state, (&item, &recipients, &chats), state),
        chats@.contains_key(item.chat_id),
        item.directional_details == Some(frames::DirectionalDetails::Outgoing(details)),
    ensures
        state is Some,
        state->0.thread.deep_view() == chats@[item.chat_id].deep_view(),
        state->0.ts == item.date_sent,
        state->0.read is None,
        details.date_received != 0 ==> state->0.date_received == Some(details.date_received),
        details.date_received == 0 ==> state->0.date_received is None,
        state->0.send_states.deep_view() == convert::send_states_of(
            details.send_status.deep_view(),
            recipients@,
        ),
{
    let view = state->0.deep_view();
    assert(view.send_states == state->0.send_states.deep_view());
}

} // verus!

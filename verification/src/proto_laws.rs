//! What the views of messages promise: they tell messages apart.
use vstd::prelude::*;

use crate::proto::{Content, DataMessage, EditMessage, Metadata, Sent};
use crate::text;

verus! {

/// Two messages with the same view are the same message: none of what a message says is hidden
/// from its view.
pub proof fn law_the_view_of_a_message_shows_it_whole(a: DataMessage, b: DataMessage)
    requires
        a.deep_view() == b.deep_view(),
    ensures
        a.body is Some <==> b.body is Some,
        a.body is Some ==> a.body->0@ == b.body->0@,
        a.attachments@.len() == b.attachments@.len(),
        forall|i: int|
            0 <= i < a.attachments@.len() ==> (#[trigger] a.attachments@[i]).deep_view()
                == b.attachments@[i].deep_view(),
        a.group_v2.deep_view() == b.group_v2.deep_view(),
        a.flags == b.flags,
        a.expire_timer == b.expire_timer,
        a.expire_timer_version == b.expire_timer_version,
        a.profile_key is Some <==> b.profile_key is Some,
        a.profile_key is Some ==> a.profile_key->0@ == b.profile_key->0@,
        a.timestamp == b.timestamp,
        a.quote.deep_view() == b.quote.deep_view(),
        a.preview.deep_view() == b.preview.deep_view(),
        a.sticker.deep_view() == b.sticker.deep_view(),
        a.required_protocol_version == b.required_protocol_version,
        a.reaction.deep_view() == b.reaction.deep_view(),
        a.delete.deep_view() == b.delete.deep_view(),
        a.body_ranges.deep_view() == b.body_ranges.deep_view(),
        a.rest@ == b.rest@,
{
    broadcast use text::lemma_bytes_view;

    let x = a.deep_view();
    let y = b.deep_view();
    assert(x.body == a.body.deep_view());
    assert(y.body == b.body.deep_view());
    assert(x.attachments == a.attachments.deep_view());
    assert(y.attachments == b.attachments.deep_view());
    assert(x.attachments.len() == a.attachments@.len());
    assert(y.attachments.len() == b.attachments@.len());
    assert forall|i: int| 0 <= i < a.attachments@.len() implies (
    #[trigger] a.attachments@[i]).deep_view() == b.attachments@[i].deep_view() by {
        assert(x.attachments[i] == a.attachments@[i].deep_view());
        assert(y.attachments[i] == b.attachments@[i].deep_view());
    }
    assert(x.profile_key == a.profile_key.deep_view());
    assert(y.profile_key == b.profile_key.deep_view());
    if a.profile_key is Some {
        assert(x.profile_key == Some(a.profile_key->0.deep_view()));
        assert(y.profile_key == Some(b.profile_key->0.deep_view()));
    }
    assert(x.rest == a.rest.deep_view());
    assert(y.rest == b.rest.deep_view());
}

/// Two contents with the same view have the same metadata and bodies with the same view.
pub proof fn law_the_view_of_a_content_shows_it_whole(a: Content, b: Content)
    requires
        a.deep_view() == b.deep_view(),
    ensures
        same_metadata(a.metadata, b.metadata),
        a.body.deep_view() == b.body.deep_view(),
{
    assert(a.deep_view().metadata == a.metadata.deep_view());
    assert(b.deep_view().metadata == b.metadata.deep_view());
    law_the_view_of_metadata_shows_it_whole(a.metadata, b.metadata);
    assert(a.deep_view().body == a.body.deep_view());
    assert(b.deep_view().body == b.body.deep_view());
}

/// Metadata that says the same.
pub open spec fn same_metadata(a: Metadata, b: Metadata) -> bool {
    &&& a.sender.deep_view() == b.sender.deep_view()
    &&& a.destination.deep_view() == b.destination.deep_view()
    &&& a.sender_device == b.sender_device
    &&& a.server_guid.deep_view() == b.server_guid.deep_view()
    &&& a.timestamp == b.timestamp
    &&& a.server_timestamp == b.server_timestamp
    &&& a.needs_receipt == b.needs_receipt
    &&& a.unidentified_sender == b.unidentified_sender
    &&& a.was_plaintext == b.was_plaintext
    &&& a.report_spam_token.deep_view() == b.report_spam_token.deep_view()
}

/// Metadata with the same view says the same.
pub proof fn law_the_view_of_metadata_shows_it_whole(a: Metadata, b: Metadata)
    requires
        a.deep_view() == b.deep_view(),
    ensures
        same_metadata(a, b),
{
    assert(a.deep_view().server_guid == a.server_guid.deep_view());
    assert(b.deep_view().server_guid == b.server_guid.deep_view());
    assert(a.deep_view().report_spam_token == a.report_spam_token.deep_view());
    assert(b.deep_view().report_spam_token == b.report_spam_token.deep_view());
}

/// Transcripts, and edits, with the same view say the same.
pub proof fn law_the_view_of_a_transcript_shows_it_whole(
    a: Sent,
    b: Sent,
    edit: EditMessage,
    other: EditMessage,
)
    requires
        a.deep_view() == b.deep_view(),
        edit.deep_view() == other.deep_view(),
    ensures
        a.destination_service_id.deep_view() == b.destination_service_id.deep_view(),
        a.destination_service_id_binary.deep_view() == b.destination_service_id_binary.deep_view(),
        a.timestamp == b.timestamp,
        a.message.deep_view() == b.message.deep_view(),
        a.edit_message.deep_view() == b.edit_message.deep_view(),
        a.rest@ == b.rest@,
        edit.target_sent_timestamp == other.target_sent_timestamp,
        edit.data_message.deep_view() == other.data_message.deep_view(),
{
    broadcast use text::lemma_bytes_view;

    assert(a.deep_view().rest == a.rest.deep_view());
    assert(b.deep_view().rest == b.rest.deep_view());
    assert(a.deep_view().message == a.message.deep_view());
    assert(b.deep_view().message == b.message.deep_view());
    assert(edit.deep_view().data_message == edit.data_message.deep_view());
    assert(other.deep_view().data_message == other.data_message.deep_view());
}

/// A copy of a message, and of a content, is that message or content.
pub proof fn law_a_copy_is_the_same(
    message: DataMessage,
    message_copy: DataMessage,
    content: Content,
    content_copy: Content,
)
    requires
        call_ensures(DataMessage::clone, (&message,), message_copy),
        call_ensures(Content::clone, (&content,), content_copy),
    ensures
        message_copy.deep_view() == message.deep_view(),
        content_copy.deep_view() == content.deep_view(),
{
}

} // verus!

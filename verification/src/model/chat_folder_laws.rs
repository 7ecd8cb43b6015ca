//! What a chat folder promises.
use vstd::prelude::*;

use crate::model::chat_folders;
use crate::model::chat_folders::{
    ChatFolder, ChatFolderRecord, ChatFolderRecordError, ChatFolderType, ChatFolderView,
    FolderRecipient, FolderRecipientView, Recipient, RecipientIdentifier, RecipientView,
};
use crate::service_id;
use crate::service_id::{ServiceId, Uuid};
use crate::text;

verus! {

/// A record with an identifier is a folder that says what the record says.
pub proof fn law_a_folder_says_what_its_record_says(
    record: ChatFolderRecord,
    folder: Result<ChatFolder, ChatFolderRecordError>,
)
    requires
        call_ensures(ChatFolder::try_from_record, (record,), folder),
    ensures
        folder is Ok <==> record.identifier@.len() == 16,
        folder is Ok ==> {
            let read = folder->Ok_0;
            &&& read.id.bytes@ == record.identifier@
            &&& read.folder_type == record.folder_type
            &&& read.name@ == record.name@
            &&& read.position == record.position
            &&& read.show_only_unread == record.show_only_unread
            &&& read.show_muted_chats == record.show_muted_chats
            &&& read.include_all_individual_chats == record.include_all_individual_chats
            &&& read.include_all_group_chats == record.include_all_group_chats
            &&& read.deleted_at_timestamp_ms == record.deleted_at_timestamp_ms
            &&& read.included_recipients.deep_view() == chat_folders::recipients_of_record(
                record.included_recipients.deep_view(),
            )
            &&& read.excluded_recipients.deep_view() == chat_folders::recipients_of_record(
                record.excluded_recipients.deep_view(),
            )
        },
{
    broadcast use text::lemma_bytes_view;

    let view = record.deep_view();
    assert(view.identifier == record.identifier.deep_view());
    assert(view.included_recipients == record.included_recipients.deep_view());
    assert(view.excluded_recipients == record.excluded_recipients.deep_view());
    if folder is Ok {
        let read = folder->Ok_0.deep_view();
        assert(read.included_recipients == folder->Ok_0.included_recipients.deep_view());
        assert(read.excluded_recipients == folder->Ok_0.excluded_recipients.deep_view());
    }
}

/// The record of a folder says what the folder says, of every recipient in its place.
pub proof fn law_a_record_says_what_its_folder_says(folder: ChatFolder, record: ChatFolderRecord)
    requires
        call_ensures(ChatFolder::to_record, (&folder,), record),
    ensures
        record.identifier@ == folder.id.bytes@,
        record.folder_type == folder.folder_type,
        record.name@ == folder.name@,
        record.position == folder.position,
        record.show_only_unread == folder.show_only_unread,
        record.show_muted_chats == folder.show_muted_chats,
        record.include_all_individual_chats == folder.include_all_individual_chats,
        record.include_all_group_chats == folder.include_all_group_chats,
        record.deleted_at_timestamp_ms == folder.deleted_at_timestamp_ms,
        record.included_recipients@.len() == folder.included_recipients@.len(),
        record.excluded_recipients@.len() == folder.excluded_recipients@.len(),
        forall|i: int|
            0 <= i < folder.included_recipients@.len() ==> is_same_recipient(
                #[trigger] record.deep_view().included_recipients[i],
                folder.deep_view().included_recipients[i],
            ),
        forall|i: int|
            0 <= i < folder.excluded_recipients@.len() ==> is_same_recipient(
                #[trigger] record.deep_view().excluded_recipients[i],
                folder.deep_view().excluded_recipients[i],
            ),
{
    broadcast use text::lemma_bytes_view;

    let view = record.deep_view();
    assert(view.identifier == record.identifier.deep_view());
    assert(view.included_recipients.len() == record.included_recipients@.len());
    assert(view.excluded_recipients.len() == record.excluded_recipients@.len());
    assert(folder.deep_view().included_recipients.len() == folder.included_recipients@.len());
    assert(folder.deep_view().excluded_recipients.len() == folder.excluded_recipients@.len());
}

/// Whether a record names a recipient of a folder: a group by its key or its old id, a person by
/// the number and the identity, in both of its forms.
pub open spec fn is_same_recipient(record: RecipientView, recipient: FolderRecipientView) -> bool {
    match (record.identifier, recipient) {
        (
            Some(chat_folders::RecipientIdentifierView::GroupMasterKey(written)),
            FolderRecipientView::GroupMasterKey(key),
        ) => written == key,
        (
            Some(chat_folders::RecipientIdentifierView::LegacyGroupId(written)),
            FolderRecipientView::LegacyGroupId(id),
        ) => written == id,
        (
            Some(chat_folders::RecipientIdentifierView::Contact(contact)),
            FolderRecipientView::Contact { service_id, e164 },
        ) => {
            let named = match service_id {
                Some(text) => service_id::service_id_of_text(text),
                None => None,
            };
            &&& e164 is Some ==> contact.e164 == e164->0
            &&& e164 is None ==> contact.e164.len() == 0
            &&& named is Some ==> contact.service_id == service_id::service_id_text(named->0)
            &&& named is Some ==> contact.service_id_binary == service_id::service_id_bytes(
                named->0,
            )
            &&& named is None ==> contact.service_id.len() == 0
            &&& named is None ==> contact.service_id_binary.len() == 0
        },
        _ => false,
    }
}

/// A recipient of a record is read by what it names: a group by a proper key or by an old id, a
/// person by the identity, of which the binary form goes first, and by the number.
pub proof fn law_a_recipient_is_read_by_what_it_names(
    recipient: Recipient,
    read: Option<FolderRecipient>,
)
    requires
        call_ensures(FolderRecipient::from_proto, (recipient,), read),
    ensures
        recipient.identifier is None ==> read is None,
        recipient.identifier matches Some(RecipientIdentifier::LegacyGroupId(id)) ==> read is Some
            && read->0.deep_view() == FolderRecipientView::LegacyGroupId(id@),
        recipient.identifier matches Some(RecipientIdentifier::GroupMasterKey(key)) ==> {
            &&& key@.len() == 32 ==> read is Some && read->0.deep_view()
                == FolderRecipientView::GroupMasterKey(key@)
            &&& key@.len() != 32 ==> read is None
        },
        recipient.identifier matches Some(RecipientIdentifier::Contact(contact)) ==> {
            let in_bytes = service_id::service_id_of_bytes(contact.service_id_binary@);
            let in_text = service_id::service_id_of_text(contact.service_id@);
            let of = read->0.deep_view();
            &&& read is Some
            &&& of is Contact
            &&& contact.e164@.len() > 0 ==> of->e164 == Some(contact.e164@)
            &&& contact.e164@.len() == 0 ==> of->e164 is None
            &&& in_bytes is Some ==> of->service_id == Some(service_id::service_id_text(in_bytes->0))
            &&& in_bytes is None && in_text is Some ==> of->service_id == Some(
                service_id::service_id_text(in_text->0),
            )
            &&& in_bytes is None && in_text is None ==> of->service_id is None
        },
{
    broadcast use text::lemma_bytes_view;

    assert(recipient.deep_view().identifier == recipient.identifier.deep_view());
    if let Some(RecipientIdentifier::Contact(contact)) = recipient.identifier {
        assert(contact.deep_view().service_id_binary == contact.service_id_binary.deep_view());
    }
    if let Some(RecipientIdentifier::LegacyGroupId(id)) = recipient.identifier {
        assert(recipient.identifier->0.deep_view()
            == chat_folders::RecipientIdentifierView::LegacyGroupId(id.deep_view()));
    }
    if let Some(RecipientIdentifier::GroupMasterKey(key)) = recipient.identifier {
        assert(recipient.identifier->0.deep_view()
            == chat_folders::RecipientIdentifierView::GroupMasterKey(key.deep_view()));
    }
}

/// A folder recipient made of an identity names that identity and no number.
pub proof fn law_a_person_is_named_by_identity(id: ServiceId, recipient: FolderRecipient)
    requires
        call_ensures(FolderRecipient::contact, (id,), recipient),
    ensures
        recipient.deep_view() == (FolderRecipientView::Contact {
            service_id: Some(service_id::service_id_text(id.deep_view())),
            e164: None,
        }),
{
}

/// A group has no identity of a person.
pub proof fn law_only_people_have_an_identity(recipient: FolderRecipient, id: Option<ServiceId>)
    requires
        call_ensures(FolderRecipient::service_id, (&recipient,), id),
    ensures
        !(recipient is Contact) ==> id is None,
        recipient.deep_view() matches FolderRecipientView::Contact { service_id, e164: _ } ==> {
            &&& service_id is None ==> id is None
            &&& service_id is Some ==> id.deep_view() == service_id::service_id_of_text(
                service_id->0,
            )
        },
{
}

/// Every recipient of a record that can be read is in the folder, in its place; one that cannot
/// be read is left out.
pub proof fn law_recipients_are_read_one_by_one(list: Seq<RecipientView>, i: int)
    requires
        forall|j: int|
            0 <= j < list.len() ==> chat_folders::recipient_of_record(#[trigger] list[j]) is Some,
        0 <= i < list.len(),
    ensures
        chat_folders::recipients_of_record(list).len() == list.len(),
        Some(chat_folders::recipients_of_record(list)[i]) == chat_folders::recipient_of_record(
            list[i],
        ),
    decreases list.len(),
{
    let before = list.drop_last();
    assert forall|j: int| 0 <= j < before.len() implies chat_folders::recipient_of_record(
        #[trigger] before[j],
    ) is Some by {
        assert(before[j] == list[j]);
    }
    assert(chat_folders::recipient_of_record(list[list.len() - 1]) is Some);
    if before.len() > 0 {
        law_recipients_are_read_one_by_one(before, if i < before.len() {
            i
        } else {
            0
        });
    }
    if i < before.len() {
        assert(before[i] == list[i]);
    }
}

/// The folder of all chats takes in everything; one of the user's own takes in nothing yet.
/// Neither hides what is read or muted, and both are live.
pub proof fn law_new_folders_hide_nothing(
    id: Uuid,
    name: String,
    all: ChatFolder,
    own: ChatFolder,
)
    requires
        call_ensures(ChatFolder::all_chats, (id,), all),
        call_ensures(ChatFolder::custom, (id, name), own),
    ensures
        all.id.bytes@ == id.bytes@,
        all.folder_type == ChatFolderType::All,
        all.name@.len() == 0,
        all.include_all_individual_chats,
        all.include_all_group_chats,
        all.show_muted_chats,
        !all.show_only_unread,
        all.position == 0,
        own.position == 0,
        all.deleted_at_timestamp_ms == 0,
        all.included_recipients@.len() == 0,
        all.excluded_recipients@.len() == 0,
        own.id.bytes@ == id.bytes@,
        own.folder_type == ChatFolderType::Custom,
        own.name@ == name@,
        !own.include_all_individual_chats,
        !own.include_all_group_chats,
        own.show_muted_chats,
        !own.show_only_unread,
        own.deleted_at_timestamp_ms == 0,
        own.included_recipients@.len() == 0,
        own.excluded_recipients@.len() == 0,
{
    assert(all.deep_view().included_recipients.len() == all.included_recipients@.len());
    assert(all.deep_view().excluded_recipients.len() == all.excluded_recipients@.len());
    assert(own.deep_view().included_recipients.len() == own.included_recipients@.len());
    assert(own.deep_view().excluded_recipients.len() == own.excluded_recipients@.len());
}

/// A deleted folder keeps its identity, its name and its kind; it goes behind all others, forgets
/// whom it held, and notes when it was deleted.
pub proof fn law_a_tombstone_keeps_the_identity(folder: ChatFolderView, deleted_at_ms: u64)
    ensures
        ({
            let after = folder.tombstone(deleted_at_ms);
            &&& after.id == folder.id
            &&& after.name == folder.name
            &&& after.folder_type == folder.folder_type
            &&& after.show_only_unread == folder.show_only_unread
            &&& after.show_muted_chats == folder.show_muted_chats
            &&& after.include_all_individual_chats == folder.include_all_individual_chats
            &&& after.include_all_group_chats == folder.include_all_group_chats
            &&& after.deleted_at_timestamp_ms == deleted_at_ms
            &&& after.position == u32::MAX
            &&& after.included_recipients.len() == 0
            &&& after.excluded_recipients.len() == 0
            &&& deleted_at_ms != 0 ==> !after.is_live()
        }),
{
}

/// A folder is live until it is deleted.
pub proof fn law_a_folder_is_live_until_deleted(folder: ChatFolder, live: bool)
    requires
        call_ensures(ChatFolder::is_live, (&folder,), live),
    ensures
        live <==> folder.deleted_at_timestamp_ms == 0,
{
}

/// A name is valid where it is not empty and has at most 32 graphemes.
pub proof fn law_names_are_neither_empty_nor_long(name: &str, graphemes: usize, valid: bool)
    requires
        call_ensures(ChatFolder::is_valid_name_of, (name, graphemes), valid),
    ensures
        valid <==> name@.len() > 0 && graphemes <= 32,
{
}

/// A name is judged by its own graphemes.
pub proof fn law_names_are_judged_by_their_graphemes(name: &str, valid: bool)
    requires
        call_ensures(ChatFolder::is_valid_name, (name,), valid),
    ensures
        valid <==> name@.len() > 0 && chat_folders::grapheme_count_of(name@) <= 32,
{
}

/// Trimming takes white space from both ends, all of it, and nothing else.
pub proof fn law_trimming_takes_white_space_only(name: &str, trimmed: String) -> (range: (int, int))
    requires
        call_ensures(ChatFolder::trimmed_name, (name,), trimmed),
    ensures
        0 <= range.0 <= range.1 <= name@.len(),
        trimmed@ == name@.subrange(range.0, range.1),
        forall|i: int| 0 <= i < range.0 ==> chat_folders::white_space(#[trigger] name@[i]),
        forall|i: int|
            range.1 <= i < name@.len() ==> chat_folders::white_space(#[trigger] name@[i]),
        trimmed@.len() > 0 ==> !chat_folders::white_space(trimmed@[0]),
        trimmed@.len() > 0 ==> !chat_folders::white_space(trimmed@[trimmed@.len() - 1]),
{
    let start = lemma_start(name@);
    let rest = name@.skip(start);
    let len = lemma_end(rest);
    assert(rest.take(len) =~= name@.subrange(start, start + len));
    assert forall|i: int| start + len <= i < name@.len() implies chat_folders::white_space(
        #[trigger] name@[i],
    ) by {
        assert(rest[i - start] == name@[i]);
    }
    if len > 0 {
        assert(rest[0] == trimmed@[0]);
    }
    (start, start + len)
}

proof fn lemma_start(text: Seq<char>) -> (start: int)
    ensures
        0 <= start <= text.len(),
        chat_folders::trimmed_start(text) == text.skip(start),
        forall|i: int| 0 <= i < start ==> chat_folders::white_space(#[trigger] text[i]),
        start < text.len() ==> !chat_folders::white_space(text[start]),
    decreases text.len(),
{
    if text.len() > 0 && chat_folders::white_space(text[0]) {
        let rest = lemma_start(text.skip(1));
        assert(text.skip(1).skip(rest) =~= text.skip(rest + 1));
        assert forall|i: int| 0 <= i < rest + 1 implies chat_folders::white_space(
            #[trigger] text[i],
        ) by {
            if i > 0 {
                assert(text.skip(1)[i - 1] == text[i]);
            }
        }
        if rest + 1 < text.len() {
            assert(text.skip(1)[rest] == text[rest + 1]);
        }
        rest + 1
    } else {
        assert(text.skip(0) =~= text);
        0
    }
}

proof fn lemma_end(text: Seq<char>) -> (len: int)
    ensures
        0 <= len <= text.len(),
        chat_folders::trimmed_end(text) == text.take(len),
        forall|i: int| len <= i < text.len() ==> chat_folders::white_space(#[trigger] text[i]),
        len > 0 ==> !chat_folders::white_space(text[len - 1]),
    decreases text.len(),
{
    if text.len() > 0 && chat_folders::white_space(text.last()) {
        let before = text.drop_last();
        let len = lemma_end(before);
        assert(before.take(len) =~= text.take(len));
        assert forall|i: int| len <= i < text.len() implies chat_folders::white_space(
            #[trigger] text[i],
        ) by {
            if i < before.len() {
                assert(before[i] == text[i]);
            }
        }
        if len > 0 {
            assert(before[len - 1] == text[len - 1]);
        }
        len
    } else {
        assert(text.take(text.len() as int) =~= text);
        text.len() as int
    }
}

/// A name is normalised before it is trimmed.
pub proof fn law_normalising_comes_before_trimming(name: &str, normalized: String)
    requires
        call_ensures(ChatFolder::normalized_name, (name,), normalized),
    ensures
        normalized@ == chat_folders::trimmed(chat_folders::nfc_of(name@)),
{
}

/// Deleting a folder makes it its own tombstone.
pub proof fn law_a_folder_becomes_its_tombstone(folder: &mut ChatFolder, deleted_at_ms: u64)
    requires
        call_ensures(ChatFolder::tombstone, (folder, deleted_at_ms), ()),
    ensures
        final(folder).id.bytes@ == old(folder).id.bytes@,
        final(folder).name@ == old(folder).name@,
        final(folder).folder_type == old(folder).folder_type,
        final(folder).deleted_at_timestamp_ms == deleted_at_ms,
        final(folder).position == u32::MAX,
        final(folder).deep_view() == old(folder).deep_view().tombstone(deleted_at_ms),
{
}

/// The record of a recipient names that recipient.
pub proof fn law_a_recipient_is_written_as_it_is(recipient: FolderRecipient, record: Recipient)
    requires
        call_ensures(FolderRecipient::to_proto, (&recipient,), record),
    ensures
        is_same_recipient(record.deep_view(), recipient.deep_view()),
{
}

/// A recipient of a record is read, behind those before it, exactly where it can be.
pub proof fn law_each_recipient_counts_for_itself(list: Seq<RecipientView>, recipient: RecipientView)
    ensures
        ({
            let before = chat_folders::recipients_of_record(list);
            let after = chat_folders::recipients_of_record(list.push(recipient));
            let read = chat_folders::recipient_of_record(recipient);
            &&& read is None ==> after == before
            &&& read is Some ==> after == before.push(read->0)
        }),
{
    assert(list.push(recipient).drop_last() =~= list);
    assert(list.push(recipient).last() == recipient);
}

} // verus!

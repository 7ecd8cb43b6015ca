//! What the rows of the store promise.
use vstd::prelude::*;

use crate::manager::registered::MasterKey;
use crate::model::contacts::{Contact, PhoneNumber};
use crate::model::groups::Group;
use crate::proto::{Content, ContentBody, VerifiedState};
use crate::service_id;
use crate::service_id::ServiceIdView;
use crate::sqlite;
use crate::sqlite::{
    Profile, SqlContact, SqlGroup, SqlMessage, SqlProfile, SqlStickerPack, SqliteStoreError,
};
use crate::store::StickerPack;
use crate::text;

verus! {

/// Whether a number of a row is one of the size that it is read as.
pub open spec fn fits(value: i64) -> bool {
    0 <= value <= u32::MAX
}

/// A contact says what its row says. One whose number cannot be read is refused.
pub proof fn law_a_contact_says_what_its_row_says(
    row: SqlContact,
    phone_number: Option<PhoneNumber>,
    contact: Result<Contact, SqliteStoreError>,
)
    requires
        call_ensures(SqlContact::try_into_contact, (row, phone_number), contact),
    ensures
        contact is Err <==> row.phone_number is Some && phone_number is None,
        contact is Err ==> contact->Err_0 == SqliteStoreError::InvalidPhoneNumber,
        contact is Ok ==> {
            let read = contact->Ok_0;
            &&& read.uuid.bytes@ == row.uuid.bytes@
            &&& row.phone_number is Some ==> read.phone_number.deep_view()
                == phone_number.deep_view()
            &&& row.phone_number is None ==> read.phone_number is None
            &&& read.name@ == row.name@
            &&& read.profile_key@ == row.profile_key@
            &&& fits(row.expire_timer) ==> read.expire_timer == row.expire_timer
            &&& fits(row.expire_timer_version) ==> read.expire_timer_version
                == row.expire_timer_version
            &&& fits(row.inbox_position) ==> read.inbox_position == row.inbox_position
            &&& read.avatar is Some <==> row.avatar is Some
            &&& row.avatar is Some ==> read.avatar->0.reader@ == row.avatar->0@
            &&& read.username.deep_view() == row.username.deep_view()
            &&& read.blocked == row.blocked
            &&& read.whitelisted == row.whitelisted
            &&& read.archived == row.archived
            &&& read.marked_unread == row.marked_unread
            &&& row.muted_until_timestamp >= 0 ==> read.muted_until_timestamp
                == row.muted_until_timestamp
            &&& read.hide_story == row.hide_story
            &&& read.hidden == row.hidden
            &&& row.unregistered_at_timestamp >= 0 ==> read.unregistered_at_timestamp
                == row.unregistered_at_timestamp
            &&& read.pni_signature_verified == row.pni_signature_verified
        },
{
    broadcast use text::lemma_bytes_view;

    let of = row.deep_view();
    assert(of.phone_number == row.phone_number.deep_view());
    assert(of.avatar == row.avatar.deep_view());
    if contact is Ok {
        let read = contact->Ok_0.deep_view();
        assert(read.profile_key == contact->Ok_0.profile_key.deep_view());
        assert(of.profile_key == row.profile_key.deep_view());
        assert(read.username == contact->Ok_0.username.deep_view());
        assert(read.phone_number == contact->Ok_0.phone_number.deep_view());
        assert(read.avatar == contact->Ok_0.avatar.deep_view());
        if row.avatar is Some {
            assert(read.avatar == Some(contact->Ok_0.avatar->0.deep_view()));
            assert(contact->Ok_0.avatar->0.deep_view().reader
                == contact->Ok_0.avatar->0.reader.deep_view());
        }
    }
}

/// A contact has the names of its row, and the identity that was verified.
pub proof fn law_a_contact_has_the_names_of_its_row(
    row: SqlContact,
    phone_number: Option<PhoneNumber>,
    contact: Result<Contact, SqliteStoreError>,
)
    requires
        call_ensures(SqlContact::try_into_contact, (row, phone_number), contact),
        contact is Ok,
    ensures
        ({
            let read = contact->Ok_0.deep_view();
            let of = row.deep_view();
            &&& of.system_given_name is Some ==> read.system_given_name == of.system_given_name->0
            &&& of.system_given_name is None ==> read.system_given_name.len() == 0
            &&& of.system_family_name is Some ==> read.system_family_name
                == of.system_family_name->0
            &&& of.system_family_name is None ==> read.system_family_name.len() == 0
            &&& of.system_nickname is Some ==> read.system_nickname == of.system_nickname->0
            &&& of.system_nickname is None ==> read.system_nickname.len() == 0
            &&& of.nickname_given_name is Some ==> read.nickname_given_name
                == of.nickname_given_name->0
            &&& of.nickname_given_name is None ==> read.nickname_given_name.len() == 0
            &&& of.nickname_family_name is Some ==> read.nickname_family_name
                == of.nickname_family_name->0
            &&& of.nickname_family_name is None ==> read.nickname_family_name.len() == 0
            &&& of.note is Some ==> read.note == of.note->0
            &&& of.note is None ==> read.note.len() == 0
            &&& of.pni is Some ==> read.pni == text::parsed_uuid(of.pni->0)
            &&& of.pni is None ==> read.pni is None
            &&& read.verified.destination_aci == of.destination_aci
            &&& read.verified.identity_key == of.identity_key
            &&& of.is_verified == Some(true) <==> read.verified.state == Some(
                VerifiedState::Verified,
            )
            &&& of.is_verified == Some(false) <==> read.verified.state == Some(
                VerifiedState::Unverified,
            )
            &&& of.is_verified is None <==> read.verified.state is None
            &&& of.destination_aci is None ==> read.verified.destination_aci_binary is None
            &&& of.destination_aci is Some ==> (read.verified.destination_aci_binary matches Some(
                bytes,
            ) ==> service_id::service_id_of_text(of.destination_aci->0) == Some(
                ServiceIdView::Aci(bytes),
            ))
            &&& of.destination_aci is Some ==> (service_id::service_id_of_text(
                of.destination_aci->0,
            ) matches Some(ServiceIdView::Aci(bytes)) ==> read.verified.destination_aci_binary
                == Some(bytes))
        }),
{
}

/// A profile says what its row says; it has a name where it has a given name.
pub proof fn law_a_profile_says_what_its_row_says(row: SqlProfile, profile: Profile)
    requires
        call_ensures(Profile::from_row, (row,), profile),
    ensures
        profile.name is Some <==> row.given_name is Some,
        profile.name is Some ==> profile.name->0.given_name@ == row.given_name->0@
            && profile.name->0.family_name.deep_view() == row.family_name.deep_view(),
        profile.about.deep_view() == row.about.deep_view(),
        profile.about_emoji.deep_view() == row.about_emoji.deep_view(),
        profile.avatar.deep_view() == row.avatar.deep_view(),
        profile.unrestricted_unidentified_access == row.unrestricted_unidentified_access,
{
    let of = row.deep_view();
    assert(of.given_name == row.given_name.deep_view());
    assert(of.family_name == row.family_name.deep_view());
    assert(of.about == row.about.deep_view());
    assert(of.about_emoji == row.about_emoji.deep_view());
    assert(of.avatar == row.avatar.deep_view());
}

/// The row of a group says what the group says.
pub proof fn law_a_row_says_what_its_group_says(
    master_key: [u8; 32],
    group: Group,
    row: SqlGroup,
)
    requires
        call_ensures(SqlGroup::from_group, (&master_key, group), row),
    ensures
        row.master_key@ == master_key@,
        row.title.deep_view() == group.title.deep_view(),
        row.revision == group.revision,
        row.invite_link_password is Some && row.invite_link_password->0@
            == group.invite_link_password@,
        row.access_control == group.access_control,
        row.avatar.deep_view() == group.avatar.deep_view(),
        row.description.deep_view() == group.description.deep_view(),
        row.members.deep_view() == group.members.deep_view(),
        row.pending_members.deep_view() == group.pending_members.deep_view(),
        row.requesting_members.deep_view() == group.requesting_members.deep_view(),
        row.needs_hydration == group.needs_hydration,
        row.blocked == group.blocked,
        row.whitelisted == group.whitelisted,
        row.archived == group.archived,
        row.marked_unread == group.marked_unread,
        group.muted_until_timestamp <= i64::MAX ==> row.muted_until_timestamp
            == group.muted_until_timestamp,
        row.dont_notify_for_mentions_if_muted == group.dont_notify_for_mentions_if_muted,
        row.hide_story == group.hide_story,
        row.story_send_mode == group.story_send_mode,
{
    broadcast use text::lemma_bytes_view;

    let view = row.deep_view();
    let of = group.deep_view();
    assert(view.master_key == row.master_key.deep_view());
    assert(view.title == row.title.deep_view());
    assert(of.title == group.title.deep_view());
    assert(view.avatar == row.avatar.deep_view());
    assert(of.avatar == group.avatar.deep_view());
    assert(view.description == row.description.deep_view());
    assert(of.description == group.description.deep_view());
    assert(view.invite_link_password == row.invite_link_password.deep_view());
    assert(of.invite_link_password == group.invite_link_password.deep_view());
    if row.invite_link_password is Some {
        assert(view.invite_link_password == Some(row.invite_link_password->0.deep_view()));
    }
}

/// A group says what its row says, under the key of the row, which has 32 bytes.
pub proof fn law_a_group_says_what_its_row_says(
    row: SqlGroup,
    r: Result<([u8; 32], Group), SqliteStoreError>,
)
    requires
        call_ensures(SqlGroup::into_group, (row,), r),
    ensures
        r is Ok <==> row.master_key@.len() == 32,
        r is Err ==> r->Err_0 == SqliteStoreError::InvalidFormat,
        r is Ok ==> {
            let group = (r->Ok_0).1;
            &&& (r->Ok_0).0@ == row.master_key@
            &&& group.title.deep_view() == row.title.deep_view()
            &&& group.revision == row.revision
            &&& row.invite_link_password is Some ==> group.invite_link_password@
                == row.invite_link_password->0@
            &&& row.invite_link_password is None ==> group.invite_link_password@.len() == 0
            &&& group.access_control == row.access_control
            &&& group.avatar.deep_view() == row.avatar.deep_view()
            &&& group.description.deep_view() == row.description.deep_view()
            &&& group.members.deep_view() == row.members.deep_view()
            &&& group.pending_members.deep_view() == row.pending_members.deep_view()
            &&& group.requesting_members.deep_view() == row.requesting_members.deep_view()
            &&& group.needs_hydration == row.needs_hydration
            &&& group.blocked == row.blocked
            &&& group.whitelisted == row.whitelisted
            &&& group.archived == row.archived
            &&& group.marked_unread == row.marked_unread
            &&& row.muted_until_timestamp >= 0 ==> group.muted_until_timestamp
                == row.muted_until_timestamp
            &&& group.dont_notify_for_mentions_if_muted == row.dont_notify_for_mentions_if_muted
            &&& group.hide_story == row.hide_story
            &&& group.story_send_mode == row.story_send_mode
        },
{
    broadcast use text::lemma_bytes_view;

    let of = row.deep_view();
    assert(of.master_key == row.master_key.deep_view());
    assert(of.title == row.title.deep_view());
    assert(of.avatar == row.avatar.deep_view());
    assert(of.description == row.description.deep_view());
    assert(of.invite_link_password == row.invite_link_password.deep_view());
    if row.invite_link_password is Some {
        assert(of.invite_link_password == Some(row.invite_link_password->0.deep_view()));
    }
    if r is Ok {
        let key = (r->Ok_0).0;
        assert(key@.len() == 32);
        let group = (r->Ok_0).1;
        let view = group.deep_view();
        assert(view.title == group.title.deep_view());
        assert(view.avatar == group.avatar.deep_view());
        assert(view.description == group.description.deep_view());
        assert(view.invite_link_password == group.invite_link_password.deep_view());
    }
}

/// A stored message is read where its body is, and its sender and destination are named properly,
/// as what its row says; a device has a number from 1 to 127.
pub proof fn law_a_message_says_what_its_row_says(
    row: SqlMessage,
    body: Option<ContentBody>,
    content: Result<Content, SqliteStoreError>,
)
    requires
        call_ensures(SqlMessage::try_into_content, (row, body), content),
    ensures
        ({
            let sender = service_id::service_id_of_text(row.sender_service_id@);
            let destination = service_id::service_id_of_text(row.destination_service_id@);
            let is_named = body is Some && sender is Some && destination is Some;
            &&& !is_named ==> content is Err && content->Err_0 == SqliteStoreError::InvalidFormat
            &&& is_named && !(1 <= row.sender_device_id <= 127) ==> content is Err && content->Err_0
                == SqliteStoreError::InvalidDeviceId
            &&& is_named && 1 <= row.sender_device_id <= 127 ==> {
                let read = content->Ok_0.deep_view();
                &&& content is Ok
                &&& read.body == body->0.deep_view()
                &&& read.metadata.sender == sender->0
                &&& read.metadata.destination == destination->0
                &&& read.metadata.sender_device == row.sender_device_id
                &&& row.ts <= i64::MAX ==> read.metadata.timestamp == row.ts
                &&& row.ts <= i64::MAX ==> read.metadata.server_timestamp == row.ts
                &&& read.metadata.needs_receipt == row.needs_receipt
                &&& read.metadata.unidentified_sender == row.unidentified_sender
                &&& read.metadata.was_plaintext == row.was_plaintext
                &&& read.metadata.server_guid is None
                &&& read.metadata.report_spam_token is None
            }
        }),
{
    if body is Some {
        assert(body.deep_view() == Some(body->0.deep_view()));
    }
}

/// A stored sticker pack is read as it is.
pub proof fn law_a_pack_says_what_its_row_says(row: SqlStickerPack, pack: StickerPack)
    requires
        call_ensures(SqlStickerPack::into_sticker_pack, (row,), pack),
    ensures
        pack.id@ == row.id@,
        pack.key@ == row.key@,
        pack.manifest.deep_view() == row.manifest.deep_view(),
{
    broadcast use text::lemma_bytes_view;

    assert(pack.deep_view().id == pack.id.deep_view());
    assert(pack.deep_view().key == pack.key.deep_view());
    assert(row.deep_view().id == row.id.deep_view());
    assert(row.deep_view().key == row.key.deep_view());
    assert(pack.deep_view().manifest == pack.manifest.deep_view());
}

/// A passphrase is a quoted text that gives the passphrase back.
pub proof fn law_a_passphrase_is_quoted(passphrase: &str, key: String)
    requires
        call_ensures(sqlite::open_with_passphrase, (passphrase,), key),
    ensures
        key@.len() >= 2,
        key@[0] == '\'',
        key@[key@.len() - 1] == '\'',
        sqlite::unescaped(key@.subrange(1, key@.len() - 1)) == Some(passphrase@),
{
    reveal_strlit("'");
    sqlite::law_passphrase_stays_quoted(passphrase@);
    let inner = sqlite::replaced(passphrase@, '\'', "''"@);
    assert(key@.subrange(1, key@.len() - 1) =~= inner);
}

/// The version of the manifest that was stored is the one that is fetched; before that it is
/// zero, and other bytes are refused.
pub proof fn law_the_stored_version_is_fetched(
    version: u64,
    stored: Vec<u8>,
    other: Option<Vec<u8>>,
    fetched: Result<u64, SqliteStoreError>,
    read: Result<u64, SqliteStoreError>,
)
    requires
        call_ensures(sqlite::store_storage_manifest_version, (version,), stored),
        call_ensures(sqlite::fetch_storage_manifest_version, (&Some(stored),), fetched),
        call_ensures(sqlite::fetch_storage_manifest_version, (&other,), read),
    ensures
        fetched == Ok::<u64, SqliteStoreError>(version),
        other is None ==> read == Ok::<u64, SqliteStoreError>(0u64),
        other is Some && other->0@.len() != 8 ==> read == Err::<u64, SqliteStoreError>(
            SqliteStoreError::InvalidFormat,
        ),
        other is Some && other->0@.len() == 8 ==> read is Ok,
{
    broadcast use text::lemma_bytes_view;

    let some = Some(stored);
    assert(some.deep_view() == Some(stored.deep_view()));
    if other is Some {
        assert(other.deep_view() == Some(other->0.deep_view()));
    }
}

/// A stored master key is any 32 bytes, and so is a stored backup key; other bytes are refused.
pub proof fn law_stored_keys_have_32_bytes(
    value: Option<Vec<u8>>,
    master: Result<Option<MasterKey>, SqliteStoreError>,
    backup: Result<Option<[u8; 32]>, SqliteStoreError>,
)
    requires
        call_ensures(sqlite::fetch_master_key, (&value,), master),
        call_ensures(sqlite::fetch_backup_key, (&value,), backup),
    ensures
        value is None ==> master is Ok && master->Ok_0 is None,
        value is None ==> backup is Ok && backup->Ok_0 is None,
        value is Some && value->0@.len() == 32 ==> {
            &&& master is Ok && master->Ok_0 is Some && master->Ok_0->0.inner@ == value->0@
            &&& backup is Ok && backup->Ok_0 is Some && backup->Ok_0->0@ == value->0@
        },
        value is Some && value->0@.len() != 32 ==> {
            &&& master is Err && master->Err_0 == SqliteStoreError::InvalidFormat
            &&& backup is Err && backup->Err_0 == SqliteStoreError::InvalidFormat
        },
{
    broadcast use text::lemma_bytes_view;

    if value is Some {
        assert(value.deep_view() == Some(value->0.deep_view()));
        if master is Ok && master->Ok_0 is Some {
            let key = master->Ok_0->0.inner;
            assert(key@.len() == 32);
        }
        if backup is Ok && backup->Ok_0 is Some {
            let key = backup->Ok_0->0;
            assert(key@.len() == 32);
        }
    }
}

/// Every proper key gets its public id, in the order of the rows, and the rest is passed over.
pub proof fn law_every_proper_key_is_backfilled(
    rows: Vec<Vec<u8>>,
    r: (usize, Vec<MasterKey>),
    key: Seq<u8>,
)
    requires
        call_ensures(sqlite::backfill_group_ids, (&rows,), r),
    ensures
        r.0 == r.1@.len(),
        r.1.deep_view().contains(key) <==> rows.deep_view().contains(key) && key.len() == 32,
{
    assert(r.1.deep_view().len() == r.1@.len());
    lemma_proper(rows.deep_view(), key);
}

proof fn lemma_proper(rows: Seq<Seq<u8>>, key: Seq<u8>)
    ensures
        sqlite::proper_keys(rows).contains(key) <==> rows.contains(key) && key.len() == 32,
    decreases rows.len(),
{
    if rows.len() > 0 {
        let before = rows.drop_last();
        let end = rows.len() - 1;
        let first = sqlite::proper_keys(before);
        let all = sqlite::proper_keys(rows);
        lemma_proper(before, key);
        if before.contains(key) {
            let k = choose|k: int| 0 <= k < before.len() && before[k] == key;
            assert(rows[k] == key);
        }
        if first.contains(key) {
            let k = choose|k: int| 0 <= k < first.len() && first[k] == key;
            assert(all[k] == key);
        }
        if rows.contains(key) && !before.contains(key) {
            let k = choose|k: int| 0 <= k < rows.len() && rows[k] == key;
            if k < end {
                assert(before[k] == key);
            }
            if key.len() == 32 {
                assert(all[all.len() - 1] == key);
            }
        }
        if all.contains(key) && !first.contains(key) {
            let k = choose|k: int| 0 <= k < all.len() && all[k] == key;
            if k < first.len() {
                assert(first[k] == key);
            }
            assert(rows[end] == key);
        }
    }
}

/// A row counts, behind those before it, exactly where it holds a proper key.
pub proof fn law_each_row_counts_for_itself(rows: Seq<Seq<u8>>, row: Seq<u8>)
    ensures
        row.len() == 32 ==> sqlite::proper_keys(rows.push(row)) == sqlite::proper_keys(rows).push(
            row,
        ),
        row.len() != 32 ==> sqlite::proper_keys(rows.push(row)) == sqlite::proper_keys(rows),
{
    assert(rows.push(row).drop_last() =~= rows);
    assert(rows.push(row).last() == row);
}

} // verus!

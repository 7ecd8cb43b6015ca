//! What keeping up with the storage service promises.
use vstd::prelude::*;

use crate::errors::Error;
use crate::model::contacts::{Contact, InvalidAci, PhoneNumber};
use crate::model::groups::Group;
use crate::model::profile::ProfileKey;
use crate::proto::{
    ContactRecord, FetchLatestType, GroupV2Record, IdentifierView, ItemType, ManifestRecord,
    SyncMessage,
};
use crate::service_id::ServiceIdView;
use crate::storage_record;
use crate::storage_record::StorageRecordEditError;
use crate::store::StorageSyncCursor;
use crate::text;

use super::storage;
use super::storage::{
    AppendStep, PublishStep, StorageItem, StorageRecordKey, StorageSync, SyncEvent, SyncPhase,
    SyncStep, SyncedRecord, UpdateEvent, UpdatePhase, UpdateState, WriteOutcome,
};

verus! {

/// A manifest with one more record: the next version, from this device, with every identifier
/// that was there at its place and the new one behind them.
pub proof fn law_an_append_adds_one_record(
    current: ManifestRecord,
    device: u32,
    kind: ItemType,
    raw_id: Vec<u8>,
    manifest: ManifestRecord,
)
    requires
        call_ensures(storage::append_storage_record, (&current, device, kind, raw_id), manifest),
        current.version < u64::MAX,
    ensures
        manifest.version == current.version + 1,
        manifest.source_device == device,
        manifest.record_ikm@ == current.record_ikm@,
        manifest.identifiers@.len() == current.identifiers@.len() + 1,
        forall|i: int|
            0 <= i < current.identifiers@.len() ==> (
            #[trigger] manifest.identifiers@[i]).deep_view()
                == current.identifiers@[i].deep_view(),
        manifest.identifiers@[current.identifiers@.len() as int].raw@ == raw_id@,
        manifest.identifiers@[current.identifiers@.len() as int].kind == kind,
{
    broadcast use text::lemma_bytes_view;

    let before = current.deep_view();
    let after = manifest.deep_view();
    assert(after.identifiers.len() == manifest.identifiers@.len());
    assert(after.record_ikm == manifest.record_ikm.deep_view());
    assert forall|i: int| 0 <= i < current.identifiers@.len() implies (
    #[trigger] manifest.identifiers@[i]).deep_view() == current.identifiers@[i].deep_view() by {
        assert(after.identifiers[i] == manifest.identifiers@[i].deep_view());
        assert(before.identifiers[i] == current.identifiers@[i].deep_view());
    }
    let last = current.identifiers@.len() as int;
    assert(after.identifiers[last] == manifest.identifiers@[last].deep_view());
}

/// Where a record stands in a manifest, if it stands there exactly once.
pub open spec fn stands_once(identifiers: Seq<IdentifierView>, raw: Seq<u8>, at: int) -> bool {
    &&& 0 <= at < identifiers.len()
    &&& identifiers[at].raw == raw
    &&& forall|j: int| 0 <= j < identifiers.len() && j != at ==> (#[trigger] identifiers[j]).raw != raw
}

/// Whether a record stands in a manifest.
pub open spec fn stands(identifiers: Seq<IdentifierView>, raw: Seq<u8>) -> bool {
    exists|i: int| 0 <= i < identifiers.len() && (#[trigger] identifiers[i]).raw == raw
}

proof fn lemma_occurrences(identifiers: Seq<IdentifierView>, raw: Seq<u8>)
    ensures
        storage::occurrences(identifiers, raw) > 0 <==> stands(identifiers, raw),
        forall|at: int| #[trigger]
            stands_once(identifiers, raw, at) ==> storage::occurrences(identifiers, raw) == 1,
        storage::occurrences(identifiers, raw) == 1 ==> exists|at: int| #[trigger]
            stands_once(identifiers, raw, at),
    decreases identifiers.len(),
{
    if identifiers.len() > 0 {
        let before = identifiers.drop_last();
        let end = identifiers.len() - 1;
        lemma_occurrences(before, raw);
        if stands(before, raw) {
            let i = choose|i: int| 0 <= i < before.len() && (#[trigger] before[i]).raw == raw;
            assert(identifiers[i].raw == raw);
        }
        if stands(identifiers, raw) && identifiers[end].raw != raw {
            let i = choose|i: int|
                0 <= i < identifiers.len() && (#[trigger] identifiers[i]).raw == raw;
            assert(before[i].raw == raw);
        }
        if identifiers[end].raw == raw {
            assert(stands(identifiers, raw));
        }
        assert forall|at: int| #[trigger] stands_once(identifiers, raw, at) implies
            storage::occurrences(identifiers, raw) == 1 by {
            if at == end {
                if stands(before, raw) {
                    let i = choose|i: int|
                        0 <= i < before.len() && (#[trigger] before[i]).raw == raw;
                    assert(identifiers[i].raw == raw);
                }
            } else {
                assert forall|j: int| 0 <= j < before.len() && j != at implies (
                #[trigger] before[j]).raw != raw by {
                    assert(before[j] == identifiers[j]);
                }
                assert(before[at] == identifiers[at]);
                assert(stands_once(before, raw, at));
                assert(identifiers[end].raw != raw);
            }
        }
        if storage::occurrences(identifiers, raw) == 1 {
            if identifiers[end].raw == raw {
                assert(storage::occurrences(before, raw) == 0);
                assert forall|j: int| 0 <= j < identifiers.len() && j != end implies (
                #[trigger] identifiers[j]).raw != raw by {
                    assert(before[j] == identifiers[j]);
                    if before[j].raw == raw {
                        assert(stands(before, raw));
                    }
                }
                assert(stands_once(identifiers, raw, end));
            } else {
                let at = choose|at: int| #[trigger] stands_once(before, raw, at);
                assert forall|j: int| 0 <= j < identifiers.len() && j != at implies (
                #[trigger] identifiers[j]).raw != raw by {
                    if j < before.len() {
                        assert(before[j] == identifiers[j]);
                    }
                }
                assert(stands_once(identifiers, raw, at));
            }
        }
    }
}

/// A record is replaced where it stands, if it stands there exactly once and the new one does
/// not: the next version, from this device, with the new identifier in the place of the old and
/// every other one as it was.
pub proof fn law_a_replacement_takes_the_place(
    current: ManifestRecord,
    device: u32,
    kind: ItemType,
    old_raw: Vec<u8>,
    new_raw: Vec<u8>,
    at: int,
    r: Result<ManifestRecord, Error>,
)
    requires
        call_ensures(
            storage::write_replacing_storage_record,
            (&current, device, kind, &old_raw, &new_raw),
            r,
        ),
        current.version < u64::MAX,
        old_raw@ != new_raw@,
        stands_once(current.deep_view().identifiers, old_raw@, at),
        !stands(current.deep_view().identifiers, new_raw@),
    ensures
        r is Ok,
        r->Ok_0.version == current.version + 1,
        r->Ok_0.source_device == device,
        r->Ok_0.record_ikm@ == current.record_ikm@,
        r->Ok_0.deep_view().identifiers.len() == current.deep_view().identifiers.len(),
        r->Ok_0.deep_view().identifiers[at].raw == new_raw@,
        r->Ok_0.deep_view().identifiers[at].kind == kind,
        forall|i: int|
            0 <= i < current.deep_view().identifiers.len() && i != at
                ==> #[trigger] r->Ok_0.deep_view().identifiers[i]
                == current.deep_view().identifiers[i],
{
    broadcast use text::lemma_bytes_view;

    let identifiers = current.deep_view().identifiers;
    lemma_occurrences(identifiers, old_raw@);
    lemma_occurrences(identifiers, new_raw@);
    assert(storage::occurrences(identifiers, old_raw@) == 1);
    assert(r is Ok);
    assert(r->Ok_0.deep_view().record_ikm == r->Ok_0.record_ikm.deep_view());
    assert(current.deep_view().record_ikm == current.record_ikm.deep_view());
}

/// A replacement that would make two records one is refused, and so is one of a record that is
/// not there, or there more than once.
pub proof fn law_other_replacements_are_refused(
    current: ManifestRecord,
    device: u32,
    kind: ItemType,
    old_raw: Vec<u8>,
    new_raw: Vec<u8>,
    r: Result<ManifestRecord, Error>,
)
    requires
        call_ensures(
            storage::write_replacing_storage_record,
            (&current, device, kind, &old_raw, &new_raw),
            r,
        ),
    ensures
        old_raw@ == new_raw@ ==> r is Err && r->Err_0 == Error::StorageManifestConflict,
        stands(current.deep_view().identifiers, new_raw@) ==> r is Err && r->Err_0
            == Error::StorageManifestConflict,
        old_raw@ != new_raw@ && !stands(current.deep_view().identifiers, new_raw@) && !(exists|
            at: int,
        | #[trigger]
            stands_once(current.deep_view().identifiers, old_raw@, at)) ==> r is Err && r->Err_0
            == Error::StorageRecordMoved,
{
    lemma_occurrences(current.deep_view().identifiers, old_raw@);
    lemma_occurrences(current.deep_view().identifiers, new_raw@);
}

/// A write that meets another one is tried again after a second, then after four, and then given
/// up.
pub proof fn law_a_conflict_is_retried_twice(attempt: usize, outcome: WriteOutcome, step: AppendStep)
    requires
        call_ensures(storage::append_outcome, (attempt, outcome), step),
        1 <= attempt <= 3,
    ensures
        outcome is Written ==> step is Finish,
        outcome is Conflict && attempt == 1 ==> step == (AppendStep::Retry { seconds: 1 }),
        outcome is Conflict && attempt == 2 ==> step == (AppendStep::Retry { seconds: 4 }),
        outcome is Conflict && attempt == 3 ==> step is GiveUp,
{
}

/// There is a pause after the first and the second attempt, the second one longer, and none after
/// any other.
pub proof fn law_pauses_grow(attempts: usize, seconds: Option<u64>)
    requires
        call_ensures(storage::manifest_write_backoff, (attempts,), seconds),
    ensures
        attempts == 1 ==> seconds == Some(1u64),
        attempts == 2 ==> seconds == Some(4u64),
        attempts != 1 && attempts != 2 ==> seconds is None,
{
}

/// That the manifest was written is told the other devices, and nothing else.
pub proof fn law_a_written_manifest_is_told(padding: Vec<u8>, message: SyncMessage)
    requires
        call_ensures(storage::storage_manifest_written, (padding,), message),
    ensures
        message.deep_view().fetch_latest == Some(FetchLatestType::StorageManifest),
        message.deep_view().padding == Some(padding@),
        message.deep_view().sent is None,
        message.deep_view().keys is None,
        message.deep_view().blocked is None,
        message.deep_view().request is None,
{
}

/// An update starts with the mark that it is under way.
pub proof fn law_an_update_starts_with_its_mark(state: UpdateState)
    requires
        call_ensures(UpdateState::start, (), state),
    ensures
        state.phase is Marking,
        state.passes == 0,
        state.write_attempts == 0,
{
    assert(state.deep_view().phase == state.phase.deep_view());
}

/// An update works on the version that both sides have; where they differ it first catches up.
pub proof fn law_an_update_catches_up_first(
    state: UpdateState,
    local: u64,
    remote: u64,
    next: UpdateState,
)
    requires
        call_ensures(
            UpdateState::update_storage_record,
            (state, UpdateEvent::Versions { local, remote }),
            next,
        ),
        state.phase is Comparing,
    ensures
        local == remote ==> next.phase == (UpdatePhase::Loading { version: remote }),
        local != remote ==> next.phase is Syncing,
        next.passes == state.passes,
        next.write_attempts == state.write_attempts,
{
    assert(next.deep_view().phase == next.phase.deep_view());
}

/// An update edits the stored record under the identifier that it is stored with; without one
/// there is nothing to edit.
pub proof fn law_an_update_edits_the_stored_record(
    state: UpdateState,
    event: UpdateEvent,
    next: UpdateState,
)
    requires
        call_ensures(UpdateState::update_storage_record, (state, event), next),
        state.phase is Loading,
        event is Identity,
    ensures
        event->identity is None ==> next.phase == (UpdatePhase::Failed {
            error: Error::StorageRecordUnknown,
        }),
        event->identity is Some ==> {
            &&& next.phase is Editing
            &&& next.phase->Editing_version == state.phase->Loading_version
            &&& next.phase->Editing_storage_id@ == event->identity->0.storage_id@
            &&& next.phase->Editing_record@ == event->identity->0.record@
        },
        next.passes == state.passes,
        next.write_attempts == state.write_attempts,
{
    broadcast use text::lemma_bytes_view;

    assert(next.deep_view().phase == next.phase.deep_view());
    assert(state.deep_view().phase == state.phase.deep_view());
    assert(event.deep_view()->identity == event->identity.deep_view());
    if event->identity is Some {
        assert(next.phase is Editing);
        assert(next.phase.deep_view()->Editing_storage_id
            == next.phase->Editing_storage_id.deep_view());
        assert(next.phase.deep_view()->Editing_record == next.phase->Editing_record.deep_view());
    }
}

/// An edited record is written in the place of the one it was made of; an edit that changes
/// nothing is over; one that fails ends the update.
pub proof fn law_an_edit_is_written(state: UpdateState, event: UpdateEvent, next: UpdateState)
    requires
        call_ensures(UpdateState::update_storage_record, (state, event), next),
        state.phase is Editing,
    ensures
        event is Edited && event->record is Some ==> {
            &&& next.phase is Writing
            &&& next.phase->Writing_version == state.phase->Editing_version
            &&& next.phase->Writing_storage_id@ == state.phase->Editing_storage_id@
            &&& next.phase->Writing_record@ == event->record->0@
        },
        event is Edited && event->record is None ==> next.phase is Unmarking,
        event is EditFailed ==> next.phase == (UpdatePhase::Failed {
            error: Error::StorageRecordEdit(event->error),
        }),
        next.passes == state.passes,
        next.write_attempts == state.write_attempts,
{
    broadcast use text::lemma_bytes_view;

    assert(next.deep_view().phase == next.phase.deep_view());
    assert(state.deep_view().phase == state.phase.deep_view());
    if event is Edited {
        assert(event.deep_view()->record == event->record.deep_view());
        if event->record is Some {
            assert(next.phase is Writing);
            assert(next.phase.deep_view()->Writing_storage_id
                == next.phase->Writing_storage_id.deep_view());
            assert(next.phase.deep_view()->Writing_record
                == next.phase->Writing_record.deep_view());
        }
    }
}

/// A write that meets another one waits a second the first time and four the second; the third
/// time the update fails.
pub proof fn law_a_write_gives_up_after_three(state: UpdateState, next: UpdateState)
    requires
        call_ensures(UpdateState::update_storage_record, (state, UpdateEvent::Conflict), next),
        state.phase is Writing,
        state.write_attempts <= 2,
    ensures
        next.write_attempts == state.write_attempts + 1,
        next.passes == state.passes,
        state.write_attempts == 0 ==> next.phase == (UpdatePhase::Waiting { seconds: 1 }),
        state.write_attempts == 1 ==> next.phase == (UpdatePhase::Waiting { seconds: 4 }),
        state.write_attempts == 2 ==> next.phase == (UpdatePhase::Failed {
            error: Error::StorageManifestConflict,
        }),
{
    assert(next.deep_view().phase == next.phase.deep_view());
    assert(state.deep_view().phase == state.phase.deep_view());
}

/// After its mark, after catching up and after waiting, an update compares versions again; after
/// six rounds it fails.
pub proof fn law_an_update_goes_round_six_times(state: UpdateState, next: UpdateState)
    requires
        call_ensures(UpdateState::update_storage_record, (state, UpdateEvent::Done), next),
        state.phase is Marking || state.phase is Syncing || state.phase is Waiting,
    ensures
        state.passes < 6 ==> next.phase is Comparing && next.passes == state.passes + 1,
        state.passes >= 6 ==> next.phase == (UpdatePhase::Failed {
            error: Error::StorageManifestConflict,
        }),
        next.write_attempts == state.write_attempts,
{
    assert(next.deep_view().phase == next.phase.deep_view());
    assert(state.deep_view().phase == state.phase.deep_view());
}

/// An update is over once its result is stored, or its mark is gone. What is over stays as it
/// is.
pub proof fn law_an_update_ends(state: UpdateState, event: UpdateEvent, next: UpdateState)
    requires
        call_ensures(UpdateState::update_storage_record, (state, event), next),
    ensures
        (state.phase is Committing || state.phase is Unmarking) && event is Done
            ==> next.phase is Finished,
        state.phase is Finished ==> next.phase is Finished,
        state.phase is Failed ==> next.phase is Failed && next.phase->error == state.phase->error,
{
    assert(next.deep_view().phase == next.phase.deep_view());
    assert(state.deep_view().phase == state.phase.deep_view());
}

/// A record is only edited where it says something else than it should.
pub proof fn law_only_a_changed_block_is_published(
    record: Vec<u8>,
    blocked: bool,
    r: Result<Option<Vec<u8>>, StorageRecordEditError>,
)
    requires
        call_ensures(storage::push_contact_record, (&record, blocked), r),
    ensures
        storage_record::contact_blocked_of(record@) == Ok::<bool, StorageRecordEditError>(blocked)
            <==> r is Ok && r->Ok_0 is None,
        storage_record::contact_blocked_of(record@) matches Err(e) ==> r is Err && r->Err_0 == e,
{
}

/// A block that changed while it was being published is published again, and no other.
pub proof fn law_a_late_change_is_published_again(
    current: Option<Contact>,
    published: bool,
    again: bool,
)
    requires
        call_ensures(storage::changed_while_publishing, (&current, published), again),
    ensures
        again <==> current is Some && current->0.blocked != published,
{
}

/// What is marked for publishing is published as the contact says; without a contact there is
/// nothing to publish.
pub proof fn law_the_block_of_the_contact_is_published(contact: Option<Contact>, step: PublishStep)
    requires
        call_ensures(storage::publish_step, (&contact,), step),
    ensures
        contact is None ==> step is Unmark,
        contact is Some ==> step == (PublishStep::Publish { blocked: contact->0.blocked }),
{
}

/// A synced contact takes the place of the stored one. The storage service has no timer, place,
/// avatar or verification, so these stay; what it leaves open stays too, and so does a block that
/// is still to be published.
pub proof fn law_a_synced_contact_takes_over(
    contact: Contact,
    existing: Option<Contact>,
    has_pending_publish: bool,
    r: (Contact, Option<ProfileKey>),
)
    requires
        call_ensures(
            storage::merge_synced_contact,
            (contact, existing, has_pending_publish),
            r,
        ),
    ensures
        r.0.uuid.bytes@ == contact.uuid.bytes@,
        r.0.whitelisted == contact.whitelisted,
        r.0.archived == contact.archived,
        r.0.marked_unread == contact.marked_unread,
        r.0.muted_until_timestamp == contact.muted_until_timestamp,
        r.0.hide_story == contact.hide_story,
        r.0.hidden == contact.hidden,
        r.0.unregistered_at_timestamp == contact.unregistered_at_timestamp,
        r.0.pni_signature_verified == contact.pni_signature_verified,
        r.0.system_given_name@ == contact.system_given_name@,
        r.0.system_family_name@ == contact.system_family_name@,
        r.0.system_nickname@ == contact.system_nickname@,
        r.0.nickname_given_name@ == contact.nickname_given_name@,
        r.0.nickname_family_name@ == contact.nickname_family_name@,
        r.0.note@ == contact.note@,
        contact.name@.len() > 0 ==> r.0.name@ == contact.name@,
        contact.profile_key@.len() > 0 ==> r.0.profile_key@ == contact.profile_key@,
        contact.phone_number is Some ==> r.0.phone_number.deep_view()
            == contact.phone_number.deep_view(),
        contact.pni is Some ==> r.0.pni.deep_view() == contact.pni.deep_view(),
        contact.username is Some ==> r.0.username.deep_view() == contact.username.deep_view(),
        existing is None || !has_pending_publish ==> r.0.blocked == contact.blocked,
        existing is None ==> r.0.deep_view() == contact.deep_view(),
        existing matches Some(stored) ==> {
            &&& has_pending_publish ==> r.0.blocked == stored.blocked
            &&& r.0.expire_timer == stored.expire_timer
            &&& r.0.expire_timer_version == stored.expire_timer_version
            &&& r.0.inbox_position == stored.inbox_position
            &&& r.0.avatar.deep_view() == stored.avatar.deep_view()
            &&& r.0.verified.deep_view() == stored.verified.deep_view()
            &&& contact.name@.len() == 0 ==> r.0.name@ == stored.name@
            &&& contact.profile_key@.len() == 0 ==> r.0.profile_key@ == stored.profile_key@
            &&& contact.phone_number is None ==> r.0.phone_number.deep_view()
                == stored.phone_number.deep_view()
            &&& contact.pni is None ==> r.0.pni.deep_view() == stored.pni.deep_view()
            &&& contact.username is None ==> r.0.username.deep_view() == stored.username.deep_view()
        },
        r.1 is Some <==> r.0.profile_key@.len() == 32,
        r.1 is Some ==> r.1->0.bytes@ == r.0.profile_key@,
{
    broadcast use text::lemma_bytes_view;

    let after = r.0.deep_view();
    let before = contact.deep_view();
    assert(after.profile_key == r.0.profile_key.deep_view());
    assert(before.profile_key == contact.profile_key.deep_view());
    assert(after.phone_number == r.0.phone_number.deep_view());
    assert(before.phone_number == contact.phone_number.deep_view());
    assert(after.pni == r.0.pni.deep_view());
    assert(before.pni == contact.pni.deep_view());
    assert(after.username == r.0.username.deep_view());
    assert(before.username == contact.username.deep_view());
    assert(after.avatar == r.0.avatar.deep_view());
    if let Some(stored) = existing {
        assert(existing.deep_view() == Some(stored.deep_view()));
        assert(stored.deep_view().profile_key == stored.profile_key.deep_view());
    }
}

/// A merge names the fields that it kept against the snapshot: those that are stored and that the
/// snapshot leaves open, and the block where one is still to be published.
pub proof fn law_kept_fields_are_named(
    snapshot: crate::model::contacts::ContactView,
    existing: crate::model::contacts::ContactView,
    has_pending_publish: bool,
)
    ensures
        ({
            let merged = storage::merged_contact(snapshot, existing, has_pending_publish);
            let named = storage::preserved_fields(snapshot, existing, has_pending_publish);
            &&& named.contains("name"@) <==> merged.name != snapshot.name
            &&& named.contains("profile_key"@) <==> merged.profile_key != snapshot.profile_key
            &&& named.contains("phone_number"@) <==> merged.phone_number != snapshot.phone_number
            &&& named.contains("pni"@) <==> merged.pni != snapshot.pni
            &&& named.contains("username"@) <==> merged.username != snapshot.username
            &&& named.contains("blocked"@) <==> merged.blocked != snapshot.blocked
        }),
{
    lemma_names_differ();
    let name = snapshot.name.len() == 0 && existing.name.len() > 0;
    let key = snapshot.profile_key.len() == 0 && existing.profile_key.len() > 0;
    let number = snapshot.phone_number is None && existing.phone_number is Some;
    let pni = snapshot.pni is None && existing.pni is Some;
    let username = snapshot.username is None && existing.username is Some;
    let blocked = has_pending_publish && snapshot.blocked != existing.blocked;
    let one = storage::noted(name, "name"@);
    let two = one + storage::noted(key, "profile_key"@);
    let three = two + storage::noted(number, "phone_number"@);
    let four = three + storage::noted(pni, "pni"@);
    let five = four + storage::noted(username, "username"@);
    assert(Seq::<Seq<char>>::empty() + one =~= one);
    lemma_noted(Seq::empty(), name, "name"@);
    lemma_noted(one, key, "profile_key"@);
    lemma_noted(two, number, "phone_number"@);
    lemma_noted(three, pni, "pni"@);
    lemma_noted(four, username, "username"@);
    lemma_noted(five, blocked, "blocked"@);
    if snapshot.name.len() == 0 && existing.name.len() == 0 {
        assert(snapshot.name =~= existing.name);
    }
    if snapshot.profile_key.len() == 0 && existing.profile_key.len() == 0 {
        assert(snapshot.profile_key =~= existing.profile_key);
    }
}

proof fn lemma_names_differ()
    ensures
        "name"@.len() == 4,
        "profile_key"@.len() == 11,
        "phone_number"@.len() == 12,
        "pni"@.len() == 3,
        "username"@.len() == 8,
        "blocked"@.len() == 7,
{
    reveal_strlit("name");
    reveal_strlit("profile_key");
    reveal_strlit("phone_number");
    reveal_strlit("pni");
    reveal_strlit("username");
    reveal_strlit("blocked");
}

proof fn lemma_noted(before: Seq<Seq<char>>, kept: bool, name: Seq<char>)
    ensures
        forall|x: Seq<char>| #[trigger]
            (before + storage::noted(kept, name)).contains(x) <==> before.contains(x) || (kept && x
                == name),
{
    let all = before + storage::noted(kept, name);
    assert forall|x: Seq<char>| #[trigger] all.contains(x) <==> before.contains(x) || (kept && x
        == name) by {
        if all.contains(x) {
            let k = choose|k: int| 0 <= k < all.len() && all[k] == x;
            if k < before.len() {
                assert(before[k] == x);
            }
        }
        if before.contains(x) {
            let k = choose|k: int| 0 <= k < before.len() && before[k] == x;
            assert(all[k] == x);
        }
        if kept && x == name {
            assert(all[before.len() as int] == x);
        }
    }
}

/// A record of a contact that has an identity leads to that contact, and to where its record is
/// kept: under which identifier, of which version, and what it holds.
pub proof fn law_a_record_of_a_contact_is_read(
    item: StorageItem,
    record: ContactRecord,
    version: u64,
    phone_number: Option<PhoneNumber>,
    read: Result<Contact, InvalidAci>,
    step: SyncStep,
)
    requires
        call_ensures(storage::read_storage_item, (item, version, phone_number), step),
        item.record == SyncedRecord::Contact(record),
        call_ensures(Contact::try_from_record, (record, phone_number), read),
    ensures
        read is Err ==> step is Skip,
        read is Ok ==> {
            let of = step.deep_view();
            &&& of is Contact
            &&& of->Contact_service_id == ServiceIdView::Aci(read->Ok_0.uuid.bytes@)
            &&& of->Contact_contact == read->Ok_0.deep_view()
            &&& of->Contact_identity.storage_id == item.key@
            &&& of->Contact_identity.storage_version == version
            &&& of->Contact_identity.record == item.plaintext@
        },
{
    broadcast use text::lemma_bytes_view;

    assert(item.deep_view().record == item.record.deep_view());
    assert(item.deep_view().key == item.key.deep_view());
    assert(item.deep_view().plaintext == item.plaintext.deep_view());
}

/// A record of a group with a proper key leads to that group; anything else that is read leads
/// nowhere.
pub proof fn law_a_record_of_a_group_is_read(
    item: StorageItem,
    version: u64,
    phone_number: Option<PhoneNumber>,
    step: SyncStep,
)
    requires
        call_ensures(storage::read_storage_item, (item, version, phone_number), step),
    ensures
        item.record is Other || item.record is Empty ==> step is Skip,
        item.record matches SyncedRecord::GroupV2(record) ==> {
            &&& record.master_key@.len() != 32 ==> step is Skip
            &&& record.master_key@.len() == 32 ==> {
                &&& step is Group
                &&& step.deep_view()->Group_master_key == record.master_key@
                &&& step.deep_view()->Group_record == record.deep_view()
            }
        },
{
    broadcast use text::lemma_bytes_view;

    assert(item.deep_view().record == item.record.deep_view());
    if let SyncedRecord::GroupV2(record) = item.record {
        assert(record.deep_view().master_key == record.master_key.deep_view());
    }
}

/// A record of a group sets what the user chose for it and nothing else; a group that is not
/// known yet is noted as one to be fetched.
pub proof fn law_a_synced_group_keeps_its_state(
    record: GroupV2Record,
    existing: Option<Group>,
    group: Group,
)
    requires
        call_ensures(storage::merge_synced_group, (&record, existing), group),
    ensures
        group.blocked == record.blocked,
        group.whitelisted == record.whitelisted,
        group.archived == record.archived,
        group.marked_unread == record.marked_unread,
        group.muted_until_timestamp == record.muted_until_timestamp,
        group.dont_notify_for_mentions_if_muted == record.dont_notify_for_mentions_if_muted,
        group.hide_story == record.hide_story,
        group.story_send_mode == record.story_send_mode,
        existing is None ==> group.needs_hydration && group.members@.len() == 0 && group.revision
            == 0,
        existing matches Some(stored) ==> {
            &&& group.title.deep_view() == stored.title.deep_view()
            &&& group.avatar.deep_view() == stored.avatar.deep_view()
            &&& group.disappearing_messages_timer == stored.disappearing_messages_timer
            &&& group.access_control == stored.access_control
            &&& group.revision == stored.revision
            &&& group.members.deep_view() == stored.members.deep_view()
            &&& group.pending_members.deep_view() == stored.pending_members.deep_view()
            &&& group.requesting_members.deep_view() == stored.requesting_members.deep_view()
            &&& group.invite_link_password@ == stored.invite_link_password@
            &&& group.description.deep_view() == stored.description.deep_view()
            &&& group.announcements_only == stored.announcements_only
            &&& group.needs_hydration == stored.needs_hydration
        },
{
    broadcast use text::lemma_bytes_view;

    let after = group.deep_view();
    assert(after.title == group.title.deep_view());
    assert(after.avatar == group.avatar.deep_view());
    assert(after.description == group.description.deep_view());
    assert(after.members == group.members.deep_view());
    assert(after.members.len() == group.members@.len());
    assert(after.pending_members == group.pending_members.deep_view());
    assert(after.requesting_members == group.requesting_members.deep_view());
    assert(after.invite_link_password == group.invite_link_password.deep_view());
    if let Some(stored) = existing {
        assert(existing.deep_view() == Some(stored.deep_view()));
        assert(stored.deep_view().invite_link_password == stored.invite_link_password.deep_view());
    }
}

/// The master key in a record is any 32 bytes.
pub proof fn law_a_proper_master_key_is_read(record: GroupV2Record, key: Option<[u8; 32]>)
    requires
        call_ensures(storage::record_master_key, (&record,), key),
    ensures
        record.master_key@.len() != 32 ==> key is None,
        record.master_key@.len() == 32 ==> key is Some && key->0@ == record.master_key@,
{
    broadcast use text::lemma_bytes_view;

    assert(record.deep_view().master_key == record.master_key.deep_view());
    if key is Some {
        assert(key->0@.len() == 32);
    }
}

proof fn lemma_keys_of(identifiers: Seq<IdentifierView>, kind: ItemType, key: Seq<u8>)
    ensures
        storage::keys_of(identifiers, kind).contains(key) <==> exists|i: int|
            0 <= i < identifiers.len() && (#[trigger] identifiers[i]).kind == kind
                && identifiers[i].raw == key,
    decreases identifiers.len(),
{
    if identifiers.len() > 0 {
        let before = identifiers.drop_last();
        let end = identifiers.len() - 1;
        let first = storage::keys_of(before, kind);
        let all = storage::keys_of(identifiers, kind);
        lemma_keys_of(before, kind, key);
        if all.contains(key) {
            let k = choose|k: int| 0 <= k < all.len() && all[k] == key;
            if k < first.len() {
                assert(first[k] == key);
                assert(first.contains(key));
                let i = choose|i: int|
                    0 <= i < before.len() && (#[trigger] before[i]).kind == kind && before[i].raw
                        == key;
                assert(identifiers[i] == before[i]);
            } else {
                assert(identifiers[end].kind == kind);
            }
        }
        if exists|i: int|
            0 <= i < identifiers.len() && (#[trigger] identifiers[i]).kind == kind
                && identifiers[i].raw == key {
            let i = choose|i: int|
                0 <= i < identifiers.len() && (#[trigger] identifiers[i]).kind == kind
                    && identifiers[i].raw == key;
            if i < end {
                assert(before[i] == identifiers[i]);
                let k = choose|k: int| 0 <= k < first.len() && first[k] == key;
                assert(all[k] == key);
            } else {
                assert(all[all.len() - 1] == key);
            }
        }
    }
}

/// A sync reads every contact and every group in the manifest, and nothing else.
pub proof fn law_contacts_and_groups_are_read(identifiers: Seq<IdentifierView>, key: Seq<u8>)
    ensures
        storage::keys_to_read(identifiers).contains(key) <==> exists|i: int|
            0 <= i < identifiers.len() && ((#[trigger] identifiers[i]).kind == ItemType::Contact
                || identifiers[i].kind == ItemType::GroupV2) && identifiers[i].raw == key,
{
    let contacts = storage::keys_of(identifiers, ItemType::Contact);
    let groups = storage::keys_of(identifiers, ItemType::GroupV2);
    let all = storage::keys_to_read(identifiers);
    lemma_keys_of(identifiers, ItemType::Contact, key);
    lemma_keys_of(identifiers, ItemType::GroupV2, key);
    if all.contains(key) {
        let k = choose|k: int| 0 <= k < all.len() && all[k] == key;
        if k < contacts.len() {
            assert(contacts[k] == key);
            assert(contacts.contains(key));
        } else {
            assert(groups[k - contacts.len()] == key);
            assert(groups.contains(key));
        }
    }
    if contacts.contains(key) {
        let k = choose|k: int| 0 <= k < contacts.len() && contacts[k] == key;
        assert(all[k] == key);
    }
    if groups.contains(key) {
        let k = choose|k: int| 0 <= k < groups.len() && groups[k] == key;
        assert(all[contacts.len() + k] == key);
    }
}

/// A sync is of the version of its manifest, with the keys that the manifest derives from. It
/// goes on where a sync of the same version stopped, and from the start otherwise.
pub proof fn law_a_sync_is_of_its_manifest(
    manifest: ManifestRecord,
    local_version: u64,
    cursor: Option<StorageSyncCursor>,
    fresh: StorageSync,
    sync: StorageSync,
)
    requires
        call_ensures(
            storage::sync_storage_service,
            (&Some(manifest), local_version, None::<StorageSyncCursor>),
            fresh,
        ),
        call_ensures(storage::sync_storage_service, (&Some(manifest), local_version, cursor), sync),
    ensures
        sync.version == manifest.version,
        manifest.record_ikm@.len() == 0 ==> sync.record_ikm is None,
        manifest.record_ikm@.len() > 0 ==> sync.record_ikm is Some && sync.record_ikm->0@
            == manifest.record_ikm@,
        cursor is None ==> sync.deep_view() == fresh.deep_view(),
        cursor is Some && cursor->0.target_version != manifest.version
            ==> sync.batches.deep_view() == fresh.batches.deep_view(),
        cursor is Some && cursor->0.target_version == manifest.version
            && cursor->0.next_batch_index * 2500 <= storage::keys_to_read(
            manifest.deep_view().identifiers,
        ).len() ==> sync.batches.deep_view() == fresh.batches.deep_view().skip(
            cursor->0.next_batch_index as int,
        ),
        storage::keys_in(fresh.batches.deep_view()) == storage::keys_to_read(
            manifest.deep_view().identifiers,
        ),
{
    broadcast use text::lemma_bytes_view;

    let some = Some(manifest);
    assert(some.deep_view() == Some(manifest.deep_view()));
    let keys = storage::keys_to_read(manifest.deep_view().identifiers);
    assert(sync.deep_view().record_ikm == sync.record_ikm.deep_view());
    assert(sync.deep_view().batches == sync.batches.deep_view());
    assert(fresh.deep_view().batches == fresh.batches.deep_view());
    assert(manifest.deep_view().record_ikm == manifest.record_ikm.deep_view());
    storage::law_sync_reads_every_key(keys, 0);
    assert(keys.skip(0) =~= keys);
    if let Some(cursor) = cursor {
        if cursor.target_version == manifest.version && cursor.next_batch_index * 2500
            <= keys.len() {
            storage::law_resume_continues(keys, cursor.next_batch_index as nat);
        }
    }
}

/// A batch holds no more than the service gives at once, and is known by its number.
pub proof fn law_batches_are_numbered_and_small(
    manifest: ManifestRecord,
    local_version: u64,
    fresh: StorageSync,
    i: int,
)
    requires
        call_ensures(
            storage::sync_storage_service,
            (&Some(manifest), local_version, None::<StorageSyncCursor>),
            fresh,
        ),
        0 <= i < fresh.deep_view().batches.len(),
        i <= usize::MAX,
    ensures
        fresh.deep_view().batches[i].index == i,
        0 < fresh.deep_view().batches[i].keys.len() <= 2500,
{
    let some = Some(manifest);
    assert(some.deep_view() == Some(manifest.deep_view()));
    let keys = storage::keys_to_read(manifest.deep_view().identifiers);
    lemma_batch(keys, i as nat, 0);
}

proof fn lemma_batch(keys: Seq<Seq<u8>>, i: nat, from: nat)
    requires
        i < storage::batches_from(keys, from).len(),
    ensures
        (from + i) * 2500 < keys.len(),
        storage::batches_from(keys, from)[i as int] == storage::batch_at(keys, (from + i) as int),
    decreases i,
{
    if i > 0 {
        lemma_batch(keys, (i - 1) as nat, from + 1);
        assert(storage::batches_from(keys, from)[i as int] == storage::batches_from(
            keys,
            from + 1,
        )[i - 1]);
    }
}

/// A sync ends where nothing is left to do: it starts by clearing the cursor where nothing is to
/// be read, forgets a cursor of another version, and reads its first batch otherwise.
pub proof fn law_a_sync_starts_with_what_is_left(
    manifest: Option<ManifestRecord>,
    local_version: u64,
    cursor: Option<StorageSyncCursor>,
    sync: StorageSync,
)
    requires
        call_ensures(storage::sync_storage_service, (&manifest, local_version, cursor), sync),
    ensures
        manifest is None ==> sync.phase is Clearing && sync.batches@.len() == 0,
        manifest is None ==> sync.version == local_version,
        manifest is Some && storage::keys_to_read(manifest->0.deep_view().identifiers).len() == 0
            ==> sync.phase is Clearing,
        manifest is Some && storage::keys_to_read(manifest->0.deep_view().identifiers).len() > 0
            ==> {
            &&& cursor is Some && cursor->0.target_version != manifest->0.version
                ==> sync.phase is Discarding
            &&& (cursor is None || cursor->0.target_version == manifest->0.version)
                && sync.batches@.len() > 0 ==> sync.phase == (SyncPhase::Reading { place: 0 })
            &&& (cursor is None || cursor->0.target_version == manifest->0.version)
                && sync.batches@.len() == 0 ==> sync.phase == (SyncPhase::Committing {
                version: manifest->0.version,
            })
        },
{
    assert(sync.deep_view().batches.len() == sync.batches@.len());
    if let Some(manifest) = manifest {
        assert(Some(manifest).deep_view() == Some(manifest.deep_view()));
    }
}

/// The cursor after a batch names the next one, of the same version.
pub proof fn law_the_cursor_names_the_next_batch(
    version: u64,
    index: usize,
    cursor: StorageSyncCursor,
)
    requires
        call_ensures(storage::cursor_after, (version, index), cursor),
        index < u32::MAX,
    ensures
        cursor.target_version == version,
        cursor.next_batch_index == index + 1,
{
}

/// A snapshot is merged into the contact itself, in the way that a synced contact is.
pub proof fn law_a_snapshot_is_merged_in_place(
    contact: &mut Contact,
    existing: Contact,
    has_pending_publish: bool,
    preserved: Vec<&'static str>,
    synced: (Contact, Option<ProfileKey>),
)
    requires
        call_ensures(
            storage::merge_contact_from_snapshot,
            (contact, existing, has_pending_publish),
            preserved,
        ),
        call_ensures(
            storage::merge_synced_contact,
            (*old(contact), Some(existing), has_pending_publish),
            synced,
        ),
    ensures
        final(contact).deep_view() == synced.0.deep_view(),
        preserved.deep_view() == storage::preserved_fields(
            old(contact).deep_view(),
            existing.deep_view(),
            has_pending_publish,
        ),
{
    assert(Some(existing).deep_view() == Some(existing.deep_view()));
}

/// A sync reads its batches one after the other, with a checkpoint after each, then commits the
/// version and clears the cursor. A batch that cannot be read, or a version that cannot be
/// stored, ends it; a checkpoint that cannot be stored does not.
pub proof fn law_a_sync_goes_on_step_by_step(sync: &mut StorageSync, event: SyncEvent)
    requires
        call_ensures(StorageSync::step, (sync, event), ()),
        old(sync).deep_view().wf(),
    ensures
        final(sync).version == old(sync).version,
        final(sync).batches.deep_view() == old(sync).batches.deep_view(),
        final(sync).record_ikm.deep_view() == old(sync).record_ikm.deep_view(),
        old(sync).phase is Discarding && old(sync).batches@.len() > 0 ==> final(sync).phase == (
        SyncPhase::Reading { place: 0 }),
        old(sync).phase is Discarding && old(sync).batches@.len() == 0 ==> final(sync).phase == (
        SyncPhase::Committing { version: old(sync).version }),
        old(sync).phase matches SyncPhase::Reading { place } ==> {
            &&& event is Failed ==> final(sync).phase is Failed
            &&& event is Done ==> {
                &&& final(sync).phase is Checkpointing
                &&& final(sync).phase->Checkpointing_place == place
                &&& final(sync).phase->cursor.target_version == old(sync).version
                &&& old(sync).batches@[place as int].index < u32::MAX
                    ==> final(sync).phase->cursor.next_batch_index == old(
                    sync,
                ).batches@[place as int].index + 1
            }
        },
        old(sync).phase matches SyncPhase::Checkpointing { place, cursor: _ } ==> {
            &&& place + 1 < old(sync).batches@.len() ==> final(sync).phase == (SyncPhase::Reading {
                place: (place + 1) as usize,
            })
            &&& place + 1 >= old(sync).batches@.len() ==> final(sync).phase == (
            SyncPhase::Committing { version: old(sync).version })
        },
        old(sync).phase is Committing && event is Done ==> final(sync).phase is Clearing,
        old(sync).phase is Committing && event is Failed ==> final(sync).phase is Failed,
        old(sync).phase is Clearing ==> final(sync).phase is Finished,
        old(sync).phase is Finished ==> final(sync).phase is Finished,
        old(sync).phase is Failed ==> final(sync).phase is Failed,
{
    let before = old(sync).deep_view();
    let after = final(sync).deep_view();
    assert(before.batches == old(sync).batches.deep_view());
    assert(after.batches == final(sync).batches.deep_view());
    assert(before.batches.len() == old(sync).batches@.len());
    assert(after.record_ikm == final(sync).record_ikm.deep_view());
    if let SyncPhase::Reading { place } = old(sync).phase {
        assert(before.batches[place as int] == old(sync).batches@[place as int].deep_view());
    }
}

/// A record of a contact is one of contacts in the manifest.
pub proof fn law_a_contact_is_listed_as_one(key: StorageRecordKey, kind: ItemType)
    requires
        call_ensures(StorageRecordKey::item_type, (&key,), kind),
    ensures
        key is Contact ==> kind == ItemType::Contact,
{
}

/// Contacts are read before groups, each in the order of the manifest.
pub proof fn law_each_identifier_counts_for_itself(
    identifiers: Seq<IdentifierView>,
    identifier: IdentifierView,
)
    ensures
        ({
            let contacts = storage::keys_of(identifiers, ItemType::Contact);
            let groups = storage::keys_of(identifiers, ItemType::GroupV2);
            let after = storage::keys_to_read(identifiers.push(identifier));
            &&& storage::keys_to_read(identifiers) == contacts + groups
            &&& identifier.kind == ItemType::Contact ==> after == contacts.push(identifier.raw)
                + groups
            &&& identifier.kind == ItemType::GroupV2 ==> after == contacts + groups.push(
                identifier.raw,
            )
            &&& identifier.kind != ItemType::Contact && identifier.kind != ItemType::GroupV2
                ==> after == contacts + groups
        }),
{
    assert(identifiers.push(identifier).drop_last() =~= identifiers);
    assert(identifiers.push(identifier).last() == identifier);
}

/// A written record is committed under its new identifier, as part of the next version.
pub proof fn law_a_written_record_is_committed(
    state: UpdateState,
    storage_id: Vec<u8>,
    next: UpdateState,
)
    requires
        call_ensures(
            UpdateState::update_storage_record,
            (state, UpdateEvent::Written { storage_id }),
            next,
        ),
        state.phase is Writing,
        state.phase->Writing_version < u64::MAX,
    ensures
        ({
            let after = next.deep_view().phase;
            &&& after is Committing
            &&& after->Committing_version == state.phase->Writing_version + 1
            &&& after->Committing_identity.storage_id == storage_id@
            &&& after->Committing_identity.storage_version == state.phase->Writing_version + 1
            &&& after->Committing_identity.record == state.phase->Writing_record@
        }),
        next.passes == state.passes,
        next.write_attempts == state.write_attempts,
{
    broadcast use text::lemma_bytes_view;

    assert(state.deep_view().phase == state.phase.deep_view());
    assert(UpdateEvent::Written { storage_id }.deep_view() == (
    storage::UpdateEventView::Written { storage_id: storage_id.deep_view() }));
}

/// An event that nothing waits for changes nothing.
pub proof fn law_other_events_change_nothing(
    state: UpdateState,
    event: UpdateEvent,
    next: UpdateState,
)
    requires
        call_ensures(UpdateState::update_storage_record, (state, event), next),
        match state.phase {
            UpdatePhase::Comparing => !(event is Versions),
            UpdatePhase::Loading { version: _ } => !(event is Identity),
            UpdatePhase::Editing { version: _, storage_id: _, record: _ } => !(event is Edited)
                && !(event is EditFailed),
            UpdatePhase::Writing { version: _, storage_id: _, record: _ } => !(event is Written)
                && !(event is Conflict),
            UpdatePhase::Finished => true,
            UpdatePhase::Failed { error: _ } => true,
            _ => !(event is Done),
        },
    ensures
        next.deep_view() == state.deep_view(),
{
    assert(state.deep_view().phase == state.phase.deep_view());
}

} // verus!

//! The storage service: reading the account's manifest, and writing to it.
//!
//! The storage service holds an encrypted, server-side record of the account (contacts,
//! groups, settings) that every device syncs from. This module decides both directions: what a
//! sync reads and what becomes of it, and how a change is published.
//!
//! A record is immutable under its identifier, so changing one is an insert under a fresh id
//! plus a delete of the old, in a single write. That shape is why an update needs to remember
//! where a record lives, and why the retry policy here is stricter than a plain "try again": a
//! conflict means the account moved, so the write has to be rebuilt rather than resent.
//!
//! Callers must serialise everything in this module. The manifest is one mutable document with
//! a version and a resume cursor, so two concurrent operations interleave checkpoints and
//! silently skip records.
use vstd::prelude::*;

use crate::errors::Error;
use crate::model::contacts;
use crate::model::contacts::{Contact, ContactView, PhoneNumber};
use crate::model::groups::{Group, GroupView};
use crate::model::profile;
use crate::model::profile::ProfileKey;
use crate::proto::{
    ContactRecord, ContactRecordView, FetchLatestType, GroupV2Record, GroupV2RecordView,
    Identifier, IdentifierView, ItemType, ManifestRecord, ManifestRecordView, SyncMessage,
    SyncMessageView,
};
use crate::service_id;
use crate::service_id::{Aci, ServiceId, ServiceIdView};
use crate::storage_record;
use crate::storage_record::StorageRecordEditError;
use crate::store::StorageSyncCursor;
use crate::text;

verus! {

/// Maximum number of storage-service keys to request in a single read.
pub const STORAGE_SERVICE_BATCH_SIZE: usize = 2500;

/// How many times to attempt a manifest write before giving up.
///
/// The phone writes to this manifest too, so a conflict is routine rather than exceptional.
pub const MANIFEST_WRITE_ATTEMPTS: usize = 3;

/// How often an update may start over. Catching up does not consume a write attempt, so the
/// loop needs its own ceiling. Reaching it means losing the race to sync repeatedly, which is
/// the same outcome as losing it at the write.
pub const MAX_PASSES: usize = 6;

/// A record that can be published.
#[derive(Debug, Clone, Copy, PartialEq, Eq)]
pub enum StorageRecordKey {
    Contact(ServiceId),
}

impl StorageRecordKey {
    /// The type that the manifest lists the record under.
    pub fn item_type(&self) -> (kind: ItemType)
        ensures
            kind == ItemType::Contact,
    {
        match self {
            StorageRecordKey::Contact(_) => ItemType::Contact,
        }
    }
}

/// Where the storage record of a contact lives, and what it says.
#[derive(Debug, PartialEq)]
pub struct ContactStorageIdentity {
    pub storage_id: Vec<u8>,
    pub storage_version: u64,
    pub record: Vec<u8>,
}

/// What a [`ContactStorageIdentity`] holds.
#[verifier::ext_equal]
pub struct ContactStorageIdentityView {
    pub storage_id: Seq<u8>,
    pub storage_version: u64,
    pub record: Seq<u8>,
}

impl DeepView for ContactStorageIdentity {
    type V = ContactStorageIdentityView;

    open spec fn deep_view(&self) -> ContactStorageIdentityView {
        ContactStorageIdentityView {
            storage_id: self.storage_id.deep_view(),
            storage_version: self.storage_version,
            record: self.record.deep_view(),
        }
    }
}

impl Clone for ContactStorageIdentity {
    fn clone(&self) -> (r: Self)
        ensures
            r.deep_view() == self.deep_view(),
    {
        let r = ContactStorageIdentity {
            storage_id: self.storage_id.clone(),
            storage_version: self.storage_version,
            record: self.record.clone(),
        };
        proof {
            assert(r.storage_id.deep_view() =~= self.storage_id.deep_view());
            assert(r.record.deep_view() =~= self.record.deep_view());
        }
        r
    }
}

/// What an update of a storage record has to do next.
#[derive(Debug, PartialEq)]
pub enum UpdatePhase {
    /// Mark the record as needing to be published.
    Marking,
    /// Read the version that was synced last, and the server's manifest.
    Comparing,
    /// Sync with the storage service.
    Syncing,
    /// Look up where the record lives and what it says.
    Loading { version: u64 },
    /// Apply the edit to the record.
    Editing { version: u64, storage_id: Vec<u8>, record: Vec<u8> },
    /// Write the record under a new identifier, and delete the old one.
    Writing { version: u64, storage_id: Vec<u8>, record: Vec<u8> },
    /// Wait.
    Waiting { seconds: u64 },
    /// Store the version and where the record lives now, unmark the record, and tell the
    /// other devices.
    Committing { version: u64, identity: ContactStorageIdentity },
    /// Unmark the record.
    Unmarking,
    /// Nothing: the record is published.
    Finished,
    /// Nothing: the record stays marked.
    Failed { error: Error },
}

/// What a [`UpdatePhase`] holds.
#[verifier::ext_equal]
pub enum UpdatePhaseView {
    Marking,
    Comparing,
    Syncing,
    Loading { version: u64 },
    Editing { version: u64, storage_id: Seq<u8>, record: Seq<u8> },
    Writing { version: u64, storage_id: Seq<u8>, record: Seq<u8> },
    Waiting { seconds: u64 },
    Committing { version: u64, identity: ContactStorageIdentityView },
    Unmarking,
    Finished,
    Failed { error: Error },
}

impl DeepView for UpdatePhase {
    type V = UpdatePhaseView;

    open spec fn deep_view(&self) -> UpdatePhaseView {
        match self {
            UpdatePhase::Marking => UpdatePhaseView::Marking,
            UpdatePhase::Comparing => UpdatePhaseView::Comparing,
            UpdatePhase::Syncing => UpdatePhaseView::Syncing,
            UpdatePhase::Loading { version } => UpdatePhaseView::Loading {
                version: *version,
            },
            UpdatePhase::Editing { version, storage_id, record } => UpdatePhaseView::Editing {
                version: *version,
                storage_id: storage_id.deep_view(),
                record: record.deep_view(),
            },
            UpdatePhase::Writing { version, storage_id, record } => UpdatePhaseView::Writing {
                version: *version,
                storage_id: storage_id.deep_view(),
                record: record.deep_view(),
            },
            UpdatePhase::Waiting { seconds } => UpdatePhaseView::Waiting {
                seconds: *seconds,
            },
            UpdatePhase::Committing { version, identity } => UpdatePhaseView::Committing {
                version: *version,
                identity: identity.deep_view(),
            },
            UpdatePhase::Unmarking => UpdatePhaseView::Unmarking,
            UpdatePhase::Finished => UpdatePhaseView::Finished,
            UpdatePhase::Failed { error } => UpdatePhaseView::Failed {
                error: *error,
            },
        }
    }
}

impl Clone for UpdatePhase {
    fn clone(&self) -> (r: Self)
        ensures
            r.deep_view() == self.deep_view(),
    {
        let r = match self {
            UpdatePhase::Marking => UpdatePhase::Marking,
            UpdatePhase::Comparing => UpdatePhase::Comparing,
            UpdatePhase::Syncing => UpdatePhase::Syncing,
            UpdatePhase::Loading { version } => UpdatePhase::Loading {
                version: *version,
            },
            UpdatePhase::Editing { version, storage_id, record } => UpdatePhase::Editing {
                version: *version,
                storage_id: storage_id.clone(),
                record: record.clone(),
            },
            UpdatePhase::Writing { version, storage_id, record } => UpdatePhase::Writing {
                version: *version,
                storage_id: storage_id.clone(),
                record: record.clone(),
            },
            UpdatePhase::Waiting { seconds } => UpdatePhase::Waiting {
                seconds: *seconds,
            },
            UpdatePhase::Committing { version, identity } => UpdatePhase::Committing {
                version: *version,
                identity: identity.clone(),
            },
            UpdatePhase::Unmarking => UpdatePhase::Unmarking,
            UpdatePhase::Finished => UpdatePhase::Finished,
            UpdatePhase::Failed { error } => UpdatePhase::Failed {
                error: *error,
            },
        };
        proof {
            assert(r.deep_view() =~= self.deep_view());
        }
        r
    }
}

/// What came of the last thing that an update had to do.
#[derive(Debug, PartialEq)]
pub enum UpdateEvent {
    /// What was to be done is done.
    Done,
    /// The version that was synced last, and that of the server's manifest.
    Versions { local: u64, remote: u64 },
    /// Where the record lives, if that is known.
    Identity { identity: Option<ContactStorageIdentity> },
    /// The edited record, or nothing where it already says what it should.
    Edited { record: Option<Vec<u8>> },
    /// The record could not be edited.
    EditFailed { error: StorageRecordEditError },
    /// The record was written, under this identifier.
    Written { storage_id: Vec<u8> },
    /// Another device wrote in between, or moved the record.
    Conflict,
}

/// What a [`UpdateEvent`] holds.
#[verifier::ext_equal]
pub enum UpdateEventView {
    Done,
    Versions { local: u64, remote: u64 },
    Identity { identity: Option<ContactStorageIdentityView> },
    Edited { record: Option<Seq<u8>> },
    EditFailed { error: StorageRecordEditError },
    Written { storage_id: Seq<u8> },
    Conflict,
}

impl DeepView for UpdateEvent {
    type V = UpdateEventView;

    open spec fn deep_view(&self) -> UpdateEventView {
        match self {
            UpdateEvent::Done => UpdateEventView::Done,
            UpdateEvent::Versions { local, remote } => UpdateEventView::Versions {
                local: *local,
                remote: *remote,
            },
            UpdateEvent::Identity { identity } => UpdateEventView::Identity {
                identity: identity.deep_view(),
            },
            UpdateEvent::Edited { record } => UpdateEventView::Edited {
                record: record.deep_view(),
            },
            UpdateEvent::EditFailed { error } => UpdateEventView::EditFailed {
                error: *error,
            },
            UpdateEvent::Written { storage_id } => UpdateEventView::Written {
                storage_id: storage_id.deep_view(),
            },
            UpdateEvent::Conflict => UpdateEventView::Conflict,
        }
    }
}

impl Clone for UpdateEvent {
    fn clone(&self) -> (r: Self)
        ensures
            r.deep_view() == self.deep_view(),
    {
        let r = match self {
            UpdateEvent::Done => UpdateEvent::Done,
            UpdateEvent::Versions { local, remote } => UpdateEvent::Versions {
                local: *local,
                remote: *remote,
            },
            UpdateEvent::Identity { identity } => UpdateEvent::Identity {
                identity: identity.clone(),
            },
            UpdateEvent::Edited { record } => UpdateEvent::Edited {
                record: record.clone(),
            },
            UpdateEvent::EditFailed { error } => UpdateEvent::EditFailed {
                error: *error,
            },
            UpdateEvent::Written { storage_id } => UpdateEvent::Written {
                storage_id: storage_id.clone(),
            },
            UpdateEvent::Conflict => UpdateEvent::Conflict,
        };
        proof {
            assert(r.deep_view() =~= self.deep_view());
        }
        r
    }
}

/// How far an update of a storage record got.
#[derive(Debug, PartialEq)]
pub struct UpdateState {
    /// How often the update started over.
    pub passes: usize,
    /// How many writes were refused.
    pub write_attempts: usize,
    pub phase: UpdatePhase,
}

/// What a [`UpdateState`] holds.
#[verifier::ext_equal]
pub struct UpdateStateView {
    pub passes: usize,
    pub write_attempts: usize,
    pub phase: UpdatePhaseView,
}

impl DeepView for UpdateState {
    type V = UpdateStateView;

    open spec fn deep_view(&self) -> UpdateStateView {
        UpdateStateView {
            passes: self.passes,
            write_attempts: self.write_attempts,
            phase: self.phase.deep_view(),
        }
    }
}

impl Clone for UpdateState {
    fn clone(&self) -> (r: Self)
        ensures
            r.deep_view() == self.deep_view(),
    {
        let r = UpdateState {
            passes: self.passes,
            write_attempts: self.write_attempts,
            phase: self.phase.clone(),
        };
        r
    }
}

/// Records to read in one go.
#[derive(Debug, PartialEq)]
pub struct StorageBatch {
    pub index: usize,
    pub keys: Vec<Vec<u8>>,
}

/// What a [`StorageBatch`] holds.
#[verifier::ext_equal]
pub struct StorageBatchView {
    pub index: usize,
    pub keys: Seq<Seq<u8>>,
}

impl DeepView for StorageBatch {
    type V = StorageBatchView;

    open spec fn deep_view(&self) -> StorageBatchView {
        StorageBatchView {
            index: self.index,
            keys: self.keys.deep_view(),
        }
    }
}

impl Clone for StorageBatch {
    fn clone(&self) -> (r: Self)
        ensures
            r.deep_view() == self.deep_view(),
    {
        let r = StorageBatch {
            index: self.index,
            keys: self.keys.clone(),
        };
        proof {
            assert(r.keys.deep_view() =~= self.keys.deep_view());
        }
        r
    }
}

/// What a sync is about to do.
#[derive(Debug, Clone, Copy, PartialEq, Eq, Structural)]
pub enum SyncPhase {
    /// Forget the saved cursor, which belongs to another version.
    Discarding,
    /// Read the batch at this place, and save its records.
    Reading { place: usize },
    /// Save the cursor that lets the next sync resume after the batch at this place.
    Checkpointing { place: usize, cursor: StorageSyncCursor },
    /// Store this version: everything that it lists has been read.
    Committing { version: u64 },
    /// Forget the cursor: nothing is left to resume.
    Clearing,
    Finished,
    /// Given up. The version is not stored, and the cursor stays for the next sync.
    Failed,
}

/// What became of what a sync was about to do.
#[derive(Debug, Clone, Copy, PartialEq, Eq, Structural)]
pub enum SyncEvent {
    Done,
    Failed,
}

/// A sync: what it has to read, and how far it is.
#[derive(Debug, PartialEq)]
pub struct StorageSync {
    /// The version that is read; the stored one, where the manifest has not changed.
    pub version: u64,
    pub record_ikm: Option<Vec<u8>>,
    pub batches: Vec<StorageBatch>,
    pub phase: SyncPhase,
}

/// What a [`StorageSync`] holds.
#[verifier::ext_equal]
pub struct StorageSyncView {
    pub version: u64,
    pub record_ikm: Option<Seq<u8>>,
    pub batches: Seq<StorageBatchView>,
    pub phase: SyncPhase,
}

impl DeepView for StorageSync {
    type V = StorageSyncView;

    open spec fn deep_view(&self) -> StorageSyncView {
        StorageSyncView {
            version: self.version,
            record_ikm: self.record_ikm.deep_view(),
            batches: self.batches.deep_view(),
            phase: self.phase,
        }
    }
}

/// A record, as it was read from the storage service.
#[derive(Debug, PartialEq)]
pub enum SyncedRecord {
    Contact(ContactRecord),
    GroupV2(GroupV2Record),
    /// A record of another type.
    Other,
    /// A record without content.
    Empty,
}

/// What a [`SyncedRecord`] holds.
#[verifier::ext_equal]
pub enum SyncedRecordView {
    Contact(ContactRecordView),
    GroupV2(GroupV2RecordView),
    Other,
    Empty,
}

impl DeepView for SyncedRecord {
    type V = SyncedRecordView;

    open spec fn deep_view(&self) -> SyncedRecordView {
        match self {
            SyncedRecord::Contact(x) => SyncedRecordView::Contact(x.deep_view()),
            SyncedRecord::GroupV2(x) => SyncedRecordView::GroupV2(x.deep_view()),
            SyncedRecord::Other => SyncedRecordView::Other,
            SyncedRecord::Empty => SyncedRecordView::Empty,
        }
    }
}

impl Clone for SyncedRecord {
    fn clone(&self) -> (r: Self)
        ensures
            r.deep_view() == self.deep_view(),
    {
        let r = match self {
            SyncedRecord::Contact(x) => SyncedRecord::Contact(x.clone()),
            SyncedRecord::GroupV2(x) => SyncedRecord::GroupV2(x.clone()),
            SyncedRecord::Other => SyncedRecord::Other,
            SyncedRecord::Empty => SyncedRecord::Empty,
        };
        proof {
            assert(r.deep_view() =~= self.deep_view());
        }
        r
    }
}

/// What the storage service holds under one identifier.
#[derive(Debug, PartialEq)]
pub struct StorageItem {
    /// The identifier that the record was read under.
    pub key: Vec<u8>,
    /// The encoded record.
    pub plaintext: Vec<u8>,
    pub record: SyncedRecord,
}

/// What a [`StorageItem`] holds.
#[verifier::ext_equal]
pub struct StorageItemView {
    pub key: Seq<u8>,
    pub plaintext: Seq<u8>,
    pub record: SyncedRecordView,
}

impl DeepView for StorageItem {
    type V = StorageItemView;

    open spec fn deep_view(&self) -> StorageItemView {
        StorageItemView {
            key: self.key.deep_view(),
            plaintext: self.plaintext.deep_view(),
            record: self.record.deep_view(),
        }
    }
}

impl Clone for StorageItem {
    fn clone(&self) -> (r: Self)
        ensures
            r.deep_view() == self.deep_view(),
    {
        let r = StorageItem {
            key: self.key.clone(),
            plaintext: self.plaintext.clone(),
            record: self.record.clone(),
        };
        proof {
            assert(r.key.deep_view() =~= self.key.deep_view());
            assert(r.plaintext.deep_view() =~= self.plaintext.deep_view());
        }
        r
    }
}

/// What a sync does with a record.
#[derive(Debug, PartialEq)]
pub enum SyncStep {
    /// Nothing: the record is of another type, empty or broken.
    Skip,
    /// Merge the contact with what is stored under the id, save it, and remember where its
    /// record lives.
    Contact { service_id: ServiceId, contact: Contact, identity: ContactStorageIdentity },
    /// Merge the record with the group that is stored under the key, and save it.
    Group { master_key: [u8; 32], record: GroupV2Record },
}

/// What a [`SyncStep`] holds.
#[verifier::ext_equal]
pub enum SyncStepView {
    Skip,
    Contact {
        service_id: ServiceIdView,
        contact: ContactView,
        identity: ContactStorageIdentityView,
    },
    Group { master_key: Seq<u8>, record: GroupV2RecordView },
}

impl DeepView for SyncStep {
    type V = SyncStepView;

    open spec fn deep_view(&self) -> SyncStepView {
        match self {
            SyncStep::Skip => SyncStepView::Skip,
            SyncStep::Contact { service_id, contact, identity } => SyncStepView::Contact {
                service_id: service_id.deep_view(),
                contact: contact.deep_view(),
                identity: identity.deep_view(),
            },
            SyncStep::Group { master_key, record } => SyncStepView::Group {
                master_key: master_key@,
                record: record.deep_view(),
            },
        }
    }
}

impl Clone for SyncStep {
    fn clone(&self) -> (r: Self)
        ensures
            r.deep_view() == self.deep_view(),
    {
        let r = match self {
            SyncStep::Skip => SyncStep::Skip,
            SyncStep::Contact { service_id, contact, identity } => SyncStep::Contact {
                service_id: *service_id,
                contact: contact.clone(),
                identity: identity.clone(),
            },
            SyncStep::Group { master_key, record } => SyncStep::Group {
                master_key: *master_key,
                record: record.clone(),
            },
        };
        proof {
            assert(r.deep_view() =~= self.deep_view());
        }
        r
    }
}

/// The seconds to wait after `attempts` refused writes, before the next one. None after the
/// last.
pub open spec fn backoff_after(attempts: nat) -> Option<u64> {
    if attempts == 1 {
        Some(1u64)
    } else if attempts == 2 {
        Some(4u64)
    } else {
        None
    }
}

/// The seconds to wait after `attempts` refused writes, before the next one.
///
/// A conflict means another writer is active *right now*, so retrying immediately just loses
/// again.
pub fn manifest_write_backoff(attempts: usize) -> (seconds: Option<u64>)
    ensures
        seconds == backoff_after(attempts as nat),
{
    if attempts == 1 {
        Some(1u64)
    } else if attempts == 2 {
        Some(4u64)
    } else {
        None
    }
}

/// The message that tells the other devices of the account to re-read the manifest.
pub fn storage_manifest_written(padding: Vec<u8>) -> (message: SyncMessage)
    ensures
        message.deep_view() == (SyncMessageView {
            fetch_latest: Some(FetchLatestType::StorageManifest),
            padding: Some(padding@),
            ..SyncMessageView::empty()
        }),
{
    let message = SyncMessage {
        fetch_latest: Some(FetchLatestType::StorageManifest),
        padding: Some(padding),
        ..SyncMessage::default()
    };
    proof {
        text::lemma_bytes_view(padding);
        assert(message.deep_view() =~= (SyncMessageView {
            fetch_latest: Some(FetchLatestType::StorageManifest),
            padding: Some(padding@),
            ..SyncMessageView::empty()
        }));
    }
    message
}

/// A manifest with one record more.
pub open spec fn appended(
    current: ManifestRecordView,
    device: u32,
    kind: ItemType,
    raw_id: Seq<u8>,
) -> ManifestRecordView {
    ManifestRecordView {
        version: (current.version + 1) as u64,
        source_device: device,
        identifiers: current.identifiers.push(IdentifierView { raw: raw_id, kind }),
        record_ikm: current.record_ikm,
    }
}

/// The manifest that adds one record to the account, under the identifier `raw_id`.
///
/// Every existing identifier is copied through **verbatim**, including the types that this
/// library does not know. The server treats the manifest as the complete index of the account,
/// so anything dropped here would be deleted from every device the user owns.
///
/// What the keys of the records derive from is carried forward unchanged: dropping it would
/// make every existing record undecryptable.
pub fn append_storage_record(
    current: &ManifestRecord,
    device: u32,
    kind: ItemType,
    raw_id: Vec<u8>,
) -> (manifest: ManifestRecord)
    requires
        current.version < u64::MAX,
    ensures
        manifest.deep_view() == appended(current.deep_view(), device, kind, raw_id@),
{
    let mut identifiers = current.identifiers.clone();
    identifiers.push(Identifier { raw: raw_id, kind });
    let manifest = ManifestRecord {
        version: current.version + 1,
        source_device: device,
        identifiers,
        record_ikm: current.record_ikm.clone(),
    };
    proof {
        text::lemma_bytes_view(raw_id);
        assert(manifest.record_ikm.deep_view() =~= current.record_ikm.deep_view());
        assert(manifest.identifiers.deep_view() =~= current.identifiers.deep_view().push(
            IdentifierView { raw: raw_id@, kind },
        ));
    }
    manifest
}

/// What came of writing a manifest.
#[derive(Debug, Clone, Copy, PartialEq, Eq, Structural)]
pub enum WriteOutcome {
    Written,
    /// Another device wrote in between.
    Conflict,
}

/// What an append has to do next.
#[derive(Debug, Clone, Copy, PartialEq, Eq, Structural)]
pub enum AppendStep {
    /// Store the version, and tell the other devices.
    Finish,
    /// Wait, then re-read the manifest and rebuild on top of it.
    Retry { seconds: u64 },
    /// Give up.
    GiveUp,
}

/// What an append has to do after its `attempt`-th write.
pub fn append_outcome(attempt: usize, outcome: WriteOutcome) -> (step: AppendStep)
    requires
        1 <= attempt <= MANIFEST_WRITE_ATTEMPTS,
    ensures
        step == (match outcome {
            WriteOutcome::Written => AppendStep::Finish,
            WriteOutcome::Conflict => match backoff_after(attempt as nat) {
                Some(seconds) => AppendStep::Retry { seconds },
                None => AppendStep::GiveUp,
            },
        }),
        step is GiveUp <==> outcome == WriteOutcome::Conflict && attempt
            == MANIFEST_WRITE_ATTEMPTS,
{
    match outcome {
        WriteOutcome::Written => AppendStep::Finish,
        WriteOutcome::Conflict => match manifest_write_backoff(attempt) {
            Some(seconds) => AppendStep::Retry { seconds },
            None => AppendStep::GiveUp,
        },
    }
}

/// How many identifiers have these bytes.
pub open spec fn occurrences(identifiers: Seq<IdentifierView>, raw: Seq<u8>) -> nat
    decreases identifiers.len(),
{
    if identifiers.len() == 0 {
        0
    } else {
        occurrences(identifiers.drop_last(), raw) + if identifiers.last().raw == raw {
            1nat
        } else {
            0nat
        }
    }
}

/// One identifier put in place of another.
pub open spec fn substituted(
    identifiers: Seq<IdentifierView>,
    old_raw: Seq<u8>,
    new: IdentifierView,
) -> Seq<IdentifierView> {
    identifiers.map_values(
        |id: IdentifierView|
            if id.raw == old_raw {
                new
            } else {
                id
            },
    )
}

/// The manifest in which one record is replaced by another: the new record goes in under
/// `new_raw`, at the place of the old one. `new_raw` must be fresh, and the record must be
/// where it is believed to be.
pub open spec fn replaced(
    current: ManifestRecordView,
    device: u32,
    kind: ItemType,
    old_raw: Seq<u8>,
    new_raw: Seq<u8>,
) -> Result<ManifestRecordView, Error> {
    if new_raw == old_raw || occurrences(current.identifiers, new_raw) > 0 {
        Err(Error::StorageManifestConflict)
    } else if occurrences(current.identifiers, old_raw) != 1 {
        Err(Error::StorageRecordMoved)
    } else {
        Ok(
            ManifestRecordView {
                version: (current.version + 1) as u64,
                source_device: device,
                identifiers: substituted(
                    current.identifiers,
                    old_raw,
                    IdentifierView { raw: new_raw, kind },
                ),
                record_ikm: current.record_ikm,
            },
        )
    }
}

proof fn lemma_substituted_push(
    identifiers: Seq<IdentifierView>,
    id: IdentifierView,
    old_raw: Seq<u8>,
    new: IdentifierView,
)
    ensures
        substituted(identifiers.push(id), old_raw, new) == substituted(
            identifiers,
            old_raw,
            new,
        ).push(
            if id.raw == old_raw {
                new
            } else {
                id
            },
        ),
{
    assert(substituted(identifiers.push(id), old_raw, new) =~= substituted(
        identifiers,
        old_raw,
        new,
    ).push(
        if id.raw == old_raw {
            new
        } else {
            id
        },
    ));
}

proof fn lemma_occurrences_push(
    identifiers: Seq<IdentifierView>,
    id: IdentifierView,
    raw: Seq<u8>,
)
    ensures
        occurrences(identifiers.push(id), raw) == occurrences(identifiers, raw) + if id.raw
            == raw {
            1nat
        } else {
            0nat
        },
{
    assert(identifiers.push(id).drop_last() =~= identifiers);
}

proof fn lemma_occurrences_grow(identifiers: Seq<IdentifierView>, len: int, raw: Seq<u8>)
    requires
        0 <= len <= identifiers.len(),
    ensures
        occurrences(identifiers.take(len), raw) <= occurrences(identifiers, raw),
    decreases identifiers.len(),
{
    if len < identifiers.len() {
        lemma_occurrences_grow(identifiers.drop_last(), len, raw);
        assert(identifiers.drop_last().take(len) =~= identifiers.take(len));
    } else {
        assert(identifiers.take(len) =~= identifiers);
    }
}

/// The manifest that replaces one record with another: the new record goes in under a fresh
/// identifier, at the place of the old one.
///
/// A record is immutable under its identifier, so this is the only shape an update can take.
/// Every other identifier keeps its bytes, its type and its position: one dropped here is
/// deleted from every device the user owns.
///
/// `current` must be the manifest as the server holds it *now*, and the caller must already be
/// caught up to it.
pub fn write_replacing_storage_record(
    current: &ManifestRecord,
    device: u32,
    kind: ItemType,
    old_raw_id: &Vec<u8>,
    new_raw_id: &Vec<u8>,
) -> (r: Result<ManifestRecord, Error>)
    requires
        current.version < u64::MAX,
    ensures
        match r {
            Ok(manifest) => replaced(
                current.deep_view(),
                device,
                kind,
                old_raw_id@,
                new_raw_id@,
            ) == Ok::<ManifestRecordView, Error>(manifest.deep_view()),
            Err(e) => replaced(
                current.deep_view(),
                device,
                kind,
                old_raw_id@,
                new_raw_id@,
            ) == Err::<ManifestRecordView, Error>(e),
        },
{
    broadcast use text::lemma_bytes_view;

    if text::bytes_equal(new_raw_id.as_slice(), old_raw_id.as_slice()) {
        // Inserting and deleting the same key in one write is the one shape the server is
        // entitled to interpret either way.
        return Err(Error::StorageManifestConflict);
    }
    let ghost all = current.identifiers.deep_view();
    let ghost new = IdentifierView { raw: new_raw_id@, kind };
    let mut identifiers: Vec<Identifier> = Vec::new();
    let mut replaced_count: usize = 0;
    let mut i: usize = 0;
    proof {
        assert(identifiers.deep_view() =~= substituted(all.take(0), old_raw_id@, new));
    }
    while i < current.identifiers.len()
        invariant
            i <= current.identifiers@.len(),
            all == current.identifiers.deep_view(),
            all == current.deep_view().identifiers,
            new == (IdentifierView { raw: new_raw_id@, kind }),
            new_raw_id@ != old_raw_id@,
            replaced_count <= i,
            replaced_count == occurrences(all.take(i as int), old_raw_id@),
            occurrences(all.take(i as int), new_raw_id@) == 0,
            identifiers.deep_view() == substituted(all.take(i as int), old_raw_id@, new),
        decreases current.identifiers@.len() - i,
    {
        let id = &current.identifiers[i];
        let ghost before = identifiers.deep_view();
        proof {
            assert(all.take(i + 1) =~= all.take(i as int).push(id.deep_view()));
            assert(id.deep_view().raw =~= id.raw@);
            lemma_occurrences_push(all.take(i as int), id.deep_view(), old_raw_id@);
            lemma_occurrences_push(all.take(i as int), id.deep_view(), new_raw_id@);
        }
        if text::bytes_equal(id.raw.as_slice(), old_raw_id.as_slice()) {
            replaced_count = replaced_count + 1;
            let raw = new_raw_id.clone();
            assert(raw@ =~= new_raw_id@);
            let fresh = Identifier { raw, kind };
            identifiers.push(fresh);
            proof {
                assert(fresh.deep_view() == new);
                assert(identifiers.deep_view() =~= before.push(new));
                lemma_substituted_push(all.take(i as int), id.deep_view(), old_raw_id@, new);
            }
        } else {
            if text::bytes_equal(id.raw.as_slice(), new_raw_id.as_slice()) {
                proof {
                    lemma_occurrences_grow(all, i + 1, new_raw_id@);
                }
                return Err(Error::StorageManifestConflict);
            }
            let same = id.clone();
            identifiers.push(same);
            proof {
                assert(identifiers.deep_view() =~= before.push(id.deep_view()));
                lemma_substituted_push(all.take(i as int), id.deep_view(), old_raw_id@, new);
            }
        }
        i = i + 1;
    }
    proof {
        assert(all.take(i as int) =~= all);
    }
    if replaced_count != 1 {
        return Err(Error::StorageRecordMoved);
    }
    let manifest = ManifestRecord {
        version: current.version + 1,
        source_device: device,
        identifiers,
        record_ikm: current.record_ikm.clone(),
    };
    proof {
        assert(manifest.record_ikm.deep_view() =~= current.record_ikm.deep_view());
    }
    Ok(manifest)
}

/// An append keeps every identifier that was there, at its place, and adds one; what the keys
/// derive from is unchanged.
pub proof fn law_append_keeps_every_identifier(
    current: ManifestRecordView,
    device: u32,
    kind: ItemType,
    raw_id: Seq<u8>,
)
    ensures
        appended(current, device, kind, raw_id).identifiers.drop_last() == current.identifiers,
        appended(current, device, kind, raw_id).identifiers.last().raw == raw_id,
        appended(current, device, kind, raw_id).record_ikm == current.record_ikm,
{
    assert(appended(current, device, kind, raw_id).identifiers.drop_last()
        =~= current.identifiers);
}

/// A replacement changes no counts and touches no other record: as many identifiers as before,
/// each at its place, and only that of the replaced record is another.
pub proof fn law_replacing_touches_one_record(
    current: ManifestRecordView,
    device: u32,
    kind: ItemType,
    old_raw: Seq<u8>,
    new_raw: Seq<u8>,
)
    requires
        replaced(current, device, kind, old_raw, new_raw) is Ok,
    ensures
        ({
            let after = replaced(current, device, kind, old_raw, new_raw)->Ok_0;
            &&& after.identifiers.len() == current.identifiers.len()
            &&& after.record_ikm == current.record_ikm
            &&& occurrences(after.identifiers, old_raw) == 0
            &&& occurrences(after.identifiers, new_raw) == 1
            &&& forall|i: int|
                0 <= i < current.identifiers.len() && current.identifiers[i].raw != old_raw
                    ==> #[trigger] after.identifiers[i] == current.identifiers[i]
        }),
{
    lemma_substituted(current.identifiers, old_raw, IdentifierView { raw: new_raw, kind });
}

proof fn lemma_substituted(identifiers: Seq<IdentifierView>, old_raw: Seq<u8>, new: IdentifierView)
    requires
        new.raw != old_raw,
    ensures
        occurrences(substituted(identifiers, old_raw, new), old_raw) == 0,
        occurrences(substituted(identifiers, old_raw, new), new.raw) == occurrences(
            identifiers,
            old_raw,
        ) + occurrences(identifiers, new.raw),
    decreases identifiers.len(),
{
    if identifiers.len() > 0 {
        lemma_substituted(identifiers.drop_last(), old_raw, new);
        assert(substituted(identifiers, old_raw, new).drop_last() =~= substituted(
            identifiers.drop_last(),
            old_raw,
            new,
        ));
    }
}

/// The start of a pass: the update compares versions, unless it did so too often.
pub open spec fn pass_started(passes: usize, write_attempts: usize) -> UpdateStateView {
    if passes >= MAX_PASSES {
        UpdateStateView {
            passes,
            write_attempts,
            phase: UpdatePhaseView::Failed { error: Error::StorageManifestConflict },
        }
    } else {
        UpdateStateView {
            passes: (passes + 1) as usize,
            write_attempts,
            phase: UpdatePhaseView::Comparing,
        }
    }
}

/// The next state of an update. An event that does not belong to the phase changes nothing.
pub open spec fn stepped(state: UpdateStateView, event: UpdateEventView) -> UpdateStateView {
    match (state.phase, event) {
        (UpdatePhaseView::Marking, UpdateEventView::Done) => pass_started(
            state.passes,
            state.write_attempts,
        ),
        (UpdatePhaseView::Comparing, UpdateEventView::Versions { local, remote }) => {
            UpdateStateView {
                phase: if local != remote {
                    UpdatePhaseView::Syncing
                } else {
                    UpdatePhaseView::Loading { version: remote }
                },
                ..state
            }
        },
        (UpdatePhaseView::Syncing, UpdateEventView::Done) => pass_started(
            state.passes,
            state.write_attempts,
        ),
        (UpdatePhaseView::Loading { version }, UpdateEventView::Identity { identity }) => {
            UpdateStateView {
                phase: match identity {
                    Some(identity) => UpdatePhaseView::Editing {
                        version,
                        storage_id: identity.storage_id,
                        record: identity.record,
                    },
                    None => UpdatePhaseView::Failed { error: Error::StorageRecordUnknown },
                },
                ..state
            }
        },
        (
            UpdatePhaseView::Editing { version, storage_id, record: _ },
            UpdateEventView::Edited { record },
        ) => UpdateStateView {
            phase: match record {
                Some(record) => UpdatePhaseView::Writing { version, storage_id, record },
                None => UpdatePhaseView::Unmarking,
            },
            ..state
        },
        (
            UpdatePhaseView::Editing { version: _, storage_id: _, record: _ },
            UpdateEventView::EditFailed { error },
        ) => UpdateStateView {
            phase: UpdatePhaseView::Failed { error: Error::StorageRecordEdit(error) },
            ..state
        },
        (
            UpdatePhaseView::Writing { version, storage_id: _, record },
            UpdateEventView::Written { storage_id },
        ) => UpdateStateView {
            phase: UpdatePhaseView::Committing {
                version: (version + 1) as u64,
                identity: ContactStorageIdentityView {
                    storage_id,
                    storage_version: (version + 1) as u64,
                    record,
                },
            },
            ..state
        },
        (
            UpdatePhaseView::Writing { version: _, storage_id: _, record: _ },
            UpdateEventView::Conflict,
        ) => UpdateStateView {
            passes: state.passes,
            write_attempts: (state.write_attempts + 1) as usize,
            phase: match backoff_after((state.write_attempts + 1) as nat) {
                Some(seconds) => UpdatePhaseView::Waiting { seconds },
                None => UpdatePhaseView::Failed { error: Error::StorageManifestConflict },
            },
        },
        (UpdatePhaseView::Waiting { seconds: _ }, UpdateEventView::Done) => pass_started(
            state.passes,
            state.write_attempts,
        ),
        (
            UpdatePhaseView::Committing { version: _, identity: _ },
            UpdateEventView::Done,
        ) => UpdateStateView { phase: UpdatePhaseView::Finished, ..state },
        (UpdatePhaseView::Unmarking, UpdateEventView::Done) => UpdateStateView {
            phase: UpdatePhaseView::Finished,
            ..state
        },
        _ => state,
    }
}

impl UpdateStateView {
    /// What holds of every update: it starts over at most [`MAX_PASSES`] times, it is refused
    /// at most [`MANIFEST_WRITE_ATTEMPTS`] times, and a next version exists.
    pub open spec fn well_formed(self) -> bool {
        &&& self.passes <= MAX_PASSES
        &&& self.write_attempts <= MANIFEST_WRITE_ATTEMPTS
        &&& self.write_attempts == MANIFEST_WRITE_ATTEMPTS ==> self.phase is Failed
        &&& match self.phase {
            UpdatePhaseView::Loading { version } => version < u64::MAX,
            UpdatePhaseView::Editing { version, .. } => version < u64::MAX,
            UpdatePhaseView::Writing { version, .. } => version < u64::MAX,
            _ => true,
        }
    }
}

/// A server's manifest that has a next version.
pub open spec fn possible(event: UpdateEventView) -> bool {
    event matches UpdateEventView::Versions { local: _, remote } ==> remote < u64::MAX
}

/// How an update starts.
pub open spec fn update_started() -> UpdateStateView {
    UpdateStateView { passes: 0, write_attempts: 0, phase: UpdatePhaseView::Marking }
}

impl UpdateState {
    /// An update that is about to start: the record is marked before the first attempt and
    /// unmarked only once the server has taken the write, so an exhausted retry or a crash
    /// leaves a durable record of what still needs publishing.
    pub fn start() -> (state: UpdateState)
        ensures
            state.deep_view() == update_started(),
            state.deep_view().well_formed(),
    {
        UpdateState { passes: 0, write_attempts: 0, phase: UpdatePhase::Marking }
    }

    fn start_pass(passes: usize, write_attempts: usize) -> (state: UpdateState)
        ensures
            state.deep_view() == pass_started(passes, write_attempts),
    {
        if passes >= MAX_PASSES {
            UpdateState {
                passes,
                write_attempts,
                phase: UpdatePhase::Failed { error: Error::StorageManifestConflict },
            }
        } else {
            UpdateState { passes: passes + 1, write_attempts, phase: UpdatePhase::Comparing }
        }
    }

    /// The next state of an update of a storage record.
    ///
    /// Each pass compares the version that was synced last against the server's, and syncs
    /// first if they differ. So the stored record is provably current when it is edited, and
    /// recording the next version after the write is unconditionally safe: writing while
    /// behind would claim a version whose records were never read.
    ///
    /// On a conflict the local edit wins: it is re-applied over the freshly synced record.
    pub fn update_storage_record(self, event: UpdateEvent) -> (next: UpdateState)
        requires
            self.deep_view().well_formed(),
            possible(event.deep_view()),
        ensures
            next.deep_view() == stepped(self.deep_view(), event.deep_view()),
            next.deep_view().well_formed(),
    {
        let passes: usize = self.passes;
        let write_attempts: usize = self.write_attempts;
        match (self.phase, event) {
            (UpdatePhase::Marking, UpdateEvent::Done) => UpdateState::start_pass(
                passes,
                write_attempts,
            ),
            (UpdatePhase::Comparing, UpdateEvent::Versions { local, remote }) => {
                let phase = if local != remote {
                    UpdatePhase::Syncing
                } else {
                    UpdatePhase::Loading { version: remote }
                };
                UpdateState { passes, write_attempts, phase }
            },
            (UpdatePhase::Syncing, UpdateEvent::Done) => UpdateState::start_pass(
                passes,
                write_attempts,
            ),
            (UpdatePhase::Loading { version }, UpdateEvent::Identity { identity }) => {
                let phase = match identity {
                    Some(identity) => UpdatePhase::Editing {
                        version,
                        storage_id: identity.storage_id,
                        record: identity.record,
                    },
                    None => UpdatePhase::Failed { error: Error::StorageRecordUnknown },
                };
                UpdateState { passes, write_attempts, phase }
            },
            (
                UpdatePhase::Editing { version, storage_id, record: _ },
                UpdateEvent::Edited { record },
            ) => {
                let phase = match record {
                    Some(record) => UpdatePhase::Writing { version, storage_id, record },
                    None => UpdatePhase::Unmarking,
                };
                UpdateState { passes, write_attempts, phase }
            },
            (
                UpdatePhase::Editing { version: _, storage_id: _, record: _ },
                UpdateEvent::EditFailed { error },
            ) => UpdateState {
                passes,
                write_attempts,
                phase: UpdatePhase::Failed { error: Error::StorageRecordEdit(error) },
            },
            (
                UpdatePhase::Writing { version, storage_id: _, record },
                UpdateEvent::Written { storage_id },
            ) => {
                let identity = ContactStorageIdentity {
                    storage_id,
                    storage_version: version + 1,
                    record,
                };
                UpdateState {
                    passes,
                    write_attempts,
                    phase: UpdatePhase::Committing { version: version + 1, identity },
                }
            },
            (
                UpdatePhase::Writing { version: _, storage_id: _, record: _ },
                UpdateEvent::Conflict,
            ) => {
                let phase = match manifest_write_backoff(write_attempts + 1) {
                    Some(seconds) => UpdatePhase::Waiting { seconds },
                    None => UpdatePhase::Failed { error: Error::StorageManifestConflict },
                };
                UpdateState { passes, write_attempts: write_attempts + 1, phase }
            },
            (UpdatePhase::Waiting { seconds: _ }, UpdateEvent::Done) => UpdateState::start_pass(
                passes,
                write_attempts,
            ),
            (
                UpdatePhase::Committing { version: _, identity: _ },
                UpdateEvent::Done,
            ) => UpdateState { passes, write_attempts, phase: UpdatePhase::Finished },
            (UpdatePhase::Unmarking, UpdateEvent::Done) => UpdateState {
                passes,
                write_attempts,
                phase: UpdatePhase::Finished,
            },
            (phase, _) => UpdateState { passes, write_attempts, phase },
        }
    }
}

/// The state that a run of events leaves an update in.
pub open spec fn update_after(events: Seq<UpdateEventView>) -> UpdateStateView
    decreases events.len(),
{
    if events.len() == 0 {
        update_started()
    } else {
        stepped(update_after(events.drop_last()), events.last())
    }
}

/// The version that a phase works on.
pub open spec fn working_version(phase: UpdatePhaseView) -> Option<u64> {
    match phase {
        UpdatePhaseView::Loading { version } => Some(version),
        UpdatePhaseView::Editing { version, .. } => Some(version),
        UpdatePhaseView::Writing { version, .. } => Some(version),
        _ => None,
    }
}

/// An update writes only while it is caught up: whatever happened before, the version that it
/// edits and writes at is one at which the device and the server agreed.
pub proof fn law_writes_only_while_caught_up(events: Seq<UpdateEventView>)
    requires
        working_version(update_after(events).phase) is Some,
    ensures
        exists|i: int|
            0 <= i < events.len() && #[trigger] events[i] == (UpdateEventView::Versions {
                local: working_version(update_after(events).phase)->0,
                remote: working_version(update_after(events).phase)->0,
            }),
    decreases events.len(),
{
    let before = events.drop_last();
    let was = update_after(before);
    let event = events.last();
    let version = working_version(update_after(events).phase)->0;
    if was.phase is Comparing {
        assert(events[events.len() - 1] == event);
    } else {
        assert(working_version(was.phase) == Some(version));
        law_writes_only_while_caught_up(before);
        let i = choose|i: int|
            0 <= i < before.len() && #[trigger] before[i] == (UpdateEventView::Versions {
                local: version,
                remote: version,
            });
        assert(events[i] == before[i]);
    }
}

/// The version that is stored after a write is the one after that at which it was made, and it
/// is also what is remembered of the record.
pub proof fn law_commits_the_next_version(state: UpdateStateView, storage_id: Seq<u8>)
    requires
        state.well_formed(),
        state.phase is Writing,
    ensures
        ({
            let after = stepped(state, UpdateEventView::Written { storage_id }).phase;
            &&& after is Committing
            &&& after->Committing_version == state.phase->Writing_version + 1
            &&& after->Committing_identity.storage_version == state.phase->Writing_version + 1
            &&& after->Committing_identity.storage_id == storage_id
            &&& after->Committing_identity.record == state.phase->Writing_record
        }),
{
}

/// What an update still has to go through, at most.
pub open spec fn steps_left(state: UpdateStateView) -> int {
    8 * (7 - state.passes) + match state.phase {
        UpdatePhaseView::Comparing => 6int,
        UpdatePhaseView::Loading { .. } => 5int,
        UpdatePhaseView::Editing { .. } => 4int,
        UpdatePhaseView::Writing { .. } => 3int,
        UpdatePhaseView::Marking => 2int,
        UpdatePhaseView::Committing { .. } => 2int,
        UpdatePhaseView::Unmarking => 2int,
        UpdatePhaseView::Syncing => 1int,
        UpdatePhaseView::Waiting { .. } => 1int,
        UpdatePhaseView::Finished => 0int,
        UpdatePhaseView::Failed { .. } => 0int,
    }
}

/// An update ends: every event that changes its state brings it nearer to its end.
pub proof fn law_every_step_makes_progress(state: UpdateStateView, event: UpdateEventView)
    requires
        state.well_formed(),
        stepped(state, event) != state,
    ensures
        0 <= steps_left(stepped(state, event)) < steps_left(state),
{
}

/// What a publish makes of a contact's record: nothing where it already says whether the
/// contact is blocked.
pub open spec fn contact_edit(record: Seq<u8>, blocked: bool) -> Result<
    Option<Seq<u8>>,
    StorageRecordEditError,
> {
    match storage_record::contact_blocked_of(record) {
        Err(e) => Err(e),
        Ok(says) => if says == blocked {
            Ok(None)
        } else {
            match storage_record::contact_blocked_set(record, blocked) {
                Ok(edited) => Ok(Some(edited)),
                Err(e) => Err(e),
            }
        },
    }
}

/// Bring a contact's storage record in line with the stored contact: the record to write, or
/// nothing where it already says whether the contact is blocked.
pub fn push_contact_record(record: &Vec<u8>, blocked: bool) -> (r: Result<
    Option<Vec<u8>>,
    StorageRecordEditError,
>)
    ensures
        match r {
            Ok(edited) => contact_edit(record@, blocked) == Ok::<
                Option<Seq<u8>>,
                StorageRecordEditError,
            >(edited.deep_view()),
            Err(e) => contact_edit(record@, blocked) == Err::<
                Option<Seq<u8>>,
                StorageRecordEditError,
            >(e),
        },
{
    broadcast use text::lemma_bytes_view;

    match storage_record::contact_blocked(record.as_slice()) {
        Err(e) => Err(e),
        Ok(says) => if says == blocked {
            Ok(None)
        } else {
            match storage_record::set_contact_blocked(record.as_slice(), blocked) {
                Ok(edited) => Ok(Some(edited)),
                Err(e) => Err(e),
            }
        },
    }
}

/// A published record says what the contact says.
pub proof fn law_publishes_the_block(record: Seq<u8>, blocked: bool)
    requires
        contact_edit(record, blocked) matches Ok(edited) && (edited matches Some(edited)
            ==> edited.len() <= usize::MAX),
    ensures
        storage_record::contact_blocked_of(
            match contact_edit(record, blocked)->Ok_0 {
                Some(edited) => edited,
                None => record,
            },
        ) == Ok::<bool, StorageRecordEditError>(blocked),
{
    if let Ok(Some(edited)) = contact_edit(record, blocked) {
        crate::storage_record_laws::law_blocked_reads_back(record, blocked);
    }
}

/// Whether a contact that was just published as `published` has to be marked again: it was
/// blocked or unblocked meanwhile. Publishing takes seconds, and clears the mark on success;
/// without this the newer value would never be published.
pub fn changed_while_publishing(current: &Option<Contact>, published: bool) -> (again: bool)
    ensures
        again == (match current.deep_view() {
            Some(contact) => contact.blocked != published,
            None => false,
        }),
{
    match current {
        Some(contact) => contact.blocked != published,
        None => false,
    }
}

/// A contact rebuilt from a remote snapshot, with what is stored merged in.
///
/// What a snapshot cannot carry is always local. An empty field of the snapshot carries no
/// information, so what is stored stays; a non-empty one wins. And a contact with a change
/// that was not published yet keeps whether it is blocked.
pub open spec fn merged_contact(
    snapshot: ContactView,
    existing: ContactView,
    has_pending_publish: bool,
) -> ContactView {
    ContactView {
        expire_timer: existing.expire_timer,
        expire_timer_version: existing.expire_timer_version,
        inbox_position: existing.inbox_position,
        avatar: existing.avatar,
        verified: existing.verified,
        name: if snapshot.name.len() == 0 {
            existing.name
        } else {
            snapshot.name
        },
        profile_key: if snapshot.profile_key.len() == 0 {
            existing.profile_key
        } else {
            snapshot.profile_key
        },
        phone_number: match snapshot.phone_number {
            Some(_) => snapshot.phone_number,
            None => existing.phone_number,
        },
        pni: match snapshot.pni {
            Some(_) => snapshot.pni,
            None => existing.pni,
        },
        username: match snapshot.username {
            Some(_) => snapshot.username,
            None => existing.username,
        },
        blocked: if has_pending_publish {
            existing.blocked
        } else {
            snapshot.blocked
        },
        ..snapshot
    }
}

/// The name of a field in a list, where it was preserved.
pub open spec fn noted(preserved: bool, name: Seq<char>) -> Seq<Seq<char>> {
    if preserved {
        seq![name]
    } else {
        Seq::empty()
    }
}

/// The fields that a merge protected, by name.
pub open spec fn preserved_fields(
    snapshot: ContactView,
    existing: ContactView,
    has_pending_publish: bool,
) -> Seq<Seq<char>> {
    noted(snapshot.name.len() == 0 && existing.name.len() > 0, "name"@) + noted(
        snapshot.profile_key.len() == 0 && existing.profile_key.len() > 0,
        "profile_key"@,
    ) + noted(snapshot.phone_number is None && existing.phone_number is Some, "phone_number"@)
        + noted(snapshot.pni is None && existing.pni is Some, "pni"@) + noted(
        snapshot.username is None && existing.username is Some,
        "username"@,
    ) + noted(has_pending_publish && snapshot.blocked != existing.blocked, "blocked"@)
}

/// Keep what is stored in a text field that the snapshot leaves empty, and note its name.
fn keep_text(
    field: &mut String,
    stored: String,
    name: &'static str,
    preserved: &mut Vec<&'static str>,
)
    ensures
        final(field)@ == (if old(field)@.len() == 0 {
            stored@
        } else {
            old(field)@
        }),
        final(preserved).deep_view() == old(preserved).deep_view() + noted(
            old(field)@.len() == 0 && stored@.len() > 0,
            name@,
        ),
{
    let ghost before = preserved.deep_view();
    if field.as_str().is_empty() && !stored.as_str().is_empty() {
        *field = stored;
        preserved.push(name);
    }
    proof {
        assert(old(field)@.len() == 0 && stored@.len() == 0 ==> old(field)@ =~= stored@);
        assert(preserved.deep_view() =~= before + noted(
            old(field)@.len() == 0 && stored@.len() > 0,
            name@,
        ));
    }
}

/// Keep what is stored in a field of bytes that the snapshot leaves empty, and note its name.
fn keep_bytes(
    field: &mut Vec<u8>,
    stored: Vec<u8>,
    name: &'static str,
    preserved: &mut Vec<&'static str>,
)
    ensures
        final(field)@ == (if old(field)@.len() == 0 {
            stored@
        } else {
            old(field)@
        }),
        final(preserved).deep_view() == old(preserved).deep_view() + noted(
            old(field)@.len() == 0 && stored@.len() > 0,
            name@,
        ),
{
    let ghost before = preserved.deep_view();
    if field.len() == 0 && stored.len() != 0 {
        *field = stored;
        preserved.push(name);
    }
    proof {
        assert(old(field)@.len() == 0 && stored@.len() == 0 ==> old(field)@ =~= stored@);
        assert(preserved.deep_view() =~= before + noted(
            old(field)@.len() == 0 && stored@.len() > 0,
            name@,
        ));
    }
}

/// Keep what is stored in an optional field that the snapshot leaves unset, and note its name.
fn keep_option<T: DeepView>(
    field: &mut Option<T>,
    stored: Option<T>,
    name: &'static str,
    preserved: &mut Vec<&'static str>,
)
    ensures
        *final(field) == (match *old(field) {
            Some(_) => *old(field),
            None => stored,
        }),
        final(preserved).deep_view() == old(preserved).deep_view() + noted(
            *old(field) is None && stored is Some,
            name@,
        ),
{
    let ghost before = preserved.deep_view();
    if field.is_none() && stored.is_some() {
        *field = stored;
        preserved.push(name);
    }
    proof {
        assert(preserved.deep_view() =~= before + noted(
            *old(field) is None && stored is Some,
            name@,
        ));
    }
}

/// Merge the stored contact into one rebuilt from a remote snapshot, and report which at-risk
/// fields were protected.
///
/// Applies to both snapshot sources: a storage record and a backup. Each is a full snapshot,
/// but only of what the *writing* device knew, and an empty value is indistinguishable from an
/// unset one. Letting one overwrite local data loses the contact's name, profile key, phone
/// number, identity or username for nothing.
///
/// A *non-empty* remote value still wins: storage sync is the only channel that delivers a
/// renamed contact.
///
/// `has_pending_publish` is the exception to that. A contact whose local change has not yet
/// reached the storage service must keep it: the record that is merged is the one about to be
/// overwritten, so letting it win would discard the user's action and then publish the
/// discarded value back.
#[verifier::rlimit(60)]
pub fn merge_contact_from_snapshot(
    contact: &mut Contact,
    existing: Contact,
    has_pending_publish: bool,
) -> (preserved: Vec<&'static str>)
    ensures
        final(contact).deep_view() == merged_contact(
            old(contact).deep_view(),
            existing.deep_view(),
            has_pending_publish,
        ),
        preserved.deep_view() == preserved_fields(
            old(contact).deep_view(),
            existing.deep_view(),
            has_pending_publish,
        ),
{
    broadcast use text::lemma_bytes_view;

    let ghost snapshot = contact.deep_view();
    let ghost stored = existing.deep_view();
    contact.expire_timer = existing.expire_timer;
    contact.expire_timer_version = existing.expire_timer_version;
    contact.inbox_position = existing.inbox_position;
    contact.avatar = existing.avatar;
    contact.verified = existing.verified;
    let mut preserved: Vec<&'static str> = Vec::new();
    keep_text(&mut contact.name, existing.name, "name", &mut preserved);
    assert(preserved.deep_view() =~= noted(
        snapshot.name.len() == 0 && stored.name.len() > 0,
        "name"@,
    ));
    keep_bytes(&mut contact.profile_key, existing.profile_key, "profile_key", &mut preserved);
    keep_option(
        &mut contact.phone_number,
        existing.phone_number,
        "phone_number",
        &mut preserved,
    );
    keep_option(&mut contact.pni, existing.pni, "pni", &mut preserved);
    keep_option(&mut contact.username, existing.username, "username", &mut preserved);
    let ghost noted_so_far = preserved.deep_view();
    if has_pending_publish && contact.blocked != existing.blocked {
        contact.blocked = existing.blocked;
        preserved.push("blocked");
    }
    proof {
        assert(preserved.deep_view() =~= noted_so_far + noted(
            has_pending_publish && snapshot.blocked != stored.blocked,
            "blocked"@,
        ));
        assert(contact.deep_view() =~= merged_contact(snapshot, stored, has_pending_publish));
    }
    preserved
}

/// A merge loses nothing: a field that is stored or in the snapshot is set afterwards.
pub proof fn law_merge_loses_nothing(
    snapshot: ContactView,
    existing: ContactView,
    has_pending_publish: bool,
)
    ensures
        ({
            let merged = merged_contact(snapshot, existing, has_pending_publish);
            &&& merged.name.len() == 0 ==> existing.name.len() == 0 && snapshot.name.len() == 0
            &&& merged.profile_key.len() == 0 ==> existing.profile_key.len() == 0
                && snapshot.profile_key.len() == 0
            &&& merged.phone_number is None ==> existing.phone_number is None
                && snapshot.phone_number is None
            &&& merged.pni is None ==> existing.pni is None && snapshot.pni is None
            &&& merged.username is None ==> existing.username is None && snapshot.username is None
        }),
{
}

/// A second sync of the same snapshot changes nothing more.
pub proof fn law_merge_is_idempotent(
    snapshot: ContactView,
    existing: ContactView,
    has_pending_publish: bool,
)
    ensures
        ({
            let merged = merged_contact(snapshot, existing, has_pending_publish);
            merged_contact(snapshot, merged, has_pending_publish) == merged
        }),
{
    let merged = merged_contact(snapshot, existing, has_pending_publish);
    assert(merged_contact(snapshot, merged, has_pending_publish) =~= merged);
}

/// A sync does not revert a change that was not published yet, and takes over a change made on
/// another device where there is none.
pub proof fn law_pending_block_survives(
    snapshot: ContactView,
    existing: ContactView,
    has_pending_publish: bool,
)
    ensures
        merged_contact(snapshot, existing, has_pending_publish).blocked == (
        if has_pending_publish {
            existing.blocked
        } else {
            snapshot.blocked
        }),
{
}

/// The identifiers of one type, in the manifest's order.
pub open spec fn keys_of(identifiers: Seq<IdentifierView>, kind: ItemType) -> Seq<Seq<u8>>
    decreases identifiers.len(),
{
    if identifiers.len() == 0 {
        Seq::empty()
    } else if identifiers.last().kind == kind {
        keys_of(identifiers.drop_last(), kind).push(identifiers.last().raw)
    } else {
        keys_of(identifiers.drop_last(), kind)
    }
}

/// What a sync reads: the contacts, then the groups.
pub open spec fn keys_to_read(identifiers: Seq<IdentifierView>) -> Seq<Seq<u8>> {
    keys_of(identifiers, ItemType::Contact) + keys_of(identifiers, ItemType::GroupV2)
}

fn collect_keys(identifiers: &Vec<Identifier>, kind: ItemType) -> (keys: Vec<Vec<u8>>)
    ensures
        keys.deep_view() == keys_of(identifiers.deep_view(), kind),
{
    broadcast use text::lemma_bytes_view;

    let mut keys: Vec<Vec<u8>> = Vec::new();
    let mut i: usize = 0;
    let ghost all = identifiers.deep_view();
    proof {
        assert(keys.deep_view() =~= keys_of(all.take(0), kind));
    }
    while i < identifiers.len()
        invariant
            i <= identifiers@.len(),
            all == identifiers.deep_view(),
            keys.deep_view() == keys_of(all.take(i as int), kind),
        decreases identifiers@.len() - i,
    {
        let id = &identifiers[i];
        proof {
            assert(all.take(i + 1).drop_last() =~= all.take(i as int));
            assert(all.take(i + 1).last() == id.deep_view());
        }
        if id.kind == kind {
            let raw = id.raw.clone();
            let ghost before = keys.deep_view();
            keys.push(raw);
            proof {
                assert(raw.deep_view() =~= id.raw.deep_view());
                assert(keys.deep_view() =~= before.push(id.raw.deep_view()));
            }
        }
        i = i + 1;
    }
    assert(all.take(i as int) =~= all);
    keys
}

/// The batch at `index`, which starts inside the keys.
pub open spec fn batch_at(keys: Seq<Seq<u8>>, index: int) -> StorageBatchView {
    let start = index * STORAGE_SERVICE_BATCH_SIZE;
    let end = start + STORAGE_SERVICE_BATCH_SIZE;
    StorageBatchView {
        index: index as usize,
        keys: keys.subrange(
            start,
            if end < keys.len() {
                end
            } else {
                keys.len() as int
            },
        ),
    }
}

/// The batches from `index` on: [`STORAGE_SERVICE_BATCH_SIZE`] keys each, and what is left in
/// the last.
pub open spec fn batches_from(keys: Seq<Seq<u8>>, index: nat) -> Seq<StorageBatchView>
    decreases keys.len() - index,
{
    if index * STORAGE_SERVICE_BATCH_SIZE >= keys.len() {
        Seq::empty()
    } else {
        proof {
            lemma_batch_start(index);
        }
        seq![batch_at(keys, index as int)] + batches_from(keys, index + 1)
    }
}

pub proof fn lemma_batch_start(index: nat)
    ensures
        index * STORAGE_SERVICE_BATCH_SIZE == 2500 * index,
{
    assert(index * STORAGE_SERVICE_BATCH_SIZE == 2500 * index) by (nonlinear_arith)
        requires
            STORAGE_SERVICE_BATCH_SIZE == 2500,
    ;
}

/// The batch that a sync starts with: where the last one stopped, if it was of the same
/// version.
pub open spec fn resume_index(cursor: Option<StorageSyncCursor>, version: u64) -> nat {
    match cursor {
        Some(cursor) => if cursor.target_version == version {
            cursor.next_batch_index as nat
        } else {
            0
        },
        None => 0,
    }
}

impl StorageSyncView {
    /// A batch that is about to be read, or was just read, is one of those to read; and the
    /// batch after every batch can be counted.
    pub open spec fn wf(self) -> bool {
        &&& match self.phase {
            SyncPhase::Reading { place } => place < self.batches.len(),
            SyncPhase::Checkpointing { place, cursor: _ } => place < self.batches.len(),
            _ => true,
        }
        &&& self.batches.len() <= usize::MAX
        &&& forall|i: int|
            0 <= i < self.batches.len() ==> (#[trigger] self.batches[i]).index < usize::MAX
    }
}

/// What a sync does once a stale cursor is out of the way.
pub open spec fn first_phase(batches: Seq<StorageBatchView>, version: u64) -> SyncPhase {
    if batches.len() == 0 {
        SyncPhase::Committing { version }
    } else {
        SyncPhase::Reading { place: 0 }
    }
}

/// The checkpoint after the batch of an index.
pub open spec fn checkpoint(version: u64, index: usize) -> StorageSyncCursor {
    StorageSyncCursor { target_version: version, next_batch_index: (index + 1) as u32 }
}

/// How a sync starts. `manifest` is `None` where it has not changed: like a manifest that lists
/// neither contacts nor groups, that leaves nothing to read, and a cursor would be stale.
pub open spec fn sync_started(
    manifest: Option<ManifestRecordView>,
    local_version: u64,
    cursor: Option<StorageSyncCursor>,
) -> StorageSyncView {
    match manifest {
        None => StorageSyncView {
            version: local_version,
            record_ikm: None,
            batches: Seq::empty(),
            phase: SyncPhase::Clearing,
        },
        Some(manifest) => {
            let keys = keys_to_read(manifest.identifiers);
            let batches = batches_from(keys, resume_index(cursor, manifest.version));
            StorageSyncView {
                version: manifest.version,
                record_ikm: if manifest.record_ikm.len() == 0 {
                    None
                } else {
                    Some(manifest.record_ikm)
                },
                batches,
                phase: if keys.len() == 0 {
                    SyncPhase::Clearing
                } else if cursor matches Some(cursor) && cursor.target_version
                    != manifest.version {
                    SyncPhase::Discarding
                } else {
                    first_phase(batches, manifest.version)
                },
            }
        },
    }
}

/// How a sync goes on. A batch that cannot be read and a version that cannot be stored end it;
/// a cursor that cannot be saved or forgotten does not.
pub open spec fn sync_stepped(sync: StorageSyncView, event: SyncEvent) -> StorageSyncView {
    let phase = match (sync.phase, event) {
        (SyncPhase::Discarding, _) => first_phase(sync.batches, sync.version),
        (SyncPhase::Reading { place }, SyncEvent::Done) => SyncPhase::Checkpointing {
            place,
            cursor: checkpoint(sync.version, sync.batches[place as int].index),
        },
        (SyncPhase::Reading { place: _ }, SyncEvent::Failed) => SyncPhase::Failed,
        (SyncPhase::Checkpointing { place, cursor: _ }, _) => if place + 1 < sync.batches.len() {
            SyncPhase::Reading { place: (place + 1) as usize }
        } else {
            SyncPhase::Committing { version: sync.version }
        },
        (SyncPhase::Committing { version: _ }, SyncEvent::Done) => SyncPhase::Clearing,
        (SyncPhase::Committing { version: _ }, SyncEvent::Failed) => SyncPhase::Failed,
        (SyncPhase::Clearing, _) => SyncPhase::Finished,
        (SyncPhase::Finished, _) => SyncPhase::Finished,
        (SyncPhase::Failed, _) => SyncPhase::Failed,
    };
    StorageSyncView { phase, ..sync }
}

fn cut_batches(keys: &Vec<Vec<u8>>, from: usize) -> (batches: Vec<StorageBatch>)
    ensures
        batches.deep_view() == batches_from(keys.deep_view(), from as nat),
{
    broadcast use text::lemma_bytes_view;

    let mut batches: Vec<StorageBatch> = Vec::new();
    let ghost all = keys.deep_view();
    let ghost expected = batches_from(all, from as nat);
    proof {
        lemma_batch_start(from as nat);
    }
    if from > keys.len() / STORAGE_SERVICE_BATCH_SIZE {
        return batches;
    }
    let mut index: usize = from;
    let mut start: usize = from * STORAGE_SERVICE_BATCH_SIZE;
    proof {
        assert(batches.deep_view() + batches_from(all, index as nat) =~= expected);
    }
    while start < keys.len()
        invariant
            all == keys.deep_view(),
            expected == batches_from(all, from as nat),
            batches.deep_view() + batches_from(all, index as nat) == expected,
            start == index * STORAGE_SERVICE_BATCH_SIZE,
            start == 2500 * index,
        decreases keys@.len() - start,
    {
        let end: usize = if keys.len() - start > STORAGE_SERVICE_BATCH_SIZE {
            start + STORAGE_SERVICE_BATCH_SIZE
        } else {
            keys.len()
        };
        let mut batch: Vec<Vec<u8>> = Vec::new();
        let mut i: usize = start;
        proof {
            assert(batch.deep_view() =~= all.subrange(start as int, start as int));
        }
        while i < end
            invariant
                start <= i <= end <= keys@.len(),
                all == keys.deep_view(),
                batch.deep_view() == all.subrange(start as int, i as int),
            decreases end - i,
        {
            let key = keys[i].clone();
            let ghost before = batch.deep_view();
            batch.push(key);
            proof {
                assert(key.deep_view() =~= keys@[i as int].deep_view());
                assert(batch.deep_view() =~= before.push(all[i as int]));
                assert(all.subrange(start as int, i + 1) =~= all.subrange(
                    start as int,
                    i as int,
                ).push(all[i as int]));
            }
            i = i + 1;
        }
        let one = StorageBatch { index, keys: batch };
        let ghost before = batches.deep_view();
        batches.push(one);
        proof {
            assert(one.deep_view() == batch_at(all, index as int));
            assert(batches.deep_view() =~= before.push(one.deep_view()));
            let rest = batches_from(all, (index + 1) as nat);
            assert(before + (seq![one.deep_view()] + rest) =~= batches.deep_view() + rest);
        }
        proof {
            lemma_batch_start((index + 1) as nat);
        }
        if end == keys.len() {
            proof {
                assert(batches_from(all, (index + 1) as nat) =~= Seq::<
                    StorageBatchView,
                >::empty());
                assert(batches.deep_view() + Seq::<StorageBatchView>::empty()
                    =~= batches.deep_view());
            }
            return batches;
        }
        index = index + 1;
        start = end;
    }
    proof {
        assert(batches_from(all, index as nat) =~= Seq::<StorageBatchView>::empty());
        assert(batches.deep_view() + Seq::<StorageBatchView>::empty() =~= batches.deep_view());
    }
    batches
}

proof fn lemma_batches(keys: Seq<Seq<u8>>, from: nat)
    requires
        keys.len() <= usize::MAX,
    ensures
        batches_from(keys, from).len() <= keys.len(),
        forall|i: int|
            0 <= i < batches_from(keys, from).len() ==> {
                &&& (#[trigger] batches_from(keys, from)[i]).index == from + i
                &&& 2500 * (from + i) < keys.len()
            },
    decreases keys.len() - from,
{
    lemma_batch_start(from);
    if 2500 * from < keys.len() {
        let all = batches_from(keys, from);
        let rest = batches_from(keys, from + 1);
        lemma_batches(keys, from + 1);
        lemma_batch_start(from + 1);
        if rest.len() > 0 {
            assert(rest[rest.len() - 1].index == from + rest.len());
        }
        assert forall|i: int| 0 <= i < all.len() implies {
            &&& (#[trigger] all[i]).index == from + i
            &&& 2500 * (from + i) < keys.len()
        } by {
            if i > 0 {
                assert(all[i] == rest[i - 1]);
            }
        }
    }
}

/// Starts a sync: what it reads are the batches of contacts and groups, from where the last sync
/// of the same version stopped. A cursor of any other version is stale, and forgotten first.
/// `manifest` is what the server answered, `None` where its version is still `local_version`.
pub fn sync_storage_service(
    manifest: &Option<ManifestRecord>,
    local_version: u64,
    cursor: Option<StorageSyncCursor>,
) -> (sync: StorageSync)
    ensures
        sync.deep_view() == sync_started(manifest.deep_view(), local_version, cursor),
        sync.deep_view().wf(),
{
    broadcast use text::lemma_bytes_view;

    let manifest = match manifest {
        Some(manifest) => manifest,
        None => {
            let batches: Vec<StorageBatch> = Vec::new();
            assert(batches.deep_view() =~= Seq::<StorageBatchView>::empty());
            return StorageSync {
                version: local_version,
                record_ikm: None,
                batches,
                phase: SyncPhase::Clearing,
            };
        },
    };
    let mut keys = collect_keys(&manifest.identifiers, ItemType::Contact);
    let mut group_keys = collect_keys(&manifest.identifiers, ItemType::GroupV2);
    let ghost contacts = keys.deep_view();
    let ghost groups = group_keys.deep_view();
    keys.append(&mut group_keys);
    assert(keys.deep_view() =~= contacts + groups);
    let (resume_from, stale) = match cursor {
        Some(cursor) => if cursor.target_version == manifest.version {
            (cursor.next_batch_index as usize, false)
        } else {
            (0usize, true)
        },
        None => (0usize, false),
    };
    let record_ikm = if manifest.record_ikm.len() == 0 {
        None
    } else {
        let ikm = manifest.record_ikm.clone();
        assert(ikm.deep_view() =~= manifest.record_ikm.deep_view());
        Some(ikm)
    };
    let batches = cut_batches(&keys, resume_from);
    proof {
        assert(keys.deep_view().len() == keys.len());
        lemma_batches(keys.deep_view(), resume_from as nat);
        assert(batches.deep_view().len() == batches@.len());
    }
    let phase = if keys.len() == 0 {
        SyncPhase::Clearing
    } else if stale {
        SyncPhase::Discarding
    } else {
        start_reading(&batches, manifest.version)
    };
    StorageSync { version: manifest.version, record_ikm, batches, phase }
}

fn start_reading(batches: &Vec<StorageBatch>, version: u64) -> (phase: SyncPhase)
    ensures
        phase == first_phase(batches.deep_view(), version),
{
    if batches.len() == 0 {
        SyncPhase::Committing { version }
    } else {
        SyncPhase::Reading { place: 0 }
    }
}

impl StorageSync {
    /// What follows once what the sync was about to do is done, or has failed. After every batch
    /// comes its checkpoint; after the last one the version is stored and the cursor forgotten.
    pub fn step(&mut self, event: SyncEvent)
        requires
            old(self).deep_view().wf(),
        ensures
            final(self).deep_view() == sync_stepped(old(self).deep_view(), event),
            final(self).deep_view().wf(),
    {
        assert(self.deep_view().batches.len() == self.batches@.len());
        let phase = match (self.phase, event) {
            (SyncPhase::Discarding, _) => start_reading(&self.batches, self.version),
            (SyncPhase::Reading { place }, SyncEvent::Done) => {
                assert(self.deep_view().batches[place as int]
                    == self.batches@[place as int].deep_view());
                SyncPhase::Checkpointing {
                    place,
                    cursor: cursor_after(self.version, self.batches[place].index),
                }
            },
            (SyncPhase::Reading { place: _ }, SyncEvent::Failed) => SyncPhase::Failed,
            (SyncPhase::Checkpointing { place, cursor: _ }, _) => {
                if place + 1 < self.batches.len() {
                    SyncPhase::Reading { place: place + 1 }
                } else {
                    SyncPhase::Committing { version: self.version }
                }
            },
            (SyncPhase::Committing { version: _ }, SyncEvent::Done) => SyncPhase::Clearing,
            (SyncPhase::Committing { version: _ }, SyncEvent::Failed) => SyncPhase::Failed,
            (SyncPhase::Clearing, _) => SyncPhase::Finished,
            (SyncPhase::Finished, _) => SyncPhase::Finished,
            (SyncPhase::Failed, _) => SyncPhase::Failed,
        };
        self.phase = phase;
    }
}

/// The checkpoint after a batch: a sync of the same version resumes with the next one.
pub fn cursor_after(version: u64, index: usize) -> (cursor: StorageSyncCursor)
    requires
        index < usize::MAX,
    ensures
        cursor == checkpoint(version, index),
{
    StorageSyncCursor { target_version: version, next_batch_index: (index + 1) as u32 }
}

/// What the store knows of the account's manifest.
#[verifier::ext_equal]
pub struct SyncStoreView {
    pub version: u64,
    pub cursor: Option<StorageSyncCursor>,
}

/// The store after what a sync was about to do is done.
pub open spec fn performed(phase: SyncPhase, store: SyncStoreView) -> SyncStoreView {
    match phase {
        SyncPhase::Discarding => SyncStoreView { cursor: None, ..store },
        SyncPhase::Checkpointing { place: _, cursor } => SyncStoreView {
            cursor: Some(cursor),
            ..store
        },
        SyncPhase::Committing { version } => SyncStoreView { version, ..store },
        SyncPhase::Clearing => SyncStoreView { cursor: None, ..store },
        _ => store,
    }
}

/// The batches read by what a sync is about to do.
pub open spec fn read_now(sync: StorageSyncView) -> Seq<StorageBatchView> {
    match sync.phase {
        SyncPhase::Reading { place } => seq![sync.batches[place as int]],
        _ => Seq::empty(),
    }
}

/// How many steps a sync in which nothing fails still takes.
pub open spec fn sync_steps_left(sync: StorageSyncView) -> nat {
    match sync.phase {
        SyncPhase::Discarding => 2 * sync.batches.len() + 3,
        SyncPhase::Reading { place } => (2 * (sync.batches.len() - place) + 2) as nat,
        SyncPhase::Checkpointing { place, cursor: _ } => (2 * (sync.batches.len() - place)
            + 1) as nat,
        SyncPhase::Committing { version: _ } => 2,
        SyncPhase::Clearing => 1,
        _ => 0,
    }
}

/// Where a sync and the store are after `steps` steps that were all done, and what was read on
/// the way.
pub open spec fn progressed(sync: StorageSyncView, store: SyncStoreView, steps: nat) -> (
    StorageSyncView,
    SyncStoreView,
    Seq<StorageBatchView>,
)
    decreases steps,
{
    if steps == 0 {
        (sync, store, Seq::empty())
    } else {
        let (sync, store, read) = progressed(sync, store, (steps - 1) as nat);
        (sync_stepped(sync, SyncEvent::Done), performed(sync.phase, store), read + read_now(sync))
    }
}

/// What holds at every step of a sync of a changed manifest, in which nothing has failed yet.
pub open spec fn on_the_way(
    start: StorageSyncView,
    was: SyncStoreView,
    sync: StorageSyncView,
    store: SyncStoreView,
    read: Seq<StorageBatchView>,
) -> bool {
    &&& sync.wf()
    &&& sync == (StorageSyncView { phase: sync.phase, ..start })
    &&& match sync.phase {
        SyncPhase::Discarding => {
            &&& read.len() == 0
            &&& store == was
            &&& was.cursor matches Some(cursor) && cursor.target_version != sync.version
        },
        SyncPhase::Reading { place } => {
            &&& read == sync.batches.take(place as int)
            &&& store.version == was.version
            &&& place > 0 ==> store.cursor == Some(
                checkpoint(sync.version, sync.batches[place - 1].index),
            )
            &&& place == 0 ==> resume_index(store.cursor, sync.version) == resume_index(
                was.cursor,
                sync.version,
            )
        },
        SyncPhase::Checkpointing { place, cursor } => {
            &&& read == sync.batches.take(place + 1)
            &&& store.version == was.version
            &&& cursor == checkpoint(sync.version, sync.batches[place as int].index)
        },
        SyncPhase::Committing { version } => {
            &&& read == sync.batches
            &&& store.version == was.version
            &&& version == sync.version
        },
        SyncPhase::Clearing => read == sync.batches && store.version == sync.version,
        SyncPhase::Finished => {
            &&& read == sync.batches
            &&& store == (SyncStoreView { version: sync.version, cursor: None })
        },
        SyncPhase::Failed => false,
    }
}

proof fn lemma_on_the_way(start: StorageSyncView, was: SyncStoreView, steps: nat)
    requires
        on_the_way(start, was, start, was, Seq::empty()),
    ensures
        ({
            let (sync, store, read) = progressed(start, was, steps);
            &&& on_the_way(start, was, sync, store, read)
            &&& sync_steps_left(sync) == if steps < sync_steps_left(start) {
                (sync_steps_left(start) - steps) as nat
            } else {
                0
            }
        }),
    decreases steps,
{
    if steps > 0 {
        let (sync, store, read) = progressed(start, was, (steps - 1) as nat);
        lemma_on_the_way(start, was, (steps - 1) as nat);
        let now = read + read_now(sync);
        match sync.phase {
            SyncPhase::Discarding => {
                assert(now =~= sync.batches.take(0));
                if sync.batches.len() == 0 {
                    assert(now =~= sync.batches);
                }
            },
            SyncPhase::Reading { place } => {
                assert(now =~= sync.batches.take(place + 1));
            },
            SyncPhase::Checkpointing { place, cursor: _ } => {
                assert(now =~= read);
                if place + 1 == sync.batches.len() {
                    assert(now =~= sync.batches);
                }
            },
            _ => {
                assert(now =~= read);
            },
        }
    }
}

proof fn lemma_starts_on_the_way(
    manifest: ManifestRecordView,
    local_version: u64,
    store: SyncStoreView,
)
    requires
        0 < keys_to_read(manifest.identifiers).len() <= usize::MAX,
    ensures
        ({
            let start = sync_started(Some(manifest), local_version, store.cursor);
            on_the_way(start, store, start, store, Seq::empty())
        }),
{
    let start = sync_started(Some(manifest), local_version, store.cursor);
    lemma_batches(
        keys_to_read(manifest.identifiers),
        resume_index(store.cursor, manifest.version),
    );
    assert(start.batches.take(0) =~= Seq::<StorageBatchView>::empty());
    if start.batches.len() == 0 {
        assert(start.batches =~= Seq::<StorageBatchView>::empty());
    }
}

/// A sync in which nothing fails ends: every batch from where the last sync of the same version
/// stopped has been read, once and in order; the version of the manifest is stored, and the
/// cursor is gone.
pub proof fn law_sync_completes(
    manifest: ManifestRecordView,
    local_version: u64,
    store: SyncStoreView,
)
    requires
        0 < keys_to_read(manifest.identifiers).len() <= usize::MAX,
    ensures
        ({
            let start = sync_started(Some(manifest), local_version, store.cursor);
            let (sync, after, read) = progressed(start, store, sync_steps_left(start));
            &&& sync.phase == SyncPhase::Finished
            &&& read == batches_from(
                keys_to_read(manifest.identifiers),
                resume_index(store.cursor, manifest.version),
            )
            &&& after == (SyncStoreView { version: manifest.version, cursor: None })
        }),
{
    let start = sync_started(Some(manifest), local_version, store.cursor);
    lemma_starts_on_the_way(manifest, local_version, store);
    lemma_on_the_way(start, store, sync_steps_left(start));
}

/// Where there is nothing to read, because the manifest has not changed or lists neither
/// contacts nor groups, a sync only forgets the cursor: the stored version stays.
pub proof fn law_sync_of_nothing(
    manifest: Option<ManifestRecordView>,
    local_version: u64,
    store: SyncStoreView,
)
    requires
        manifest matches Some(manifest) ==> keys_to_read(manifest.identifiers).len() == 0,
    ensures
        ({
            let start = sync_started(manifest, local_version, store.cursor);
            let (sync, after, read) = progressed(start, store, 1);
            &&& start.phase == SyncPhase::Clearing
            &&& sync.phase == SyncPhase::Finished
            &&& read.len() == 0
            &&& after == (SyncStoreView { cursor: None, ..store })
        }),
{
    let start = sync_started(manifest, local_version, store.cursor);
    reveal_with_fuel(progressed, 2);
    assert(progressed(start, store, 0).2 + read_now(start) =~= Seq::<StorageBatchView>::empty());
}

/// A sync that stops before a batch is read leaves the store so that the next sync of the same
/// version starts with that batch, and the stored version is the one from before.
pub proof fn law_interrupted_sync_resumes(
    manifest: ManifestRecordView,
    local_version: u64,
    store: SyncStoreView,
    steps: nat,
)
    requires
        0 < keys_to_read(manifest.identifiers).len() <= usize::MAX,
        keys_to_read(manifest.identifiers).len() <= 2500 * u32::MAX,
        progressed(
            sync_started(Some(manifest), local_version, store.cursor),
            store,
            steps,
        ).0.phase is Reading,
    ensures
        ({
            let start = sync_started(Some(manifest), local_version, store.cursor);
            let (sync, after, read) = progressed(start, store, steps);
            let again = sync_started(Some(manifest), local_version, after.cursor);
            let keys = keys_to_read(manifest.identifiers);
            &&& sync_stepped(sync, SyncEvent::Failed).phase == SyncPhase::Failed
            &&& after.version == store.version
            &&& read + again.batches == batches_from(
                keys,
                resume_index(store.cursor, manifest.version),
            )
        }),
{
    let start = sync_started(Some(manifest), local_version, store.cursor);
    let (sync, after, read) = progressed(start, store, steps);
    let keys = keys_to_read(manifest.identifiers);
    let from = resume_index(store.cursor, manifest.version);
    lemma_starts_on_the_way(manifest, local_version, store);
    lemma_on_the_way(start, store, steps);
    lemma_batches(keys, from);
    let place = sync.phase->Reading_place;
    let next = resume_index(after.cursor, manifest.version);
    assert(start.batches[place as int].index == from + place);
    if place > 0 {
        assert(start.batches[place - 1].index == from + place - 1);
    }
    assert(next == from + place);
    lemma_batches_split(keys, from, place as nat);
}

proof fn lemma_batches_split(keys: Seq<Seq<u8>>, from: nat, count: nat)
    requires
        keys.len() <= usize::MAX,
        count <= batches_from(keys, from).len(),
    ensures
        batches_from(keys, from) == batches_from(keys, from).take(count as int) + batches_from(
            keys,
            from + count,
        ),
    decreases count,
{
    let all = batches_from(keys, from);
    if count == 0 {
        assert(all =~= all.take(0) + all);
    } else {
        let before = (count - 1) as nat;
        lemma_batches_split(keys, from, before);
        lemma_batches(keys, from);
        let here = batches_from(keys, from + before);
        assert(here.len() > 0);
        let rest = batches_from(keys, from + count);
        assert(here =~= seq![here[0]] + rest);
        assert(all[before as int] == here[0]);
        assert(all =~= all.take(count as int) + rest);
    }
}

/// The keys of all batches, one after the other.
pub open spec fn keys_in(batches: Seq<StorageBatchView>) -> Seq<Seq<u8>>
    decreases batches.len(),
{
    if batches.len() == 0 {
        Seq::empty()
    } else {
        batches[0].keys + keys_in(batches.skip(1))
    }
}

/// A sync reads every key from its starting point on, once, and in order; and from the first
/// batch on, every key there is.
pub proof fn law_sync_reads_every_key(keys: Seq<Seq<u8>>, index: nat)
    requires
        index * STORAGE_SERVICE_BATCH_SIZE <= keys.len(),
    ensures
        keys_in(batches_from(keys, index)) == keys.skip(
            (index * STORAGE_SERVICE_BATCH_SIZE) as int,
        ),
    decreases keys.len() - index * STORAGE_SERVICE_BATCH_SIZE,
{
    let start = (index * STORAGE_SERVICE_BATCH_SIZE) as int;
    if start >= keys.len() {
        assert(keys.skip(start) =~= Seq::<Seq<u8>>::empty());
    } else {
        let rest = batches_from(keys, index + 1);
        let all = batches_from(keys, index);
        assert(all.skip(1) =~= rest);
        let end = start + STORAGE_SERVICE_BATCH_SIZE;
        if end <= keys.len() {
            law_sync_reads_every_key(keys, index + 1);
            assert(keys.subrange(start, end) + keys.skip(end) =~= keys.skip(start));
            assert(batch_at(keys, index as int).keys =~= keys.subrange(start, end));
        } else {
            assert(rest =~= Seq::<StorageBatchView>::empty());
            assert(batch_at(keys, index as int).keys =~= keys.skip(start));
            assert(keys_in(rest) =~= Seq::<Seq<u8>>::empty());
            assert(keys.skip(start) + Seq::<Seq<u8>>::empty() =~= keys.skip(start));
        }
    }
}

/// Resuming skips nothing and repeats nothing: a sync that resumes where a checkpoint was made
/// reads what an uninterrupted one would have read after it.
pub proof fn law_resume_continues(keys: Seq<Seq<u8>>, done: nat)
    requires
        done * STORAGE_SERVICE_BATCH_SIZE <= keys.len(),
    ensures
        batches_from(keys, 0).len() >= done,
        batches_from(keys, 0).skip(done as int) == batches_from(keys, done),
    decreases done,
{
    if done == 0 {
        assert(batches_from(keys, 0).skip(0) =~= batches_from(keys, 0));
    } else {
        let before = (done - 1) as nat;
        assert(before * STORAGE_SERVICE_BATCH_SIZE <= keys.len());
        law_resume_continues(keys, before);
        let all = batches_from(keys, 0);
        let here = batches_from(keys, before);
        assert(before * STORAGE_SERVICE_BATCH_SIZE < keys.len());
        assert(here.skip(1) =~= batches_from(keys, done));
        assert(all.skip(before as int).skip(1) =~= all.skip(done as int));
    }
}

/// A contact read from the storage service, merged with what is stored of it, and the profile
/// key to remember for it. `contact` is the record's contact, `existing` what the store has.
pub fn merge_synced_contact(
    contact: Contact,
    existing: Option<Contact>,
    has_pending_publish: bool,
) -> (r: (Contact, Option<ProfileKey>))
    ensures
        r.0.deep_view() == (match existing.deep_view() {
            Some(existing) => merged_contact(contact.deep_view(), existing, has_pending_publish),
            None => contact.deep_view(),
        }),
        r.1.deep_view() == profile::profile_key_bytes(r.0.deep_view().profile_key),
{
    let mut contact = contact;
    if let Some(existing) = existing {
        let _ = merge_contact_from_snapshot(&mut contact, existing, has_pending_publish);
    }
    let key = contacts::contact_profile_key(&contact);
    (contact, key)
}

/// The storage-service flags of a record on a group.
pub open spec fn with_record_flags(group: GroupView, record: GroupV2RecordView) -> GroupView {
    GroupView {
        blocked: record.blocked,
        whitelisted: record.whitelisted,
        archived: record.archived,
        marked_unread: record.marked_unread,
        muted_until_timestamp: record.muted_until_timestamp,
        dont_notify_for_mentions_if_muted: record.dont_notify_for_mentions_if_muted,
        hide_story: record.hide_story,
        story_send_mode: record.story_send_mode as i64,
        ..group
    }
}

/// A group of which only the master key is known.
pub open spec fn group_stub() -> GroupView {
    GroupView { needs_hydration: true, ..GroupView::empty() }
}

/// The master key in a group's record, `None` where it does not have thirty-two bytes.
pub fn record_master_key(record: &GroupV2Record) -> (key: Option<[u8; 32]>)
    ensures
        match key {
            Some(key) => key@ == record.deep_view().master_key,
            None => record.deep_view().master_key.len() != 32,
        },
{
    broadcast use text::lemma_bytes_view;

    service_id::thirty_two(record.master_key.as_slice())
}

/// The group to save for a record: what is stored, or a stub, with the flags of the record.
pub fn merge_synced_group(record: &GroupV2Record, existing: Option<Group>) -> (group: Group)
    ensures
        group.deep_view() == with_record_flags(
            match existing.deep_view() {
                Some(existing) => existing,
                None => group_stub(),
            },
            record.deep_view(),
        ),
{
    let mut group = match existing {
        Some(existing) => existing,
        None => {
            let stub = Group { needs_hydration: true, ..Group::default() };
            assert(stub.deep_view() =~= group_stub());
            stub
        },
    };
    group.blocked = record.blocked;
    group.whitelisted = record.whitelisted;
    group.archived = record.archived;
    group.marked_unread = record.marked_unread;
    group.muted_until_timestamp = record.muted_until_timestamp;
    group.dont_notify_for_mentions_if_muted = record.dont_notify_for_mentions_if_muted;
    group.hide_story = record.hide_story;
    group.story_send_mode = record.story_send_mode as i64;
    group
}

/// What a sync does with a record that it read at `version`.
pub open spec fn step_of(
    item: StorageItemView,
    version: u64,
    phone_number: Option<contacts::PhoneNumberView>,
) -> SyncStepView {
    match item.record {
        SyncedRecordView::Contact(record) => match contacts::contact_of_record(
            record,
            phone_number,
        ) {
            Some(contact) => SyncStepView::Contact {
                service_id: ServiceIdView::Aci(contact.uuid),
                contact,
                identity: ContactStorageIdentityView {
                    storage_id: item.key,
                    storage_version: version,
                    record: item.plaintext,
                },
            },
            None => SyncStepView::Skip,
        },
        SyncedRecordView::GroupV2(record) => if record.master_key.len() == 32 {
            SyncStepView::Group { master_key: record.master_key, record }
        } else {
            SyncStepView::Skip
        },
        SyncedRecordView::Other => SyncStepView::Skip,
        SyncedRecordView::Empty => SyncStepView::Skip,
    }
}

/// What a sync does with a record that it read at `version`. `phone_number` is what the
/// record's `e164` reads as.
///
/// The plaintext is remembered as read: an update edits these bytes rather than re-encoding a
/// lossy [`Contact`].
pub fn read_storage_item(
    item: StorageItem,
    version: u64,
    phone_number: Option<PhoneNumber>,
) -> (step: SyncStep)
    ensures
        step.deep_view() == step_of(item.deep_view(), version, phone_number.deep_view()),
{
    match item.record {
        SyncedRecord::Contact(record) => match Contact::try_from_record(record, phone_number) {
            Ok(contact) => SyncStep::Contact {
                service_id: ServiceId::Aci(Aci::from(contact.uuid)),
                contact,
                identity: ContactStorageIdentity {
                    storage_id: item.key,
                    storage_version: version,
                    record: item.plaintext,
                },
            },
            Err(_) => SyncStep::Skip,
        },
        SyncedRecord::GroupV2(record) => match record_master_key(&record) {
            Some(master_key) => SyncStep::Group { master_key, record },
            None => SyncStep::Skip,
        },
        SyncedRecord::Other => SyncStep::Skip,
        SyncedRecord::Empty => SyncStep::Skip,
    }
}

/// What a publish of a marked contact does.
#[derive(Debug, Clone, Copy, PartialEq, Eq, Structural)]
pub enum PublishStep {
    /// Unmark it: it is gone, and leaving the mark would make every publish try again.
    Unmark,
    /// Edit its record, or append a first one where the account holds none.
    Publish { blocked: bool },
}

/// What a publish of a marked contact does.
pub fn publish_step(contact: &Option<Contact>) -> (step: PublishStep)
    ensures
        step == (match contact.deep_view() {
            Some(contact) => PublishStep::Publish { blocked: contact.blocked },
            None => PublishStep::Unmark,
        }),
{
    match contact {
        Some(contact) => PublishStep::Publish { blocked: contact.blocked },
        None => PublishStep::Unmark,
    }
}

/// A group's own record, read back, changes no flag of it: what was published is what a sync
/// gives. The send mode for stories is one of a few small numbers.
pub proof fn law_group_record_round_trip(group: GroupView, master_key: Seq<u8>)
    requires
        i32::MIN <= group.story_send_mode <= i32::MAX,
    ensures
        with_record_flags(group, crate::model::groups::new_group_record(group, master_key))
            == group,
{
    assert(with_record_flags(group, crate::model::groups::new_group_record(group, master_key))
        =~= group);
}

} // verus!

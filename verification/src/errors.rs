//! What can go wrong.
use vstd::prelude::*;

use crate::storage_record::StorageRecordEditError;
use crate::store::ThreadError;

verus! {

/// Why the manager refused or gave up. What goes wrong outside the library (transport, store,
/// cryptography) is its caller's to report.
#[derive(Debug, Clone, Copy, PartialEq, Eq, Structural)]
pub enum Error {
    /// The message names no valid thread.
    InvalidThread(ThreadError),
    /// Another device kept winning the race to write the storage manifest. Distinct from a
    /// transport failure: the write was well-formed, there just never was a turn.
    StorageManifestConflict,
    /// The identifier that a record was believed to live under is no longer in the manifest:
    /// another device rewrote that record under a new identifier. Recoverable by re-syncing
    /// and rebuilding the edit from what comes back.
    StorageRecordMoved,
    /// The contact's storage record was never read, so there is nothing to edit.
    StorageRecordUnknown,
    /// The stored storage record could not be edited.
    StorageRecordEdit(StorageRecordEditError),
    /// This client is not yet registered.
    NotYetRegisteredError,
    /// The client has to be linked again.
    RelinkNecessary,
    /// The master key is missing.
    MissingMasterKey,
    /// The group is not known.
    UnknownGroup,
    /// The checksum of an attachment did not match.
    UnexpectedAttachmentChecksum,
    /// The key of an attachment does not have sixty-four bytes.
    InvalidAttachmentKey,
    /// The operation needs the primary device.
    NotPrimaryDevice,
    /// The device id is out of bounds.
    InvalidDeviceId,
    /// The primary device asked for a new link during the transfer of a backup.
    BackupRelinkRequested,
    /// The name of a chat folder is empty or too long.
    ChatFolderInvalidName,
    /// The chat folder is not known.
    ChatFolderUnknown,
    /// The chat folder cannot be deleted.
    ChatFolderUndeletable,
}

} // verus!

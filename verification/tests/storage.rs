use presage::errors::Error;
use presage::manager::storage::{
    append_outcome, append_storage_record, changed_while_publishing, cursor_after,
    manifest_write_backoff, merge_synced_group, publish_step, push_contact_record,
    read_storage_item, storage_manifest_written, sync_storage_service,
    write_replacing_storage_record, AppendStep, ContactStorageIdentity, PublishStep, StorageItem,
    StorageSync, SyncEvent, SyncPhase, SyncStep, SyncedRecord, UpdateEvent, UpdatePhase,
    UpdateState, WriteOutcome, MAX_PASSES,
};
use presage::model::contacts::Contact;
use presage::model::groups::Group;
use presage::proto::{
    ContactRecord, FetchLatestType, GroupV2Record, Identifier, ItemType, ManifestRecord,
};
use presage::service_id::{ServiceId, Uuid};
use presage::storage_record::{
    contact_blocked, encode_len_delimited, StorageRecordEditError, STORAGE_RECORD_CONTACT,
};
use presage::store::StorageSyncCursor;

fn uuid(n: u128) -> Uuid {
    Uuid::from_bytes(n.to_be_bytes())
}

fn id(raw: u8, kind: ItemType) -> Identifier {
    Identifier {
        raw: vec![raw],
        kind,
    }
}

fn manifest() -> ManifestRecord {
    ManifestRecord {
        version: 7,
        source_device: 1,
        identifiers: vec![
            id(1, ItemType::GroupV2),
            id(2, ItemType::Account),
            id(3, ItemType::Contact),
            id(4, ItemType::Other(12)),
        ],
        record_ikm: vec![9],
    }
}

#[test]
fn an_append_carries_everything_else_through() {
    let current = manifest();
    let after = append_storage_record(&current, 2, ItemType::GroupV2, vec![5]);
    assert_eq!(after.version, 8);
    assert_eq!(after.source_device, 2);
    assert_eq!(after.record_ikm, [9]);
    assert_eq!(after.identifiers[..4], current.identifiers[..]);
    assert_eq!(after.identifiers[4], id(5, ItemType::GroupV2));
}

#[test]
fn an_append_backs_off_twice_and_then_gives_up() {
    assert_eq!(append_outcome(1, WriteOutcome::Written), AppendStep::Finish);
    assert_eq!(
        append_outcome(1, WriteOutcome::Conflict),
        AppendStep::Retry { seconds: 1 }
    );
    assert_eq!(
        append_outcome(2, WriteOutcome::Conflict),
        AppendStep::Retry { seconds: 4 }
    );
    assert_eq!(append_outcome(3, WriteOutcome::Conflict), AppendStep::GiveUp);
    assert_eq!(manifest_write_backoff(0), None);
}

#[test]
fn a_replacement_stands_where_the_old_record_stood() {
    let current = manifest();
    let after =
        write_replacing_storage_record(&current, 2, ItemType::Contact, &vec![3], &vec![6]).unwrap();
    assert_eq!(after.version, 8);
    assert_eq!(after.record_ikm, [9]);
    assert_eq!(after.identifiers.len(), 4);
    assert_eq!(after.identifiers[2], id(6, ItemType::Contact));
    assert_eq!(after.identifiers[..2], current.identifiers[..2]);
    assert_eq!(after.identifiers[3], current.identifiers[3]);
}

#[test]
fn a_replacement_needs_a_fresh_identifier() {
    let replace = |old: u8, new: u8| {
        write_replacing_storage_record(&manifest(), 2, ItemType::Contact, &vec![old], &vec![new])
    };
    assert_eq!(replace(3, 3), Err(Error::StorageManifestConflict));
    assert_eq!(replace(3, 4), Err(Error::StorageManifestConflict));
    // A conflict is noticed even where the record has moved too.
    assert_eq!(replace(99, 4), Err(Error::StorageManifestConflict));
    assert_eq!(replace(99, 6), Err(Error::StorageRecordMoved));
}

#[test]
fn a_record_that_occurs_twice_has_moved() {
    let mut current = manifest();
    current.identifiers.push(id(3, ItemType::Contact));
    assert_eq!(
        write_replacing_storage_record(&current, 2, ItemType::Contact, &vec![3], &vec![6]),
        Err(Error::StorageRecordMoved)
    );
}

fn identity() -> ContactStorageIdentity {
    ContactStorageIdentity {
        storage_id: vec![3],
        storage_version: 5,
        record: vec![1],
    }
}

fn caught_up(state: UpdateState, version: u64) -> UpdateState {
    state.update_storage_record(UpdateEvent::Versions {
        local: version,
        remote: version,
    })
}

/// Steps an update on to where it writes.
fn to_write(state: UpdateState) -> UpdateState {
    caught_up(state, 7)
        .update_storage_record(UpdateEvent::Identity {
            identity: Some(identity()),
        })
        .update_storage_record(UpdateEvent::Edited {
            record: Some(vec![2]),
        })
}

#[test]
fn an_update_writes_and_remembers_the_next_version() {
    let state = UpdateState::start();
    assert_eq!(state.phase, UpdatePhase::Marking);
    let state = state.update_storage_record(UpdateEvent::Done);
    assert_eq!(state.phase, UpdatePhase::Comparing);
    let state = to_write(state);
    assert_eq!(
        state.phase,
        UpdatePhase::Writing {
            version: 7,
            storage_id: vec![3],
            record: vec![2]
        }
    );
    let state = state.update_storage_record(UpdateEvent::Written {
        storage_id: vec![8],
    });
    assert_eq!(
        state.phase,
        UpdatePhase::Committing {
            version: 8,
            identity: ContactStorageIdentity {
                storage_id: vec![8],
                storage_version: 8,
                record: vec![2]
            }
        }
    );
    let state = state.update_storage_record(UpdateEvent::Done);
    assert_eq!(state.phase, UpdatePhase::Finished);
}

#[test]
fn an_update_syncs_before_it_writes() {
    let state = UpdateState::start().update_storage_record(UpdateEvent::Done);
    let state = state.update_storage_record(UpdateEvent::Versions {
        local: 6,
        remote: 7,
    });
    assert_eq!(state.phase, UpdatePhase::Syncing);
    let state = state.update_storage_record(UpdateEvent::Done);
    assert_eq!(state.phase, UpdatePhase::Comparing);
    assert_eq!(state.passes, 2);
}

#[test]
fn an_update_that_changes_nothing_unmarks_without_writing() {
    let state = UpdateState::start().update_storage_record(UpdateEvent::Done);
    let state = caught_up(state, 7)
        .update_storage_record(UpdateEvent::Identity {
            identity: Some(identity()),
        })
        .update_storage_record(UpdateEvent::Edited { record: None });
    assert_eq!(state.phase, UpdatePhase::Unmarking);
    assert_eq!(
        state.update_storage_record(UpdateEvent::Done).phase,
        UpdatePhase::Finished
    );
}

#[test]
fn an_update_of_an_unknown_or_broken_record_fails() {
    let state = UpdateState::start().update_storage_record(UpdateEvent::Done);
    let unknown =
        caught_up(state.clone(), 7).update_storage_record(UpdateEvent::Identity { identity: None });
    assert_eq!(
        unknown.phase,
        UpdatePhase::Failed {
            error: Error::StorageRecordUnknown
        }
    );
    let broken = caught_up(state, 7)
        .update_storage_record(UpdateEvent::Identity {
            identity: Some(identity()),
        })
        .update_storage_record(UpdateEvent::EditFailed {
            error: StorageRecordEditError::Malformed,
        });
    assert_eq!(
        broken.phase,
        UpdatePhase::Failed {
            error: Error::StorageRecordEdit(StorageRecordEditError::Malformed)
        }
    );
}

#[test]
fn an_update_gives_up_after_three_conflicts() {
    let mut state = UpdateState::start().update_storage_record(UpdateEvent::Done);
    for seconds in [1, 4] {
        state = to_write(state).update_storage_record(UpdateEvent::Conflict);
        assert_eq!(state.phase, UpdatePhase::Waiting { seconds });
        state = state.update_storage_record(UpdateEvent::Done);
    }
    state = to_write(state).update_storage_record(UpdateEvent::Conflict);
    assert_eq!(
        state.phase,
        UpdatePhase::Failed {
            error: Error::StorageManifestConflict
        }
    );
}

#[test]
fn an_update_gives_up_when_it_never_catches_up() {
    let mut state = UpdateState::start().update_storage_record(UpdateEvent::Done);
    for pass in 1..=MAX_PASSES {
        assert_eq!(state.passes, pass);
        assert_eq!(state.phase, UpdatePhase::Comparing);
        state = state
            .update_storage_record(UpdateEvent::Versions {
                local: 1,
                remote: 2,
            })
            .update_storage_record(UpdateEvent::Done);
    }
    assert_eq!(
        state.phase,
        UpdatePhase::Failed {
            error: Error::StorageManifestConflict
        }
    );
    // Nothing revives it.
    assert_eq!(
        state
            .clone()
            .update_storage_record(UpdateEvent::Written { storage_id: vec![] }),
        state
    );
}

#[test]
fn a_publish_edits_only_what_disagrees() {
    let record = encode_len_delimited(STORAGE_RECORD_CONTACT, b"");
    assert_eq!(push_contact_record(&record, false), Ok(None));
    let edited = push_contact_record(&record, true).unwrap().unwrap();
    assert!(contact_blocked(&edited).unwrap());
    assert_eq!(push_contact_record(&edited, true), Ok(None));
    assert_eq!(
        push_contact_record(&vec![], true),
        Err(StorageRecordEditError::WrongRecordType)
    );
}

#[test]
fn a_contact_that_changed_meanwhile_is_marked_again() {
    let mut contact = Contact::minimal(uuid(1));
    assert_eq!(publish_step(&None), PublishStep::Unmark);
    assert_eq!(
        publish_step(&Some(contact.clone())),
        PublishStep::Publish { blocked: false }
    );
    contact.blocked = true;
    assert!(changed_while_publishing(&Some(contact.clone()), false));
    assert!(!changed_while_publishing(&Some(contact), true));
    assert!(!changed_while_publishing(&None, true));
}

#[test]
fn the_other_devices_are_told_to_fetch() {
    let message = storage_manifest_written(vec![1]);
    assert_eq!(message.fetch_latest, Some(FetchLatestType::StorageManifest));
    assert_eq!(message.padding, Some(vec![1]));
    assert!(message.keys.is_none());
}

#[test]
fn a_sync_reads_contacts_and_then_groups() {
    let sync = sync_storage_service(&Some(manifest()), 6, None);
    assert_eq!(sync.version, 7);
    assert_eq!(sync.record_ikm, Some(vec![9]));
    assert_eq!(sync.phase, SyncPhase::Reading { place: 0 });
    assert_eq!(sync.batches.len(), 1);
    assert_eq!(sync.batches[0].index, 0);
    assert_eq!(sync.batches[0].keys, [vec![3], vec![1]]);
}

#[test]
fn a_sync_of_nothing_clears_the_cursor() {
    let mut empty = manifest();
    empty.identifiers = vec![id(2, ItemType::Account)];
    let left_over = cursor_after(7, 0);
    for (manifest, version) in [(Some(empty), 7), (None, 6)] {
        for cursor in [None, Some(left_over)] {
            let mut sync = sync_storage_service(&manifest, 6, cursor);
            assert_eq!(sync.version, version);
            assert!(sync.batches.is_empty());
            assert_eq!(sync.phase, SyncPhase::Clearing);
            sync.step(SyncEvent::Done);
            assert_eq!(sync.phase, SyncPhase::Finished);
        }
    }
}

fn phases(sync: &mut StorageSync) -> Vec<SyncPhase> {
    let mut phases = Vec::new();
    while sync.phase != SyncPhase::Finished {
        phases.push(sync.phase);
        sync.step(SyncEvent::Done);
    }
    phases
}

#[test]
fn a_sync_checkpoints_every_batch_and_then_commits() {
    let mut sync = sync_storage_service(&Some(many(2501)), 6, Some(cursor_after(6, 4)));
    assert_eq!(
        phases(&mut sync),
        [
            SyncPhase::Discarding,
            SyncPhase::Reading { place: 0 },
            SyncPhase::Checkpointing { place: 0, cursor: cursor_after(7, 0) },
            SyncPhase::Reading { place: 1 },
            SyncPhase::Checkpointing { place: 1, cursor: cursor_after(7, 1) },
            SyncPhase::Committing { version: 7 },
            SyncPhase::Clearing,
        ]
    );
    let mut resumed = sync_storage_service(&Some(many(2501)), 6, Some(cursor_after(7, 0)));
    assert_eq!(
        phases(&mut resumed),
        [
            SyncPhase::Reading { place: 0 },
            SyncPhase::Checkpointing { place: 0, cursor: cursor_after(7, 1) },
            SyncPhase::Committing { version: 7 },
            SyncPhase::Clearing,
        ]
    );
}

#[test]
fn a_sync_that_cannot_read_or_commit_stops() {
    let mut sync = sync_storage_service(&Some(many(1)), 6, None);
    sync.step(SyncEvent::Failed);
    assert_eq!(sync.phase, SyncPhase::Failed);

    let mut sync = sync_storage_service(&Some(many(1)), 6, Some(cursor_after(5, 0)));
    // A cursor that cannot be forgotten or saved does not matter.
    sync.step(SyncEvent::Failed);
    assert_eq!(sync.phase, SyncPhase::Reading { place: 0 });
    sync.step(SyncEvent::Done);
    sync.step(SyncEvent::Failed);
    assert_eq!(sync.phase, SyncPhase::Committing { version: 7 });
    let mut unstored = sync_storage_service(&Some(many(1)), 6, Some(cursor_after(7, 0)));
    assert_eq!(unstored.phase, SyncPhase::Committing { version: 7 });
    unstored.step(SyncEvent::Failed);
    assert_eq!(unstored.phase, SyncPhase::Failed);
    sync.step(SyncEvent::Done);
    sync.step(SyncEvent::Failed);
    assert_eq!(sync.phase, SyncPhase::Finished);
}

fn many(count: u32) -> ManifestRecord {
    ManifestRecord {
        version: 7,
        source_device: 1,
        identifiers: (0..count)
            .map(|i| Identifier {
                raw: i.to_be_bytes().to_vec(),
                kind: ItemType::Contact,
            })
            .collect(),
        record_ikm: vec![],
    }
}

#[test]
fn a_sync_resumes_where_it_stopped() {
    let sync = |count, cursor| sync_storage_service(&Some(many(count)), 6, cursor);
    let whole = sync(5001, None);
    assert_eq!(whole.record_ikm, None);
    let sizes: Vec<usize> = whole.batches.iter().map(|b| b.keys.len()).collect();
    assert_eq!(sizes, [2500, 2500, 1]);

    let cursor = cursor_after(7, 0);
    assert_eq!(
        cursor,
        StorageSyncCursor {
            target_version: 7,
            next_batch_index: 1
        }
    );
    assert_eq!(sync(5001, Some(cursor)).batches, whole.batches[1..]);

    let restarted = sync(5001, Some(cursor_after(6, 0)));
    assert_eq!(restarted.phase, SyncPhase::Discarding);
    assert_eq!(restarted.batches, whole.batches);

    let done = sync(5001, Some(cursor_after(7, 2)));
    assert!(done.batches.is_empty());
    assert_eq!(done.phase, SyncPhase::Committing { version: 7 });
    let beyond = StorageSyncCursor {
        target_version: 7,
        next_batch_index: u32::MAX,
    };
    assert!(sync(5000, Some(beyond)).batches.is_empty());
    assert_eq!(sync(5000, None).batches.len(), 2);
}

fn item(record: SyncedRecord) -> StorageItem {
    StorageItem {
        key: vec![3],
        plaintext: vec![4],
        record,
    }
}

#[test]
fn a_contact_record_becomes_a_contact_and_its_place() {
    let record = ContactRecord {
        aci_binary: uuid(1).to_vec(),
        given_name: "Ada".into(),
        family_name: "Lovelace".into(),
        ..ContactRecord::default()
    };
    match read_storage_item(item(SyncedRecord::Contact(record)), 7, None) {
        SyncStep::Contact {
            service_id,
            contact,
            identity,
        } => {
            assert_eq!(service_id, ServiceId::Aci(uuid(1).into()));
            assert_eq!(contact.name, "Ada Lovelace");
            assert_eq!(
                identity,
                ContactStorageIdentity {
                    storage_id: vec![3],
                    storage_version: 7,
                    record: vec![4]
                }
            );
        }
        other => panic!("expected a contact, got {other:?}"),
    }
}

#[test]
fn broken_and_other_records_are_skipped() {
    let nobody = ContactRecord::default();
    assert_eq!(
        read_storage_item(item(SyncedRecord::Contact(nobody)), 7, None),
        SyncStep::Skip
    );
    let keyless = GroupV2Record::default();
    assert_eq!(
        read_storage_item(item(SyncedRecord::GroupV2(keyless)), 7, None),
        SyncStep::Skip
    );
    assert_eq!(
        read_storage_item(item(SyncedRecord::Other), 7, None),
        SyncStep::Skip
    );
    assert_eq!(
        read_storage_item(item(SyncedRecord::Empty), 7, None),
        SyncStep::Skip
    );
}

#[test]
fn a_group_record_updates_its_flags_alone() {
    let record = GroupV2Record {
        master_key: vec![2; 32],
        blocked: true,
        story_send_mode: 2,
        ..GroupV2Record::default()
    };
    match read_storage_item(item(SyncedRecord::GroupV2(record.clone())), 7, None) {
        SyncStep::Group { master_key, .. } => assert_eq!(master_key, [2; 32]),
        other => panic!("expected a group, got {other:?}"),
    }
    let stub = merge_synced_group(&record, None);
    assert!(stub.needs_hydration);
    assert!(stub.blocked);
    assert_eq!(stub.story_send_mode, 2);

    let mut known = Group::default();
    known.title = Some("Team".into());
    known.archived = true;
    let merged = merge_synced_group(&record, Some(known));
    assert_eq!(merged.title.as_deref(), Some("Team"));
    assert!(!merged.needs_hydration);
    assert!(merged.blocked);
    assert!(!merged.archived);
}

#[test]
fn a_published_group_reads_back_its_flags() {
    let mut group = Group::default();
    group.archived = true;
    group.muted_until_timestamp = 5;
    let record = group.to_new_storage_record([2; 32]);
    assert_eq!(merge_synced_group(&record, Some(group.clone())), group);
}

use presage::model::calls::{
    call_id_from_era_id, transition_call_history, CallDirection, CallEventInfo, CallEventKind,
    CallMode, CallStatus, CallType, DirectCallStatus, GroupCallStatus,
};

fn info(event: CallEventKind, direction: CallDirection, ts: u64) -> CallEventInfo {
    CallEventInfo {
        call_id: 42,
        conversation_id: vec![0; 16],
        timestamp_ms: ts,
        mode: CallMode::Direct,
        call_type: CallType::Audio,
        direction,
        event,
    }
}

fn group_info(event: CallEventKind, direction: CallDirection, ts: u64) -> CallEventInfo {
    CallEventInfo {
        call_id: 42,
        conversation_id: vec![0; 32],
        timestamp_ms: ts,
        mode: CallMode::Group,
        call_type: CallType::Group,
        direction,
        event,
    }
}

fn peer() -> String {
    "00000000-0000-0000-0000-000000000001".to_string()
}

// ---- direct ----

#[test]
fn direct_observed_fresh_becomes_pending() {
    let out = transition_call_history(
        None,
        &info(CallEventKind::Observed, CallDirection::Incoming, 100),
        peer(),
    )
    .unwrap();
    assert_eq!(out.status, CallStatus::Direct(DirectCallStatus::Pending));
    assert_eq!(out.timestamp_ms, 100);
}

#[test]
fn direct_not_accepted_incoming_is_missed() {
    let prev = transition_call_history(
        None,
        &info(CallEventKind::Observed, CallDirection::Incoming, 100),
        peer(),
    );
    let out = transition_call_history(
        prev.as_ref(),
        &info(CallEventKind::NotAccepted, CallDirection::Incoming, 200),
        peer(),
    )
    .unwrap();
    assert_eq!(out.status, CallStatus::Direct(DirectCallStatus::Missed));
}

#[test]
fn direct_not_accepted_outgoing_is_missed() {
    let prev = transition_call_history(
        None,
        &info(CallEventKind::Observed, CallDirection::Outgoing, 100),
        peer(),
    );
    let out = transition_call_history(
        prev.as_ref(),
        &info(CallEventKind::NotAccepted, CallDirection::Outgoing, 200),
        peer(),
    )
    .unwrap();
    assert_eq!(out.status, CallStatus::Direct(DirectCallStatus::Missed));
}

#[test]
fn direct_accepted_is_sticky_against_later_not_accepted() {
    let prev = transition_call_history(
        None,
        &info(CallEventKind::Accepted, CallDirection::Incoming, 100),
        peer(),
    );
    assert_eq!(
        prev.as_ref().unwrap().status,
        CallStatus::Direct(DirectCallStatus::Accepted)
    );
    let out = transition_call_history(
        prev.as_ref(),
        &info(CallEventKind::NotAccepted, CallDirection::Incoming, 200),
        peer(),
    )
    .unwrap();
    assert_eq!(out.status, CallStatus::Direct(DirectCallStatus::Accepted));
}

#[test]
fn direct_delete_is_terminal_over_accepted() {
    let prev = transition_call_history(
        None,
        &info(CallEventKind::Accepted, CallDirection::Incoming, 100),
        peer(),
    );
    let out = transition_call_history(
        prev.as_ref(),
        &info(CallEventKind::Delete, CallDirection::Incoming, 200),
        peer(),
    )
    .unwrap();
    assert_eq!(out.status, CallStatus::Direct(DirectCallStatus::Deleted));
}

#[test]
fn direct_delete_is_terminal_even_against_later_events() {
    let prev = transition_call_history(
        None,
        &info(CallEventKind::Delete, CallDirection::Incoming, 100),
        peer(),
    );
    let out = transition_call_history(
        prev.as_ref(),
        &info(CallEventKind::Accepted, CallDirection::Incoming, 200),
        peer(),
    )
    .unwrap();
    assert_eq!(out.status, CallStatus::Direct(DirectCallStatus::Deleted));
}

#[test]
fn direct_timestamp_anchored_at_first_event() {
    let prev = transition_call_history(
        None,
        &info(CallEventKind::Observed, CallDirection::Incoming, 100),
        peer(),
    );
    let out = transition_call_history(
        prev.as_ref(),
        &info(CallEventKind::Accepted, CallDirection::Incoming, 500),
        peer(),
    )
    .unwrap();
    assert_eq!(out.timestamp_ms, 100);
}

// ---- group ----

#[test]
fn group_observed_fresh_becomes_generic() {
    let out = transition_call_history(
        None,
        &group_info(CallEventKind::Observed, CallDirection::Incoming, 100),
        peer(),
    )
    .unwrap();
    assert_eq!(out.status, CallStatus::Group(GroupCallStatus::Generic));
    assert_eq!(out.timestamp_ms, 100);
}

#[test]
fn group_accepted_lands_as_joined() {
    let out = transition_call_history(
        None,
        &group_info(CallEventKind::Accepted, CallDirection::Incoming, 100),
        peer(),
    )
    .unwrap();
    assert_eq!(out.status, CallStatus::Group(GroupCallStatus::Joined));
}

#[test]
fn group_joined_is_sticky_against_later_not_accepted() {
    let prev = transition_call_history(
        None,
        &group_info(CallEventKind::Accepted, CallDirection::Incoming, 100),
        peer(),
    );
    let out = transition_call_history(
        prev.as_ref(),
        &group_info(CallEventKind::NotAccepted, CallDirection::Incoming, 200),
        peer(),
    )
    .unwrap();
    assert_eq!(out.status, CallStatus::Group(GroupCallStatus::Joined));
}

#[test]
fn group_not_accepted_incoming_is_missed() {
    let prev = transition_call_history(
        None,
        &group_info(CallEventKind::Observed, CallDirection::Incoming, 100),
        peer(),
    );
    let out = transition_call_history(
        prev.as_ref(),
        &group_info(CallEventKind::NotAccepted, CallDirection::Incoming, 200),
        peer(),
    )
    .unwrap();
    assert_eq!(out.status, CallStatus::Group(GroupCallStatus::Missed));
}

#[test]
fn group_not_accepted_outgoing_is_generic() {
    // Group calls have no symmetric "declined-outgoing" semantic; an
    // outgoing ring without a join collapses into the generic bucket.
    let out = transition_call_history(
        None,
        &group_info(CallEventKind::NotAccepted, CallDirection::Outgoing, 100),
        peer(),
    )
    .unwrap();
    assert_eq!(out.status, CallStatus::Group(GroupCallStatus::Generic));
}

#[test]
fn group_delete_is_terminal_over_joined() {
    let prev = transition_call_history(
        None,
        &group_info(CallEventKind::Accepted, CallDirection::Incoming, 100),
        peer(),
    );
    let out = transition_call_history(
        prev.as_ref(),
        &group_info(CallEventKind::Delete, CallDirection::Incoming, 200),
        peer(),
    )
    .unwrap();
    assert_eq!(out.status, CallStatus::Group(GroupCallStatus::Deleted));
}

#[test]
fn group_timestamp_anchored_at_first_event() {
    let prev = transition_call_history(
        None,
        &group_info(CallEventKind::Observed, CallDirection::Incoming, 100),
        peer(),
    );
    let out = transition_call_history(
        prev.as_ref(),
        &group_info(CallEventKind::Accepted, CallDirection::Incoming, 500),
        peer(),
    )
    .unwrap();
    assert_eq!(out.timestamp_ms, 100);
}

// ---- adhoc / unknown ----

#[test]
fn adhoc_mode_drops() {
    let mut i = info(CallEventKind::Observed, CallDirection::Incoming, 100);
    i.mode = CallMode::Adhoc;
    assert!(transition_call_history(None, &i, peer()).is_none());
    i.mode = CallMode::Unknown;
    assert!(transition_call_history(None, &i, peer()).is_none());
}

// ---- helpers ----

#[test]
fn call_id_from_era_id_hex_happy_path() {
    // 16 hex chars parse directly as u64.
    assert_eq!(
        call_id_from_era_id("445aa0d4d45926be"),
        0x445a_a0d4_d459_26be
    );
    // RingRTC reserves 0 → remaps to -1 (cast to u64).
    assert_eq!(call_id_from_era_id("0000000000000000"), u64::MAX);
}

#[test]
fn call_id_from_era_id_sha_fallback() {
    // Non-hex era_id falls through to SHA-256-truncate-LE.
    // Verifies the algorithm is deterministic and non-zero for "abc".
    let id = call_id_from_era_id("abc");
    assert_ne!(id, 0);
    // Same input → same output (deterministic).
    assert_eq!(id, call_id_from_era_id("abc"));
    // Different inputs → different outputs (no collision in this trivial case).
    assert_ne!(id, call_id_from_era_id("xyz"));
}
#[test]
fn a_group_call_of_unknown_direction_keeps_its_status() {
    let missed = transition_call_history(
        None,
        &group_info(CallEventKind::NotAccepted, CallDirection::Incoming, 100),
        peer(),
    )
    .unwrap();
    let event = group_info(CallEventKind::NotAccepted, CallDirection::Unknown, 200);
    let after = transition_call_history(Some(&missed), &event, peer()).unwrap();
    assert_eq!(after.status, CallStatus::Group(GroupCallStatus::Missed));
    let fresh = transition_call_history(None, &event, peer()).unwrap();
    assert_eq!(fresh.status, CallStatus::Group(GroupCallStatus::Generic));
}

//! Calls.
//!
//! Decodes the record that the linked devices of an account send each other as a call
//! progresses, and provides the state machine that collapses those events into a single
//! [`CallHistoryEntry`].
use sha2::Digest;
use vstd::prelude::*;
use vstd::slice::slice_subrange;

use crate::endian;
use crate::proto::{
    CallEventDirection, CallEventEvent, CallEventType, Content, ContentBody, ContentBodyView,
    ContentView,
};
use crate::service_id;
use crate::service_id::{Aci, ServiceId, ServiceIdView, Uuid};
use crate::store::{Thread, ThreadView};
use crate::text;

verus! {

/// Direct (1:1), Group, or Adhoc (call link).
#[derive(Debug, Clone, Copy, PartialEq, Eq, Structural)]
pub enum CallMode {
    Direct,
    Group,
    Adhoc,
    Unknown,
}

impl CallMode {
    /// The text that stands for it.
    pub open spec fn text(self) -> Seq<char> {
        match self {
            CallMode::Direct => "Direct"@,
            CallMode::Group => "Group"@,
            CallMode::Adhoc => "Adhoc"@,
            CallMode::Unknown => "Unknown"@,
        }
    }

    /// What a text stands for: `Unknown` where it stands for nothing else.
    pub open spec fn of_text(s: Seq<char>) -> CallMode {
        if s == "Direct"@ {
            CallMode::Direct
        } else if s == "Group"@ {
            CallMode::Group
        } else if s == "Adhoc"@ {
            CallMode::Adhoc
        } else {
            CallMode::Unknown
        }
    }

    pub fn as_str(self) -> (s: &'static str)
        ensures
            s@ == self.text(),
    {
        match self {
            CallMode::Direct => "Direct",
            CallMode::Group => "Group",
            CallMode::Adhoc => "Adhoc",
            CallMode::Unknown => "Unknown",
        }
    }

    pub fn parse(s: &str) -> (r: CallMode)
        ensures
            r == CallMode::of_text(s@),
    {
        if text::str_equal(s, "Direct") {
            CallMode::Direct
        } else if text::str_equal(s, "Group") {
            CallMode::Group
        } else if text::str_equal(s, "Adhoc") {
            CallMode::Adhoc
        } else {
            CallMode::Unknown
        }
    }
}

/// Parsing what [`CallMode::as_str`] wrote gives it back.
pub proof fn law_call_mode_round_trip(value: CallMode)
    ensures
        CallMode::of_text(value.text()) == value,
{
    reveal_strlit("Direct");
    reveal_strlit("Group");
    reveal_strlit("Adhoc");
    reveal_strlit("Unknown");
    assert("Direct"@.len() != "Group"@.len());
    assert("Direct"@.len() != "Adhoc"@.len());
    assert("Direct"@.len() != "Unknown"@.len());
    assert("Group"@[0] != "Adhoc"@[0]);
    assert("Group"@.len() != "Unknown"@.len());
    assert("Adhoc"@.len() != "Unknown"@.len());
}

/// Audio / Video / Group / Adhoc.
#[derive(Debug, Clone, Copy, PartialEq, Eq, Structural)]
pub enum CallType {
    Audio,
    Video,
    Group,
    Adhoc,
    Unknown,
}

impl CallType {
    /// The text that stands for it.
    pub open spec fn text(self) -> Seq<char> {
        match self {
            CallType::Audio => "Audio"@,
            CallType::Video => "Video"@,
            CallType::Group => "Group"@,
            CallType::Adhoc => "Adhoc"@,
            CallType::Unknown => "Unknown"@,
        }
    }

    /// What a text stands for: `Unknown` where it stands for nothing else.
    pub open spec fn of_text(s: Seq<char>) -> CallType {
        if s == "Audio"@ {
            CallType::Audio
        } else if s == "Video"@ {
            CallType::Video
        } else if s == "Group"@ {
            CallType::Group
        } else if s == "Adhoc"@ {
            CallType::Adhoc
        } else {
            CallType::Unknown
        }
    }

    pub fn as_str(self) -> (s: &'static str)
        ensures
            s@ == self.text(),
    {
        match self {
            CallType::Audio => "Audio",
            CallType::Video => "Video",
            CallType::Group => "Group",
            CallType::Adhoc => "Adhoc",
            CallType::Unknown => "Unknown",
        }
    }

    pub fn parse(s: &str) -> (r: CallType)
        ensures
            r == CallType::of_text(s@),
    {
        if text::str_equal(s, "Audio") {
            CallType::Audio
        } else if text::str_equal(s, "Video") {
            CallType::Video
        } else if text::str_equal(s, "Group") {
            CallType::Group
        } else if text::str_equal(s, "Adhoc") {
            CallType::Adhoc
        } else {
            CallType::Unknown
        }
    }
}

/// Parsing what [`CallType::as_str`] wrote gives it back.
pub proof fn law_call_type_round_trip(value: CallType)
    ensures
        CallType::of_text(value.text()) == value,
{
    reveal_strlit("Audio");
    reveal_strlit("Video");
    reveal_strlit("Group");
    reveal_strlit("Adhoc");
    reveal_strlit("Unknown");
    assert("Audio"@[0] != "Video"@[0]);
    assert("Audio"@[0] != "Group"@[0]);
    assert("Audio"@[1] != "Adhoc"@[1]);
    assert("Audio"@.len() != "Unknown"@.len());
    assert("Video"@[0] != "Group"@[0]);
    assert("Video"@[0] != "Adhoc"@[0]);
    assert("Video"@.len() != "Unknown"@.len());
    assert("Group"@[0] != "Adhoc"@[0]);
    assert("Group"@.len() != "Unknown"@.len());
    assert("Adhoc"@.len() != "Unknown"@.len());
}

/// Which way a call went.
#[derive(Debug, Clone, Copy, PartialEq, Eq, Structural)]
pub enum CallDirection {
    Incoming,
    Outgoing,
    Unknown,
}

impl CallDirection {
    /// The text that stands for it.
    pub open spec fn text(self) -> Seq<char> {
        match self {
            CallDirection::Incoming => "Incoming"@,
            CallDirection::Outgoing => "Outgoing"@,
            CallDirection::Unknown => "Unknown"@,
        }
    }

    /// What a text stands for: `Unknown` where it stands for nothing else.
    pub open spec fn of_text(s: Seq<char>) -> CallDirection {
        if s == "Incoming"@ {
            CallDirection::Incoming
        } else if s == "Outgoing"@ {
            CallDirection::Outgoing
        } else {
            CallDirection::Unknown
        }
    }

    pub fn as_str(self) -> (s: &'static str)
        ensures
            s@ == self.text(),
    {
        match self {
            CallDirection::Incoming => "Incoming",
            CallDirection::Outgoing => "Outgoing",
            CallDirection::Unknown => "Unknown",
        }
    }

    pub fn parse(s: &str) -> (r: CallDirection)
        ensures
            r == CallDirection::of_text(s@),
    {
        if text::str_equal(s, "Incoming") {
            CallDirection::Incoming
        } else if text::str_equal(s, "Outgoing") {
            CallDirection::Outgoing
        } else {
            CallDirection::Unknown
        }
    }
}

/// Parsing what [`CallDirection::as_str`] wrote gives it back.
pub proof fn law_call_direction_round_trip(value: CallDirection)
    ensures
        CallDirection::of_text(value.text()) == value,
{
    reveal_strlit("Incoming");
    reveal_strlit("Outgoing");
    reveal_strlit("Unknown");
    assert("Incoming"@[0] != "Outgoing"@[0]);
    assert("Incoming"@.len() != "Unknown"@.len());
    assert("Outgoing"@.len() != "Unknown"@.len());
}

/// What a single call event reports.
#[derive(Debug, Clone, Copy, PartialEq, Eq, Structural)]
pub enum CallEventKind {
    Accepted,
    NotAccepted,
    Delete,
    Observed,
    Unknown,
}

/// Status of a direct (1:1) call.
#[derive(Debug, Clone, Copy, PartialEq, Eq, Structural)]
pub enum DirectCallStatus {
    Pending,
    Accepted,
    Missed,
    Declined,
    Deleted,
    Unknown,
}

impl DirectCallStatus {
    /// The text that stands for it.
    pub open spec fn text(self) -> Seq<char> {
        match self {
            DirectCallStatus::Pending => "Pending"@,
            DirectCallStatus::Accepted => "Accepted"@,
            DirectCallStatus::Missed => "Missed"@,
            DirectCallStatus::Declined => "Declined"@,
            DirectCallStatus::Deleted => "Deleted"@,
            DirectCallStatus::Unknown => "Unknown"@,
        }
    }

    /// What a text stands for: `Unknown` where it stands for nothing else.
    pub open spec fn of_text(s: Seq<char>) -> DirectCallStatus {
        if s == "Pending"@ {
            DirectCallStatus::Pending
        } else if s == "Accepted"@ {
            DirectCallStatus::Accepted
        } else if s == "Missed"@ {
            DirectCallStatus::Missed
        } else if s == "Declined"@ {
            DirectCallStatus::Declined
        } else if s == "Deleted"@ {
            DirectCallStatus::Deleted
        } else {
            DirectCallStatus::Unknown
        }
    }

    pub fn as_str(self) -> (s: &'static str)
        ensures
            s@ == self.text(),
    {
        match self {
            DirectCallStatus::Pending => "Pending",
            DirectCallStatus::Accepted => "Accepted",
            DirectCallStatus::Missed => "Missed",
            DirectCallStatus::Declined => "Declined",
            DirectCallStatus::Deleted => "Deleted",
            DirectCallStatus::Unknown => "Unknown",
        }
    }

    pub fn parse(s: &str) -> (r: DirectCallStatus)
        ensures
            r == DirectCallStatus::of_text(s@),
    {
        if text::str_equal(s, "Pending") {
            DirectCallStatus::Pending
        } else if text::str_equal(s, "Accepted") {
            DirectCallStatus::Accepted
        } else if text::str_equal(s, "Missed") {
            DirectCallStatus::Missed
        } else if text::str_equal(s, "Declined") {
            DirectCallStatus::Declined
        } else if text::str_equal(s, "Deleted") {
            DirectCallStatus::Deleted
        } else {
            DirectCallStatus::Unknown
        }
    }
}

/// Parsing what [`DirectCallStatus::as_str`] wrote gives it back.
pub proof fn law_direct_call_status_round_trip(value: DirectCallStatus)
    ensures
        DirectCallStatus::of_text(value.text()) == value,
{
    reveal_strlit("Pending");
    reveal_strlit("Accepted");
    reveal_strlit("Missed");
    reveal_strlit("Declined");
    reveal_strlit("Deleted");
    reveal_strlit("Unknown");
    assert("Pending"@.len() != "Accepted"@.len());
    assert("Pending"@.len() != "Missed"@.len());
    assert("Pending"@.len() != "Declined"@.len());
    assert("Pending"@[0] != "Deleted"@[0]);
    assert("Pending"@[0] != "Unknown"@[0]);
    assert("Accepted"@.len() != "Missed"@.len());
    assert("Accepted"@[0] != "Declined"@[0]);
    assert("Accepted"@.len() != "Deleted"@.len());
    assert("Accepted"@.len() != "Unknown"@.len());
    assert("Missed"@.len() != "Declined"@.len());
    assert("Missed"@.len() != "Deleted"@.len());
    assert("Missed"@.len() != "Unknown"@.len());
    assert("Declined"@.len() != "Deleted"@.len());
    assert("Declined"@.len() != "Unknown"@.len());
    assert("Deleted"@[0] != "Unknown"@[0]);
}

/// Status of a group call.
///
/// `Generic` is "observed but no specific local outcome". `Joined` and `Accepted` are
/// deliberately distinct: `Joined` is for "we joined the call" and `Accepted` for "we
/// accepted an incoming ring without necessarily joining".
#[derive(Debug, Clone, Copy, PartialEq, Eq, Structural)]
pub enum GroupCallStatus {
    Generic,
    OutgoingRing,
    Ringing,
    Joined,
    Accepted,
    Missed,
    Declined,
    Deleted,
    Unknown,
}

impl GroupCallStatus {
    /// The text that stands for it.
    pub open spec fn text(self) -> Seq<char> {
        match self {
            GroupCallStatus::Generic => "GenericGroupCall"@,
            GroupCallStatus::OutgoingRing => "OutgoingRing"@,
            GroupCallStatus::Ringing => "Ringing"@,
            GroupCallStatus::Joined => "Joined"@,
            GroupCallStatus::Accepted => "Accepted"@,
            GroupCallStatus::Missed => "Missed"@,
            GroupCallStatus::Declined => "Declined"@,
            GroupCallStatus::Deleted => "Deleted"@,
            GroupCallStatus::Unknown => "Unknown"@,
        }
    }

    /// What a text stands for: `Unknown` where it stands for nothing else.
    pub open spec fn of_text(s: Seq<char>) -> GroupCallStatus {
        if s == "GenericGroupCall"@ {
            GroupCallStatus::Generic
        } else if s == "OutgoingRing"@ {
            GroupCallStatus::OutgoingRing
        } else if s == "Ringing"@ {
            GroupCallStatus::Ringing
        } else if s == "Joined"@ {
            GroupCallStatus::Joined
        } else if s == "Accepted"@ {
            GroupCallStatus::Accepted
        } else if s == "Missed"@ {
            GroupCallStatus::Missed
        } else if s == "Declined"@ {
            GroupCallStatus::Declined
        } else if s == "Deleted"@ {
            GroupCallStatus::Deleted
        } else {
            GroupCallStatus::Unknown
        }
    }

    pub fn as_str(self) -> (s: &'static str)
        ensures
            s@ == self.text(),
    {
        match self {
            GroupCallStatus::Generic => "GenericGroupCall",
            GroupCallStatus::OutgoingRing => "OutgoingRing",
            GroupCallStatus::Ringing => "Ringing",
            GroupCallStatus::Joined => "Joined",
            GroupCallStatus::Accepted => "Accepted",
            GroupCallStatus::Missed => "Missed",
            GroupCallStatus::Declined => "Declined",
            GroupCallStatus::Deleted => "Deleted",
            GroupCallStatus::Unknown => "Unknown",
        }
    }

    pub fn parse(s: &str) -> (r: GroupCallStatus)
        ensures
            r == GroupCallStatus::of_text(s@),
    {
        if text::str_equal(s, "GenericGroupCall") {
            GroupCallStatus::Generic
        } else if text::str_equal(s, "OutgoingRing") {
            GroupCallStatus::OutgoingRing
        } else if text::str_equal(s, "Ringing") {
            GroupCallStatus::Ringing
        } else if text::str_equal(s, "Joined") {
            GroupCallStatus::Joined
        } else if text::str_equal(s, "Accepted") {
            GroupCallStatus::Accepted
        } else if text::str_equal(s, "Missed") {
            GroupCallStatus::Missed
        } else if text::str_equal(s, "Declined") {
            GroupCallStatus::Declined
        } else if text::str_equal(s, "Deleted") {
            GroupCallStatus::Deleted
        } else {
            GroupCallStatus::Unknown
        }
    }
}

/// Parsing what [`GroupCallStatus::as_str`] wrote gives it back.
pub proof fn law_group_call_status_round_trip(value: GroupCallStatus)
    ensures
        GroupCallStatus::of_text(value.text()) == value,
{
    reveal_strlit("GenericGroupCall");
    reveal_strlit("OutgoingRing");
    reveal_strlit("Ringing");
    reveal_strlit("Joined");
    reveal_strlit("Accepted");
    reveal_strlit("Missed");
    reveal_strlit("Declined");
    reveal_strlit("Deleted");
    reveal_strlit("Unknown");
    assert("GenericGroupCall"@.len() != "OutgoingRing"@.len());
    assert("GenericGroupCall"@.len() != "Ringing"@.len());
    assert("GenericGroupCall"@.len() != "Joined"@.len());
    assert("GenericGroupCall"@.len() != "Accepted"@.len());
    assert("GenericGroupCall"@.len() != "Missed"@.len());
    assert("GenericGroupCall"@.len() != "Declined"@.len());
    assert("GenericGroupCall"@.len() != "Deleted"@.len());
    assert("GenericGroupCall"@.len() != "Unknown"@.len());
    assert("OutgoingRing"@.len() != "Ringing"@.len());
    assert("OutgoingRing"@.len() != "Joined"@.len());
    assert("OutgoingRing"@.len() != "Accepted"@.len());
    assert("OutgoingRing"@.len() != "Missed"@.len());
    assert("OutgoingRing"@.len() != "Declined"@.len());
    assert("OutgoingRing"@.len() != "Deleted"@.len());
    assert("OutgoingRing"@.len() != "Unknown"@.len());
    assert("Ringing"@.len() != "Joined"@.len());
    assert("Ringing"@.len() != "Accepted"@.len());
    assert("Ringing"@.len() != "Missed"@.len());
    assert("Ringing"@.len() != "Declined"@.len());
    assert("Ringing"@[0] != "Deleted"@[0]);
    assert("Ringing"@[0] != "Unknown"@[0]);
    assert("Joined"@.len() != "Accepted"@.len());
    assert("Joined"@[0] != "Missed"@[0]);
    assert("Joined"@.len() != "Declined"@.len());
    assert("Joined"@.len() != "Deleted"@.len());
    assert("Joined"@.len() != "Unknown"@.len());
    assert("Accepted"@.len() != "Missed"@.len());
    assert("Accepted"@[0] != "Declined"@[0]);
    assert("Accepted"@.len() != "Deleted"@.len());
    assert("Accepted"@.len() != "Unknown"@.len());
    assert("Missed"@.len() != "Declined"@.len());
    assert("Missed"@.len() != "Deleted"@.len());
    assert("Missed"@.len() != "Unknown"@.len());
    assert("Declined"@.len() != "Deleted"@.len());
    assert("Declined"@.len() != "Unknown"@.len());
    assert("Deleted"@[0] != "Unknown"@[0]);
}

/// Mode-typed status carried by [`CallHistoryEntry`].
#[derive(Debug, Clone, Copy, PartialEq, Eq, Structural)]
pub enum CallStatus {
    Direct(DirectCallStatus),
    Group(GroupCallStatus),
}

impl CallStatus {
    /// The text that stands for it. Direct and group texts overlap; readers tell them
    /// apart by the mode.
    pub open spec fn text(self) -> Seq<char> {
        match self {
            CallStatus::Direct(status) => status.text(),
            CallStatus::Group(status) => status.text(),
        }
    }

    /// What a text stands for in a given mode.
    pub open spec fn of_text(mode: CallMode, s: Seq<char>) -> CallStatus {
        match mode {
            CallMode::Direct => CallStatus::Direct(DirectCallStatus::of_text(s)),
            CallMode::Group => CallStatus::Group(GroupCallStatus::of_text(s)),
            _ => CallStatus::Direct(DirectCallStatus::Unknown),
        }
    }

    /// The mode that a status belongs to.
    pub open spec fn mode(self) -> CallMode {
        match self {
            CallStatus::Direct(_) => CallMode::Direct,
            CallStatus::Group(_) => CallMode::Group,
        }
    }

    pub fn as_str(self) -> (s: &'static str)
        ensures
            s@ == self.text(),
    {
        match self {
            CallStatus::Direct(status) => status.as_str(),
            CallStatus::Group(status) => status.as_str(),
        }
    }

    /// Parse a stored status string in the context of a known `mode`.
    pub fn parse(mode: CallMode, s: &str) -> (r: CallStatus)
        ensures
            r == CallStatus::of_text(mode, s@),
    {
        match mode {
            CallMode::Direct => CallStatus::Direct(DirectCallStatus::parse(s)),
            CallMode::Group => CallStatus::Group(GroupCallStatus::parse(s)),
            _ => CallStatus::Direct(DirectCallStatus::Unknown),
        }
    }
}

/// Parsing what [`CallStatus::as_str`] wrote gives it back, in the mode it belongs to.
pub proof fn law_call_status_round_trip(status: CallStatus)
    ensures
        CallStatus::of_text(status.mode(), status.text()) == status,
{
    match status {
        CallStatus::Direct(status) => law_direct_call_status_round_trip(status),
        CallStatus::Group(status) => law_group_call_status_round_trip(status),
    }
}

/// Decoded view of a single call event, before the state machine merges them by
/// `call_id`.
#[derive(Debug, PartialEq)]
pub struct CallEventInfo {
    pub call_id: u64,
    pub conversation_id: Vec<u8>,
    pub timestamp_ms: u64,
    pub mode: CallMode,
    pub call_type: CallType,
    pub direction: CallDirection,
    pub event: CallEventKind,
}

/// What a [`CallEventInfo`] holds.
#[verifier::ext_equal]
pub struct CallEventInfoView {
    pub call_id: u64,
    pub conversation_id: Seq<u8>,
    pub timestamp_ms: u64,
    pub mode: CallMode,
    pub call_type: CallType,
    pub direction: CallDirection,
    pub event: CallEventKind,
}

impl DeepView for CallEventInfo {
    type V = CallEventInfoView;

    open spec fn deep_view(&self) -> CallEventInfoView {
        CallEventInfoView {
            call_id: self.call_id,
            conversation_id: self.conversation_id.deep_view(),
            timestamp_ms: self.timestamp_ms,
            mode: self.mode,
            call_type: self.call_type,
            direction: self.direction,
            event: self.event,
        }
    }
}

impl Clone for CallEventInfo {
    fn clone(&self) -> (r: Self)
        ensures
            r.deep_view() == self.deep_view(),
    {
        let r = CallEventInfo {
            call_id: self.call_id,
            conversation_id: self.conversation_id.clone(),
            timestamp_ms: self.timestamp_ms,
            mode: self.mode,
            call_type: self.call_type,
            direction: self.direction,
            event: self.event,
        };
        proof {
            assert(r.conversation_id.deep_view() =~= self.conversation_id.deep_view());
        }
        r
    }
}

/// Canonical merged call log entry: one for each `(call_id, peer_id)`.
#[derive(Debug, PartialEq)]
pub struct CallHistoryEntry {
    pub call_id: u64,
    /// The uuid for a direct call, the hexadecimal master key for a group call.
    pub peer_id: String,
    pub mode: CallMode,
    pub call_type: CallType,
    pub direction: CallDirection,
    pub status: CallStatus,
    /// When the first event was observed. Stays anchored there, so that the entry does not
    /// move as later events arrive.
    pub timestamp_ms: u64,
}

/// What a [`CallHistoryEntry`] holds.
#[verifier::ext_equal]
pub struct CallHistoryEntryView {
    pub call_id: u64,
    pub peer_id: Seq<char>,
    pub mode: CallMode,
    pub call_type: CallType,
    pub direction: CallDirection,
    pub status: CallStatus,
    pub timestamp_ms: u64,
}

impl DeepView for CallHistoryEntry {
    type V = CallHistoryEntryView;

    open spec fn deep_view(&self) -> CallHistoryEntryView {
        CallHistoryEntryView {
            call_id: self.call_id,
            peer_id: self.peer_id.deep_view(),
            mode: self.mode,
            call_type: self.call_type,
            direction: self.direction,
            status: self.status,
            timestamp_ms: self.timestamp_ms,
        }
    }
}

impl Clone for CallHistoryEntry {
    fn clone(&self) -> (r: Self)
        ensures
            r.deep_view() == self.deep_view(),
    {
        let r = CallHistoryEntry {
            call_id: self.call_id,
            peer_id: self.peer_id.clone(),
            mode: self.mode,
            call_type: self.call_type,
            direction: self.direction,
            status: self.status,
            timestamp_ms: self.timestamp_ms,
        };
        r
    }
}

pub open spec fn call_type_of(kind: Option<CallEventType>) -> CallType {
    match kind {
        Some(CallEventType::AudioCall) => CallType::Audio,
        Some(CallEventType::VideoCall) => CallType::Video,
        Some(CallEventType::GroupCall) => CallType::Group,
        Some(CallEventType::AdHocCall) => CallType::Adhoc,
        _ => CallType::Unknown,
    }
}

pub open spec fn call_mode_of(call_type: CallType) -> CallMode {
    match call_type {
        CallType::Audio => CallMode::Direct,
        CallType::Video => CallMode::Direct,
        CallType::Group => CallMode::Group,
        CallType::Adhoc => CallMode::Adhoc,
        CallType::Unknown => CallMode::Unknown,
    }
}

pub open spec fn call_direction_of(direction: Option<CallEventDirection>) -> CallDirection {
    match direction {
        Some(CallEventDirection::Incoming) => CallDirection::Incoming,
        Some(CallEventDirection::Outgoing) => CallDirection::Outgoing,
        _ => CallDirection::Unknown,
    }
}

pub open spec fn call_event_kind_of(event: Option<CallEventEvent>) -> CallEventKind {
    match event {
        Some(CallEventEvent::Accepted) => CallEventKind::Accepted,
        Some(CallEventEvent::NotAccepted) => CallEventKind::NotAccepted,
        Some(CallEventEvent::Delete) => CallEventKind::Delete,
        Some(CallEventEvent::Observed) => CallEventKind::Observed,
        _ => CallEventKind::Unknown,
    }
}

/// The call event that a message carries. A message of another kind carries none, and
/// neither does an event without an id, a conversation or a time.
pub open spec fn call_event_of(body: ContentBodyView) -> Option<CallEventInfoView> {
    match body {
        ContentBodyView::SynchronizeMessage(message) => match message.call_event {
            Some(event) => match (event.call_id, event.conversation_id, event.timestamp) {
                (Some(call_id), Some(conversation_id), Some(timestamp_ms)) => Some(
                    CallEventInfoView {
                        call_id,
                        conversation_id,
                        timestamp_ms,
                        mode: call_mode_of(call_type_of(event.kind)),
                        call_type: call_type_of(event.kind),
                        direction: call_direction_of(event.direction),
                        event: call_event_kind_of(event.event),
                    },
                ),
                _ => None,
            },
            None => None,
        },
        _ => None,
    }
}

/// Extract a typed [`CallEventInfo`] from a synchronization message carrying a call
/// event. Returns `None` for any other content body or for a malformed or partial event.
pub fn extract_call_event(body: &ContentBody) -> (r: Option<CallEventInfo>)
    ensures
        r.deep_view() == call_event_of(body.deep_view()),
{
    let message = match body {
        ContentBody::SynchronizeMessage(message) => message,
        _ => return None,
    };
    let event = match &message.call_event {
        Some(event) => event,
        None => return None,
    };
    let call_type = match event.kind {
        Some(CallEventType::AudioCall) => CallType::Audio,
        Some(CallEventType::VideoCall) => CallType::Video,
        Some(CallEventType::GroupCall) => CallType::Group,
        Some(CallEventType::AdHocCall) => CallType::Adhoc,
        _ => CallType::Unknown,
    };
    let mode = match call_type {
        CallType::Audio | CallType::Video => CallMode::Direct,
        CallType::Group => CallMode::Group,
        CallType::Adhoc => CallMode::Adhoc,
        CallType::Unknown => CallMode::Unknown,
    };
    let direction = match event.direction {
        Some(CallEventDirection::Incoming) => CallDirection::Incoming,
        Some(CallEventDirection::Outgoing) => CallDirection::Outgoing,
        _ => CallDirection::Unknown,
    };
    let kind = match event.event {
        Some(CallEventEvent::Accepted) => CallEventKind::Accepted,
        Some(CallEventEvent::NotAccepted) => CallEventKind::NotAccepted,
        Some(CallEventEvent::Delete) => CallEventKind::Delete,
        Some(CallEventEvent::Observed) => CallEventKind::Observed,
        _ => CallEventKind::Unknown,
    };
    match (event.call_id, &event.conversation_id, event.timestamp) {
        (Some(call_id), Some(conversation_id), Some(timestamp_ms)) => {
            let conversation = conversation_id.clone();
            assert(conversation.deep_view() =~= conversation_id.deep_view());
            Some(
                CallEventInfo {
                    call_id,
                    conversation_id: conversation,
                    timestamp_ms,
                    mode,
                    call_type,
                    direction,
                    event: kind,
                },
            )
        },
        _ => None,
    }
}

/// The value of a hexadecimal digit, in either case.
pub open spec fn hex_digit_value(byte: u8) -> Option<nat> {
    if 48 <= byte <= 57 {
        Some((byte - 48) as nat)
    } else if 97 <= byte <= 102 {
        Some((byte - 87) as nat)
    } else if 65 <= byte <= 70 {
        Some((byte - 55) as nat)
    } else {
        None
    }
}

/// The number that hexadecimal digits spell.
pub open spec fn hex_value(digits: Seq<u8>) -> Option<nat>
    decreases digits.len(),
{
    if digits.len() == 0 {
        Some(0)
    } else {
        match (hex_value(digits.drop_last()), hex_digit_value(digits.last())) {
            (Some(high), Some(low)) => Some(16 * high + low),
            _ => None,
        }
    }
}

/// The number that an era id spells: sixteen digits of hexadecimal, and nothing else.
pub open spec fn era_number(era_id: Seq<u8>) -> Option<nat> {
    if era_id.len() != 16 {
        None
    } else {
        hex_value(era_id)
    }
}

/// How many numbers `len` hexadecimal digits can spell.
pub open spec fn hex_limit(len: nat) -> nat
    decreases len,
{
    if len == 0 {
        1
    } else {
        16 * hex_limit((len - 1) as nat)
    }
}

proof fn lemma_hex_value(digits: Seq<u8>)
    ensures
        hex_value(digits) matches Some(value) ==> value < hex_limit(digits.len()),
    decreases digits.len(),
{
    if digits.len() > 0 {
        lemma_hex_value(digits.drop_last());
    }
}

proof fn lemma_hex_value_prefix(digits: Seq<u8>, len: int)
    requires
        0 <= len <= digits.len(),
        hex_value(digits.take(len)) is None,
    ensures
        hex_value(digits) is None,
    decreases digits.len() - len,
{
    if len < digits.len() {
        assert(digits.take(len + 1).drop_last() =~= digits.take(len));
        lemma_hex_value_prefix(digits, len + 1);
    } else {
        assert(digits.take(len) =~= digits);
    }
}

fn parse_hex(digits: &[u8]) -> (r: Option<u64>)
    requires
        digits@.len() <= 16,
    ensures
        match r {
            Some(value) => hex_value(digits@) == Some(value as nat),
            None => hex_value(digits@) is None,
        },
{
    let mut value: u64 = 0;
    let mut i: usize = 0;
    while i < digits.len()
        invariant
            i <= digits@.len() <= 16,
            hex_value(digits@.take(i as int)) == Some(value as nat),
        decreases digits@.len() - i,
    {
        let byte = digits[i];
        proof {
            assert(digits@.take(i + 1).drop_last() =~= digits@.take(i as int));
            assert(digits@.take(i + 1).last() == byte);
        }
        let low: u64 = if 48 <= byte && byte <= 57 {
            (byte - 48) as u64
        } else if 97 <= byte && byte <= 102 {
            (byte - 87) as u64
        } else if 65 <= byte && byte <= 70 {
            (byte - 55) as u64
        } else {
            proof {
                lemma_hex_value_prefix(digits@, i + 1);
            }
            return None;
        };
        proof {
            lemma_hex_value(digits@.take(i as int));
            lemma_hex_limit(i as nat, 15);
            reveal_with_fuel(hex_limit, 17);
        }
        value = value * 16 + low;
        i = i + 1;
    }
    assert(digits@.take(i as int) =~= digits@);
    Some(value)
}

proof fn lemma_hex_limit(a: nat, b: nat)
    requires
        a <= b,
    ensures
        hex_limit(a) <= hex_limit(b),
    decreases b,
{
    if a < b {
        lemma_hex_limit(a, (b - 1) as nat);
    }
}

/// What `sha2::Sha256::digest` returns for some bytes.
pub uninterp spec fn sha256_of(bytes: Seq<u8>) -> Seq<u8>;

/// The SHA-256 digest of some bytes, by `sha2::Sha256::digest`. Which bytes it is made of
/// is not said, only that there are thirty-two and that equal input gives equal output.
#[verifier::external_body]
pub(crate) fn sha256(bytes: &[u8]) -> (digest: Vec<u8>)
    ensures
        digest@ == sha256_of(bytes@),
        digest@.len() == 32,
{
    sha2::Sha256::digest(bytes).to_vec()
}

/// The call id of an era id that spells the number `number`, or whose digest is `digest`
/// where it spells none. `0` is not a valid call id, and becomes the largest one.
pub open spec fn call_id_of(number: Option<nat>, digest: Seq<u8>) -> nat {
    match number {
        Some(number) => if number == 0 {
            u64::MAX as nat
        } else {
            number
        },
        None => endian::le_value(digest.take(8)),
    }
}

/// The number that an era id spells.
pub fn parse_era_id(era_id: &str) -> (r: Option<u64>)
    ensures
        match r {
            Some(number) => era_number(vstd::utf8::encode_utf8(era_id@)) == Some(number as nat),
            None => era_number(vstd::utf8::encode_utf8(era_id@)) is None,
        },
{
    let bytes = era_id.as_bytes();
    if bytes.len() != 16 {
        return None;
    }
    parse_hex(bytes)
}

/// The call id of an era id, given the digest of the era id's bytes.
pub fn call_id_with_digest(era_id: &str, digest: &Vec<u8>) -> (call_id: u64)
    requires
        digest@.len() == 32,
    ensures
        call_id == call_id_of(era_number(vstd::utf8::encode_utf8(era_id@)), digest@),
{
    match parse_era_id(era_id) {
        Some(number) => if number == 0 {
            u64::MAX
        } else {
            number
        },
        None => {
            let head = slice_subrange(digest.as_slice(), 0, 8);
            assert(head@ =~= digest@.take(8));
            endian::u64_from_le(head)
        },
    }
}

/// Derive the call id from a group call's era id.
///
/// A sixteen-digit hexadecimal era id is the call id itself; `0` is an invalid id and
/// becomes the largest one. Otherwise the call id is the first eight bytes of the SHA-256
/// digest, little-endian.
pub fn call_id_from_era_id(era_id: &str) -> (call_id: u64)
    ensures
        call_id == call_id_of(
            era_number(vstd::utf8::encode_utf8(era_id@)),
            sha256_of(vstd::utf8::encode_utf8(era_id@)),
        ),
{
    let digest = sha256(era_id.as_bytes());
    call_id_with_digest(era_id, &digest)
}

/// Typed peer for a call event.
///
/// `Direct` carries the peer's identity; `Group` carries the group's master key.
#[derive(Debug, Clone, Copy, PartialEq, Eq)]
pub enum CallPeer {
    Direct(Uuid),
    Group([u8; 32]),
}

/// What a [`CallPeer`] holds.
#[verifier::ext_equal]
pub enum CallPeerView {
    Direct(Seq<u8>),
    Group(Seq<u8>),
}

impl DeepView for CallPeer {
    type V = CallPeerView;

    open spec fn deep_view(&self) -> CallPeerView {
        match self {
            CallPeer::Direct(uuid) => CallPeerView::Direct(uuid.deep_view()),
            CallPeer::Group(key) => CallPeerView::Group(key@),
        }
    }
}

impl CallPeerView {
    pub open spec fn peer_id(self) -> Seq<char> {
        match self {
            CallPeerView::Direct(uuid) => text::uuid_text(uuid),
            CallPeerView::Group(key) => text::hex_text(key),
        }
    }

    pub open spec fn to_thread(self) -> ThreadView {
        match self {
            CallPeerView::Direct(uuid) => ThreadView::Contact(ServiceIdView::Aci(uuid)),
            CallPeerView::Group(key) => ThreadView::Group(key),
        }
    }

    pub open spec fn from_thread(thread: ThreadView) -> CallPeerView {
        match thread {
            ThreadView::Contact(id) => CallPeerView::Direct(id.raw()),
            ThreadView::Group(key) => CallPeerView::Group(key),
        }
    }
}

impl CallPeer {
    /// Stable string form used as `peer_id` in [`CallHistoryEntry`]: the uuid of a
    /// person, lowercase hex of the master key of a group.
    pub fn peer_id(&self) -> (id: String)
        ensures
            id@ == self.deep_view().peer_id(),
    {
        match self {
            CallPeer::Direct(uuid) => uuid.to_string(),
            CallPeer::Group(key) => text::hex_encode(key),
        }
    }

    /// The [`Thread`] this peer routes to.
    pub fn to_thread(&self) -> (thread: Thread)
        ensures
            thread.deep_view() == self.deep_view().to_thread(),
    {
        match self {
            CallPeer::Direct(uuid) => Thread::Contact(ServiceId::Aci(Aci { uuid: *uuid })),
            CallPeer::Group(key) => Thread::Group(*key),
        }
    }

    /// Reverse of [`Self::to_thread`]: the typed peer for a thread. Never `None` for the
    /// threads there are.
    pub fn from_thread(thread: &Thread) -> (peer: Option<CallPeer>)
        ensures
            peer.deep_view() == Some(CallPeerView::from_thread(thread.deep_view())),
    {
        match thread {
            Thread::Contact(id) => Some(CallPeer::Direct(id.raw_uuid())),
            Thread::Group(key) => Some(CallPeer::Group(*key)),
        }
    }
}

/// A peer comes back from the thread it routes to.
pub proof fn law_peer_thread_round_trip(peer: CallPeerView)
    ensures
        CallPeerView::from_thread(peer.to_thread()) == peer,
{
}

/// A thread comes back from its peer, unless it is with a phone-number identity: a peer
/// names an account identity.
pub proof fn law_thread_peer_round_trip(thread: ThreadView)
    requires
        thread matches ThreadView::Contact(id) ==> id is Aci,
    ensures
        CallPeerView::from_thread(thread).to_thread() == thread,
{
}

/// A group that the store knows: its master key, and the public group id that derives
/// from it.
#[derive(Debug, Clone, Copy, PartialEq, Eq)]
pub struct GroupIdentity {
    pub master_key: [u8; 32],
    pub group_id: [u8; 32],
}

/// The master key of the first known group with the given public id.
pub open spec fn master_key_of(groups: Seq<GroupIdentity>, group_id: Seq<u8>) -> Option<Seq<u8>>
    decreases groups.len(),
{
    if groups.len() == 0 {
        None
    } else if groups[0].group_id@ == group_id {
        Some(groups[0].master_key@)
    } else {
        master_key_of(groups.skip(1), group_id)
    }
}

/// What an optional array holds.
pub open spec fn key_view(key: Option<[u8; 32]>) -> Option<Seq<u8>> {
    match key {
        Some(key) => Some(key@),
        None => None,
    }
}

/// Find the master key whose derived group id is `target_group_id`.
///
/// A call event of a group call carries the derived group id, but groups are indexed by
/// master key, and the derivation is one-way.
pub fn resolve_group_master_key_from_group_id(
    groups: &Vec<GroupIdentity>,
    target_group_id: &[u8; 32],
) -> (key: Option<[u8; 32]>)
    ensures
        key_view(key) == master_key_of(groups@, target_group_id@),
{
    let mut i: usize = 0;
    proof {
        assert(groups@.skip(0) =~= groups@);
    }
    while i < groups.len()
        invariant
            i <= groups@.len(),
            master_key_of(groups@, target_group_id@) == master_key_of(
                groups@.skip(i as int),
                target_group_id@,
            ),
        decreases groups@.len() - i,
    {
        proof {
            assert(groups@.skip(i as int).skip(1) =~= groups@.skip(i + 1));
        }
        if text::bytes_equal(&groups[i].group_id, target_group_id) {
            return Some(groups[i].master_key);
        }
        i = i + 1;
    }
    None
}

/// Whom a call event is with, `None` for a call link, for a conversation id of the wrong
/// length and for a group that is not known.
pub open spec fn call_peer_of(info: CallEventInfoView, groups: Seq<GroupIdentity>) -> Option<
    CallPeerView,
> {
    match info.mode {
        CallMode::Direct => if info.conversation_id.len() == 16 {
            Some(CallPeerView::Direct(info.conversation_id))
        } else {
            None
        },
        CallMode::Group => if info.conversation_id.len() == 32 {
            match master_key_of(groups, info.conversation_id) {
                Some(key) => Some(CallPeerView::Group(key)),
                None => None,
            }
        } else {
            None
        },
        _ => None,
    }
}

/// Resolve a [`CallEventInfo`] to its typed peer.
///
/// Returns `None` for adhoc calls and for group calls whose group is not among those
/// known (a call event that arrived before the group was synced).
pub fn resolve_call_peer(info: &CallEventInfo, groups: &Vec<GroupIdentity>) -> (peer: Option<
    CallPeer,
>)
    ensures
        peer.deep_view() == call_peer_of(info.deep_view(), groups@),
{
    broadcast use text::lemma_bytes_view;

    match info.mode {
        CallMode::Direct => match Uuid::from_slice(info.conversation_id.as_slice()) {
            Some(uuid) => Some(CallPeer::Direct(uuid)),
            None => None,
        },
        CallMode::Group => match service_id::thirty_two(info.conversation_id.as_slice()) {
            Some(group_id) => match resolve_group_master_key_from_group_id(groups, &group_id) {
                Some(key) => Some(CallPeer::Group(key)),
                None => None,
            },
            None => None,
        },
        CallMode::Adhoc | CallMode::Unknown => None,
    }
}

/// The thread that a call event routes its message to.
pub open spec fn call_thread_of(content: ContentView, groups: Seq<GroupIdentity>) -> Option<
    ThreadView,
> {
    match call_event_of(content.body) {
        Some(info) => match call_peer_of(info, groups) {
            Some(peer) => Some(peer.to_thread()),
            None => None,
        },
        None => None,
    }
}

/// Resolve the [`Thread`] for a message carrying a call event, using the known groups to
/// translate a group id into a group thread.
///
/// Returns `None` when the message carries no call event, or when it does but can't be
/// resolved. Callers fall back to [`Thread::try_from_content`] in that case.
pub fn resolve_call_thread(content: &Content, groups: &Vec<GroupIdentity>) -> (thread: Option<
    Thread,
>)
    ensures
        thread.deep_view() == call_thread_of(content.deep_view(), groups@),
{
    match extract_call_event(&content.body) {
        Some(info) => match resolve_call_peer(&info, groups) {
            Some(peer) => Some(peer.to_thread()),
            None => None,
        },
        None => None,
    }
}

/// The status of a direct call after an event.
///
/// - `Delete` is terminal: any prior status flips to `Deleted` and stays.
/// - `Accepted` is sticky: once accepted, no other event downgrades it.
/// - `NotAccepted` makes it missed, `Observed` makes it pending.
pub open spec fn direct_status_after(
    prev: Option<DirectCallStatus>,
    event: CallEventKind,
) -> DirectCallStatus {
    if event == CallEventKind::Delete || prev == Some(DirectCallStatus::Deleted) {
        DirectCallStatus::Deleted
    } else if event == CallEventKind::Accepted || prev == Some(DirectCallStatus::Accepted) {
        DirectCallStatus::Accepted
    } else {
        match event {
            CallEventKind::NotAccepted => DirectCallStatus::Missed,
            CallEventKind::Observed => DirectCallStatus::Pending,
            _ => prev.unwrap_or(DirectCallStatus::Pending),
        }
    }
}

/// The status of a group call after an event.
///
/// - `Delete` is terminal.
/// - `Joined` is sticky: `Accepted` lands as `Joined` and stays joined.
/// - `Observed` makes it generic.
/// - `NotAccepted` makes an incoming call missed and an outgoing one generic.
/// - Anything else keeps the prior status, or is generic where there is none.
pub open spec fn group_status_after(
    prev: Option<GroupCallStatus>,
    event: CallEventKind,
    direction: CallDirection,
) -> GroupCallStatus {
    if event == CallEventKind::Delete || prev == Some(GroupCallStatus::Deleted) {
        GroupCallStatus::Deleted
    } else if event == CallEventKind::Accepted || prev == Some(GroupCallStatus::Joined) {
        GroupCallStatus::Joined
    } else {
        match event {
            CallEventKind::Observed => GroupCallStatus::Generic,
            CallEventKind::NotAccepted if direction == CallDirection::Incoming =>
                GroupCallStatus::Missed,
            CallEventKind::NotAccepted if direction == CallDirection::Outgoing =>
                GroupCallStatus::Generic,
            _ => prev.unwrap_or(GroupCallStatus::Generic),
        }
    }
}

/// The direct status of an entry, where it has one.
pub open spec fn direct_status_of(prev: Option<CallHistoryEntryView>) -> Option<DirectCallStatus> {
    match prev {
        Some(entry) => match entry.status {
            CallStatus::Direct(status) => Some(status),
            _ => None,
        },
        None => None,
    }
}

/// The group status of an entry, where it has one.
pub open spec fn group_status_of(prev: Option<CallHistoryEntryView>) -> Option<GroupCallStatus> {
    match prev {
        Some(entry) => match entry.status {
            CallStatus::Group(status) => Some(status),
            _ => None,
        },
        None => None,
    }
}

/// The status of a call after an event; `None` for a mode that is not modelled.
pub open spec fn status_after(
    prev: Option<CallHistoryEntryView>,
    info: CallEventInfoView,
) -> Option<CallStatus> {
    match info.mode {
        CallMode::Direct => Some(
            CallStatus::Direct(direct_status_after(direct_status_of(prev), info.event)),
        ),
        CallMode::Group => Some(
            CallStatus::Group(
                group_status_after(group_status_of(prev), info.event, info.direction),
            ),
        ),
        _ => None,
    }
}

/// The entry of a call after an event: everything is the event's but the status, and the
/// time, which stays that of the first event.
pub open spec fn entry_after(
    prev: Option<CallHistoryEntryView>,
    info: CallEventInfoView,
    peer_id: Seq<char>,
) -> Option<CallHistoryEntryView> {
    match status_after(prev, info) {
        Some(status) => Some(
            CallHistoryEntryView {
                call_id: info.call_id,
                peer_id,
                mode: info.mode,
                call_type: info.call_type,
                direction: info.direction,
                status,
                timestamp_ms: match prev {
                    Some(entry) => entry.timestamp_ms,
                    None => info.timestamp_ms,
                },
            },
        ),
        None => None,
    }
}

/// What an optional entry holds.
pub open spec fn entry_view(entry: Option<&CallHistoryEntry>) -> Option<CallHistoryEntryView> {
    match entry {
        Some(entry) => Some(entry.deep_view()),
        None => None,
    }
}

/// Merge a freshly-arrived call event into the prior entry, returning the new entry.
/// Dispatches by mode. Adhoc returns `None`.
pub fn transition_call_history(
    prev: Option<&CallHistoryEntry>,
    info: &CallEventInfo,
    peer_id: String,
) -> (r: Option<CallHistoryEntry>)
    ensures
        r.deep_view() == entry_after(entry_view(prev), info.deep_view(), peer_id@),
{
    match info.mode {
        CallMode::Direct => transition_direct(prev, info, peer_id),
        CallMode::Group => transition_group(prev, info, peer_id),
        CallMode::Adhoc | CallMode::Unknown => None,
    }
}

fn anchored_timestamp(prev: Option<&CallHistoryEntry>, info: &CallEventInfo) -> (timestamp: u64)
    ensures
        timestamp == (match prev {
            Some(entry) => entry.timestamp_ms,
            None => info.timestamp_ms,
        }),
{
    match prev {
        Some(entry) => entry.timestamp_ms,
        None => info.timestamp_ms,
    }
}

/// State machine for direct calls: see [`direct_status_after`].
fn transition_direct(
    prev: Option<&CallHistoryEntry>,
    info: &CallEventInfo,
    peer_id: String,
) -> (r: Option<CallHistoryEntry>)
    requires
        info.mode == CallMode::Direct,
    ensures
        r.deep_view() == entry_after(entry_view(prev), info.deep_view(), peer_id@),
{
    let prev_direct = match prev {
        Some(entry) => match entry.status {
            CallStatus::Direct(status) => Some(status),
            _ => None,
        },
        None => None,
    };
    let status = if info.event == CallEventKind::Delete || prev_direct == Some(
        DirectCallStatus::Deleted,
    ) {
        DirectCallStatus::Deleted
    } else if prev_direct == Some(DirectCallStatus::Accepted) || info.event
        == CallEventKind::Accepted {
        DirectCallStatus::Accepted
    } else {
        match info.event {
            CallEventKind::NotAccepted => DirectCallStatus::Missed,
            CallEventKind::Observed => DirectCallStatus::Pending,
            _ => prev_direct.unwrap_or(DirectCallStatus::Pending),
        }
    };
    Some(
        CallHistoryEntry {
            call_id: info.call_id,
            peer_id,
            mode: info.mode,
            call_type: info.call_type,
            direction: info.direction,
            status: CallStatus::Direct(status),
            timestamp_ms: anchored_timestamp(prev, info),
        },
    )
}

/// State machine for group calls: see [`group_status_after`].
fn transition_group(
    prev: Option<&CallHistoryEntry>,
    info: &CallEventInfo,
    peer_id: String,
) -> (r: Option<CallHistoryEntry>)
    requires
        info.mode == CallMode::Group,
    ensures
        r.deep_view() == entry_after(entry_view(prev), info.deep_view(), peer_id@),
{
    let prev_group = match prev {
        Some(entry) => match entry.status {
            CallStatus::Group(status) => Some(status),
            _ => None,
        },
        None => None,
    };
    let status = if info.event == CallEventKind::Delete || prev_group == Some(
        GroupCallStatus::Deleted,
    ) {
        GroupCallStatus::Deleted
    } else if prev_group == Some(GroupCallStatus::Joined) || info.event
        == CallEventKind::Accepted {
        GroupCallStatus::Joined
    } else {
        match info.event {
            CallEventKind::Observed => GroupCallStatus::Generic,
            CallEventKind::NotAccepted if info.direction == CallDirection::Incoming =>
                GroupCallStatus::Missed,
            CallEventKind::NotAccepted if info.direction == CallDirection::Outgoing =>
                GroupCallStatus::Generic,
            _ => prev_group.unwrap_or(GroupCallStatus::Generic),
        }
    };
    Some(
        CallHistoryEntry {
            call_id: info.call_id,
            peer_id,
            mode: info.mode,
            call_type: info.call_type,
            direction: info.direction,
            status: CallStatus::Group(status),
            timestamp_ms: anchored_timestamp(prev, info),
        },
    )
}

/// The entry that a run of events leaves, starting from `prev`.
pub open spec fn entry_after_all(
    prev: Option<CallHistoryEntryView>,
    events: Seq<CallEventInfoView>,
    peer_id: Seq<char>,
) -> Option<CallHistoryEntryView>
    decreases events.len(),
{
    if events.len() == 0 {
        prev
    } else {
        entry_after(
            entry_after_all(prev, events.drop_last(), peer_id),
            events.last(),
            peer_id,
        )
    }
}

/// The status that nothing changes any more, in each mode.
pub open spec fn deleted(mode: CallMode) -> CallStatus {
    if mode == CallMode::Group {
        CallStatus::Group(GroupCallStatus::Deleted)
    } else {
        CallStatus::Direct(DirectCallStatus::Deleted)
    }
}

/// The status that only a deletion changes, in each mode.
pub open spec fn answered(mode: CallMode) -> CallStatus {
    if mode == CallMode::Group {
        CallStatus::Group(GroupCallStatus::Joined)
    } else {
        CallStatus::Direct(DirectCallStatus::Accepted)
    }
}

/// The events of one call, all of a mode that is modelled.
pub open spec fn of_one_mode(events: Seq<CallEventInfoView>, mode: CallMode) -> bool {
    &&& mode == CallMode::Direct || mode == CallMode::Group
    &&& forall|i: int| 0 <= i < events.len() ==> (#[trigger] events[i]).mode == mode
}

/// The order of events does not move a call: its time is that of the first event.
pub proof fn law_timestamp_is_anchored(
    events: Seq<CallEventInfoView>,
    mode: CallMode,
    peer_id: Seq<char>,
)
    requires
        of_one_mode(events, mode),
        events.len() > 0,
    ensures
        entry_after_all(None, events, peer_id) matches Some(entry) && entry.timestamp_ms
            == events[0].timestamp_ms,
    decreases events.len(),
{
    assert(events.last().mode == mode);
    if events.len() > 1 {
        assert(of_one_mode(events.drop_last(), mode)) by {
            assert forall|i: int| 0 <= i < events.drop_last().len() implies (
            #[trigger] events.drop_last()[i]).mode == mode by {
                assert(events[i].mode == mode);
            }
        }
        law_timestamp_is_anchored(events.drop_last(), mode, peer_id);
    } else {
        assert(entry_after_all(None, events.drop_last(), peer_id) is None);
    }
}

/// Deletion is terminal: once a call was deleted, no run of events brings it back.
pub proof fn law_delete_is_terminal(
    events: Seq<CallEventInfoView>,
    mode: CallMode,
    peer_id: Seq<char>,
    at: int,
)
    requires
        of_one_mode(events, mode),
        0 <= at < events.len(),
        events[at].event == CallEventKind::Delete,
    ensures
        entry_after_all(None, events, peer_id) matches Some(entry) && entry.status == deleted(mode),
    decreases events.len(),
{
    assert(events.last().mode == mode);
    if at < events.len() - 1 {
        assert(of_one_mode(events.drop_last(), mode)) by {
            assert forall|i: int| 0 <= i < events.drop_last().len() implies (
            #[trigger] events.drop_last()[i]).mode == mode by {
                assert(events[i].mode == mode);
            }
        }
        law_delete_is_terminal(events.drop_last(), mode, peer_id, at);
    }
}

/// An answer is sticky: a call that was answered, and never deleted, stays answered.
pub proof fn law_answer_is_sticky(
    events: Seq<CallEventInfoView>,
    mode: CallMode,
    peer_id: Seq<char>,
    at: int,
)
    requires
        of_one_mode(events, mode),
        0 <= at < events.len(),
        events[at].event == CallEventKind::Accepted,
        forall|i: int|
            0 <= i < events.len() ==> (#[trigger] events[i]).event != CallEventKind::Delete,
    ensures
        entry_after_all(None, events, peer_id) matches Some(entry) && entry.status == answered(
            mode,
        ),
    decreases events.len(),
{
    assert(events.last().mode == mode);
    assert(events.last().event != CallEventKind::Delete);
    let before = events.drop_last();
    assert(of_one_mode(before, mode)) by {
        assert forall|i: int| 0 <= i < before.len() implies (#[trigger] before[i]).mode == mode by {
            assert(events[i].mode == mode);
        }
    }
    assert forall|i: int| 0 <= i < before.len() implies (#[trigger] before[i]).event
        != CallEventKind::Delete by {
        assert(events[i].event != CallEventKind::Delete);
    }
    if at < events.len() - 1 {
        law_answer_is_sticky(before, mode, peer_id, at);
    } else {
        lemma_never_deleted(before, mode, peer_id);
    }
}

/// Without a deletion a call is not deleted.
proof fn lemma_never_deleted(events: Seq<CallEventInfoView>, mode: CallMode, peer_id: Seq<char>)
    requires
        of_one_mode(events, mode),
        forall|i: int|
            0 <= i < events.len() ==> (#[trigger] events[i]).event != CallEventKind::Delete,
    ensures
        entry_after_all(None, events, peer_id) matches Some(entry) ==> entry.status.mode() == mode
            && entry.status != deleted(mode),
    decreases events.len(),
{
    if events.len() > 0 {
        assert(events.last().mode == mode);
        assert(events.last().event != CallEventKind::Delete);
        let before = events.drop_last();
        assert(of_one_mode(before, mode)) by {
            assert forall|i: int| 0 <= i < before.len() implies (#[trigger] before[i]).mode
                == mode by {
                assert(events[i].mode == mode);
            }
        }
        assert forall|i: int| 0 <= i < before.len() implies (#[trigger] before[i]).event
            != CallEventKind::Delete by {
            assert(events[i].event != CallEventKind::Delete);
        }
        lemma_never_deleted(before, mode, peer_id);
    }
}

/// A call link, and a mode that is not known, leaves no entry.
pub proof fn law_other_modes_leave_no_entry(
    prev: Option<CallHistoryEntryView>,
    info: CallEventInfoView,
    peer_id: Seq<char>,
)
    ensures
        entry_after(prev, info, peer_id) is None <==> info.mode == CallMode::Adhoc || info.mode
            == CallMode::Unknown,
{
}

} // verus!

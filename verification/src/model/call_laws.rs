//! What calls promise.
use vstd::prelude::*;

use crate::endian;
use crate::model::calls;
use crate::model::calls::{
    CallDirection, CallEventInfo, CallHistoryEntry, CallMode, CallPeer, CallStatus, CallType,
    DirectCallStatus, GroupCallStatus, GroupIdentity,
};
use crate::proto::{
    CallEventDirection, CallEventEvent, CallEventType, CallEventView, Content, ContentBody,
    ContentBodyView,
};
use crate::store::Thread;
use crate::text;

verus! {

/// The modes are written by their names, and a name of none is read as unknown.
pub proof fn law_modes_are_written_by_name(mode: CallMode, s: &'static str, t: &str, read: CallMode)
    requires
        call_ensures(CallMode::as_str, (mode,), s),
        call_ensures(CallMode::parse, (t,), read),
    ensures
        mode is Direct ==> s@ == "Direct"@,
        mode is Group ==> s@ == "Group"@,
        mode is Adhoc ==> s@ == "Adhoc"@,
        mode is Unknown ==> s@ == "Unknown"@,
        t@ != "Direct"@ && t@ != "Group"@ && t@ != "Adhoc"@ ==> read is Unknown,
{
}

/// The types are written by their names, and a name of none is read as unknown.
pub proof fn law_types_are_written_by_name(kind: CallType, s: &'static str, t: &str, read: CallType)
    requires
        call_ensures(CallType::as_str, (kind,), s),
        call_ensures(CallType::parse, (t,), read),
    ensures
        kind is Audio ==> s@ == "Audio"@,
        kind is Video ==> s@ == "Video"@,
        kind is Group ==> s@ == "Group"@,
        kind is Adhoc ==> s@ == "Adhoc"@,
        kind is Unknown ==> s@ == "Unknown"@,
        t@ != "Audio"@ && t@ != "Video"@ && t@ != "Group"@ && t@ != "Adhoc"@ ==> read is Unknown,
{
}

/// The directions are written by their names, and a name of none is read as unknown.
pub proof fn law_directions_are_written_by_name(
    direction: CallDirection,
    s: &'static str,
    t: &str,
    read: CallDirection,
)
    requires
        call_ensures(CallDirection::as_str, (direction,), s),
        call_ensures(CallDirection::parse, (t,), read),
    ensures
        direction is Incoming ==> s@ == "Incoming"@,
        direction is Outgoing ==> s@ == "Outgoing"@,
        direction is Unknown ==> s@ == "Unknown"@,
        t@ != "Incoming"@ && t@ != "Outgoing"@ ==> read is Unknown,
{
}

/// A status is written by its name, whichever mode it belongs to.
pub proof fn law_statuses_are_written_by_name(status: CallStatus, s: &'static str)
    requires
        call_ensures(CallStatus::as_str, (status,), s),
    ensures
        status == CallStatus::Direct(DirectCallStatus::Pending) ==> s@ == "Pending"@,
        status == CallStatus::Direct(DirectCallStatus::Accepted) ==> s@ == "Accepted"@,
        status == CallStatus::Direct(DirectCallStatus::Missed) ==> s@ == "Missed"@,
        status == CallStatus::Direct(DirectCallStatus::Declined) ==> s@ == "Declined"@,
        status == CallStatus::Direct(DirectCallStatus::Deleted) ==> s@ == "Deleted"@,
        status == CallStatus::Direct(DirectCallStatus::Unknown) ==> s@ == "Unknown"@,
        status == CallStatus::Group(GroupCallStatus::Generic) ==> s@ == "GenericGroupCall"@,
        status == CallStatus::Group(GroupCallStatus::OutgoingRing) ==> s@ == "OutgoingRing"@,
        status == CallStatus::Group(GroupCallStatus::Ringing) ==> s@ == "Ringing"@,
        status == CallStatus::Group(GroupCallStatus::Joined) ==> s@ == "Joined"@,
        status == CallStatus::Group(GroupCallStatus::Accepted) ==> s@ == "Accepted"@,
        status == CallStatus::Group(GroupCallStatus::Missed) ==> s@ == "Missed"@,
        status == CallStatus::Group(GroupCallStatus::Declined) ==> s@ == "Declined"@,
        status == CallStatus::Group(GroupCallStatus::Deleted) ==> s@ == "Deleted"@,
        status == CallStatus::Group(GroupCallStatus::Unknown) ==> s@ == "Unknown"@,
{
}

/// A status is read as one of the mode it is read for; of a mode that has none it is unknown.
pub proof fn law_a_status_is_read_for_its_mode(mode: CallMode, s: &str, status: CallStatus)
    requires
        call_ensures(CallStatus::parse, (mode, s), status),
    ensures
        mode is Group <==> status is Group,
        mode is Adhoc || mode is Unknown ==> status == CallStatus::Direct(DirectCallStatus::Unknown),
{
}

/// The call in a content of another device of this account.
pub open spec fn event_in(body: ContentBodyView) -> Option<CallEventView> {
    match body {
        ContentBodyView::SynchronizeMessage(sync) => sync.call_event,
        _ => None,
    }
}

/// A report of a call is read where it names the call, the conversation and the time, and only
/// there: as what it says, with the mode that its type belongs to.
pub proof fn law_a_report_is_read_as_what_it_says(body: ContentBody, info: Option<CallEventInfo>)
    requires
        call_ensures(calls::extract_call_event, (&body,), info),
    ensures
        event_in(body.deep_view()) is None ==> info is None,
        event_in(body.deep_view()) matches Some(event) ==> {
            &&& info is Some <==> event.call_id is Some && event.conversation_id is Some
                && event.timestamp is Some
            &&& info is Some ==> {
                let read = info->0;
                &&& read.call_id == event.call_id->0
                &&& read.conversation_id@ == event.conversation_id->0
                &&& read.timestamp_ms == event.timestamp->0
                &&& read.call_type is Audio <==> event.kind == Some(CallEventType::AudioCall)
                &&& read.call_type is Video <==> event.kind == Some(CallEventType::VideoCall)
                &&& read.call_type is Group <==> event.kind == Some(CallEventType::GroupCall)
                &&& read.call_type is Adhoc <==> event.kind == Some(CallEventType::AdHocCall)
                &&& read.mode is Direct <==> read.call_type is Audio || read.call_type is Video
                &&& read.mode is Group <==> read.call_type is Group
                &&& read.mode is Adhoc <==> read.call_type is Adhoc
                &&& read.direction is Incoming <==> event.direction == Some(
                    CallEventDirection::Incoming,
                )
                &&& read.direction is Outgoing <==> event.direction == Some(
                    CallEventDirection::Outgoing,
                )
                &&& read.event is Accepted <==> event.event == Some(CallEventEvent::Accepted)
                &&& read.event is NotAccepted <==> event.event == Some(CallEventEvent::NotAccepted)
                &&& read.event is Delete <==> event.event == Some(CallEventEvent::Delete)
                &&& read.event is Observed <==> event.event == Some(CallEventEvent::Observed)
            }
        },
{
    broadcast use text::lemma_bytes_view;

    if info is Some {
        assert(info.deep_view() == Some(info->0.deep_view()));
        assert(info->0.deep_view().conversation_id == info->0.conversation_id.deep_view());
    }
}

/// The value of a hexadecimal digit, in either case.
pub open spec fn is_hex_digit(byte: u8, value: int) -> bool {
    ||| 0 <= value <= 9 && byte == '0' as int + value
    ||| 10 <= value <= 15 && byte == 'a' as int + (value - 10)
    ||| 10 <= value <= 15 && byte == 'A' as int + (value - 10)
}

/// Whether a byte is a hexadecimal digit.
pub open spec fn is_hex(byte: u8) -> bool {
    exists|value: int| is_hex_digit(byte, value)
}

/// The id of an era is a number where it has sixteen hexadecimal digits, and then it has just
/// these digits.
pub proof fn law_an_era_id_has_sixteen_digits(era_id: &str, number: Option<u64>)
    requires
        call_ensures(calls::parse_era_id, (era_id,), number),
    ensures
        number is Some ==> vstd::utf8::encode_utf8(era_id@).len() == 16,
        number is Some ==> forall|i: int|
            0 <= i < 16 ==> is_hex_digit(
                #[trigger] vstd::utf8::encode_utf8(era_id@)[i],
                (number->0 as int / vstd::arithmetic::power::pow(16, (15 - i) as nat)) % 16,
            ),
        number is None && vstd::utf8::encode_utf8(era_id@).len() == 16 ==> exists|i: int|
            0 <= i < 16 && !is_hex(#[trigger] vstd::utf8::encode_utf8(era_id@)[i]),
{
    let digits = vstd::utf8::encode_utf8(era_id@);
    if number is Some {
        assert forall|i: int| 0 <= i < 16 implies is_hex_digit(
            #[trigger] digits[i],
            (number->0 as int / vstd::arithmetic::power::pow(16, (15 - i) as nat)) % 16,
        ) by {
            lemma_digit(digits, number->0 as nat, i);
        }
    } else if digits.len() == 16 {
        let i = lemma_no_digit(digits);
        assert(!is_hex(digits[i]));
    }
}

proof fn lemma_digit(digits: Seq<u8>, value: nat, i: int)
    requires
        calls::hex_value(digits) == Some(value),
        0 <= i < digits.len(),
    ensures
        is_hex_digit(digits[i], (value as int / vstd::arithmetic::power::pow(16, (digits.len() - 1 - i) as nat)) % 16),
    decreases digits.len(),
{
    let before = digits.drop_last();
    let high = calls::hex_value(before)->0;
    let low = calls::hex_digit_value(digits.last())->0;
    assert(value == 16 * high + low);
    assert(0 <= low < 16);
    if i == digits.len() - 1 {
        reveal(vstd::arithmetic::power::pow);
        assert(vstd::arithmetic::power::pow(16, 0) == 1);
        assert(value as int % 16 == low) by (nonlinear_arith)
            requires
                value == 16 * high + low,
                0 <= low < 16,
        ;
    } else {
        lemma_digit(before, high, i);
        let k = (before.len() - 1 - i) as nat;
        reveal(vstd::arithmetic::power::pow);
        assert(vstd::arithmetic::power::pow(16, k + 1) == 16 * vstd::arithmetic::power::pow(16, k));
        vstd::arithmetic::power::lemma_pow_positive(16, k);
        vstd::arithmetic::div_mod::lemma_div_denominator(value as int, 16, vstd::arithmetic::power::pow(16, k));
        assert(value as int / 16 == high) by (nonlinear_arith)
            requires
                value == 16 * high + low,
                0 <= low < 16,
        ;
        assert(before[i] == digits[i]);
    }
}

proof fn lemma_no_digit(digits: Seq<u8>) -> (i: int)
    requires
        calls::hex_value(digits) is None,
    ensures
        0 <= i < digits.len(),
        forall|value: int| !is_hex_digit(digits[i], value),
    decreases digits.len(),
{
    if calls::hex_digit_value(digits.last()) is None {
        let i = digits.len() - 1;
        assert forall|value: int| !is_hex_digit(digits[i], value) by {}
        i
    } else {
        let before = digits.drop_last();
        let i = lemma_no_digit(before);
        assert(before[i] == digits[i]);
        i
    }
}

/// A call goes by the number of its era, and never by zero; an era without a number goes by the
/// first eight bytes of its hash.
pub proof fn law_a_call_goes_by_its_era(
    era_id: &str,
    digest: Vec<u8>,
    number: Option<u64>,
    call_id: u64,
)
    requires
        call_ensures(calls::parse_era_id, (era_id,), number),
        call_ensures(calls::call_id_with_digest, (era_id, &digest), call_id),
        digest@.len() == 32,
    ensures
        number is Some && number->0 != 0 ==> call_id == number->0,
        number is Some && number->0 == 0 ==> call_id == u64::MAX,
        number is None ==> call_id == endian::le_value(digest@.take(8)),
{
}

/// The hash of an era is that of its id.
pub proof fn law_the_hash_is_that_of_the_era(
    era_id: &str,
    digest: Vec<u8>,
    call_id: u64,
    same: u64,
)
    requires
        call_ensures(calls::call_id_from_era_id, (era_id,), call_id),
        digest@ == calls::sha256_of(vstd::utf8::encode_utf8(era_id@)),
        digest@.len() == 32,
        call_ensures(calls::call_id_with_digest, (era_id, &digest), same),
    ensures
        call_id == same,
{
}

/// The other side of a call is a person, by the uuid, or a group, by its key; its thread is the
/// one with that person or of that group.
pub proof fn law_the_other_side_is_a_person_or_a_group(
    peer: CallPeer,
    id: String,
    thread: Thread,
)
    requires
        call_ensures(CallPeer::peer_id, (&peer,), id),
        call_ensures(CallPeer::to_thread, (&peer,), thread),
    ensures
        peer matches CallPeer::Direct(uuid) ==> {
            &&& id@ == text::uuid_text(uuid.bytes@)
            &&& thread is Contact
            &&& thread->Contact_0 is Aci
            &&& thread->Contact_0->Aci_0.uuid.bytes@ == uuid.bytes@
        },
        peer matches CallPeer::Group(key) ==> {
            &&& id@ == text::hex_text(key@)
            &&& thread is Group
            &&& thread->Group_0@ == key@
        },
{
}

/// The group with a public id is the first one that is stored with it.
pub proof fn law_a_group_is_found_by_its_id(
    groups: Vec<GroupIdentity>,
    id: [u8; 32],
    key: Option<[u8; 32]>,
)
    requires
        call_ensures(calls::resolve_group_master_key_from_group_id, (&groups, &id), key),
    ensures
        key is None <==> forall|i: int|
            0 <= i < groups@.len() ==> (#[trigger] groups@[i]).group_id@ != id@,
        key is Some ==> exists|i: int|
            0 <= i < groups@.len() && (#[trigger] groups@[i]).group_id@ == id@
                && groups@[i].master_key@ == key->0@ && forall|j: int|
                0 <= j < i ==> (#[trigger] groups@[j]).group_id@ != id@,
{
    lemma_found(groups@, id@);
}

proof fn lemma_found(groups: Seq<GroupIdentity>, id: Seq<u8>)
    ensures
        calls::master_key_of(groups, id) is None <==> forall|i: int|
            0 <= i < groups.len() ==> (#[trigger] groups[i]).group_id@ != id,
        calls::master_key_of(groups, id) matches Some(key) ==> exists|i: int|
            0 <= i < groups.len() && (#[trigger] groups[i]).group_id@ == id
                && groups[i].master_key@ == key && forall|j: int|
                0 <= j < i ==> (#[trigger] groups[j]).group_id@ != id,
    decreases groups.len(),
{
    if groups.len() > 0 && groups[0].group_id@ != id {
        let rest = groups.skip(1);
        lemma_found(rest, id);
        assert forall|i: int| 0 <= i < rest.len() implies #[trigger] rest[i] == groups[i + 1] by {}
        if calls::master_key_of(rest, id) is None {
            assert forall|i: int| 0 <= i < groups.len() implies (#[trigger] groups[i]).group_id@
                != id by {
                if i > 0 {
                    assert(rest[i - 1] == groups[i]);
                }
            }
        } else {
            let key = calls::master_key_of(rest, id)->0;
            let i = choose|i: int|
                0 <= i < rest.len() && (#[trigger] rest[i]).group_id@ == id
                    && rest[i].master_key@ == key && forall|j: int|
                    0 <= j < i ==> (#[trigger] rest[j]).group_id@ != id;
            assert(groups[i + 1].group_id@ == id);
            assert forall|j: int| 0 <= j < i + 1 implies (#[trigger] groups[j]).group_id@ != id by {
                if j > 0 {
                    assert(rest[j - 1] == groups[j]);
                }
            }
        }
    }
}

/// A call of two is with the person that it names, one of a group with the group of that id;
/// other calls have no other side.
pub proof fn law_a_call_finds_its_other_side(
    info: CallEventInfo,
    groups: Vec<GroupIdentity>,
    id: [u8; 32],
    key: Option<[u8; 32]>,
    peer: Option<CallPeer>,
)
    requires
        call_ensures(calls::resolve_call_peer, (&info, &groups), peer),
        call_ensures(calls::resolve_group_master_key_from_group_id, (&groups, &id), key),
    ensures
        info.mode is Direct && info.conversation_id@.len() == 16 ==> peer is Some && peer->0 is Direct
            && peer->0->Direct_0.bytes@ == info.conversation_id@,
        info.mode is Direct && info.conversation_id@.len() != 16 ==> peer is None,
        info.mode is Group && info.conversation_id@ == id@ && key is Some ==> peer is Some
            && peer->0 is Group && peer->0->Group_0@ == key->0@,
        info.mode is Group && info.conversation_id@ == id@ && key is None ==> peer is None,
        info.mode is Group && info.conversation_id@.len() != 32 ==> peer is None,
        info.mode is Adhoc || info.mode is Unknown ==> peer is None,
{
    broadcast use text::lemma_bytes_view;

    assert(info.deep_view().conversation_id == info.conversation_id.deep_view());
    assert(id@.len() == 32);
    if peer is Some {
        assert(peer.deep_view() == Some(peer->0.deep_view()));
    }
}

/// A content that reports a call belongs to the thread with its other side; any other content to
/// none of these.
pub proof fn law_a_call_belongs_to_its_thread(
    content: Content,
    groups: Vec<GroupIdentity>,
    info: Option<CallEventInfo>,
    peer: Option<CallPeer>,
    thread: Option<Thread>,
)
    requires
        call_ensures(calls::resolve_call_thread, (&content, &groups), thread),
        call_ensures(calls::extract_call_event, (&content.body,), info),
        info is Some ==> call_ensures(calls::resolve_call_peer, (&info->0, &groups), peer),
    ensures
        info is None ==> thread is None,
        info is Some ==> (thread is Some <==> peer is Some),
        info is Some && peer is Some ==> {
            &&& peer->0 matches CallPeer::Direct(uuid) ==> thread->0 is Contact
                && thread->0->Contact_0 is Aci && thread->0->Contact_0->Aci_0.uuid.bytes@
                == uuid.bytes@
            &&& peer->0 matches CallPeer::Group(key) ==> thread->0 is Group && thread->0->Group_0@
                == key@
        },
{
    if info is Some {
        assert(info.deep_view() == Some(info->0.deep_view()));
        if peer is Some {
            assert(peer.deep_view() == Some(peer->0.deep_view()));
        }
    }
}

/// An entry of the history names the call of the event: its id, the other side, the mode, the
/// type and the direction; its time is that of the first event.
pub proof fn law_an_entry_names_its_call(
    prev: Option<&CallHistoryEntry>,
    info: CallEventInfo,
    peer_id: String,
    entry: Option<CallHistoryEntry>,
)
    requires
        call_ensures(calls::transition_call_history, (prev, &info, peer_id), entry),
    ensures
        entry is Some <==> info.mode is Direct || info.mode is Group,
        entry is Some ==> {
            &&& entry->0.call_id == info.call_id
            &&& entry->0.peer_id@ == peer_id@
            &&& entry->0.mode == info.mode
            &&& entry->0.call_type == info.call_type
            &&& entry->0.direction == info.direction
            &&& prev is None ==> entry->0.timestamp_ms == info.timestamp_ms
            &&& prev is Some ==> entry->0.timestamp_ms == prev->0.timestamp_ms
            &&& info.mode is Direct <==> entry->0.status is Direct
        },
{
    if entry is Some {
        assert(entry.deep_view() == Some(entry->0.deep_view()));
    }
}

/// What an event makes of a call of two: an answer and a deletion say so themselves; a call that
/// was not answered was missed, one that was only seen is pending, and an event of another kind
/// leaves it as it was. Nothing undoes a deletion, and only a deletion an answer.
pub proof fn law_an_event_of_a_direct_call_tells(
    prev: Option<&CallHistoryEntry>,
    info: CallEventInfo,
    peer_id: String,
    entry: Option<CallHistoryEntry>,
)
    requires
        call_ensures(calls::transition_call_history, (prev, &info, peer_id), entry),
        info.mode is Direct,
    ensures
        ({
            let was = if prev is Some && prev->0.status is Direct {
                Some(prev->0.status->Direct_0)
            } else {
                None
            };
            let now = entry->0.status->Direct_0;
            &&& entry is Some
            &&& entry->0.status is Direct
            &&& info.event is Delete ==> now is Deleted
            &&& was == Some(DirectCallStatus::Deleted) ==> now is Deleted
            &&& was != Some(DirectCallStatus::Deleted) && info.event is Accepted ==> now is Accepted
            &&& was == Some(DirectCallStatus::Accepted) && !(info.event is Delete)
                ==> now is Accepted
            &&& was != Some(DirectCallStatus::Deleted) && was != Some(DirectCallStatus::Accepted)
                ==> {
                &&& info.event is NotAccepted ==> now is Missed
                &&& info.event is Observed ==> now is Pending
                &&& info.event is Unknown && was is Some ==> Some(now) == was
                &&& info.event is Unknown && was is None ==> now is Pending
            }
        }),
{
    if entry is Some {
        assert(entry.deep_view() == Some(entry->0.deep_view()));
    }
}

/// What an event makes of a call of a group: whoever accepts it has joined; one that came in and
/// was not accepted was missed, one that went out, or was only seen, is a call like any other; an
/// event of another kind leaves it as it was. Nothing undoes a deletion, and only a deletion that
/// the call was joined.
pub proof fn law_an_event_of_a_group_call_tells(
    prev: Option<&CallHistoryEntry>,
    info: CallEventInfo,
    peer_id: String,
    entry: Option<CallHistoryEntry>,
)
    requires
        call_ensures(calls::transition_call_history, (prev, &info, peer_id), entry),
        info.mode is Group,
    ensures
        ({
            let was = if prev is Some && prev->0.status is Group {
                Some(prev->0.status->Group_0)
            } else {
                None
            };
            let now = entry->0.status->Group_0;
            &&& entry is Some
            &&& entry->0.status is Group
            &&& info.event is Delete ==> now is Deleted
            &&& was == Some(GroupCallStatus::Deleted) ==> now is Deleted
            &&& was != Some(GroupCallStatus::Deleted) && info.event is Accepted ==> now is Joined
            &&& was == Some(GroupCallStatus::Joined) && !(info.event is Delete) ==> now is Joined
            &&& was != Some(GroupCallStatus::Deleted) && was != Some(GroupCallStatus::Joined) ==> {
                &&& info.event is Observed ==> now is Generic
                &&& info.event is NotAccepted && info.direction is Incoming ==> now is Missed
                &&& info.event is NotAccepted && info.direction is Outgoing ==> now is Generic
                &&& info.event is Unknown && was is Some ==> Some(now) == was
                &&& info.event is Unknown && was is None ==> now is Generic
                &&& info.event is NotAccepted && info.direction is Unknown && was is Some ==> Some(
                    now,
                ) == was
            }
        }),
{
    if entry is Some {
        assert(entry.deep_view() == Some(entry->0.deep_view()));
    }
}

} // verus!

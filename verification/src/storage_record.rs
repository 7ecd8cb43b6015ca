//! Editing storage-service records without re-encoding them.
//!
//! A storage-service record must be republished byte for byte apart from the field
//! being changed. Decoding one into a struct and encoding it back would drop every
//! field the struct does not model, deleting whatever a newer client wrote. So the
//! operations here are deliberately dumb: walk the wire format, copy every field
//! through verbatim, and touch exactly one.
use std::ops::Range;
use vstd::prelude::*;
use vstd::slice::slice_subrange;

use crate::text;
use crate::wire;
use crate::wire::{WireField, WIRE_I32, WIRE_I64, WIRE_LEN, WIRE_VARINT};

verus! {

/// `StorageRecord.contact`.
pub const STORAGE_RECORD_CONTACT: u32 = 1;

/// `StorageRecord.groupV2`.
pub const STORAGE_RECORD_GROUP_V2: u32 = 3;

/// `ContactRecord.blocked`.
pub const CONTACT_RECORD_BLOCKED: u32 = 9;

/// `ContactRecord.mutedUntilTimestamp`.
pub const CONTACT_RECORD_MUTED_UNTIL: u32 = 13;

/// `GroupV2Record.mutedUntilTimestamp`.
pub const GROUP_V2_RECORD_MUTED_UNTIL: u32 = 6;

#[derive(Debug, Clone, Copy, PartialEq, Eq, Structural)]
pub enum StorageRecordEditError {
    /// Malformed protobuf in the stored record.
    Malformed,
    /// The stored record does not hold the expected record type.
    WrongRecordType,
    /// The stored record holds more than one record of a type. Picking one would
    /// silently discard the other, so refuse rather than guess.
    AmbiguousRecord,
}

/// One field as it appears on the wire.
pub struct FieldSpan {
    pub number: u32,
    pub wire_type: u8,
    /// Tag and payload together: what gets copied through verbatim.
    pub whole: Range<usize>,
    /// Payload only; for length-delimited fields this leaves out the length prefix.
    pub payload: Range<usize>,
}

impl FieldSpan {
    /// The span lies inside a message of `len` bytes.
    pub open spec fn within(self, len: nat) -> bool {
        &&& self.whole.start <= self.payload.start <= self.payload.end
        &&& self.payload.end == self.whole.end
        &&& self.whole.end <= len
    }

    /// The field that the span marks in `msg`.
    pub open spec fn field(self, msg: Seq<u8>) -> WireField {
        WireField {
            number: self.number,
            wire_type: self.wire_type,
            whole: msg.subrange(self.whole.start as int, self.whole.end as int),
            payload: msg.subrange(self.payload.start as int, self.payload.end as int),
        }
    }
}

/// The fields that `spans` mark in `msg`.
pub open spec fn spanned(msg: Seq<u8>, spans: Seq<FieldSpan>) -> Seq<WireField> {
    Seq::new(spans.len(), |i: int| spans[i].field(msg))
}

/// `spans` cover the first `end` bytes of a message, one after another.
pub open spec fn tiles(spans: Seq<FieldSpan>, end: nat) -> bool {
    &&& forall|i: int| #![trigger spans[i]] 0 <= i < spans.len() ==> spans[i].within(end)
    &&& forall|i: int, j: int|
        #![trigger spans[i], spans[j]]
        0 <= i < spans.len() && j == i + 1 && j < spans.len() ==> spans[i].whole.end
            == spans[j].whole.start
    &&& spans.len() == 0 ==> end == 0
    &&& spans.len() > 0 ==> spans[0].whole.start == 0 && spans.last().whole.end == end
}

/// Reads the varint at `*pos`, and moves `*pos` past it.
fn read_varint(msg: &[u8], pos: &mut usize) -> (r: Result<u64, StorageRecordEditError>)
    requires
        *old(pos) <= msg@.len(),
    ensures
        match r {
            Ok(value) => wire::varint(msg@.skip(*old(pos) as int)) == Some(
                (value, (*final(pos) - *old(pos)) as nat),
            ) && *old(pos) < *final(pos) <= msg@.len(),
            Err(e) => e == StorageRecordEditError::Malformed && wire::varint(
                msg@.skip(*old(pos) as int),
            )
                is None,
        },
{
    let start: usize = *pos;
    let ghost bytes = msg@.skip(start as int);
    let mut value: u64 = 0;
    let mut shift: u64 = 0;
    let mut i: usize = 0;
    proof {
        assert(bytes.skip(0) =~= bytes);
        assert(forall|x: u64| #[trigger] (0u64 | (x << 0u64)) == x) by (bit_vector);
    }
    while i < 10
        invariant
            0 <= i <= 10,
            shift == 7 * i,
            start == *old(pos),
            start + i <= msg@.len(),
            *pos == start + i,
            bytes == msg@.skip(start as int),
            match wire::varint_within(bytes.skip(i as int), (10 - i) as nat) {
                Some((high, len)) => wire::varint(bytes) == Some(
                    (value | (high << shift), (len + i) as nat),
                ),
                None => wire::varint(bytes) is None,
            },
        decreases 10 - i,
    {
        if *pos >= msg.len() {
            return Err(StorageRecordEditError::Malformed);
        }
        let byte = msg[*pos];
        *pos = *pos + 1;
        let group: u64 = (byte & 0x7f) as u64;
        let before: u64 = value;
        value = value | (group << shift);
        proof {
            let here = bytes.skip(i as int);
            assert(here[0] == byte);
            assert(here.skip(1) =~= bytes.skip(i + 1));
            if byte & 0x80 != 0 {
                if let Some((high, len)) = wire::varint_within(
                    bytes.skip(i + 1),
                    (10 - (i + 1)) as nat,
                ) {
                    if i < 9 {
                        let s = shift;
                        let next = (s + 7) as u64;
                        assert((before | ((group | (high << 7u64)) << s)) == ((before | (group
                            << s)) | (high << next))) by (bit_vector)
                            requires
                                s <= 56,
                                next == s + 7,
                        ;
                    }
                }
            }
        }
        if byte & 0x80 == 0 {
            return Ok(value);
        }
        i = i + 1;
        shift = shift + 7;
    }
    Err(StorageRecordEditError::Malformed)
}

/// Moves `*pos` on by `by`, unless that leaves a message of `len` bytes.
fn advance(pos: &mut usize, by: usize, len: usize) -> (r: Result<usize, StorageRecordEditError>)
    ensures
        match r {
            Ok(start) => start == *old(pos) && *final(pos) == *old(pos) + by && *final(pos) <= len,
            Err(e) => e == StorageRecordEditError::Malformed && *final(pos) == *old(pos) && *old(
                pos,
            ) + by > len,
        },
{
    match pos.checked_add(by) {
        None => Err(StorageRecordEditError::Malformed),
        Some(end) => {
            if end > len {
                return Err(StorageRecordEditError::Malformed);
            }
            let start: usize = *pos;
            *pos = end;
            Ok(start)
        },
    }
}

/// Reads the field at `start`.
fn scan_field(msg: &[u8], start: usize) -> (r: Result<FieldSpan, StorageRecordEditError>)
    requires
        start < msg@.len(),
    ensures
        match r {
            Ok(span) => span.within(msg@.len()) && span.whole.start == start && span.whole.end
                > start && wire::first_field(msg@.skip(start as int)) == Some(span.field(msg@)),
            Err(e) => e == StorageRecordEditError::Malformed && wire::first_field(
                msg@.skip(start as int),
            ) is None,
        },
{
    let mut pos: usize = start;
    let ghost front = msg@.skip(start as int);
    let tag: u64 = match read_varint(msg, &mut pos) {
        Ok(tag) => tag,
        Err(e) => return Err(e),
    };
    let number: u32 = (tag >> 3) as u32;
    let wire_type: u8 = (tag & 0x07) as u8;
    if number == 0 {
        return Err(StorageRecordEditError::Malformed);
    }
    let after_tag: usize = pos;
    let ghost rest = msg@.skip(after_tag as int);
    proof {
        assert(front.skip(after_tag - start) =~= rest);
    }
    let from: usize;
    if wire_type == WIRE_VARINT {
        from = pos;
        match read_varint(msg, &mut pos) {
            Ok(_) => {},
            Err(e) => return Err(e),
        }
    } else if wire_type == WIRE_I64 {
        from = match advance(&mut pos, 8, msg.len()) {
            Ok(from) => from,
            Err(e) => return Err(e),
        };
    } else if wire_type == WIRE_LEN {
        let len: usize = match read_varint(msg, &mut pos) {
            Ok(len) => len as usize,
            Err(e) => return Err(e),
        };
        from = match advance(&mut pos, len, msg.len()) {
            Ok(from) => from,
            Err(e) => return Err(e),
        };
    } else if wire_type == WIRE_I32 {
        from = match advance(&mut pos, 4, msg.len()) {
            Ok(from) => from,
            Err(e) => return Err(e),
        };
    } else {
        // Groups were removed in proto3 and no client emits them.
        return Err(StorageRecordEditError::Malformed);
    }
    let span = FieldSpan { number, wire_type, whole: start..pos, payload: from..pos };
    proof {
        assert(wire::payload_extent(rest, wire_type) == Some(
            ((from - after_tag) as nat, (pos - from) as nat),
        ));
        assert(front.take(pos - start) =~= span.field(msg@).whole);
        assert(front.subrange(from - start, pos - start) =~= span.field(msg@).payload);
    }
    Ok(span)
}

/// Split a message into its fields, in wire order.
pub fn scan(msg: &[u8]) -> (r: Result<Vec<FieldSpan>, StorageRecordEditError>)
    ensures
        match r {
            Ok(spans) => wire::fields(msg@) == Some(spanned(msg@, spans@)) && tiles(
                spans@,
                msg@.len(),
            ),
            Err(e) => e == StorageRecordEditError::Malformed && wire::fields(msg@) is None,
        },
{
    let mut spans: Vec<FieldSpan> = Vec::new();
    let mut pos: usize = 0;
    proof {
        assert(msg@.skip(0) =~= msg@);
        if let Some(all) = wire::fields(msg@) {
            assert(spanned(msg@, spans@) + all =~= all);
        }
    }
    while pos < msg.len()
        invariant
            pos <= msg@.len(),
            tiles(spans@, pos as nat),
            match wire::fields(msg@.skip(pos as int)) {
                Some(rest) => wire::fields(msg@) == Some(spanned(msg@, spans@) + rest),
                None => wire::fields(msg@) is None,
            },
        decreases msg@.len() - pos,
    {
        let span = match scan_field(msg, pos) {
            Ok(span) => span,
            Err(e) => return Err(e),
        };
        let end: usize = span.whole.end;
        proof {
            let here = msg@.skip(pos as int);
            assert(here.skip(end - pos) =~= msg@.skip(end as int));
            if let Some(rest) = wire::fields(msg@.skip(end as int)) {
                assert(spanned(msg@, spans@) + (seq![span.field(msg@)] + rest) =~= spanned(
                    msg@,
                    spans@.push(span),
                ) + rest);
            }
        }
        spans.push(span);
        pos = end;
    }
    proof {
        assert(msg@.skip(pos as int) =~= Seq::<u8>::empty());
        assert(spanned(msg@, spans@) + Seq::<WireField>::empty() =~= spanned(msg@, spans@));
    }
    Ok(spans)
}

/// What [`set_field`] makes of `msg`.
pub open spec fn field_set(msg: Seq<u8>, number: u32, replacement: Option<Seq<u8>>) -> Result<
    Seq<u8>,
    StorageRecordEditError,
> {
    match wire::fields(msg) {
        None => Err(StorageRecordEditError::Malformed),
        Some(list) => Ok(wire::rewritten(list, number, replacement.unwrap_or(Seq::empty()))),
    }
}

pub open spec fn bytes_of(replacement: Option<&[u8]>) -> Option<Seq<u8>> {
    match replacement {
        Some(bytes) => Some(bytes@),
        None => None,
    }
}

pub open spec fn same_bytes(
    r: Result<Vec<u8>, StorageRecordEditError>,
    expected: Result<Seq<u8>, StorageRecordEditError>,
) -> bool {
    match r {
        Ok(out) => expected == Ok::<Seq<u8>, StorageRecordEditError>(out@),
        Err(e) => expected == Err::<Seq<u8>, StorageRecordEditError>(e),
    }
}

/// Writing nothing in a field's place is taking the field out.
proof fn lemma_rewritten_empty(list: Seq<WireField>, number: u32)
    ensures
        wire::rewritten(list, number, Seq::empty()) == wire::joined(wire::others(list, number)),
    decreases list.len(),
{
    if list.len() > 0 {
        lemma_rewritten_empty(list.skip(1), number);
        let kept = wire::others(list.skip(1), number);
        if list[0].number == number {
            assert(Seq::<u8>::empty() + wire::joined(kept) =~= wire::joined(kept));
        } else {
            assert((seq![list[0]] + kept).skip(1) =~= kept);
        }
    }
}

/// Rewrite `msg` so that field `number` occurs exactly as `replacement` says: once,
/// in the position the first existing occurrence held, or not at all.
///
/// Every other field keeps its bytes and its position. A field that was absent is
/// appended, which is where a protobuf encoder would have put it anyway.
pub fn set_field(msg: &[u8], number: u32, replacement: Option<&[u8]>) -> (r: Result<
    Vec<u8>,
    StorageRecordEditError,
>)
    ensures
        same_bytes(r, field_set(msg@, number, bytes_of(replacement))),
{
    let spans = match scan(msg) {
        Ok(spans) => spans,
        Err(e) => return Err(e),
    };
    let ghost list = spanned(msg@, spans@);
    let ghost put = bytes_of(replacement).unwrap_or(Seq::empty());
    let mut out: Vec<u8> = Vec::new();
    let mut placed: bool = false;
    let mut i: usize = 0;
    proof {
        assert(list.skip(0) =~= list);
        assert(Seq::<u8>::empty() + wire::rewritten(list, number, put)
            =~= wire::rewritten(list, number, put));
    }
    while i < spans.len()
        invariant
            i <= spans@.len(),
            tiles(spans@, msg@.len()),
            list == spanned(msg@, spans@),
            put == bytes_of(replacement).unwrap_or(Seq::empty()),
            placed ==> replacement is Some,
            wire::rewritten(list, number, put) == out@ + (if placed {
                wire::joined(wire::others(list.skip(i as int), number))
            } else {
                wire::rewritten(list.skip(i as int), number, put)
            }),
        decreases spans@.len() - i,
    {
        let span = &spans[i];
        let ghost here = list.skip(i as int);
        let ghost before = out@;
        proof {
            assert(here[0] == span.field(msg@));
            assert(here.skip(1) =~= list.skip(i + 1));
            let kept = wire::others(list.skip(i + 1), number);
            assert((seq![here[0]] + kept).skip(1) =~= kept);
            lemma_rewritten_empty(list.skip(i + 1), number);
        }
        if span.number == number {
            // Duplicates of a scalar are legal and last-wins, so collapsing them to
            // the single value being written is the correct reading.
            if let Some(bytes) = replacement {
                if !placed {
                    out.extend_from_slice(bytes);
                    placed = true;
                    proof {
                        let tail = wire::joined(wire::others(list.skip(i + 1), number));
                        assert(before + (put + tail) =~= out@ + tail);
                    }
                }
            } else {
                proof {
                    let tail = wire::joined(wire::others(list.skip(i + 1), number));
                    assert(put + tail =~= tail);
                }
            }
        } else {
            out.extend_from_slice(slice_subrange(msg, span.whole.start, span.whole.end));
            proof {
                let tail = if placed {
                    wire::joined(wire::others(list.skip(i + 1), number))
                } else {
                    wire::rewritten(list.skip(i + 1), number, put)
                };
                assert(before + (here[0].whole + tail) =~= out@ + tail);
            }
        }
        i = i + 1;
    }
    proof {
        assert(list.skip(i as int) =~= Seq::<WireField>::empty());
        assert(wire::joined(wire::others(list.skip(i as int), number)) =~= Seq::<u8>::empty());
        assert(out@ + Seq::<u8>::empty() =~= out@);
    }
    if !placed {
        if let Some(bytes) = replacement {
            let ghost before = out@;
            out.extend_from_slice(bytes);
            assert(out@ =~= before + put);
        }
    }
    Ok(out)
}

/// Appends the shortest varint with the given value.
pub fn encode_varint(value: u64, out: &mut Vec<u8>)
    ensures
        final(out)@ == old(out)@ + wire::varint_bytes(value),
{
    let mut value: u64 = value;
    let ghost all = out@ + wire::varint_bytes(value);
    while value >= 0x80
        invariant
            out@ + wire::varint_bytes(value) == all,
        decreases value,
    {
        let byte: u8 = (value as u8) | 0x80;
        let ghost before = out@;
        let ghost was = value;
        out.push(byte);
        proof {
            assert(value >= 0x80 ==> (value >> 7) < value) by (bit_vector);
            assert(before + (seq![byte] + wire::varint_bytes(value >> 7))
                =~= out@ + wire::varint_bytes(value >> 7));
        }
        value = value >> 7;
    }
    out.push(value as u8);
}

pub fn encode_tag(number: u32, wire_type: u8, out: &mut Vec<u8>)
    ensures
        final(out)@ == old(out)@ + wire::varint_bytes(wire::tag(number, wire_type)),
{
    encode_varint(((number as u64) << 3) | (wire_type as u64), out);
}

/// A varint field.
pub fn encode_varint_field(number: u32, value: u64) -> (out: Vec<u8>)
    ensures
        out@ == wire::varint_field_bytes(number, value),
{
    let mut out: Vec<u8> = Vec::new();
    encode_tag(number, WIRE_VARINT, &mut out);
    encode_varint(value, &mut out);
    out
}

/// A length-delimited field.
pub fn encode_len_delimited(number: u32, payload: &[u8]) -> (out: Vec<u8>)
    ensures
        out@ == wire::len_field_bytes(number, payload@),
{
    let mut out: Vec<u8> = Vec::new();
    encode_tag(number, WIRE_LEN, &mut out);
    encode_varint(payload.len() as u64, &mut out);
    out.extend_from_slice(payload);
    out
}

/// The single payload of field `record_field` of `record`, or why there is none.
pub open spec fn payload_of(record: Seq<u8>, record_field: u32) -> Result<
    Seq<u8>,
    StorageRecordEditError,
> {
    match wire::fields(record) {
        None => Err(StorageRecordEditError::Malformed),
        Some(list) => {
            let found = wire::numbered(list, record_field);
            if found.len() == 0 {
                Err(StorageRecordEditError::WrongRecordType)
            } else if found.len() > 1 {
                Err(StorageRecordEditError::AmbiguousRecord)
            } else {
                Ok(found[0].payload)
            }
        },
    }
}

/// The single payload of `StorageRecord` field `record_field`, or an error saying
/// why not. `record_field` picks the arm of the oneof: contact, group, account.
pub fn record_payload(record: &[u8], record_field: u32) -> (r: Result<
    Range<usize>,
    StorageRecordEditError,
>)
    ensures
        match r {
            Ok(range) => range.start <= range.end <= record@.len() && payload_of(
                record@,
                record_field,
            ) == Ok::<Seq<u8>, StorageRecordEditError>(
                record@.subrange(range.start as int, range.end as int),
            ),
            Err(e) => payload_of(record@, record_field) == Err::<Seq<u8>, StorageRecordEditError>(
                e,
            ),
        },
{
    let spans = match scan(record) {
        Ok(spans) => spans,
        Err(e) => return Err(e),
    };
    let ghost list = spanned(record@, spans@);
    let mut first: Option<usize> = None;
    let mut i: usize = 0;
    proof {
        assert(list.skip(0) =~= list);
    }
    while i < spans.len()
        invariant
            i <= spans@.len(),
            tiles(spans@, record@.len()),
            list == spanned(record@, spans@),
            wire::fields(record@) == Some(list),
            first matches Some(at) ==> at < spans@.len(),
            wire::numbered(list, record_field) =~= (match first {
                Some(at) => seq![list[at as int]],
                None => Seq::empty(),
            }) + wire::numbered(list.skip(i as int), record_field),
        decreases spans@.len() - i,
    {
        proof {
            let here = list.skip(i as int);
            assert(here[0] == list[i as int]);
            assert(here.skip(1) =~= list.skip(i + 1));
        }
        if spans[i].number == record_field {
            if first.is_some() {
                return Err(StorageRecordEditError::AmbiguousRecord);
            }
            first = Some(i);
        }
        i = i + 1;
    }
    proof {
        assert(list.skip(i as int) =~= Seq::<WireField>::empty());
    }
    match first {
        None => Err(StorageRecordEditError::WrongRecordType),
        Some(at) => {
            proof {
                assert(list[at as int] == spans[at as int].field(record@));
            }
            Ok(spans[at].payload.start..spans[at].payload.end)
        },
    }
}

/// The last-wins varint value of field `number` inside the `record_field` payload.
pub open spec fn varint_of(record: Seq<u8>, record_field: u32, number: u32) -> Result<
    u64,
    StorageRecordEditError,
> {
    match payload_of(record, record_field) {
        Err(e) => Err(e),
        Ok(inner) => match wire::fields(inner) {
            None => Err(StorageRecordEditError::Malformed),
            Some(list) => {
                let found = wire::numbered(list, number);
                if found.len() == 0 {
                    Ok(0)
                } else if found.last().wire_type != WIRE_VARINT {
                    Err(StorageRecordEditError::Malformed)
                } else {
                    Ok((wire::varint(found.last().payload)->0).0)
                }
            },
        },
    }
}

/// A varint field's payload is that varint, and nothing else.
proof fn lemma_varint_payload(msg: Seq<u8>, list: Seq<WireField>, i: int)
    requires
        wire::fields(msg) == Some(list),
        0 <= i < list.len(),
        list[i].wire_type == WIRE_VARINT,
    ensures
        wire::varint(list[i].payload) matches Some((_, len)) && len == list[i].payload.len(),
{
    wire::lemma_fields_joined(msg);
    let whole = list[i].whole;
    assert(wire::first_field(whole) == Some(list[i]));
    let (tag, tag_len) = wire::varint(whole)->0;
    wire::lemma_varint_within_len(whole, 10);
    let rest = whole.skip(tag_len as int);
    let (value, len) = wire::varint(rest)->0;
    wire::lemma_varint_within_len(rest, 10);
    wire::lemma_varint_within_take(rest, 10, len as int);
    assert(rest.take(len as int) =~= list[i].payload);
}

/// The last-wins varint value of field `number` inside the `record_field` payload,
/// or `0` when the field is absent (proto3 implicit presence).
fn record_varint_field(record: &[u8], record_field: u32, number: u32) -> (r: Result<
    u64,
    StorageRecordEditError,
>)
    ensures
        r == varint_of(record@, record_field, number),
{
    let payload = match record_payload(record, record_field) {
        Ok(payload) => payload,
        Err(e) => return Err(e),
    };
    let inner = slice_subrange(record, payload.start, payload.end);
    let spans = match scan(inner) {
        Ok(spans) => spans,
        Err(e) => return Err(e),
    };
    let ghost list = spanned(inner@, spans@);
    // Repeated scalars are last-wins.
    let mut last: Option<usize> = None;
    let mut i: usize = 0;
    let ghost mut seen: Seq<WireField> = Seq::empty();
    proof {
        assert(list.skip(0) =~= list);
    }
    while i < spans.len()
        invariant
            i <= spans@.len(),
            list == spanned(inner@, spans@),
            wire::numbered(list, number) =~= seen + wire::numbered(list.skip(i as int), number),
            match last {
                Some(at) => at < spans@.len() && seen.len() > 0 && seen.last() == list[at as int],
                None => seen.len() == 0,
            },
        decreases spans@.len() - i,
    {
        proof {
            let here = list.skip(i as int);
            assert(here[0] == list[i as int]);
            assert(here.skip(1) =~= list.skip(i + 1));
        }
        if spans[i].number == number {
            last = Some(i);
            proof {
                seen = seen.push(list[i as int]);
            }
        }
        i = i + 1;
    }
    proof {
        assert(list.skip(i as int) =~= Seq::<WireField>::empty());
        assert(wire::numbered(list, number) =~= seen);
    }
    match last {
        None => Ok(0),
        Some(at) => {
            if spans[at].wire_type != WIRE_VARINT {
                // Field numbers are stable, so this is not a newer client's copy of
                // the field: it is a record to draw no conclusions from.
                return Err(StorageRecordEditError::Malformed);
            }
            // Decode rather than look for a non-zero byte: `0x80 0x00` is a legal,
            // non-canonical encoding of zero.
            let mut pos: usize = spans[at].payload.start;
            proof {
                let field = list[at as int];
                lemma_varint_payload(inner@, list, at as int);
                let tail = inner@.skip(spans[at as int].payload.end as int);
                wire::lemma_varint_within_prefix(field.payload, tail, 10);
                assert(field.payload + tail =~= inner@.skip(pos as int));
            }
            read_varint(inner, &mut pos)
        },
    }
}

/// What [`set_record_field`] makes of `record`: where the edit changes nothing inside the
/// payload, the record as it is.
pub open spec fn record_field_set(
    record: Seq<u8>,
    record_field: u32,
    number: u32,
    replacement: Option<Seq<u8>>,
) -> Result<Seq<u8>, StorageRecordEditError> {
    match payload_of(record, record_field) {
        Err(e) => Err(e),
        Ok(inner) => match field_set(inner, number, replacement) {
            Err(e) => Err(e),
            Ok(new_inner) => if new_inner == inner {
                Ok(record)
            } else {
                field_set(
                    record,
                    record_field,
                    Some(wire::len_field_bytes(record_field, new_inner)),
                )
            },
        },
    }
}

/// Replace, or with `None` remove, one field inside the `record_field` payload,
/// preserving every other byte of both messages. Where that changes the payload, its tag
/// and its new length are written in front of it; where it does not, all of the record
/// stays as it is.
fn set_record_field(
    record: &[u8],
    record_field: u32,
    number: u32,
    replacement: Option<&[u8]>,
) -> (r: Result<Vec<u8>, StorageRecordEditError>)
    ensures
        same_bytes(r, record_field_set(record@, record_field, number, bytes_of(replacement))),
{
    let payload = match record_payload(record, record_field) {
        Ok(payload) => payload,
        Err(e) => return Err(e),
    };
    let inner = slice_subrange(record, payload.start, payload.end);
    let new_inner = match set_field(inner, number, replacement) {
        Ok(new_inner) => new_inner,
        Err(e) => return Err(e),
    };
    // An edit that changes nothing leaves the wrapper too, however its length was written.
    if text::bytes_equal(new_inner.as_slice(), inner) {
        return Ok(vstd::slice::slice_to_vec(record));
    }
    // Splice the wrapper rather than rebuilding it: reconstructing it would drop any
    // field a future client adds, which is the whole failure this module exists to
    // prevent.
    let wrapped = encode_len_delimited(record_field, new_inner.as_slice());
    set_field(record, record_field, Some(wrapped.as_slice()))
}

/// What [`contact_blocked`] reads.
pub open spec fn contact_blocked_of(record: Seq<u8>) -> Result<bool, StorageRecordEditError> {
    match varint_of(record, STORAGE_RECORD_CONTACT, CONTACT_RECORD_BLOCKED) {
        Ok(value) => Ok(value != 0),
        Err(e) => Err(e),
    }
}

/// Read `ContactRecord.blocked` out of an encoded `StorageRecord`.
pub fn contact_blocked(record: &[u8]) -> (r: Result<bool, StorageRecordEditError>)
    ensures
        r == contact_blocked_of(record@),
{
    match record_varint_field(record, STORAGE_RECORD_CONTACT, CONTACT_RECORD_BLOCKED) {
        Ok(value) => Ok(value != 0),
        Err(e) => Err(e),
    }
}

/// What [`set_contact_blocked`] makes of `record`.
pub open spec fn contact_blocked_set(record: Seq<u8>, blocked: bool) -> Result<
    Seq<u8>,
    StorageRecordEditError,
> {
    record_field_set(
        record,
        STORAGE_RECORD_CONTACT,
        CONTACT_RECORD_BLOCKED,
        if blocked {
            Some(wire::varint_field_bytes(CONTACT_RECORD_BLOCKED, 1))
        } else {
            None
        },
    )
}

/// Set `ContactRecord.blocked` on an encoded `StorageRecord`, preserving every other
/// byte of both messages.
///
/// `blocked = false` **removes** the field rather than writing an explicit zero.
/// `blocked` has proto3 implicit presence, so its default is its absence, and removal
/// is what the official clients emit.
pub fn set_contact_blocked(record: &[u8], blocked: bool) -> (r: Result<
    Vec<u8>,
    StorageRecordEditError,
>)
    ensures
        same_bytes(r, contact_blocked_set(record@, blocked)),
{
    if blocked {
        let replacement = encode_varint_field(CONTACT_RECORD_BLOCKED, 1);
        set_record_field(
            record,
            STORAGE_RECORD_CONTACT,
            CONTACT_RECORD_BLOCKED,
            Some(replacement.as_slice()),
        )
    } else {
        set_record_field(record, STORAGE_RECORD_CONTACT, CONTACT_RECORD_BLOCKED, None)
    }
}

/// Read `ContactRecord.mutedUntilTimestamp` out of an encoded `StorageRecord`. Absent
/// means not muted and reads as 0.
pub fn contact_muted_until(record: &[u8]) -> (r: Result<u64, StorageRecordEditError>)
    ensures
        r == varint_of(record@, STORAGE_RECORD_CONTACT, CONTACT_RECORD_MUTED_UNTIL),
{
    record_varint_field(record, STORAGE_RECORD_CONTACT, CONTACT_RECORD_MUTED_UNTIL)
}

/// Set `ContactRecord.mutedUntilTimestamp` on an encoded `StorageRecord`, preserving
/// every other byte of both messages. `0` removes the field.
pub fn set_contact_muted_until(record: &[u8], muted_until: u64) -> (r: Result<
    Vec<u8>,
    StorageRecordEditError,
>)
    ensures
        same_bytes(
            r,
            muted_until_set(
                record@,
                STORAGE_RECORD_CONTACT,
                CONTACT_RECORD_MUTED_UNTIL,
                muted_until,
            ),
        ),
{
    set_muted_until_field(record, STORAGE_RECORD_CONTACT, CONTACT_RECORD_MUTED_UNTIL, muted_until)
}

/// Read `GroupV2Record.mutedUntilTimestamp` out of an encoded `StorageRecord`. Absent
/// means not muted and reads as 0.
pub fn group_muted_until(record: &[u8]) -> (r: Result<u64, StorageRecordEditError>)
    ensures
        r == varint_of(record@, STORAGE_RECORD_GROUP_V2, GROUP_V2_RECORD_MUTED_UNTIL),
{
    record_varint_field(record, STORAGE_RECORD_GROUP_V2, GROUP_V2_RECORD_MUTED_UNTIL)
}

/// Set `GroupV2Record.mutedUntilTimestamp` on an encoded `StorageRecord`, preserving
/// every other byte of both messages, those that this library does not model
/// included. `0` removes the field.
pub fn set_group_muted_until(record: &[u8], muted_until: u64) -> (r: Result<
    Vec<u8>,
    StorageRecordEditError,
>)
    ensures
        same_bytes(
            r,
            muted_until_set(
                record@,
                STORAGE_RECORD_GROUP_V2,
                GROUP_V2_RECORD_MUTED_UNTIL,
                muted_until,
            ),
        ),
{
    set_muted_until_field(
        record,
        STORAGE_RECORD_GROUP_V2,
        GROUP_V2_RECORD_MUTED_UNTIL,
        muted_until,
    )
}

/// What [`set_muted_until_field`] makes of `record`.
pub open spec fn muted_until_set(
    record: Seq<u8>,
    record_field: u32,
    number: u32,
    muted_until: u64,
) -> Result<Seq<u8>, StorageRecordEditError> {
    record_field_set(
        record,
        record_field,
        number,
        if muted_until != 0 {
            Some(wire::varint_field_bytes(number, muted_until))
        } else {
            None
        },
    )
}

/// Write a mute expiry into whichever record holds one.
///
/// `0` (not muted) **removes** the field rather than writing an explicit zero; under
/// proto3 implicit presence the two are indistinguishable on decode. "Muted forever"
/// is `i64::MAX`.
fn set_muted_until_field(record: &[u8], record_field: u32, number: u32, muted_until: u64) -> (r:
    Result<Vec<u8>, StorageRecordEditError>)
    ensures
        same_bytes(r, muted_until_set(record@, record_field, number, muted_until)),
{
    if muted_until != 0 {
        let replacement = encode_varint_field(number, muted_until);
        set_record_field(record, record_field, number, Some(replacement.as_slice()))
    } else {
        set_record_field(record, record_field, number, None)
    }
}

} // verus!

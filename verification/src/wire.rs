//! The protobuf wire format, as mathematics.
//!
//! A message is a sequence of bytes; [`fields`] splits it into the fields it is
//! made of, or says that it is not a message. The functions of
//! [`storage_record`](crate::storage_record) are specified over that split.
use vstd::prelude::*;

verus! {

pub const WIRE_VARINT: u8 = 0;

pub const WIRE_I64: u8 = 1;

pub const WIRE_LEN: u8 = 2;

pub const WIRE_I32: u8 = 5;

/// How many bytes a varint may take.
pub open spec fn varint_limit() -> nat {
    10
}

/// The varint at the front of `bytes`, using at most `budget` of them: its value,
/// modulo 2^64, and the number of bytes it takes. Seven bits a byte, least
/// significant group first, the top bit set on every byte but the last.
pub open spec fn varint_within(bytes: Seq<u8>, budget: nat) -> Option<(u64, nat)>
    decreases budget,
{
    if budget == 0 || bytes.len() == 0 {
        None
    } else if bytes[0] & 0x80 == 0 {
        Some(((bytes[0] & 0x7f) as u64, 1nat))
    } else {
        match varint_within(bytes.skip(1), (budget - 1) as nat) {
            Some((high, len)) => Some((((bytes[0] & 0x7f) as u64) | (high << 7u64), len + 1)),
            None => None,
        }
    }
}

/// The varint at the front of `bytes`.
pub open spec fn varint(bytes: Seq<u8>) -> Option<(u64, nat)> {
    varint_within(bytes, varint_limit())
}

/// The shortest varint with the given value.
pub open spec fn varint_bytes(value: u64) -> Seq<u8>
    decreases value,
{
    if value < 0x80 {
        seq![value as u8]
    } else {
        proof {
            assert(value >= 0x80 ==> (value >> 7) < value) by (bit_vector);
        }
        seq![(value as u8) | 0x80] + varint_bytes(value >> 7)
    }
}

/// One field of a message.
pub struct WireField {
    pub number: u32,
    pub wire_type: u8,
    /// Tag, length prefix and payload together.
    pub whole: Seq<u8>,
    /// Payload only; for length-delimited fields this leaves out the length prefix.
    pub payload: Seq<u8>,
}

/// Where the payload of a field of type `wire_type` lies in `rest`, the bytes after
/// the tag: the length of what stands before it, and its own length.
pub open spec fn payload_extent(rest: Seq<u8>, wire_type: u8) -> Option<(nat, nat)> {
    if wire_type == WIRE_VARINT {
        match varint(rest) {
            Some((_, len)) => Some((0nat, len)),
            None => None,
        }
    } else if wire_type == WIRE_I64 {
        if rest.len() >= 8 {
            Some((0nat, 8nat))
        } else {
            None
        }
    } else if wire_type == WIRE_LEN {
        match varint(rest) {
            Some((len, prefix)) => if prefix + (len as usize) <= rest.len() {
                Some((prefix, (len as usize) as nat))
            } else {
                None
            },
            None => None,
        }
    } else if wire_type == WIRE_I32 {
        if rest.len() >= 4 {
            Some((0nat, 4nat))
        } else {
            None
        }
    } else {
        None
    }
}

pub open spec fn tag_number(tag: u64) -> u32 {
    (tag >> 3) as u32
}

pub open spec fn tag_wire_type(tag: u64) -> u8 {
    (tag & 0x07) as u8
}

/// The tag of a field.
pub open spec fn tag(number: u32, wire_type: u8) -> u64 {
    ((number as u64) << 3) | (wire_type as u64)
}

/// The field at the front of `msg`.
pub open spec fn first_field(msg: Seq<u8>) -> Option<WireField> {
    match varint(msg) {
        None => None,
        Some((tag, tag_len)) => if tag_number(tag) == 0 {
            None
        } else {
            match payload_extent(msg.skip(tag_len as int), tag_wire_type(tag)) {
                None => None,
                Some((prefix, len)) => Some(
                    WireField {
                        number: tag_number(tag),
                        wire_type: tag_wire_type(tag),
                        whole: msg.take((tag_len + prefix + len) as int),
                        payload: msg.subrange(
                            (tag_len + prefix) as int,
                            (tag_len + prefix + len) as int,
                        ),
                    },
                ),
            }
        },
    }
}

/// The fields of `msg` in wire order, or `None` where `msg` is not a message.
pub open spec fn fields(msg: Seq<u8>) -> Option<Seq<WireField>>
    decreases msg.len(),
{
    if msg.len() == 0 {
        Some(Seq::empty())
    } else {
        match first_field(msg) {
            None => None,
            Some(field) => if 0 < field.whole.len() <= msg.len() {
                match fields(msg.skip(field.whole.len() as int)) {
                    None => None,
                    Some(rest) => Some(seq![field] + rest),
                }
            } else {
                None
            },
        }
    }
}

/// The bytes of a list of fields.
pub open spec fn joined(list: Seq<WireField>) -> Seq<u8>
    decreases list.len(),
{
    if list.len() == 0 {
        Seq::empty()
    } else {
        list[0].whole + joined(list.skip(1))
    }
}

/// The fields of `list` with the given number.
pub open spec fn numbered(list: Seq<WireField>, number: u32) -> Seq<WireField>
    decreases list.len(),
{
    if list.len() == 0 {
        Seq::empty()
    } else if list[0].number == number {
        seq![list[0]] + numbered(list.skip(1), number)
    } else {
        numbered(list.skip(1), number)
    }
}

/// The fields of `list` with any other number.
pub open spec fn others(list: Seq<WireField>, number: u32) -> Seq<WireField>
    decreases list.len(),
{
    if list.len() == 0 {
        Seq::empty()
    } else if list[0].number == number {
        others(list.skip(1), number)
    } else {
        seq![list[0]] + others(list.skip(1), number)
    }
}

/// `list` with every field numbered `number` taken out and `replacement` put where
/// the first of them stood, or at the end where there was none.
pub open spec fn replaced(
    list: Seq<WireField>,
    number: u32,
    replacement: Seq<WireField>,
) -> Seq<WireField>
    decreases list.len(),
{
    if list.len() == 0 {
        replacement
    } else if list[0].number == number {
        replacement + others(list.skip(1), number)
    } else {
        seq![list[0]] + replaced(list.skip(1), number, replacement)
    }
}

/// The same edit on the bytes: the message that [`replaced`] describes, with
/// `replacement` given as bytes.
pub open spec fn rewritten(list: Seq<WireField>, number: u32, replacement: Seq<u8>) -> Seq<u8>
    decreases list.len(),
{
    if list.len() == 0 {
        replacement
    } else if list[0].number == number {
        replacement + joined(others(list.skip(1), number))
    } else {
        list[0].whole + rewritten(list.skip(1), number, replacement)
    }
}

/// A varint field, as an encoder writes it.
pub open spec fn varint_field_bytes(number: u32, value: u64) -> Seq<u8> {
    varint_bytes(tag(number, WIRE_VARINT)) + varint_bytes(value)
}

/// A length-delimited field, as an encoder writes it.
pub open spec fn len_field_bytes(number: u32, payload: Seq<u8>) -> Seq<u8> {
    varint_bytes(tag(number, WIRE_LEN)) + varint_bytes(payload.len() as u64) + payload
}

pub proof fn lemma_varint_within_len(bytes: Seq<u8>, budget: nat)
    ensures
        varint_within(bytes, budget) matches Some((_, len)) ==> 0 < len <= bytes.len() && len
            <= budget,
    decreases budget,
{
    if budget > 0 && bytes.len() > 0 {
        lemma_varint_within_len(bytes.skip(1), (budget - 1) as nat);
    }
}

/// What follows a varint does not change it.
pub proof fn lemma_varint_within_prefix(bytes: Seq<u8>, tail: Seq<u8>, budget: nat)
    requires
        varint_within(bytes, budget) is Some,
    ensures
        varint_within(bytes + tail, budget) == varint_within(bytes, budget),
    decreases budget,
{
    assert((bytes + tail)[0] == bytes[0]);
    if bytes[0] & 0x80 != 0 {
        lemma_varint_within_prefix(bytes.skip(1), tail, (budget - 1) as nat);
        assert((bytes + tail).skip(1) =~= bytes.skip(1) + tail);
    }
}

/// A varint is still one with the bytes after it cut off.
pub proof fn lemma_varint_within_take(bytes: Seq<u8>, budget: nat, keep: int)
    requires
        varint_within(bytes, budget) matches Some((_, len)) && len <= keep <= bytes.len(),
    ensures
        varint_within(bytes.take(keep), budget) == varint_within(bytes, budget),
    decreases budget,
{
    lemma_varint_within_len(bytes, budget);
    assert(bytes.take(keep)[0] == bytes[0]);
    if bytes[0] & 0x80 != 0 {
        lemma_varint_within_take(bytes.skip(1), (budget - 1) as nat, keep - 1);
        assert(bytes.take(keep).skip(1) =~= bytes.skip(1).take(keep - 1));
    }
}

/// `value` can be written in `budget` groups of seven bits.
spec fn fits(value: u64, budget: nat) -> bool {
    budget >= 10 || (budget > 0 && value < (1u64 << ((7 * budget) as u64)))
}

proof fn lemma_fits_shift(value: u64, budget: nat)
    requires
        fits(value, budget),
        value >= 0x80,
        budget <= 10,
    ensures
        budget > 1,
        fits(value >> 7, (budget - 1) as nat),
{
    if budget >= 10 {
        assert((value >> 7) < (1u64 << 63u64)) by (bit_vector);
    } else {
        let bits = (7 * budget) as u64;
        assert(1u64 << 7u64 == 128) by (bit_vector);
        let fewer = (bits - 7) as u64;
        assert(value < (1u64 << bits) && 7 <= bits < 64 && fewer == bits - 7 ==> (value >> 7) < (
        1u64 << fewer)) by (bit_vector);
    }
}

proof fn lemma_varint_bytes_within(value: u64, budget: nat)
    requires
        fits(value, budget),
        budget <= 10,
    ensures
        varint_within(varint_bytes(value), budget) == Some((value, varint_bytes(value).len())),
        0 < varint_bytes(value).len() <= budget,
    decreases value,
{
    let bytes = varint_bytes(value);
    if value < 0x80 {
        let byte = value as u8;
        assert(value < 0x80 && byte == value as u8 ==> byte & 0x80 == 0 && (byte & 0x7f) as u64
            == value) by (bit_vector);
        assert(bytes[0] == byte);
    } else {
        assert(value >= 0x80 ==> (value >> 7) < value) by (bit_vector);
        lemma_fits_shift(value, budget);
        lemma_varint_bytes_within(value >> 7, (budget - 1) as nat);
        let byte = (value as u8) | 0x80;
        assert(bytes[0] == byte);
        assert(byte == (value as u8) | 0x80u8 ==> byte & 0x80 != 0 && ((byte & 0x7f) as u64) | ((
        value >> 7) << 7u64) == value) by (bit_vector);
        assert(bytes.skip(1) =~= varint_bytes(value >> 7));
    }
}

/// Decoding what was encoded gives it back, whatever follows.
pub proof fn lemma_varint_round_trip(value: u64, tail: Seq<u8>)
    ensures
        varint(varint_bytes(value) + tail) == Some((value, varint_bytes(value).len())),
        0 < varint_bytes(value).len() <= 10,
{
    lemma_varint_bytes_within(value, 10);
    lemma_varint_within_prefix(varint_bytes(value), tail, 10);
}

pub proof fn lemma_tag(number: u32, wire_type: u8)
    requires
        wire_type < 8,
    ensures
        tag_number(tag(number, wire_type)) == number,
        tag_wire_type(tag(number, wire_type)) == wire_type,
{
    assert(wire_type < 8 ==> ((((number as u64) << 3) | (wire_type as u64)) >> 3) as u32 == number)
        by (bit_vector);
    assert(wire_type < 8 ==> ((((number as u64) << 3) | (wire_type as u64)) & 0x07) as u8
        == wire_type) by (bit_vector);
}

/// A field lies inside the message it was read from.
pub proof fn lemma_first_field(msg: Seq<u8>)
    requires
        first_field(msg) is Some,
    ensures
        0 < first_field(msg)->0.whole.len() <= msg.len(),
        first_field(msg)->0.whole == msg.take(first_field(msg)->0.whole.len() as int),
        first_field(msg)->0.number != 0,
{
    let (tag, tag_len) = varint(msg)->0;
    lemma_varint_within_len(msg, 10);
    lemma_varint_within_len(msg.skip(tag_len as int), 10);
}

/// What follows a field does not change it.
pub proof fn lemma_first_field_prefix(msg: Seq<u8>, tail: Seq<u8>)
    requires
        first_field(msg) is Some,
    ensures
        first_field(msg + tail) == first_field(msg),
{
    let (tag, tag_len) = varint(msg)->0;
    lemma_varint_within_len(msg, 10);
    lemma_varint_within_prefix(msg, tail, 10);
    let rest = msg.skip(tag_len as int);
    assert((msg + tail).skip(tag_len as int) =~= rest + tail);
    let wire_type = tag_wire_type(tag);
    lemma_varint_within_len(rest, 10);
    if wire_type == WIRE_VARINT || wire_type == WIRE_LEN {
        lemma_varint_within_prefix(rest, tail, 10);
    }
    let (prefix, len) = payload_extent(rest, wire_type)->0;
    assert(payload_extent(rest + tail, wire_type) == payload_extent(rest, wire_type));
    assert((msg + tail).take((tag_len + prefix + len) as int) =~= msg.take(
        (tag_len + prefix + len) as int,
    ));
    assert((msg + tail).subrange((tag_len + prefix) as int, (tag_len + prefix + len) as int)
        =~= msg.subrange((tag_len + prefix) as int, (tag_len + prefix + len) as int));
}

/// A field's own bytes hold that field.
pub proof fn lemma_first_field_whole(msg: Seq<u8>)
    requires
        first_field(msg) is Some,
    ensures
        first_field(first_field(msg)->0.whole) == first_field(msg),
{
    let field = first_field(msg)->0;
    let (tag, tag_len) = varint(msg)->0;
    let rest = msg.skip(tag_len as int);
    let wire_type = tag_wire_type(tag);
    let (prefix, len) = payload_extent(rest, wire_type)->0;
    let n = (tag_len + prefix + len) as int;
    lemma_varint_within_len(msg, 10);
    lemma_varint_within_len(rest, 10);
    let whole = msg.take(n);
    lemma_varint_within_take(msg, 10, n);
    assert(whole.skip(tag_len as int) =~= rest.take(n - tag_len));
    if wire_type == WIRE_VARINT || wire_type == WIRE_LEN {
        lemma_varint_within_take(rest, 10, n - tag_len);
    }
    assert(payload_extent(rest.take(n - tag_len), wire_type) == payload_extent(rest, wire_type));
    assert(whole.take(n) =~= whole);
    assert(whole.subrange((tag_len + prefix) as int, n) =~= msg.subrange(
        (tag_len + prefix) as int,
        n,
    ));
}

/// A list of fields that can be read back one by one.
pub open spec fn well_formed(list: Seq<WireField>) -> bool {
    forall|i: int|
        #![trigger list[i]]
        0 <= i < list.len() ==> first_field(list[i].whole) == Some(list[i]) && first_field(
            list[i].whole,
        )->0.whole.len() == list[i].whole.len() && list[i].whole.len() > 0
}

/// Splitting a message loses nothing: the fields' bytes, in order, are the message.
pub proof fn lemma_fields_joined(msg: Seq<u8>)
    requires
        fields(msg) is Some,
    ensures
        joined(fields(msg)->0) == msg,
        well_formed(fields(msg)->0),
    decreases msg.len(),
{
    if msg.len() > 0 {
        let field = first_field(msg)->0;
        lemma_first_field(msg);
        lemma_first_field_whole(msg);
        let rest = msg.skip(field.whole.len() as int);
        lemma_fields_joined(rest);
        let list = seq![field] + fields(rest)->0;
        assert(list.skip(1) =~= fields(rest)->0);
        assert(joined(list) =~= msg);
        assert forall|i: int| #![trigger list[i]] 0 <= i < list.len() implies first_field(
            list[i].whole,
        ) == Some(list[i]) && list[i].whole.len() > 0 by {
            if i > 0 {
                assert(list[i] == fields(rest)->0[i - 1]);
            }
        }
    } else {
        assert(joined(fields(msg)->0) =~= msg);
    }
}

/// Joining fields loses nothing either: the message splits into the same fields.
pub proof fn lemma_joined_fields(list: Seq<WireField>)
    requires
        well_formed(list),
    ensures
        fields(joined(list)) == Some(list),
    decreases list.len(),
{
    if list.len() > 0 {
        let tail = list.skip(1);
        assert forall|i: int| #![trigger tail[i]] 0 <= i < tail.len() implies first_field(
            tail[i].whole,
        ) == Some(tail[i]) && tail[i].whole.len() > 0 by {
            assert(tail[i] == list[i + 1]);
        }
        lemma_joined_fields(tail);
        assert(first_field(list[0].whole) == Some(list[0]));
        lemma_first_field_prefix(list[0].whole, joined(tail));
        let msg = joined(list);
        assert(msg.skip(list[0].whole.len() as int) =~= joined(tail));
        assert(seq![list[0]] + tail =~= list);
    } else {
        assert(list =~= Seq::<WireField>::empty());
    }
}

pub proof fn lemma_joined_concat(a: Seq<WireField>, b: Seq<WireField>)
    ensures
        joined(a + b) == joined(a) + joined(b),
    decreases a.len(),
{
    if a.len() > 0 {
        lemma_joined_concat(a.skip(1), b);
        assert((a + b).skip(1) =~= a.skip(1) + b);
        assert(joined(a + b) =~= joined(a) + joined(b));
    } else {
        assert(a + b =~= b);
        assert(joined(a) + joined(b) =~= joined(b));
    }
}

/// The edit on the bytes is the edit on the fields.
pub proof fn lemma_rewritten(list: Seq<WireField>, number: u32, replacement: Seq<WireField>)
    ensures
        rewritten(list, number, joined(replacement)) == joined(
            replaced(list, number, replacement),
        ),
    decreases list.len(),
{
    if list.len() > 0 {
        if list[0].number == number {
            lemma_joined_concat(replacement, others(list.skip(1), number));
        } else {
            lemma_rewritten(list.skip(1), number, replacement);
            let rest = replaced(list.skip(1), number, replacement);
            assert((seq![list[0]] + rest).skip(1) =~= rest);
        }
    }
}

pub proof fn lemma_others(list: Seq<WireField>, number: u32)
    ensures
        well_formed(list) ==> well_formed(others(list, number)),
        numbered(others(list, number), number) == Seq::<WireField>::empty(),
        others(others(list, number), number) == others(list, number),
        numbered(list, number).len() == 0 ==> others(list, number) == list,
        others(list, number).len() <= list.len(),
        forall|other: u32|
            other != number ==> #[trigger] numbered(others(list, number), other) == numbered(
                list,
                other,
            ),
    decreases list.len(),
{
    if list.len() > 0 {
        let tail = list.skip(1);
        lemma_others(tail, number);
        if well_formed(list) {
            assert forall|i: int| #![trigger tail[i]] 0 <= i < tail.len() implies first_field(
                tail[i].whole,
            ) == Some(tail[i]) && tail[i].whole.len() > 0 by {
                assert(tail[i] == list[i + 1]);
            }
        }
        assert(seq![list[0]] + tail =~= list);
        let kept = others(tail, number);
        if list[0].number != number {
            let out = seq![list[0]] + kept;
            assert(out.skip(1) =~= kept);
            assert(out[0] == list[0]);
            if well_formed(list) {
                assert forall|i: int| #![trigger out[i]] 0 <= i < out.len() implies first_field(
                    out[i].whole,
                ) == Some(out[i]) && out[i].whole.len() > 0 by {
                    if i > 0 {
                        assert(out[i] == kept[i - 1]);
                    } else {
                        assert(list[0] == out[0]);
                    }
                }
            }
            assert forall|other: u32| other != number implies #[trigger] numbered(out, other)
                == numbered(list, other) by {
                assert(numbered(kept, other) == numbered(tail, other));
            }
        } else {
            assert forall|other: u32| other != number implies #[trigger] numbered(kept, other)
                == numbered(list, other) by {
                assert(numbered(kept, other) == numbered(tail, other));
            }
        }
    } else {
        assert(list =~= Seq::<WireField>::empty());
    }
}

pub proof fn lemma_numbered_concat(a: Seq<WireField>, b: Seq<WireField>, number: u32)
    ensures
        numbered(a + b, number) == numbered(a, number) + numbered(b, number),
        others(a + b, number) == others(a, number) + others(b, number),
    decreases a.len(),
{
    if a.len() > 0 {
        lemma_numbered_concat(a.skip(1), b, number);
        assert((a + b).skip(1) =~= a.skip(1) + b);
        assert(numbered(a + b, number) =~= numbered(a, number) + numbered(b, number));
        assert(others(a + b, number) =~= others(a, number) + others(b, number));
    } else {
        assert(a + b =~= b);
        assert(numbered(a + b, number) =~= numbered(a, number) + numbered(b, number));
        assert(others(a + b, number) =~= others(a, number) + others(b, number));
    }
}

/// What [`replaced`] does: the replacement is all there is under the number, and
/// every other field is as it was, in its old order.
pub proof fn lemma_replaced(list: Seq<WireField>, number: u32, replacement: Seq<WireField>)
    requires
        forall|i: int|
            #![trigger replacement[i]]
            0 <= i < replacement.len() ==> replacement[i].number == number,
    ensures
        numbered(replaced(list, number, replacement), number) == replacement,
        others(replaced(list, number, replacement), number) == others(list, number),
        well_formed(list) && well_formed(replacement) ==> well_formed(
            replaced(list, number, replacement),
        ),
        forall|other: u32|
            other != number ==> #[trigger] numbered(replaced(list, number, replacement), other)
                == numbered(list, other),
    decreases list.len(),
{
    lemma_only(replacement, number);
    lemma_others(list, number);
    let out = replaced(list, number, replacement);
    if list.len() == 0 {
        assert(others(list, number) =~= Seq::<WireField>::empty());
    } else {
        let tail = list.skip(1);
        lemma_others(tail, number);
        assert(seq![list[0]] + tail =~= list);
        if well_formed(list) {
            assert forall|i: int| #![trigger tail[i]] 0 <= i < tail.len() implies first_field(
                tail[i].whole,
            ) == Some(tail[i]) && tail[i].whole.len() > 0 by {
                assert(tail[i] == list[i + 1]);
            }
        }
        if list[0].number == number {
            let kept = others(tail, number);
            lemma_numbered_concat(replacement, kept, number);
            assert(numbered(out, number) =~= replacement);
            assert(others(out, number) =~= kept);
            assert forall|other: u32| other != number implies #[trigger] numbered(out, other)
                == numbered(list, other) by {
                lemma_numbered_concat(replacement, kept, other);
                assert(numbered(replacement, other) == Seq::<WireField>::empty());
                assert(numbered(kept, other) == numbered(tail, other));
                assert(numbered(out, other) =~= numbered(tail, other));
            }
        } else {
            lemma_replaced(tail, number, replacement);
            let rest = replaced(tail, number, replacement);
            assert(out.skip(1) =~= rest);
            assert(out[0] == list[0]);
            assert forall|other: u32| other != number implies #[trigger] numbered(out, other)
                == numbered(list, other) by {
                assert(numbered(rest, other) == numbered(tail, other));
            }
            if well_formed(list) && well_formed(replacement) {
                assert forall|i: int| #![trigger out[i]] 0 <= i < out.len() implies first_field(
                    out[i].whole,
                ) == Some(out[i]) && out[i].whole.len() > 0 by {
                    if i > 0 {
                        assert(out[i] == rest[i - 1]);
                    } else {
                        assert(list[0] == out[0]);
                    }
                }
            }
        }
    }
}

/// A list that holds one number only.
proof fn lemma_only(list: Seq<WireField>, number: u32)
    requires
        forall|i: int| #![trigger list[i]] 0 <= i < list.len() ==> list[i].number == number,
    ensures
        numbered(list, number) == list,
        others(list, number) == Seq::<WireField>::empty(),
        forall|other: u32|
            other != number ==> #[trigger] numbered(list, other) == Seq::<WireField>::empty(),
    decreases list.len(),
{
    if list.len() > 0 {
        let tail = list.skip(1);
        assert forall|i: int| #![trigger tail[i]] 0 <= i < tail.len() implies tail[i].number
            == number by {
            assert(tail[i] == list[i + 1]);
        }
        lemma_only(tail, number);
        assert(list[0].number == number);
        assert(seq![list[0]] + tail =~= list);
        assert forall|other: u32| other != number implies #[trigger] numbered(list, other)
            == Seq::<WireField>::empty() by {
            assert(numbered(tail, other) == Seq::<WireField>::empty());
        }
    } else {
        assert(list =~= Seq::<WireField>::empty());
    }
}

/// A varint has the digits of its value to the base 128, the lowest first; every byte but the
/// last says that another one follows.
pub proof fn law_a_varint_is_to_the_base_128(value: u64, i: int)
    requires
        0 <= i < varint_bytes(value).len(),
    ensures
        varint_bytes(value)[i] as int % 128 == (value as int / vstd::arithmetic::power::pow(
            128,
            i as nat,
        )) % 128,
        varint_bytes(value)[i] >= 128 <==> i < varint_bytes(value).len() - 1,
    decreases value,
{
    reveal(vstd::arithmetic::power::pow);
    if value >= 0x80 {
        let rest = value >> 7;
        assert(value >= 0x80 ==> (value >> 7) < value && (value >> 7) == value / 128) by (bit_vector);
        assert(((value as u8) | 0x80) % 128 == value % 128 && ((value as u8) | 0x80) >= 128)
            by (bit_vector);
        assert(varint_bytes(rest).len() > 0);
        if i > 0 {
            law_a_varint_is_to_the_base_128(rest, i - 1);
            let k = (i - 1) as nat;
            vstd::arithmetic::power::lemma_pow_positive(128, k);
            vstd::arithmetic::div_mod::lemma_div_denominator(
                value as int,
                128,
                vstd::arithmetic::power::pow(128, k),
            );
            assert(vstd::arithmetic::power::pow(128, i as nat) == 128
                * vstd::arithmetic::power::pow(128, k));
        }
    }
}

/// The tag of a field is its number, with room for eight types.
pub proof fn law_a_tag_is_number_and_type(number: u32, wire_type: u8)
    requires
        wire_type < 8,
    ensures
        tag(number, wire_type) == 8 * number + wire_type,
{
    assert(wire_type < 8 ==> ((number as u64) << 3) | (wire_type as u64) == 8 * (number as u64) + (
    wire_type as u64)) by (bit_vector);
}

} // verus!

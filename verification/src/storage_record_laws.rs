//! What the edits of [`storage_record`](crate::storage_record) promise of each other.
//!
//! The edits are those of the blocked flag and of the two mute expiries: each writes a
//! varint into one field of one inner record, and `0` removes the field.
use vstd::prelude::*;

use crate::storage_record;
use crate::storage_record::{
    FieldSpan, StorageRecordEditError, CONTACT_RECORD_BLOCKED, CONTACT_RECORD_MUTED_UNTIL,
    STORAGE_RECORD_CONTACT,
};
use crate::wire;
use crate::wire::{WireField, WIRE_LEN, WIRE_VARINT};

verus! {

/// The field that [`wire::varint_field_bytes`] writes.
pub open spec fn varint_field(number: u32, value: u64) -> WireField {
    WireField {
        number,
        wire_type: WIRE_VARINT,
        whole: wire::varint_field_bytes(number, value),
        payload: wire::varint_bytes(value),
    }
}

/// The field that [`wire::len_field_bytes`] writes.
pub open spec fn len_field(number: u32, payload: Seq<u8>) -> WireField {
    WireField {
        number,
        wire_type: WIRE_LEN,
        whole: wire::len_field_bytes(number, payload),
        payload,
    }
}

/// The edit of one varint: the field with that value, or no field for `0`.
pub open spec fn put(number: u32, value: u64) -> Seq<WireField> {
    if value != 0 {
        seq![varint_field(number, value)]
    } else {
        Seq::empty()
    }
}

/// The record that `record_field` wraps is written the way an encoder writes it.
pub open spec fn canonical_wrapper(record: Seq<u8>, record_field: u32) -> bool {
    let found = wire::numbered(wire::fields(record)->0, record_field);
    found.len() == 1 && found[0] == len_field(record_field, found[0].payload)
}

/// Field `number` does not occur in the inner record.
pub open spec fn absent(record: Seq<u8>, record_field: u32, number: u32) -> bool {
    storage_record::payload_of(record, record_field) matches Ok(inner) && wire::fields(inner)
        matches Some(list) && wire::numbered(list, number).len() == 0
}

pub proof fn lemma_varint_field(number: u32, value: u64)
    requires
        number != 0,
    ensures
        wire::first_field(wire::varint_field_bytes(number, value)) == Some(
            varint_field(number, value),
        ),
        wire::varint(wire::varint_bytes(value)) matches Some((v, _)) && v == value,
{
    let tag = wire::tag(number, WIRE_VARINT);
    let head = wire::varint_bytes(tag);
    let tail = wire::varint_bytes(value);
    let all = head + tail;
    wire::lemma_tag(number, WIRE_VARINT);
    wire::lemma_varint_round_trip(tag, tail);
    assert(all.skip(head.len() as int) =~= tail);
    wire::lemma_varint_round_trip(value, Seq::empty());
    assert(tail + Seq::<u8>::empty() =~= tail);
    assert(all.take(all.len() as int) =~= all);
    assert(all.subrange(head.len() as int, all.len() as int) =~= tail);
}

pub proof fn lemma_len_field(number: u32, payload: Seq<u8>)
    requires
        number != 0,
        payload.len() <= usize::MAX,
    ensures
        wire::first_field(wire::len_field_bytes(number, payload)) == Some(
            len_field(number, payload),
        ),
{
    let tag = wire::tag(number, WIRE_LEN);
    let head = wire::varint_bytes(tag);
    let size = wire::varint_bytes(payload.len() as u64);
    let all = head + size + payload;
    wire::lemma_tag(number, WIRE_LEN);
    wire::lemma_varint_round_trip(tag, size + payload);
    assert(head + (size + payload) =~= all);
    assert(all.skip(head.len() as int) =~= size + payload);
    wire::lemma_varint_round_trip(payload.len() as u64, payload);
    assert(all.take(all.len() as int) =~= all);
    assert(all.subrange((head.len() + size.len()) as int, all.len() as int) =~= payload);
}

proof fn lemma_joined_one(field: WireField)
    ensures
        wire::joined(seq![field]) == field.whole,
{
    let list = seq![field];
    assert(list.skip(1) =~= Seq::<WireField>::empty());
    assert(wire::joined(list.skip(1)) =~= Seq::<u8>::empty());
    assert(list[0].whole + Seq::<u8>::empty() =~= field.whole);
}

proof fn lemma_joined_put(number: u32, value: u64)
    ensures
        wire::joined(put(number, value)) == (if value != 0 {
            wire::varint_field_bytes(number, value)
        } else {
            Seq::empty()
        }),
{
    if value != 0 {
        lemma_joined_one(varint_field(number, value));
    }
}

/// The inner record's fields after an edit.
pub open spec fn edited_fields(
    record: Seq<u8>,
    record_field: u32,
    number: u32,
    value: u64,
) -> Seq<WireField> {
    let payload = wire::numbered(wire::fields(record)->0, record_field)[0].payload;
    wire::replaced(wire::fields(payload)->0, number, put(number, value))
}

/// What an edit makes of a record: the inner record has the edited fields, and where that
/// changes it, its wrapper is written anew.
proof fn lemma_edited_payload(record: Seq<u8>, record_field: u32, number: u32, value: u64)
    requires
        number != 0,
        storage_record::muted_until_set(record, record_field, number, value) is Ok,
    ensures
        ({
            let outer = wire::fields(record)->0;
            let payload = wire::numbered(outer, record_field)[0].payload;
            let edited = edited_fields(record, record_field, number, value);
            &&& wire::fields(record) is Some
            &&& wire::numbered(outer, record_field).len() == 1
            &&& wire::fields(payload) is Some
            &&& storage_record::payload_of(record, record_field) == Ok::<
                Seq<u8>,
                StorageRecordEditError,
            >(payload)
            &&& wire::fields(wire::joined(edited)) == Some(edited)
            &&& storage_record::muted_until_set(record, record_field, number, value) == Ok::<
                Seq<u8>,
                StorageRecordEditError,
            >(
                if wire::joined(edited) == payload {
                    record
                } else {
                    wire::rewritten(
                        outer,
                        record_field,
                        wire::len_field_bytes(record_field, wire::joined(edited)),
                    )
                },
            )
        }),
{
    let outer = wire::fields(record)->0;
    let payload = wire::numbered(outer, record_field)[0].payload;
    let inner = wire::fields(payload)->0;
    lemma_varint_field(number, value);
    lemma_joined_put(number, value);
    wire::lemma_rewritten(inner, number, put(number, value));
    wire::lemma_fields_joined(payload);
    wire::lemma_replaced(inner, number, put(number, value));
    wire::lemma_joined_fields(edited_fields(record, record_field, number, value));
}

/// A record whose wrapper was written anew, said over fields instead of bytes.
proof fn lemma_rewrapped(record: Seq<u8>, record_field: u32, new_inner: Seq<u8>)
    requires
        record_field != 0,
        wire::fields(record) is Some,
        wire::numbered(wire::fields(record)->0, record_field).len() == 1,
        wire::rewritten(
            wire::fields(record)->0,
            record_field,
            wire::len_field_bytes(record_field, new_inner),
        ).len() <= usize::MAX,
    ensures
        ({
            let outer = wire::fields(record)->0;
            let out = wire::rewritten(
                outer,
                record_field,
                wire::len_field_bytes(record_field, new_inner),
            );
            let wrapper = seq![len_field(record_field, new_inner)];
            &&& wire::fields(out) == Some(wire::replaced(outer, record_field, wrapper))
            &&& wire::numbered(wire::fields(out)->0, record_field) == wrapper
            &&& wire::others(wire::fields(out)->0, record_field) == wire::others(
                outer,
                record_field,
            )
            &&& storage_record::payload_of(out, record_field) == Ok::<
                Seq<u8>,
                StorageRecordEditError,
            >(new_inner)
        }),
{
    let outer = wire::fields(record)->0;
    let wrapper = seq![len_field(record_field, new_inner)];
    lemma_joined_one(wrapper[0]);
    lemma_rewritten_len(outer, record_field, wire::len_field_bytes(record_field, new_inner));
    lemma_len_field(record_field, new_inner);
    wire::lemma_rewritten(outer, record_field, wrapper);
    wire::lemma_fields_joined(record);
    wire::lemma_replaced(outer, record_field, wrapper);
    wire::lemma_joined_fields(wire::replaced(outer, record_field, wrapper));
}

/// One edit, said over fields instead of bytes.
pub proof fn lemma_edit(record: Seq<u8>, record_field: u32, number: u32, value: u64)
    requires
        record_field != 0,
        number != 0,
        storage_record::muted_until_set(record, record_field, number, value) matches Ok(out)
            && out.len() <= usize::MAX,
    ensures
        ({
            let out = storage_record::muted_until_set(record, record_field, number, value)->Ok_0;
            let outer = wire::fields(record)->0;
            let payload = wire::numbered(outer, record_field)[0].payload;
            let edited = edited_fields(record, record_field, number, value);
            &&& wire::fields(record) is Some
            &&& wire::numbered(outer, record_field).len() == 1
            &&& wire::fields(payload) is Some
            &&& wire::fields(wire::joined(edited)) == Some(edited)
            &&& wire::fields(out) is Some
            &&& wire::others(wire::fields(out)->0, record_field) == wire::others(
                outer,
                record_field,
            )
            &&& storage_record::payload_of(out, record_field) == Ok::<
                Seq<u8>,
                StorageRecordEditError,
            >(wire::joined(edited))
        }),
{
    lemma_edited_payload(record, record_field, number, value);
    let edited = edited_fields(record, record_field, number, value);
    let payload = wire::numbered(wire::fields(record)->0, record_field)[0].payload;
    if wire::joined(edited) != payload {
        lemma_rewrapped(record, record_field, wire::joined(edited));
    }
}

/// An edited message is no shorter than what was put into it.
proof fn lemma_rewritten_len(list: Seq<WireField>, number: u32, replacement: Seq<u8>)
    ensures
        wire::rewritten(list, number, replacement).len() >= replacement.len(),
    decreases list.len(),
{
    if list.len() > 0 && list[0].number != number {
        lemma_rewritten_len(list.skip(1), number, replacement);
    }
}

/// A value that was written reads back, `0` as absence; and whatever the field held
/// before, duplicates included, it then occurs at most once.
pub proof fn law_set_then_read(record: Seq<u8>, record_field: u32, number: u32, value: u64)
    requires
        record_field != 0,
        number != 0,
        storage_record::muted_until_set(record, record_field, number, value) matches Ok(out)
            && out.len() <= usize::MAX,
    ensures
        ({
            let out = storage_record::muted_until_set(record, record_field, number, value)->Ok_0;
            let inner = wire::fields(storage_record::payload_of(out, record_field)->Ok_0)->0;
            &&& storage_record::varint_of(out, record_field, number) == Ok::<
                u64,
                StorageRecordEditError,
            >(value)
            &&& wire::numbered(inner, number) == put(number, value)
        }),
{
    lemma_edit(record, record_field, number, value);
    lemma_varint_field(number, value);
    let outer = wire::fields(record)->0;
    let payload = wire::numbered(outer, record_field)[0].payload;
    let inner = wire::fields(payload)->0;
    wire::lemma_fields_joined(payload);
    wire::lemma_replaced(inner, number, put(number, value));
}

/// Blocking a contact makes it read as blocked, and unblocking as not blocked.
pub proof fn law_blocked_reads_back(record: Seq<u8>, blocked: bool)
    requires
        storage_record::contact_blocked_set(record, blocked) matches Ok(out) && out.len()
            <= usize::MAX,
    ensures
        storage_record::contact_blocked_of(
            storage_record::contact_blocked_set(record, blocked)->Ok_0,
        ) == Ok::<bool, StorageRecordEditError>(blocked),
{
    let value: u64 = if blocked {
        1
    } else {
        0
    };
    law_set_then_read(record, STORAGE_RECORD_CONTACT, CONTACT_RECORD_BLOCKED, value);
}

/// An edit leaves every other field as it was, bytes and order: those beside the inner
/// record, and those inside it.
pub proof fn law_edit_preserves_the_rest(
    record: Seq<u8>,
    record_field: u32,
    number: u32,
    value: u64,
)
    requires
        record_field != 0,
        number != 0,
        storage_record::muted_until_set(record, record_field, number, value) matches Ok(out)
            && out.len() <= usize::MAX,
    ensures
        ({
            let out = storage_record::muted_until_set(record, record_field, number, value)->Ok_0;
            let inner = wire::fields(storage_record::payload_of(record, record_field)->Ok_0)->0;
            let edited = wire::fields(storage_record::payload_of(out, record_field)->Ok_0)->0;
            &&& wire::others(wire::fields(out)->0, record_field) == wire::others(
                wire::fields(record)->0,
                record_field,
            )
            &&& wire::others(edited, number) == wire::others(inner, number)
        }),
{
    lemma_edit(record, record_field, number, value);
    let outer = wire::fields(record)->0;
    let payload = wire::numbered(outer, record_field)[0].payload;
    let inner = wire::fields(payload)->0;
    lemma_varint_field(number, value);
    wire::lemma_fields_joined(payload);
    wire::lemma_replaced(inner, number, put(number, value));
}

/// Edits of two different fields do not disturb each other.
pub proof fn law_edits_compose(
    record: Seq<u8>,
    record_field: u32,
    number: u32,
    value: u64,
    other: u32,
)
    requires
        record_field != 0,
        number != 0,
        other != number,
        storage_record::muted_until_set(record, record_field, number, value) matches Ok(out)
            && out.len() <= usize::MAX,
    ensures
        storage_record::varint_of(
            storage_record::muted_until_set(record, record_field, number, value)->Ok_0,
            record_field,
            other,
        ) == storage_record::varint_of(record, record_field, other),
{
    lemma_edit(record, record_field, number, value);
    let outer = wire::fields(record)->0;
    let payload = wire::numbered(outer, record_field)[0].payload;
    let inner = wire::fields(payload)->0;
    wire::lemma_replaced(inner, number, put(number, value));
    assert(wire::numbered(wire::replaced(inner, number, put(number, value)), other)
        == wire::numbered(inner, other));
}

/// Muting a blocked contact leaves it blocked, and blocking a muted one leaves it muted.
pub proof fn law_block_and_mute_compose(record: Seq<u8>, blocked: bool, muted_until: u64)
    requires
        storage_record::contact_blocked_set(record, blocked) matches Ok(once) && once.len()
            <= usize::MAX,
        storage_record::muted_until_set(
            storage_record::contact_blocked_set(record, blocked)->Ok_0,
            STORAGE_RECORD_CONTACT,
            CONTACT_RECORD_MUTED_UNTIL,
            muted_until,
        ) matches Ok(both) && both.len() <= usize::MAX,
    ensures
        ({
            let once = storage_record::contact_blocked_set(record, blocked)->Ok_0;
            let both = storage_record::muted_until_set(
                once,
                STORAGE_RECORD_CONTACT,
                CONTACT_RECORD_MUTED_UNTIL,
                muted_until,
            )->Ok_0;
            &&& storage_record::contact_blocked_of(both) == Ok::<bool, StorageRecordEditError>(
                blocked,
            )
            &&& storage_record::varint_of(
                both,
                STORAGE_RECORD_CONTACT,
                CONTACT_RECORD_MUTED_UNTIL,
            ) == Ok::<u64, StorageRecordEditError>(muted_until)
        }),
{
    let once = storage_record::contact_blocked_set(record, blocked)->Ok_0;
    law_blocked_reads_back(record, blocked);
    law_set_then_read(once, STORAGE_RECORD_CONTACT, CONTACT_RECORD_MUTED_UNTIL, muted_until);
    law_edits_compose(
        once,
        STORAGE_RECORD_CONTACT,
        CONTACT_RECORD_MUTED_UNTIL,
        muted_until,
        CONTACT_RECORD_BLOCKED,
    );
}

/// Taking a field out again undoes adding it.
proof fn lemma_replaced_twice(
    list: Seq<WireField>,
    number: u32,
    first: Seq<WireField>,
    second: Seq<WireField>,
)
    requires
        first.len() == 1,
        first[0].number == number,
    ensures
        wire::replaced(wire::replaced(list, number, first), number, second) == wire::replaced(
            list,
            number,
            second,
        ),
    decreases list.len(),
{
    let once = wire::replaced(list, number, first);
    if list.len() == 0 {
        assert(once.skip(1) =~= Seq::<WireField>::empty());
        assert(second + Seq::<WireField>::empty() =~= second);
    } else if list[0].number == number {
        let kept = wire::others(list.skip(1), number);
        assert(once.skip(1) =~= kept);
        wire::lemma_others(list.skip(1), number);
    } else {
        lemma_replaced_twice(list.skip(1), number, first, second);
        assert(once.skip(1) =~= wire::replaced(list.skip(1), number, first));
    }
}

/// With nothing under the number, taking it out changes nothing.
proof fn lemma_replaced_absent(list: Seq<WireField>, number: u32)
    requires
        wire::numbered(list, number).len() == 0,
    ensures
        wire::replaced(list, number, Seq::empty()) == list,
    decreases list.len(),
{
    if list.len() > 0 {
        lemma_replaced_absent(list.skip(1), number);
        assert(seq![list[0]] + list.skip(1) =~= list);
    } else {
        assert(list =~= Seq::<WireField>::empty());
    }
}

/// Putting the only field of a number back where it is changes nothing.
proof fn lemma_replaced_same(list: Seq<WireField>, number: u32)
    requires
        wire::numbered(list, number).len() == 1,
    ensures
        wire::replaced(list, number, wire::numbered(list, number)) == list,
    decreases list.len(),
{
    let tail = list.skip(1);
    assert(seq![list[0]] + tail =~= list);
    if list[0].number == number {
        assert(wire::numbered(tail, number).len() == 0);
        assert(wire::numbered(list, number) =~= seq![list[0]]);
        wire::lemma_others(tail, number);
    } else {
        lemma_replaced_same(tail, number);
    }
}

/// Removing a field that is absent is a no-op: the bytes stay as they are.
pub proof fn law_unset_absent_is_a_no_op(record: Seq<u8>, record_field: u32, number: u32)
    requires
        absent(record, record_field, number),
    ensures
        storage_record::muted_until_set(record, record_field, number, 0) == Ok::<
            Seq<u8>,
            StorageRecordEditError,
        >(record),
{
    let payload = storage_record::payload_of(record, record_field)->Ok_0;
    let inner = wire::fields(payload)->0;
    wire::lemma_rewritten(inner, number, Seq::empty());
    lemma_replaced_absent(inner, number);
    wire::lemma_fields_joined(payload);
}

/// Setting a field that was absent and then unsetting it restores the original bytes of
/// a canonically wrapped record: toggling accumulates no bytes and reorders no fields.
pub proof fn law_set_then_unset_restores(
    record: Seq<u8>,
    record_field: u32,
    number: u32,
    value: u64,
)
    requires
        record_field != 0,
        number != 0,
        absent(record, record_field, number),
        value == 0 || canonical_wrapper(record, record_field),
        storage_record::muted_until_set(record, record_field, number, value) matches Ok(out)
            && out.len() <= usize::MAX,
    ensures
        storage_record::muted_until_set(
            storage_record::muted_until_set(record, record_field, number, value)->Ok_0,
            record_field,
            number,
            0,
        ) == Ok::<Seq<u8>, StorageRecordEditError>(record),
{
    law_unset_absent_is_a_no_op(record, record_field, number);
    if value != 0 {
        law_last_set_wins(record, record_field, number, value, 0);
    }
}

/// A canonical wrapper, written anew around what it holds, is the same bytes.
proof fn lemma_rewrapped_same(record: Seq<u8>, record_field: u32)
    requires
        wire::fields(record) is Some,
        canonical_wrapper(record, record_field),
    ensures
        ({
            let outer = wire::fields(record)->0;
            wire::rewritten(
                outer,
                record_field,
                wire::len_field_bytes(
                    record_field,
                    wire::numbered(outer, record_field)[0].payload,
                ),
            ) == record
        }),
{
    let outer = wire::fields(record)->0;
    let wrapper = wire::numbered(outer, record_field);
    assert(wrapper =~= seq![len_field(record_field, wrapper[0].payload)]);
    lemma_joined_one(wrapper[0]);
    lemma_replaced_same(outer, record_field);
    wire::lemma_rewritten(outer, record_field, wrapper);
    wire::lemma_fields_joined(record);
}

/// Of two writes to one field, the last one alone decides the bytes. The one exception is a
/// record whose wrapper is not canonical: a write that changes nothing leaves such a wrapper
/// as it is, and any other write makes it canonical.
pub proof fn law_last_set_wins(
    record: Seq<u8>,
    record_field: u32,
    number: u32,
    first: u64,
    second: u64,
)
    requires
        record_field != 0,
        number != 0,
        first != 0,
        canonical_wrapper(record, record_field) || storage_record::muted_until_set(
            record,
            record_field,
            number,
            first,
        ) == Ok::<Seq<u8>, StorageRecordEditError>(record) || storage_record::muted_until_set(
            record,
            record_field,
            number,
            second,
        ) != Ok::<Seq<u8>, StorageRecordEditError>(record),
        storage_record::muted_until_set(record, record_field, number, first) matches Ok(out)
            && out.len() <= usize::MAX,
    ensures
        storage_record::muted_until_set(
            storage_record::muted_until_set(record, record_field, number, first)->Ok_0,
            record_field,
            number,
            second,
        ) == storage_record::muted_until_set(record, record_field, number, second),
{
    let out = storage_record::muted_until_set(record, record_field, number, first)->Ok_0;
    if out != record {
        let outer = wire::fields(record)->0;
        let payload = wire::numbered(outer, record_field)[0].payload;
        let inner = wire::fields(payload)->0;
        let once = edited_fields(record, record_field, number, first);
        let twice = wire::replaced(inner, number, put(number, second));
        lemma_edited_payload(record, record_field, number, first);
        lemma_rewrapped(record, record_field, wire::joined(once));
        lemma_replaced_twice(inner, number, put(number, first), put(number, second));
        lemma_joined_put(number, second);
        wire::lemma_rewritten(inner, number, put(number, second));
        wire::lemma_rewritten(once, number, put(number, second));
        let w1 = seq![len_field(record_field, wire::joined(once))];
        let w2 = seq![len_field(record_field, wire::joined(twice))];
        lemma_replaced_twice(outer, record_field, w1, w2);
        lemma_joined_one(w2[0]);
        wire::lemma_rewritten(outer, record_field, w2);
        wire::lemma_rewritten(wire::replaced(outer, record_field, w1), record_field, w2);
        if wire::joined(twice) == payload && canonical_wrapper(record, record_field) {
            lemma_rewrapped_same(record, record_field);
        }
        if wire::joined(twice) == wire::joined(once) {
            lemma_joined_one(w1[0]);
            wire::lemma_rewritten(outer, record_field, w1);
        }
    }
}

/// Whether a record holds one inner record under a field, and that can be read.
pub open spec fn is_readable(record: Seq<u8>, record_field: u32) -> bool {
    &&& wire::fields(record) is Some
    &&& wire::numbered(wire::fields(record)->0, record_field).len() == 1
    &&& wire::fields(wire::numbered(wire::fields(record)->0, record_field)[0].payload) is Some
}

/// The block of a contact is a one in field 9 of the contact of a record, and its absence
/// is no block.
pub proof fn law_the_block_stands_in_its_field(
    record: &[u8],
    blocked: bool,
    r: Result<Vec<u8>, StorageRecordEditError>,
)
    requires
        call_ensures(storage_record::set_contact_blocked, (record, blocked), r),
    ensures
        r is Ok <==> is_readable(record@, 1),
        r is Ok && r->Ok_0@.len() <= usize::MAX ==> storage_record::varint_of(r->Ok_0@, 1, 9)
            == Ok::<u64, StorageRecordEditError>(
            if blocked {
                1
            } else {
                0
            },
        ),
{
    if r is Ok && r->Ok_0@.len() <= usize::MAX {
        let value: u64 = if blocked {
            1
        } else {
            0
        };
        law_set_then_read(record@, 1, 9, value);
    }
    lemma_when_editable(record@, 1, 9, if blocked {
        Some(wire::varint_field_bytes(9, 1))
    } else {
        None
    });
}

proof fn lemma_when_editable(
    record: Seq<u8>,
    record_field: u32,
    number: u32,
    replacement: Option<Seq<u8>>,
)
    ensures
        storage_record::record_field_set(record, record_field, number, replacement) is Ok
            <==> is_readable(record, record_field),
{
}

/// A contact is blocked where field 9 of the contact in its record says anything but
/// zero.
pub proof fn law_the_block_is_read_from_its_field(
    record: &[u8],
    r: Result<bool, StorageRecordEditError>,
)
    requires
        call_ensures(storage_record::contact_blocked, (record,), r),
    ensures
        storage_record::varint_of(record@, 1, 9) matches Ok(value) ==> r is Ok && (r->Ok_0
            <==> value != 0),
        storage_record::varint_of(record@, 1, 9) matches Err(e) ==> r is Err && r->Err_0 == e,
{
}

/// How long a contact is muted stands in field 13 of the contact of a record, and how
/// long a group is in field 6 of the group; each reads back what was written.
pub proof fn law_a_mute_stands_in_its_field(
    record: &[u8],
    muted_until: u64,
    contact: Result<Vec<u8>, StorageRecordEditError>,
    group: Result<Vec<u8>, StorageRecordEditError>,
)
    requires
        call_ensures(storage_record::set_contact_muted_until, (record, muted_until), contact),
        call_ensures(storage_record::set_group_muted_until, (record, muted_until), group),
    ensures
        contact is Ok <==> is_readable(record@, 1),
        group is Ok <==> is_readable(record@, 3),
        contact is Ok && contact->Ok_0@.len() <= usize::MAX ==> storage_record::varint_of(
            contact->Ok_0@,
            1,
            13,
        ) == Ok::<u64, StorageRecordEditError>(muted_until),
        group is Ok && group->Ok_0@.len() <= usize::MAX ==> storage_record::varint_of(
            group->Ok_0@,
            3,
            6,
        ) == Ok::<u64, StorageRecordEditError>(muted_until),
{
    if contact is Ok && contact->Ok_0@.len() <= usize::MAX {
        law_set_then_read(record@, 1, 13, muted_until);
    }
    if group is Ok && group->Ok_0@.len() <= usize::MAX {
        law_set_then_read(record@, 3, 6, muted_until);
    }
    lemma_when_editable(record@, 1, 13, if muted_until != 0 {
        Some(wire::varint_field_bytes(13, muted_until))
    } else {
        None
    });
    lemma_when_editable(record@, 3, 6, if muted_until != 0 {
        Some(wire::varint_field_bytes(6, muted_until))
    } else {
        None
    });
}

/// How long somebody is muted is read from where it is written.
pub proof fn law_a_mute_is_read_from_its_field(
    record: &[u8],
    contact: Result<u64, StorageRecordEditError>,
    group: Result<u64, StorageRecordEditError>,
)
    requires
        call_ensures(storage_record::contact_muted_until, (record,), contact),
        call_ensures(storage_record::group_muted_until, (record,), group),
    ensures
        contact == storage_record::varint_of(record@, 1, 13),
        group == storage_record::varint_of(record@, 3, 6),
{
}

/// The last of several values of a field counts; a field that is not there is zero, and one of
/// another kind cannot be read.
pub proof fn law_the_last_value_counts(record: Seq<u8>, record_field: u32, number: u32)
    requires
        is_readable(record, record_field),
    ensures
        ({
            let inner = wire::fields(
                wire::numbered(wire::fields(record)->0, record_field)[0].payload,
            )->0;
            let found = wire::numbered(inner, number);
            let value = storage_record::varint_of(record, record_field, number);
            &&& found.len() == 0 ==> value == Ok::<u64, StorageRecordEditError>(0u64)
            &&& found.len() > 0 && found[found.len() - 1].wire_type == 0 ==> value is Ok
                && wire::varint(found[found.len() - 1].payload) is Some ==> value->Ok_0 == (
            wire::varint(found[found.len() - 1].payload)->0).0
            &&& found.len() > 0 && found[found.len() - 1].wire_type != 0 ==> value == Err::<
                u64,
                StorageRecordEditError,
            >(StorageRecordEditError::Malformed)
        }),
{
}

/// A record that cannot be read tells why: it is no message, it holds no record of the kind, or
/// more than one.
pub proof fn law_a_record_of_another_kind_is_refused(record: Seq<u8>, record_field: u32)
    ensures
        ({
            let r = storage_record::payload_of(record, record_field);
            let found = wire::numbered(wire::fields(record)->0, record_field);
            &&& wire::fields(record) is None ==> r == Err::<Seq<u8>, StorageRecordEditError>(
                StorageRecordEditError::Malformed,
            )
            &&& wire::fields(record) is Some && found.len() == 0 ==> r == Err::<
                Seq<u8>,
                StorageRecordEditError,
            >(StorageRecordEditError::WrongRecordType)
            &&& wire::fields(record) is Some && found.len() > 1 ==> r == Err::<
                Seq<u8>,
                StorageRecordEditError,
            >(StorageRecordEditError::AmbiguousRecord)
            &&& wire::fields(record) is Some && found.len() == 1 ==> r == Ok::<
                Seq<u8>,
                StorageRecordEditError,
            >(found[0].payload)
        }),
{
}

/// Setting a field of a message puts the new bytes where the first such field was, or at the end
/// where there was none; the fields with other numbers stay, bytes and order. Without new bytes
/// the field is gone. A message that cannot be read is refused.
pub proof fn law_setting_a_field_leaves_the_others(
    msg: &[u8],
    number: u32,
    value: u64,
    new: &[u8],
    set: Result<Vec<u8>, StorageRecordEditError>,
    unset: Result<Vec<u8>, StorageRecordEditError>,
)
    requires
        call_ensures(storage_record::set_field, (msg, number, Some(new)), set),
        call_ensures(storage_record::set_field, (msg, number, None::<&[u8]>), unset),
        number != 0,
        new@ == wire::varint_field_bytes(number, value),
    ensures
        set is Ok <==> wire::fields(msg@) is Some,
        unset is Ok <==> wire::fields(msg@) is Some,
        set is Err ==> set->Err_0 == StorageRecordEditError::Malformed,
        unset is Err ==> unset->Err_0 == StorageRecordEditError::Malformed,
        set is Ok ==> {
            let after = wire::fields(set->Ok_0@);
            &&& after is Some
            &&& wire::others(after->0, number) == wire::others(wire::fields(msg@)->0, number)
            &&& wire::numbered(after->0, number).len() == 1
            &&& wire::numbered(after->0, number)[0].whole == new@
        },
        unset is Ok ==> {
            let after = wire::fields(unset->Ok_0@);
            &&& after is Some
            &&& wire::others(after->0, number) == wire::others(wire::fields(msg@)->0, number)
            &&& wire::numbered(after->0, number).len() == 0
        },
{
    if wire::fields(msg@) is Some {
        let list = wire::fields(msg@)->0;
        wire::lemma_fields_joined(msg@);
        lemma_varint_field(number, value);
        let field = seq![varint_field(number, value)];
        reveal_with_fuel(wire::joined, 2);
        assert(field.skip(1) =~= Seq::<WireField>::empty());
        assert(wire::joined(field) =~= new@);
        lemma_field_is_put(list, number, field);
        lemma_field_is_put(list, number, Seq::empty());
    }
}

proof fn lemma_field_is_put(list: Seq<WireField>, number: u32, replacement: Seq<WireField>)
    requires
        wire::well_formed(list),
        wire::well_formed(replacement),
        forall|i: int| 0 <= i < replacement.len() ==> (#[trigger] replacement[i]).number == number,
    ensures
        ({
            let after = wire::fields(wire::rewritten(list, number, wire::joined(replacement)));
            &&& after is Some
            &&& wire::others(after->0, number) == wire::others(list, number)
            &&& wire::numbered(after->0, number) == replacement
        }),
{
    wire::lemma_rewritten(list, number, replacement);
    wire::lemma_replaced(list, number, replacement);
    wire::lemma_joined_fields(wire::replaced(list, number, replacement));
}

/// A number that is written as a field reads back as that field.
pub proof fn law_a_written_number_is_its_field(number: u32, value: u64, out: Vec<u8>)
    requires
        call_ensures(storage_record::encode_varint_field, (number, value), out),
        number != 0,
    ensures
        wire::first_field(out@) matches Some(field) && {
            &&& field.number == number
            &&& field.wire_type == 0
            &&& field.whole == out@
            &&& wire::varint(field.payload) is Some
            &&& (wire::varint(field.payload)->0).0 == value
        },
{
    lemma_varint_field(number, value);
}

/// Bytes that are written as a field read back as that field.
pub proof fn law_written_bytes_are_their_field(number: u32, payload: &[u8], out: Vec<u8>)
    requires
        call_ensures(storage_record::encode_len_delimited, (number, payload), out),
        number != 0,
        payload@.len() <= usize::MAX,
    ensures
        wire::first_field(out@) matches Some(field) && {
            &&& field.number == number
            &&& field.wire_type == 2
            &&& field.whole == out@
            &&& field.payload == payload@
        },
{
    lemma_len_field(number, payload@);
}

/// A number, and a tag, are appended to what was written before.
pub proof fn law_numbers_are_appended(
    value: u64,
    number: u32,
    wire_type: u8,
    out: &mut Vec<u8>,
    tagged: &mut Vec<u8>,
)
    requires
        call_ensures(storage_record::encode_varint, (value, out), ()),
        call_ensures(storage_record::encode_tag, (number, wire_type, tagged), ()),
        wire_type < 8,
    ensures
        old(out)@.is_prefix_of(final(out)@),
        wire::varint(final(out)@.skip(old(out)@.len() as int)) == Some(
            (value, (final(out)@.len() - old(out)@.len()) as nat),
        ),
        old(tagged)@.is_prefix_of(final(tagged)@),
        wire::varint(final(tagged)@.skip(old(tagged)@.len() as int)) == Some(
            (
                (8 * number + wire_type) as u64,
                (final(tagged)@.len() - old(tagged)@.len()) as nat,
            ),
        ),
{
    let bytes = wire::varint_bytes(value);
    assert(final(out)@.skip(old(out)@.len() as int) =~= bytes);
    assert(bytes + Seq::<u8>::empty() =~= bytes);
    wire::lemma_varint_round_trip(value, Seq::empty());
    wire::law_a_tag_is_number_and_type(number, wire_type);
    let tag = wire::varint_bytes(wire::tag(number, wire_type));
    assert(final(tagged)@.skip(old(tagged)@.len() as int) =~= tag);
    assert(tag + Seq::<u8>::empty() =~= tag);
    wire::lemma_varint_round_trip(wire::tag(number, wire_type), Seq::empty());
}

/// The fields that a scan finds are those of the message, in their order, and cover it.
pub proof fn law_a_scan_finds_every_field(
    msg: &[u8],
    spans: Result<Vec<FieldSpan>, StorageRecordEditError>,
)
    requires
        call_ensures(storage_record::scan, (msg,), spans),
    ensures
        spans is Ok <==> wire::fields(msg@) is Some,
        spans is Err ==> spans->Err_0 == StorageRecordEditError::Malformed,
        spans is Ok ==> {
            let list = wire::fields(msg@)->0;
            &&& spans->Ok_0@.len() == list.len()
            &&& forall|i: int|
                0 <= i < list.len() ==> {
                    let span = #[trigger] spans->Ok_0@[i];
                    &&& span.number == list[i].number
                    &&& span.wire_type == list[i].wire_type
                    &&& msg@.subrange(span.whole.start as int, span.whole.end as int)
                        == list[i].whole
                    &&& msg@.subrange(span.payload.start as int, span.payload.end as int)
                        == list[i].payload
                }
            &&& wire::joined(list) == msg@
        },
{
    if spans is Ok {
        let list = wire::fields(msg@)->0;
        wire::lemma_fields_joined(msg@);
        assert forall|i: int| 0 <= i < list.len() implies {
            let span = #[trigger] spans->Ok_0@[i];
            &&& span.number == list[i].number
            &&& span.wire_type == list[i].wire_type
            &&& msg@.subrange(span.whole.start as int, span.whole.end as int) == list[i].whole
            &&& msg@.subrange(span.payload.start as int, span.payload.end as int)
                == list[i].payload
        } by {
            assert(list[i] == spans->Ok_0@[i].field(msg@));
        }
    }
}

/// The inner record that is found is the only one of its kind in the record.
pub proof fn law_the_inner_record_is_the_only_one(
    record: &[u8],
    record_field: u32,
    range: Result<core::ops::Range<usize>, StorageRecordEditError>,
)
    requires
        call_ensures(storage_record::record_payload, (record, record_field), range),
    ensures
        range is Ok ==> storage_record::payload_of(record@, record_field) == Ok::<
            Seq<u8>,
            StorageRecordEditError,
        >(record@.subrange(range->Ok_0.start as int, range->Ok_0.end as int)),
        range is Err ==> storage_record::payload_of(record@, record_field) == Err::<
            Seq<u8>,
            StorageRecordEditError,
        >(range->Err_0),
{
}

/// Blocking a contact leaves everything else of its record as it was, bytes and order: the other
/// fields of the record, and those of the contact in it.
pub proof fn law_blocking_leaves_the_rest(
    record: &[u8],
    blocked: bool,
    r: Result<Vec<u8>, StorageRecordEditError>,
)
    requires
        call_ensures(storage_record::set_contact_blocked, (record, blocked), r),
        r is Ok,
        r->Ok_0@.len() <= usize::MAX,
    ensures
        ({
            let inner = wire::fields(storage_record::payload_of(record@, 1)->Ok_0)->0;
            let edited = wire::fields(storage_record::payload_of(r->Ok_0@, 1)->Ok_0)->0;
            &&& wire::others(wire::fields(r->Ok_0@)->0, 1) == wire::others(
                wire::fields(record@)->0,
                1,
            )
            &&& wire::others(edited, 9) == wire::others(inner, 9)
        }),
{
    let value: u64 = if blocked {
        1
    } else {
        0
    };
    law_edit_preserves_the_rest(record@, 1, 9, value);
}

} // verus!

//! Little-endian numbers.
use vstd::prelude::*;

verus! {

/// The number that bytes spell, least significant first.
pub open spec fn le_value(bytes: Seq<u8>) -> nat
    decreases bytes.len(),
{
    if bytes.len() == 0 {
        0
    } else {
        bytes[0] as nat + 256 * le_value(bytes.skip(1))
    }
}

/// A number in `len` bytes, least significant first.
pub open spec fn le_bytes(value: nat, len: nat) -> Seq<u8>
    decreases len,
{
    if len == 0 {
        Seq::empty()
    } else {
        seq![(value % 256) as u8] + le_bytes(value / 256, (len - 1) as nat)
    }
}

/// How many numbers `len` bytes can spell.
pub open spec fn le_limit(len: nat) -> nat
    decreases len,
{
    if len == 0 {
        1
    } else {
        256 * le_limit((len - 1) as nat)
    }
}

pub proof fn lemma_le_value(bytes: Seq<u8>)
    ensures
        le_value(bytes) < le_limit(bytes.len()),
    decreases bytes.len(),
{
    if bytes.len() > 0 {
        lemma_le_value(bytes.skip(1));
    }
}

proof fn lemma_limit_8()
    ensures
        le_limit(8) == 0x1_0000_0000_0000_0000,
{
    reveal_with_fuel(le_limit, 9);
}

proof fn lemma_limit_monotonic(a: nat, b: nat)
    requires
        a <= b,
    ensures
        le_limit(a) <= le_limit(b),
    decreases b,
{
    if a < b {
        lemma_limit_monotonic(a, (b - 1) as nat);
    }
}

/// A number that fits comes back from its bytes.
pub proof fn law_le_round_trip(value: nat, len: nat)
    requires
        value < le_limit(len),
    ensures
        le_bytes(value, len).len() == len,
        le_value(le_bytes(value, len)) == value,
    decreases len,
{
    if len > 0 {
        law_le_round_trip(value / 256, (len - 1) as nat);
        let bytes = le_bytes(value, len);
        assert(bytes.skip(1) =~= le_bytes(value / 256, (len - 1) as nat));
    }
}

/// The number that at most eight bytes spell.
pub fn u64_from_le(bytes: &[u8]) -> (value: u64)
    requires
        bytes@.len() <= 8,
    ensures
        value == le_value(bytes@),
{
    let mut value: u64 = 0;
    let mut i: usize = bytes.len();
    proof {
        assert(bytes@.skip(i as int) =~= Seq::<u8>::empty());
    }
    while i > 0
        invariant
            i <= bytes@.len() <= 8,
            value == le_value(bytes@.skip(i as int)),
        decreases i,
    {
        i = i - 1;
        proof {
            let here = bytes@.skip(i as int);
            assert(here.skip(1) =~= bytes@.skip(i + 1));
            lemma_le_value(here);
            lemma_limit_monotonic(here.len(), 8);
            lemma_limit_8();
        }
        value = value * 256 + bytes[i] as u64;
    }
    assert(bytes@.skip(0) =~= bytes@);
    value
}

/// A number in eight bytes, least significant first.
pub fn u64_to_le(value: u64) -> (bytes: Vec<u8>)
    ensures
        bytes@ == le_bytes(value as nat, 8),
        bytes@.len() == 8,
        le_value(bytes@) == value,
{
    let mut bytes: Vec<u8> = Vec::new();
    let mut rest: u64 = value;
    let mut i: usize = 0;
    proof {
        assert(bytes@ + le_bytes(value as nat, 8) =~= le_bytes(value as nat, 8));
    }
    while i < 8
        invariant
            i <= 8,
            bytes@.len() == i,
            bytes@ + le_bytes(rest as nat, (8 - i) as nat) == le_bytes(value as nat, 8),
        decreases 8 - i,
    {
        let ghost before = bytes@;
        let byte: u8 = (rest % 256) as u8;
        bytes.push(byte);
        proof {
            let tail = le_bytes((rest / 256) as nat, (8 - (i + 1)) as nat);
            assert(before + (seq![byte] + tail) =~= bytes@ + tail);
        }
        rest = rest / 256;
        i = i + 1;
    }
    proof {
        assert(bytes@ + Seq::<u8>::empty() =~= bytes@);
        lemma_limit_8();
        law_le_round_trip(value as nat, 8);
    }
    bytes
}

/// Each byte of a number stands at its place, the smallest first.
pub proof fn law_bytes_stand_at_their_place(value: nat, len: nat, i: int)
    requires
        0 <= i < len,
    ensures
        le_bytes(value, len).len() == len,
        le_bytes(value, len)[i] == (value as int / vstd::arithmetic::power::pow(256, i as nat)) % 256,
    decreases len,
{
    let rest = le_bytes(value / 256, (len - 1) as nat);
    reveal(vstd::arithmetic::power::pow);
    if len > 1 {
        law_bytes_stand_at_their_place(value / 256, (len - 1) as nat, if i > 0 {
            i - 1
        } else {
            0
        });
    }
    if i > 0 {
        let k = (i - 1) as nat;
        assert(le_bytes(value, len)[i] == rest[i - 1]);
        vstd::arithmetic::power::lemma_pow_positive(256, k);
        vstd::arithmetic::div_mod::lemma_div_denominator(
            value as int,
            256,
            vstd::arithmetic::power::pow(256, k),
        );
        assert(vstd::arithmetic::power::pow(256, i as nat) == 256
            * vstd::arithmetic::power::pow(256, k));
    }
}

/// Reading bytes gives the number whose bytes they are.
pub proof fn law_bytes_are_read_at_their_place(bytes: Seq<u8>)
    ensures
        le_bytes(le_value(bytes), bytes.len()) == bytes,
    decreases bytes.len(),
{
    if bytes.len() > 0 {
        let rest = bytes.skip(1);
        law_bytes_are_read_at_their_place(rest);
        let value = le_value(bytes);
        assert(value == bytes[0] as nat + 256 * le_value(rest));
        assert(value % 256 == bytes[0] as nat);
        assert(value / 256 == le_value(rest));
        assert(seq![bytes[0]] + rest =~= bytes);
    } else {
        assert(le_bytes(le_value(bytes), bytes.len()) =~= bytes);
    }
}

} // verus!

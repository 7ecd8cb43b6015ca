//! Text and byte helpers: comparing, hexadecimal, and uuid text.
use vstd::prelude::*;

verus! {

/// The deep view of bytes is their view.
pub broadcast proof fn lemma_bytes_view(bytes: Vec<u8>)
    ensures
        #[trigger] bytes.deep_view() == bytes@,
{
    assert(bytes.deep_view() =~= bytes@);
}

/// Whether two byte strings are the same.
pub fn bytes_equal(a: &[u8], b: &[u8]) -> (r: bool)
    ensures
        r == (a@ == b@),
{
    if a.len() != b.len() {
        return false;
    }
    let mut i: usize = 0;
    while i < a.len()
        invariant
            i <= a@.len(),
            a@.len() == b@.len(),
            forall|j: int| 0 <= j < i ==> a@[j] == b@[j],
        decreases a@.len() - i,
    {
        if a[i] != b[i] {
            return false;
        }
        i = i + 1;
    }
    assert(a@ =~= b@);
    true
}

/// Whether two strings are the same.
pub fn str_equal(a: &str, b: &str) -> (r: bool)
    ensures
        r == (a@ == b@),
{
    proof {
        vstd::utf8::encode_utf8_decode_utf8(a@);
        vstd::utf8::encode_utf8_decode_utf8(b@);
    }
    bytes_equal(a.as_bytes(), b.as_bytes())
}

/// The lower-case hexadecimal digit for `value`, which is below 16.
pub open spec fn hex_digit(value: int) -> char {
    if value < 10 {
        (48 + value) as char
    } else {
        (87 + value) as char
    }
}

/// The text of a digit, which is below 16.
fn digit_text(value: u8) -> (text: &'static str)
    requires
        value < 16,
    ensures
        text@ == seq![hex_digit(value as int)],
{
    proof {
        reveal_strlit("0");
        reveal_strlit("1");
        reveal_strlit("2");
        reveal_strlit("3");
        reveal_strlit("4");
        reveal_strlit("5");
        reveal_strlit("6");
        reveal_strlit("7");
        reveal_strlit("8");
        reveal_strlit("9");
        reveal_strlit("a");
        reveal_strlit("b");
        reveal_strlit("c");
        reveal_strlit("d");
        reveal_strlit("e");
        reveal_strlit("f");
        assert("0"@ =~= seq![hex_digit(0)]);
        assert("1"@ =~= seq![hex_digit(1)]);
        assert("2"@ =~= seq![hex_digit(2)]);
        assert("3"@ =~= seq![hex_digit(3)]);
        assert("4"@ =~= seq![hex_digit(4)]);
        assert("5"@ =~= seq![hex_digit(5)]);
        assert("6"@ =~= seq![hex_digit(6)]);
        assert("7"@ =~= seq![hex_digit(7)]);
        assert("8"@ =~= seq![hex_digit(8)]);
        assert("9"@ =~= seq![hex_digit(9)]);
        assert("a"@ =~= seq![hex_digit(10)]);
        assert("b"@ =~= seq![hex_digit(11)]);
        assert("c"@ =~= seq![hex_digit(12)]);
        assert("d"@ =~= seq![hex_digit(13)]);
        assert("e"@ =~= seq![hex_digit(14)]);
        assert("f"@ =~= seq![hex_digit(15)]);
    }
    match value {
        0 => "0",
        1 => "1",
        2 => "2",
        3 => "3",
        4 => "4",
        5 => "5",
        6 => "6",
        7 => "7",
        8 => "8",
        9 => "9",
        10 => "a",
        11 => "b",
        12 => "c",
        13 => "d",
        14 => "e",
        _ => "f",
    }
}

/// A number in decimal.
pub open spec fn decimal_text(value: nat) -> Seq<char>
    decreases value,
{
    if value < 10 {
        seq![hex_digit(value as int)]
    } else {
        decimal_text(value / 10).push(hex_digit((value % 10) as int))
    }
}

/// A number in decimal.
pub fn decimal(value: u64) -> (text: String)
    ensures
        text@ == decimal_text(value as nat),
    decreases value,
{
    let last = digit_text((value % 10) as u8);
    if value < 10 {
        last.to_owned()
    } else {
        let text = decimal(value / 10).concat(last);
        assert(text@ =~= decimal_text(value as nat));
        text
    }
}

/// A byte in hexadecimal, without a leading zero.
pub open spec fn short_hex_text(byte: u8) -> Seq<char> {
    if byte < 16 {
        seq![hex_digit(byte as int)]
    } else {
        seq![hex_digit(byte as int / 16), hex_digit(byte as int % 16)]
    }
}

/// A byte in hexadecimal, without a leading zero.
pub fn short_hex(byte: u8) -> (text: String)
    ensures
        text@ == short_hex_text(byte),
{
    if byte < 16 {
        digit_text(byte).to_owned()
    } else {
        let text = digit_text(byte / 16).to_owned().concat(digit_text(byte % 16));
        assert(text@ =~= short_hex_text(byte));
        text
    }
}

/// Lower-case hexadecimal, two digits a byte.
pub open spec fn hex_text(bytes: Seq<u8>) -> Seq<char> {
    Seq::new(
        2 * bytes.len(),
        |i: int|
            if i % 2 == 0 {
                hex_digit(bytes[i / 2] as int / 16)
            } else {
                hex_digit(bytes[i / 2] as int % 16)
            },
    )
}

/// The bytes in lower-case hexadecimal, as `hex::encode` writes them.
#[verifier::external_body]
pub(crate) fn hex_encode(bytes: &[u8]) -> (text: String)
    ensures
        text@ == hex_text(bytes@),
{
    hex::encode(bytes)
}

/// The text form of a uuid: hexadecimal, in groups of 4, 2, 2, 2 and 6 bytes with
/// hyphens between them.
pub open spec fn uuid_text(bytes: Seq<u8>) -> Seq<char> {
    hex_text(bytes.subrange(0, 4)) + seq!['-'] + hex_text(bytes.subrange(4, 6)) + seq!['-']
        + hex_text(bytes.subrange(6, 8)) + seq!['-'] + hex_text(bytes.subrange(8, 10)) + seq!['-']
        + hex_text(bytes.subrange(10, 16))
}

/// The hyphenated text of a uuid, as `uuid::Uuid`'s `to_string` writes it.
#[verifier::external_body]
pub(crate) fn uuid_to_string(bytes: [u8; 16]) -> (text: String)
    ensures
        text@ == uuid_text(bytes@),
{
    uuid::Uuid::from_bytes(bytes).to_string()
}

/// What `uuid::Uuid::parse_str` reads in a text: the bytes of a uuid, or nothing.
pub uninterp spec fn parsed_uuid(text: Seq<char>) -> Option<Seq<u8>>;

/// Reads a uuid with `uuid::Uuid::parse_str`, whose result is [`parsed_uuid`]. Of the
/// forms it takes (simple, hyphenated, braced and urn, in either case) only this is
/// said: it reads back the hyphenated lower-case text that [`uuid_to_string`] writes.
#[verifier::external_body]
pub(crate) fn uuid_parse(text: &str) -> (r: Option<[u8; 16]>)
    ensures
        match r {
            Some(bytes) => parsed_uuid(text@) == Some(bytes@),
            None => parsed_uuid(text@) is None,
        },
        forall|bytes: Seq<u8>|
            bytes.len() == 16 && text@ == #[trigger] uuid_text(bytes) ==> r is Some && r->0@
                == bytes,
{
    uuid::Uuid::parse_str(text).ok().map(|uuid| uuid.into_bytes())
}

/// The value of a digit of a number.
pub open spec fn digit_value(digit: char) -> int {
    if '0' <= digit <= '9' {
        digit as int - '0' as int
    } else if 'a' <= digit <= 'f' {
        10 + (digit as int - 'a' as int)
    } else {
        -1
    }
}

/// The number that digits stand for, the first one the highest.
pub open spec fn read_decimal(digits: Seq<char>) -> int
    decreases digits.len(),
{
    if digits.len() == 0 {
        0
    } else {
        10 * read_decimal(digits.drop_last()) + digit_value(digits.last())
    }
}

/// A number that is written reads back, has only decimal digits, and none too many.
pub proof fn law_a_written_number_reads_back(value: nat)
    ensures
        read_decimal(decimal_text(value)) == value,
        decimal_text(value).len() > 0,
        decimal_text(value)[0] == '0' ==> value == 0,
        forall|i: int|
            0 <= i < decimal_text(value).len() ==> '0' <= #[trigger] decimal_text(value)[i] <= '9',
    decreases value,
{
    let written = decimal_text(value);
    if value < 10 {
        reveal_with_fuel(read_decimal, 2);
        assert(written.drop_last() =~= Seq::<char>::empty());
        assert(digit_value(written.last()) == value);
    } else {
        law_a_written_number_reads_back(value / 10);
        assert(written.drop_last() =~= decimal_text(value / 10));
        assert(digit_value(written.last()) == value % 10);
        assert(decimal_text(value / 10)[0] == written[0]);
    }
}

/// Each byte is two hexadecimal digits, at its place, the higher one first.
pub proof fn law_a_byte_is_two_digits(bytes: Seq<u8>, i: int)
    requires
        0 <= i < bytes.len(),
    ensures
        hex_text(bytes).len() == 2 * bytes.len(),
        16 * digit_value(hex_text(bytes)[2 * i]) + digit_value(hex_text(bytes)[2 * i + 1])
            == bytes[i],
        digit_value(hex_text(bytes)[2 * i]) >= 0,
        digit_value(hex_text(bytes)[2 * i + 1]) >= 0,
{
    let byte = bytes[i] as int;
    assert((2 * i) / 2 == i && (2 * i) % 2 == 0);
    assert((2 * i + 1) / 2 == i && (2 * i + 1) % 2 == 1);
    assert(hex_text(bytes)[2 * i] == hex_digit(byte / 16));
    assert(hex_text(bytes)[2 * i + 1] == hex_digit(byte % 16));
    assert(digit_value(hex_digit(byte / 16)) == byte / 16);
    assert(digit_value(hex_digit(byte % 16)) == byte % 16);
}

/// A uuid is 32 hexadecimal digits, two for each byte, with hyphens behind the first four bytes
/// and then behind two, two and two.
pub proof fn law_a_uuid_is_hyphenated(bytes: Seq<u8>)
    requires
        bytes.len() == 16,
    ensures
        uuid_text(bytes).len() == 36,
        uuid_text(bytes)[8] == '-',
        uuid_text(bytes)[13] == '-',
        uuid_text(bytes)[18] == '-',
        uuid_text(bytes)[23] == '-',
        uuid_text(bytes).subrange(0, 8) == hex_text(bytes.subrange(0, 4)),
        uuid_text(bytes).subrange(9, 13) == hex_text(bytes.subrange(4, 6)),
        uuid_text(bytes).subrange(14, 18) == hex_text(bytes.subrange(6, 8)),
        uuid_text(bytes).subrange(19, 23) == hex_text(bytes.subrange(8, 10)),
        uuid_text(bytes).subrange(24, 36) == hex_text(bytes.subrange(10, 16)),
{
}

/// A byte in its short form has no leading zero and reads back.
pub proof fn law_a_short_byte_reads_back(byte: u8, text: String)
    requires
        call_ensures(short_hex, (byte,), text),
    ensures
        byte < 16 ==> text@.len() == 1 && digit_value(text@[0]) == byte,
        byte >= 16 ==> text@.len() == 2 && 16 * digit_value(text@[0]) + digit_value(text@[1])
            == byte,
{
    let value = byte as int;
    assert(digit_value(hex_digit(value / 16)) == value / 16);
    assert(digit_value(hex_digit(value % 16)) == value % 16);
}

} // verus!

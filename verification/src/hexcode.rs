//! Hexadecimal text.
use vstd::prelude::*;
use vstd::utf8::encode_utf8;

verus! {

/// Whether `c` is one of `0..9`, `a..f`, `A..F`.
pub open spec fn is_hex_digit(c: char) -> bool {
    ('0' <= c && c <= '9') || ('a' <= c && c <= 'f') || ('A' <= c && c <= 'F')
}

/// The value of the hexadecimal digit `c`.
pub open spec fn hex_value(c: char) -> nat {
    if '0' <= c && c <= '9' {
        (c as nat - '0' as nat) as nat
    } else if 'a' <= c && c <= 'f' {
        (c as nat - 'a' as nat + 10) as nat
    } else {
        (c as nat - 'A' as nat + 10) as nat
    }
}

/// The lower-case hexadecimal digit of value `v`, for `v < 16`.
pub open spec fn hex_digit(v: nat) -> char {
    if v < 10 {
        ('0' as nat + v) as char
    } else {
        ('a' as nat + v - 10) as char
    }
}

/// Whether `text` is an even number of hexadecimal digits.
pub open spec fn is_hex(text: Seq<char>) -> bool {
    &&& text.len() % 2 == 0
    &&& forall|i: int| 0 <= i < text.len() ==> is_hex_digit(#[trigger] text[i])
}

/// The bytes that hexadecimal `text` stands for, two digits each.
pub open spec fn hex_bytes(text: Seq<char>) -> Seq<u8> {
    Seq::new(
        (text.len() / 2) as nat,
        |i: int| (16 * hex_value(text[2 * i]) + hex_value(text[2 * i + 1])) as u8,
    )
}

/// The lower-case hexadecimal text of `bytes`.
pub open spec fn hex_text(bytes: Seq<u8>) -> Seq<char> {
    Seq::new(
        2 * bytes.len(),
        |i: int|
            if i % 2 == 0 {
                hex_digit((bytes[i / 2] / 16) as nat)
            } else {
                hex_digit((bytes[i / 2] % 16) as nat)
            },
    )
}

/// The model of optional bytes.
pub open spec fn optional_bytes(bytes: Option<Vec<u8>>) -> Option<Seq<u8>> {
    match bytes {
        Some(b) => Some(b@),
        None => None,
    }
}

/// What `hex::decode` displays as its error for a text that is not hexadecimal.
pub uninterp spec fn hex_error(text: Seq<char>) -> Seq<char>;

/// `hex::decode`. Claimed of it: it accepts exactly the texts made of an even number of
/// hexadecimal digits, of either case, and gives the bytes they stand for; for any other text
/// the displayed error depends on the text alone, and names an odd number of digits where the
/// text is an odd number of UTF-8 bytes.
#[verifier::external_body]
pub(crate) fn decode(text: &str) -> (r: Result<Vec<u8>, String>)
    ensures
        match r {
            Ok(bytes) => is_hex(text@) && bytes@ == hex_bytes(text@),
            Err(e) => !is_hex(text@) && e@ == hex_error(text@) && (encode_utf8(text@).len() % 2
                != 0 ==> e@ == "Odd number of digits"@),
        },
{
    match hex::decode(text) {
        Ok(bytes) => Ok(bytes),
        Err(e) => Err(e.to_string()),
    }
}

/// `hex::encode`. Claimed of it: the result is the lower-case hexadecimal text of the bytes.
#[verifier::external_body]
pub(crate) fn encode(bytes: &[u8]) -> (r: String)
    ensures
        r@ == hex_text(bytes@),
{
    hex::encode(bytes)
}

/// Reading back the hexadecimal text of some bytes gives those bytes.
pub proof fn hex_round_trip(bytes: Seq<u8>)
    ensures
        is_hex(hex_text(bytes)),
        hex_bytes(hex_text(bytes)) == bytes,
{
    let text = hex_text(bytes);
    assert forall|i: int| 0 <= i < text.len() implies is_hex_digit(#[trigger] text[i]) by {}
    assert forall|i: int| 0 <= i < bytes.len() implies hex_bytes(text)[i] == bytes[i] by {
        assert((2 * i) / 2 == i && (2 * i + 1) / 2 == i);
        assert(text[2 * i] == hex_digit((bytes[i] / 16) as nat));
        assert(text[2 * i + 1] == hex_digit((bytes[i] % 16) as nat));
        assert(hex_value(text[2 * i]) == bytes[i] / 16);
        assert(hex_value(text[2 * i + 1]) == bytes[i] % 16);
    }
    assert(hex_bytes(text) =~= bytes);
}

/// Two byte strings with the same hexadecimal text are the same.
pub proof fn hex_text_is_injective(left: Seq<u8>, right: Seq<u8>)
    requires
        hex_text(left) == hex_text(right),
    ensures
        left == right,
{
    hex_round_trip(left);
    hex_round_trip(right);
}

/// Reading lower-case hexadecimal text and writing it again gives the same text.
pub proof fn hex_text_of_hex_bytes(text: Seq<char>)
    requires
        is_hex(text),
        forall|i: int| 0 <= i < text.len() ==> !('A' <= #[trigger] text[i] && text[i] <= 'F'),
    ensures
        hex_text(hex_bytes(text)) == text,
{
    let again = hex_text(hex_bytes(text));
    assert forall|i: int| 0 <= i < text.len() implies again[i] == text[i] by {
        let k = i / 2;
        assert(is_hex_digit(text[2 * k]) && is_hex_digit(text[2 * k + 1]));
        let high = hex_value(text[2 * k]);
        let low = hex_value(text[2 * k + 1]);
        assert(hex_bytes(text)[k] == 16 * high + low);
    }
    assert(again =~= text);
}

/// `text` with its lower-case hexadecimal digits in upper case.
pub open spec fn in_capitals(text: Seq<char>) -> Seq<char> {
    text.map_values(
        |c: char|
            if 'a' <= c && c <= 'f' {
                (c as nat - 'a' as nat + 'A' as nat) as char
            } else {
                c
            },
    )
}

/// Hexadecimal text stands for the same bytes in upper case.
pub proof fn capitals_read_the_same(text: Seq<char>)
    requires
        is_hex(text),
    ensures
        is_hex(in_capitals(text)),
        hex_bytes(in_capitals(text)) == hex_bytes(text),
{
    let capitals = in_capitals(text);
    assert forall|i: int| 0 <= i < text.len() implies is_hex_digit(#[trigger] capitals[i])
        && hex_value(capitals[i]) == hex_value(text[i]) by {
        assert(is_hex_digit(text[i]));
    }
    assert forall|i: int| 0 <= i < text.len() / 2 implies hex_bytes(capitals)[i] == hex_bytes(
        text,
    )[i] by {
        assert(hex_value(capitals[2 * i]) == hex_value(text[2 * i]));
        assert(hex_value(capitals[2 * i + 1]) == hex_value(text[2 * i + 1]));
    }
    assert(hex_bytes(capitals) =~= hex_bytes(text));
}

} // verus!

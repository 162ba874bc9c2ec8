//! A model of UTF-8 validity and decoding for the fixed-capacity author
//! field, and the trusted conversion from bytes to `String`.
use vstd::prelude::*;

verus! {

/// A continuation byte: `10xxxxxx`.
pub open spec fn is_cont_byte(b: u8) -> bool {
    0x80 <= b <= 0xBF
}

/// A well-formed three-byte sequence head: overlong encodings (`E0` followed
/// by a byte below `A0`) and surrogate code points (`ED` followed by a byte
/// above `9F`) are excluded.
pub open spec fn is_three_byte_seq(a: u8, b: u8, c: u8) -> bool {
    is_cont_byte(c) && ((a == 0xE0 && 0xA0 <= b <= 0xBF) || (0xE1 <= a <= 0xEC && is_cont_byte(b))
        || (a == 0xED && 0x80 <= b <= 0x9F) || (0xEE <= a <= 0xEF && is_cont_byte(b)))
}

/// A well-formed four-byte sequence head: overlong encodings (`F0` followed
/// by a byte below `90`) and code points above `U+10FFFF` (`F4` followed by a
/// byte above `8F`) are excluded.
pub open spec fn is_four_byte_seq(a: u8, b: u8, c: u8, d: u8) -> bool {
    is_cont_byte(c) && is_cont_byte(d) && ((a == 0xF0 && 0x90 <= b <= 0xBF) || (0xF1 <= a <= 0xF3
        && is_cont_byte(b)) || (a == 0xF4 && 0x80 <= b <= 0x8F))
}

/// The length in bytes of the well-formed encoded scalar value at the front
/// of `s`, or `0` when `s` does not start with one.
pub open spec fn spec_first_seq_len(s: Seq<u8>) -> int {
    if s.len() >= 1 && s[0] <= 0x7F {
        1
    } else if s.len() >= 2 && 0xC2 <= s[0] <= 0xDF && is_cont_byte(s[1]) {
        2
    } else if s.len() >= 3 && is_three_byte_seq(s[0], s[1], s[2]) {
        3
    } else if s.len() >= 4 && is_four_byte_seq(s[0], s[1], s[2], s[3]) {
        4
    } else {
        0
    }
}

/// The Unicode scalar value encoded at the front of `s`, assuming a
/// well-formed sequence starts there.
pub open spec fn spec_first_scalar(s: Seq<u8>) -> int {
    let n = spec_first_seq_len(s);
    if n == 1 {
        s[0] as int
    } else if n == 2 {
        (s[0] - 0xC0) * 0x40 + (s[1] - 0x80)
    } else if n == 3 {
        (s[0] - 0xE0) * 0x1000 + (s[1] - 0x80) * 0x40 + (s[2] - 0x80)
    } else {
        (s[0] - 0xF0) * 0x40000 + (s[1] - 0x80) * 0x1000 + (s[2] - 0x80) * 0x40 + (s[3] - 0x80)
    }
}

/// Whether `s` is entirely composed of well-formed UTF-8 sequences.
pub open spec fn spec_utf8_valid(s: Seq<u8>) -> bool
    decreases s.len(),
{
    if s.len() == 0 {
        true
    } else if spec_first_seq_len(s) == 0 {
        false
    } else {
        spec_utf8_valid(s.skip(spec_first_seq_len(s)))
    }
}

/// The Unicode scalar values encoded by `s`, in order, for a valid `s`
/// (an ill-formed remainder contributes nothing).
pub open spec fn spec_utf8_scalars(s: Seq<u8>) -> Seq<int>
    decreases s.len(),
{
    if s.len() == 0 || spec_first_seq_len(s) == 0 {
        Seq::empty()
    } else {
        seq![spec_first_scalar(s)] + spec_utf8_scalars(s.skip(spec_first_seq_len(s)))
    }
}

/// Whether the characters of `cs` are exactly the scalar values `vs`.
pub open spec fn chars_are_scalars(cs: Seq<char>, vs: Seq<int>) -> bool {
    cs.len() == vs.len() && (forall|i: int| 0 <= i < cs.len() ==> #[trigger] (cs[i] as int) == vs[i])
}

/// Relies on `String::from_utf8`: it succeeds exactly on valid UTF-8 and the
/// resulting characters are the decoded Unicode scalar values of the bytes.
#[verifier::external_body]
pub(crate) fn string_from_utf8(bytes: Vec<u8>) -> (r: Option<String>)
    ensures
        r is Some <==> spec_utf8_valid(bytes@),
        (r matches Some(s) ==> chars_are_scalars(s@, spec_utf8_scalars(bytes@))),
{
    match String::from_utf8(bytes) {
        Ok(s) => Some(s),
        Err(_) => None,
    }
}

} // verus!

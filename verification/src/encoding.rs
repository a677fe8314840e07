//! Hex text encoding of byte strings (through the `hex` crate).

use vstd::prelude::*;

verus! {

#[verifier::external_type_specification]
#[verifier::external_body]
pub struct ExFromHexError(hex::FromHexError);

/// The lower-case hex digit for `n` (0..16).
pub open spec fn hex_digit_lower(n: int) -> char {
    if n < 10 {
        (48 + n) as char
    } else {
        (87 + n) as char
    }
}

/// The upper-case hex digit for `n` (0..16).
pub open spec fn hex_digit_upper(n: int) -> char {
    if n < 10 {
        (48 + n) as char
    } else {
        (55 + n) as char
    }
}

/// Lower-case hex text of `b`: two digits per byte, high nibble first.
pub open spec fn spec_hex_lower(b: Seq<u8>) -> Seq<char> {
    Seq::new(
        2 * b.len(),
        |i: int|
            if i % 2 == 0 {
                hex_digit_lower((b[i / 2] / 16) as int)
            } else {
                hex_digit_lower((b[i / 2] % 16) as int)
            },
    )
}

/// Upper-case hex text of `b`: two digits per byte, high nibble first.
pub open spec fn spec_hex_upper(b: Seq<u8>) -> Seq<char> {
    Seq::new(
        2 * b.len(),
        |i: int|
            if i % 2 == 0 {
                hex_digit_upper((b[i / 2] / 16) as int)
            } else {
                hex_digit_upper((b[i / 2] % 16) as int)
            },
    )
}

/// The value of a hex digit of either case, or -1 for any other character.
pub open spec fn hex_value(c: char) -> int {
    if '0' <= c && c <= '9' {
        c as int - 48
    } else if 'a' <= c && c <= 'f' {
        c as int - 87
    } else if 'A' <= c && c <= 'F' {
        c as int - 55
    } else {
        -1
    }
}

/// `s` is an even number of hex digits (either case).
pub open spec fn is_hex_text(s: Seq<char>) -> bool {
    &&& s.len() % 2 == 0
    &&& forall|i: int| 0 <= i < s.len() ==> hex_value(#[trigger] s[i]) >= 0
}

/// The bytes that the hex text `s` denotes (meaningful when `is_hex_text(s)`).
pub open spec fn spec_hex_decode(s: Seq<char>) -> Seq<u8> {
    Seq::new(s.len() / 2, |i: int| (16 * hex_value(s[2 * i]) + hex_value(s[2 * i + 1])) as u8)
}

/// Decoding the hex text of `b` (either case) gives back `b`.
pub proof fn lemma_hex_round_trip(b: Seq<u8>)
    ensures
        is_hex_text(spec_hex_lower(b)),
        spec_hex_decode(spec_hex_lower(b)) == b,
        is_hex_text(spec_hex_upper(b)),
        spec_hex_decode(spec_hex_upper(b)) == b,
{
    let l = spec_hex_lower(b);
    let u = spec_hex_upper(b);
    assert forall|i: int| 0 <= i < l.len() implies hex_value(#[trigger] l[i]) >= 0 by {
        let v = b[i / 2];
        assert(0 <= v / 16 < 16 && 0 <= v % 16 < 16);
    }
    assert forall|i: int| 0 <= i < u.len() implies hex_value(#[trigger] u[i]) >= 0 by {
        let v = b[i / 2];
        assert(0 <= v / 16 < 16 && 0 <= v % 16 < 16);
    }
    assert forall|i: int| 0 <= i < b.len() implies #[trigger] spec_hex_decode(l)[i] == b[i] by {
        let v = b[i];
        assert((2 * i) / 2 == i && (2 * i + 1) / 2 == i);
        assert((2 * i) % 2 == 0 && (2 * i + 1) % 2 == 1);
        assert(hex_value(l[2 * i]) == v / 16);
        assert(hex_value(l[2 * i + 1]) == v % 16);
        assert(16 * (v / 16) + v % 16 == v);
    }
    assert forall|i: int| 0 <= i < b.len() implies #[trigger] spec_hex_decode(u)[i] == b[i] by {
        let v = b[i];
        assert((2 * i) / 2 == i && (2 * i + 1) / 2 == i);
        assert((2 * i) % 2 == 0 && (2 * i + 1) % 2 == 1);
        assert(hex_value(u[2 * i]) == v / 16);
        assert(hex_value(u[2 * i + 1]) == v % 16);
        assert(16 * (v / 16) + v % 16 == v);
    }
    assert(spec_hex_decode(l) =~= b);
    assert(spec_hex_decode(u) =~= b);
}

/// `hex::encode`: lower-case hex text of `data`.
#[verifier::external_body]
pub(crate) fn hex_encode(data: &[u8]) -> (s: String)
    ensures
        s@ == spec_hex_lower(data@),
{
    hex::encode(data)
}

/// `hex::encode_upper`: upper-case hex text of `data`.
#[verifier::external_body]
pub(crate) fn hex_encode_upper(data: &[u8]) -> (s: String)
    ensures
        s@ == spec_hex_upper(data@),
{
    hex::encode_upper(data)
}

/// `hex::decode`: succeeds exactly on an even number of hex digits of either
/// case, and then gives the bytes they denote.
#[verifier::external_body]
pub(crate) fn hex_decode(text: &str) -> (r: Result<Vec<u8>, hex::FromHexError>)
    ensures
        r is Ok <==> is_hex_text(text@),
        r matches Ok(v) ==> v@ == spec_hex_decode(text@),
{
    hex::decode(text)
}

} // verus!

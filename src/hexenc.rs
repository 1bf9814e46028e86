use vstd::prelude::*;

verus! {

/// The lower-case hexadecimal digit for a value below 16.
pub open spec fn hex_digit(v: int) -> char
    recommends
        0 <= v < 16,
{
    seq!['0', '1', '2', '3', '4', '5', '6', '7', '8', '9', 'a', 'b', 'c', 'd', 'e', 'f'][v]
}

/// Lower-case hexadecimal text of a byte string: two digits per byte, high nibble first.
pub open spec fn hex_of(b: Seq<u8>) -> Seq<char> {
    Seq::new(
        2 * b.len(),
        |k: int|
            if k % 2 == 0 {
                hex_digit(b[k / 2] as int / 16)
            } else {
                hex_digit(b[k / 2] as int % 16)
            },
    )
}

/// Relies on hex::encode: lower-case digits, two per byte, high nibble first.
#[verifier::external_body]
pub(crate) fn encode_hex(data: &[u8]) -> (r: String)
    ensures
        r@ == hex_of(data@),
{
    hex::encode(data)
}

/// The value of a lower-case hexadecimal digit.
pub open spec fn hex_value(c: char) -> int {
    if c == '0' { 0 } else if c == '1' { 1 } else if c == '2' { 2 } else if c == '3' { 3 }
    else if c == '4' { 4 } else if c == '5' { 5 } else if c == '6' { 6 } else if c == '7' { 7 }
    else if c == '8' { 8 } else if c == '9' { 9 } else if c == 'a' { 10 } else if c == 'b' { 11 }
    else if c == 'c' { 12 } else if c == 'd' { 13 } else if c == 'e' { 14 } else { 15 }
}

proof fn hex_digit_round_trip(v: int)
    requires
        0 <= v < 16,
    ensures
        hex_value(hex_digit(v)) == v,
{
    if v == 0 {} else if v == 1 {} else if v == 2 {} else if v == 3 {} else if v == 4 {}
    else if v == 5 {} else if v == 6 {} else if v == 7 {} else if v == 8 {} else if v == 9 {}
    else if v == 10 {} else if v == 11 {} else if v == 12 {} else if v == 13 {} else if v == 14 {}
    else {}
}

/// Byte strings of one length with the same hex text are equal.
pub proof fn hex_of_injective(a: Seq<u8>, b: Seq<u8>)
    requires
        a.len() == b.len(),
        hex_of(a) == hex_of(b),
    ensures
        a == b,
{
    assert forall|k: int| 0 <= k < a.len() implies a[k] == b[k] by {
        assert((2 * k) / 2 == k && (2 * k) % 2 == 0 && (2 * k + 1) / 2 == k && (2 * k + 1) % 2
            == 1);
        assert(hex_of(a)[2 * k] == hex_of(b)[2 * k]);
        assert(hex_of(a)[2 * k + 1] == hex_of(b)[2 * k + 1]);
        assert(hex_of(a)[2 * k] == hex_digit(a[k] as int / 16));
        assert(hex_of(b)[2 * k] == hex_digit(b[k] as int / 16));
        assert(hex_of(a)[2 * k + 1] == hex_digit(a[k] as int % 16));
        assert(hex_of(b)[2 * k + 1] == hex_digit(b[k] as int % 16));
        hex_digit_round_trip(a[k] as int / 16);
        hex_digit_round_trip(b[k] as int / 16);
        hex_digit_round_trip(a[k] as int % 16);
        hex_digit_round_trip(b[k] as int % 16);
        assert(a[k] as int == 16 * (a[k] as int / 16) + a[k] as int % 16);
        assert(b[k] as int == 16 * (b[k] as int / 16) + b[k] as int % 16);
    }
    assert(a =~= b);
}

} // verus!

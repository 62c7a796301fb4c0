//! The per-device identifier and its four-character hexadecimal text form.
//!
//! A node is configured with a four-digit hexadecimal identifier. The
//! digits accepted are `0`-`9` and the lowercase letters `a`-`f`; of the
//! uppercase letters only `F` is accepted, standing for fifteen like its
//! lowercase form. The identifier also appears, rendered back into four
//! lowercase digits, in the name the node advertises.

use vstd::prelude::*;

verus! {

/// Whether `b` is an accepted hexadecimal digit character.
pub open spec fn is_hex_digit(b: u8) -> bool {
    (48 <= b <= 57) || (97 <= b <= 102) || b == 70
}

/// The value, 0 to 15, of an accepted hexadecimal digit character.
pub open spec fn hex_digit_value(b: u8) -> u16 {
    if 48 <= b <= 57 {
        (b - 48) as u16
    } else if 97 <= b <= 102 {
        (b - 97 + 10) as u16
    } else {
        15
    }
}

/// The identifier that four accepted digit characters stand for.
pub open spec fn spec_id_of_digits(s: Seq<u8>) -> u16 {
    (hex_digit_value(s[0]) * 4096 + hex_digit_value(s[1]) * 256 + hex_digit_value(s[2]) * 16
        + hex_digit_value(s[3])) as u16
}

/// The lowercase hexadecimal digit character for a value below 16.
pub open spec fn spec_hex_char(v: u16) -> u8 {
    if v < 10 {
        (v + 48) as u8
    } else {
        (v + 87) as u8
    }
}

/// The four lowercase hexadecimal digit characters of an identifier.
pub open spec fn spec_id_digits(id: u16) -> Seq<u8> {
    seq![
        spec_hex_char((id >> 12) & 0xf),
        spec_hex_char((id >> 8) & 0xf),
        spec_hex_char((id >> 4) & 0xf),
        spec_hex_char(id & 0xf),
    ]
}

/// The value of one accepted digit character; `None` for any other byte.
fn hex_digit(b: u8) -> (r: Option<u16>)
    ensures
        r is Some <==> is_hex_digit(b),
        is_hex_digit(b) ==> r == Some(hex_digit_value(b)),
{
    if 48 <= b && b <= 57 {
        Some((b - 48) as u16)
    } else if 97 <= b && b <= 102 {
        Some((b - 97 + 10) as u16)
    } else if b == 70 {
        Some(15)
    } else {
        None
    }
}

/// Parses a device identifier from its configured text form: exactly
/// four accepted hexadecimal digit characters. Any other length or any
/// other character is a fatal configuration error, reported as `None`.
pub fn get_id(digits: &[u8]) -> (r: Option<u16>)
    ensures
        r is Some <==> digits@.len() == 4 && is_hex_digit(digits@[0]) && is_hex_digit(digits@[1])
            && is_hex_digit(digits@[2]) && is_hex_digit(digits@[3]),
        r is Some ==> r == Some(spec_id_of_digits(digits@)),
{
    if digits.len() != 4 {
        return None;
    }
    let d0 = match hex_digit(digits[0]) {
        Some(v) => v,
        None => { return None; },
    };
    let d1 = match hex_digit(digits[1]) {
        Some(v) => v,
        None => { return None; },
    };
    let d2 = match hex_digit(digits[2]) {
        Some(v) => v,
        None => { return None; },
    };
    let d3 = match hex_digit(digits[3]) {
        Some(v) => v,
        None => { return None; },
    };
    Some(d0 * 4096 + d1 * 256 + d2 * 16 + d3)
}

/// Renders an identifier into its four lowercase hexadecimal digit
/// characters, as the advertised node name carries it.
pub fn id_to_digits(id: u16) -> (r: [u8; 4])
    ensures
        r@ == spec_id_digits(id),
{
    proof {
        assert((id >> 12) & 0xf < 16 && (id >> 8) & 0xf < 16 && (id >> 4) & 0xf < 16 && id & 0xf
            < 16) by (bit_vector);
    }
    let n0 = ((id >> 12) & 0xf) as u8;
    let n1 = ((id >> 8) & 0xf) as u8;
    let n2 = ((id >> 4) & 0xf) as u8;
    let n3 = (id & 0xf) as u8;
    let r: [u8; 4] = [hex_char(n0), hex_char(n1), hex_char(n2), hex_char(n3)];
    proof {
        assert(r@ =~= spec_id_digits(id));
    }
    r
}

/// The lowercase digit character for a nibble value.
fn hex_char(v: u8) -> (r: u8)
    requires
        v < 16,
    ensures
        r == spec_hex_char(v as u16),
{
    if v < 10 {
        v + 48
    } else {
        v + 87
    }
}

/// Law: rendering an identifier and parsing the rendered digits gives
/// the identifier back, for every identifier.
pub proof fn lemma_id_round_trip(id: u16)
    ensures
        spec_id_digits(id).len() == 4,
        is_hex_digit(spec_id_digits(id)[0]),
        is_hex_digit(spec_id_digits(id)[1]),
        is_hex_digit(spec_id_digits(id)[2]),
        is_hex_digit(spec_id_digits(id)[3]),
        spec_id_of_digits(spec_id_digits(id)) == id,
{
    assert((id >> 12) & 0xf < 16 && (id >> 8) & 0xf < 16 && (id >> 4) & 0xf < 16 && id & 0xf < 16)
        by (bit_vector);
    lemma_hex_char_inverts((id >> 12) & 0xf);
    lemma_hex_char_inverts((id >> 8) & 0xf);
    lemma_hex_char_inverts((id >> 4) & 0xf);
    lemma_hex_char_inverts(id & 0xf);
    assert(((id >> 12) & 0xf) * 4096 + ((id >> 8) & 0xf) * 256 + ((id >> 4) & 0xf) * 16 + (id
        & 0xf) == id) by (bit_vector);
}

/// The digit character of a nibble value is accepted and stands for that
/// value again.
proof fn lemma_hex_char_inverts(v: u16)
    requires
        v < 16,
    ensures
        is_hex_digit(spec_hex_char(v)),
        hex_digit_value(spec_hex_char(v)) == v,
{
}

} // verus!

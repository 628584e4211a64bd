//! JSON text for records of one string field, as UTF-8 bytes.

use vstd::prelude::*;
use vstd::string::StringSliceAdditionalSpecFns;

verus! {

/// The lowercase hexadecimal digit for `d` (which is below 16).
pub open spec fn hex_digit(d: u8) -> u8 {
    if d < 10 {
        (0x30 + d) as u8
    } else {
        (0x61 + d - 10) as u8
    }
}

/// How one byte of a string's UTF-8 encoding is written inside a JSON string.
///
/// The quote and the backslash are escaped with a backslash; the control
/// characters take their short escape where JSON has one and `\u00XX`
/// otherwise; every other byte stands for itself. Bytes of a multi-byte UTF-8
/// sequence are all at least 0x80, so they are kept as they are.
pub open spec fn escape_byte(b: u8) -> Seq<u8> {
    if b == 0x22 {
        seq![0x5cu8, 0x22u8]
    } else if b == 0x5c {
        seq![0x5cu8, 0x5cu8]
    } else if b == 0x08 {
        seq![0x5cu8, 0x62u8]
    } else if b == 0x09 {
        seq![0x5cu8, 0x74u8]
    } else if b == 0x0a {
        seq![0x5cu8, 0x6eu8]
    } else if b == 0x0c {
        seq![0x5cu8, 0x66u8]
    } else if b == 0x0d {
        seq![0x5cu8, 0x72u8]
    } else if b < 0x20 {
        seq![0x5cu8, 0x75u8, 0x30u8, 0x30u8, hex_digit(b / 16), hex_digit(b % 16)]
    } else {
        seq![b]
    }
}

/// The bytes `bs` written inside a JSON string, each byte escaped in turn.
pub open spec fn escaped(bs: Seq<u8>) -> Seq<u8>
    decreases bs.len(),
{
    if bs.len() == 0 {
        Seq::empty()
    } else {
        escaped(bs.drop_last()) + escape_byte(bs.last())
    }
}

/// A JSON string literal holding the characters `s`.
pub open spec fn quoted(s: Seq<char>) -> Seq<u8> {
    seq![0x22u8] + escaped(vstd::utf8::encode_utf8(s)) + seq![0x22u8]
}

/// The compact JSON text of an object with the single member `key: value`,
/// both strings: `{"key":"value"}`.
pub open spec fn field_object(key: Seq<char>, value: Seq<char>) -> Seq<u8> {
    seq![0x7bu8] + quoted(key) + seq![0x3au8] + quoted(value) + seq![0x7du8]
}

/// Appends to `out` the escaped form of each byte of `bs`.
pub fn push_escaped(out: &mut Vec<u8>, bs: &[u8])
    ensures
        final(out)@ == old(out)@ + escaped(bs@),
{
    let ghost start = out@;
    let mut i: usize = 0;
    while i < bs.len()
        invariant
            i <= bs@.len(),
            out@ == start + escaped(bs@.take(i as int)),
        decreases bs@.len() - i,
    {
        let b = bs[i];
        let ghost before = out@;
        if b == 0x22 || b == 0x5c {
            out.push(0x5c);
            out.push(b);
        } else if b == 0x08 {
            out.push(0x5c);
            out.push(0x62);
        } else if b == 0x09 {
            out.push(0x5c);
            out.push(0x74);
        } else if b == 0x0a {
            out.push(0x5c);
            out.push(0x6e);
        } else if b == 0x0c {
            out.push(0x5c);
            out.push(0x66);
        } else if b == 0x0d {
            out.push(0x5c);
            out.push(0x72);
        } else if b < 0x20 {
            out.push(0x5c);
            out.push(0x75);
            out.push(0x30);
            out.push(0x30);
            out.push(hex_byte(b / 16));
            out.push(hex_byte(b % 16));
        } else {
            out.push(b);
        }
        proof {
            assert(out@ =~= before + escape_byte(b));
            assert(bs@.take(i + 1).drop_last() =~= bs@.take(i as int));
        }
        i = i + 1;
    }
    proof {
        assert(bs@.take(i as int) =~= bs@);
    }
}

/// The lowercase hexadecimal digit for `d`.
fn hex_byte(d: u8) -> (r: u8)
    requires
        d < 16,
    ensures
        r == hex_digit(d),
{
    if d < 10 {
        0x30 + d
    } else {
        0x61 + d - 10
    }
}

/// Appends to `out` the JSON string literal holding `s`.
fn push_quoted(out: &mut Vec<u8>, s: &str)
    ensures
        final(out)@ == old(out)@ + quoted(s@),
{
    let ghost start = out@;
    out.push(0x22);
    push_escaped(out, s.as_bytes());
    out.push(0x22);
    proof {
        assert(out@ =~= start + quoted(s@));
    }
}

/// The JSON text of the object with the single string member `key: value`.
pub fn encode_field_object(key: &str, value: &str) -> (r: Vec<u8>)
    ensures
        r@ == field_object(key@, value@),
{
    let mut out: Vec<u8> = Vec::new();
    out.push(0x7b);
    push_quoted(&mut out, key);
    out.push(0x3a);
    push_quoted(&mut out, value);
    out.push(0x7d);
    proof {
        assert(out@ =~= field_object(key@, value@));
    }
    out
}

} // verus!

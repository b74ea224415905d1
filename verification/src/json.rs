//! Byte-exact emission of the failure payload shape `{"result": <code>,
//! "data": <text or null>}`: decimal rendering of the result code and JSON
//! string escaping of the message, both specified to the byte.

use vstd::prelude::*;

verus! {

/// The decimal digits of a non-negative integer, as ASCII bytes.
pub open spec fn spec_udec(n: nat) -> Seq<u8>
    decreases n,
{
    if n < 10 {
        seq![(48 + n) as u8]
    } else {
        spec_udec(n / 10).push((48 + n % 10) as u8)
    }
}

/// The decimal rendering of an integer, as ASCII bytes, with a leading
/// minus sign when it is negative.
pub open spec fn spec_idec(n: int) -> Seq<u8> {
    if n < 0 {
        seq![45u8] + spec_udec((-n) as nat)
    } else {
        spec_udec(n as nat)
    }
}

/// Renders a non-negative integer in decimal.
pub fn udec_bytes(n: u64) -> (r: Vec<u8>)
    ensures
        r@ == spec_udec(n as nat),
    decreases n,
{
    if n < 10 {
        let mut out: Vec<u8> = Vec::new();
        out.push(48 + (n as u8));
        proof {
            assert(out@ =~= spec_udec(n as nat));
        }
        out
    } else {
        let mut out = udec_bytes(n / 10);
        out.push(48 + ((n % 10) as u8));
        out
    }
}

/// Renders a signed 16-bit integer in decimal.
pub fn i16_dec_bytes(n: i16) -> (r: Vec<u8>)
    ensures
        r@ == spec_idec(n as int),
{
    if n >= 0 {
        udec_bytes(n as u64)
    } else {
        let magnitude: u64 = (-(n as i64)) as u64;
        let mut out: Vec<u8> = Vec::new();
        out.push(45);
        let mut digits = udec_bytes(magnitude);
        out.append(&mut digits);
        proof {
            assert(out@ =~= seq![45u8] + spec_udec((-(n as int)) as nat));
        }
        out
    }
}

/// One hexadecimal digit, lower case.
pub open spec fn spec_hex_digit(n: int) -> u8 {
    if n < 10 {
        (48 + n) as u8
    } else {
        (87 + n) as u8
    }
}

/// How one byte of a JSON string body is written: quotes and backslashes
/// get a backslash escape, the common control characters their short
/// escapes, other control bytes a `\u00XX` escape, and everything else
/// stands as itself.
pub open spec fn spec_escape_byte(b: u8) -> Seq<u8> {
    if b == 34 {
        seq![92u8, 34u8]
    } else if b == 92 {
        seq![92u8, 92u8]
    } else if b == 8 {
        seq![92u8, 98u8]
    } else if b == 9 {
        seq![92u8, 116u8]
    } else if b == 10 {
        seq![92u8, 110u8]
    } else if b == 12 {
        seq![92u8, 102u8]
    } else if b == 13 {
        seq![92u8, 114u8]
    } else if b < 32 {
        seq![92u8, 117u8, 48u8, 48u8, spec_hex_digit(b as int / 16), spec_hex_digit(b as int % 16)]
    } else {
        seq![b]
    }
}

/// The JSON-escaped form of a byte sequence.
pub open spec fn spec_escape_bytes(s: Seq<u8>) -> Seq<u8>
    decreases s.len(),
{
    if s.len() == 0 {
        Seq::empty()
    } else {
        spec_escape_byte(s[0]) + spec_escape_bytes(s.drop_first())
    }
}

proof fn lemma_escape_bytes_push(s: Seq<u8>, b: u8)
    ensures
        spec_escape_bytes(s.push(b)) == spec_escape_bytes(s) + spec_escape_byte(b),
    decreases s.len(),
{
    if s.len() == 0 {
        assert(s.push(b)[0] == b);
        assert(s.push(b).drop_first() =~= s);
        assert(spec_escape_bytes(s.push(b)) =~= spec_escape_bytes(s) + spec_escape_byte(b));
    } else {
        assert(s.push(b)[0] == s[0]);
        assert(s.push(b).drop_first() =~= s.drop_first().push(b));
        lemma_escape_bytes_push(s.drop_first(), b);
        assert(spec_escape_bytes(s.push(b)) =~= spec_escape_bytes(s) + spec_escape_byte(b));
    }
}

fn hex_digit(n: u8) -> (r: u8)
    requires
        n < 16,
    ensures
        r == spec_hex_digit(n as int),
{
    if n < 10 {
        48 + n
    } else {
        87 + n
    }
}

/// Escapes a byte sequence for use as the body of a JSON string literal.
pub fn escape_json_bytes(src: &[u8]) -> (r: Vec<u8>)
    ensures
        r@ == spec_escape_bytes(src@),
{
    let n = src.len();
    let mut out: Vec<u8> = Vec::new();
    for i in 0..n
        invariant
            n == src@.len(),
            out@ == spec_escape_bytes(src@.subrange(0, i as int)),
    {
        let b = *vstd::slice::slice_index_get(src, i);
        let ghost prefix = src@.subrange(0, i as int);
        if b == 34 {
            out.push(92);
            out.push(34);
        } else if b == 92 {
            out.push(92);
            out.push(92);
        } else if b == 8 {
            out.push(92);
            out.push(98);
        } else if b == 9 {
            out.push(92);
            out.push(116);
        } else if b == 10 {
            out.push(92);
            out.push(110);
        } else if b == 12 {
            out.push(92);
            out.push(102);
        } else if b == 13 {
            out.push(92);
            out.push(114);
        } else if b < 32 {
            out.push(92);
            out.push(117);
            out.push(48);
            out.push(48);
            out.push(hex_digit(b / 16));
            out.push(hex_digit(b % 16));
        } else {
            out.push(b);
        }
        proof {
            lemma_escape_bytes_push(prefix, b);
            assert(src@.subrange(0, i as int + 1) =~= prefix.push(b));
            assert(out@ =~= spec_escape_bytes(prefix) + spec_escape_byte(b));
        }
    }
    proof {
        assert(src@.subrange(0, n as int) =~= src@);
    }
    out
}

/// The opening bytes of the failure payload: `{"result":`.
pub open spec fn spec_json_result_prefix() -> Seq<u8> {
    seq![123u8, 34u8, 114u8, 101u8, 115u8, 117u8, 108u8, 116u8, 34u8, 58u8]
}

/// The bytes that introduce the data field: `,"data":`.
pub open spec fn spec_json_data_key() -> Seq<u8> {
    seq![44u8, 34u8, 100u8, 97u8, 116u8, 97u8, 34u8, 58u8]
}

/// The bytes of the JSON `null` literal.
pub open spec fn spec_json_null() -> Seq<u8> {
    seq![110u8, 117u8, 108u8, 108u8]
}

/// Appends `{"result":` to the output.
pub fn push_json_result_prefix(out: &mut Vec<u8>)
    ensures
        final(out)@ == old(out)@ + spec_json_result_prefix(),
{
    out.push(123);
    out.push(34);
    out.push(114);
    out.push(101);
    out.push(115);
    out.push(117);
    out.push(108);
    out.push(116);
    out.push(34);
    out.push(58);
    proof {
        assert(out@ =~= old(out)@ + spec_json_result_prefix());
    }
}

/// Appends `,"data":` to the output.
pub fn push_json_data_key(out: &mut Vec<u8>)
    ensures
        final(out)@ == old(out)@ + spec_json_data_key(),
{
    out.push(44);
    out.push(34);
    out.push(100);
    out.push(97);
    out.push(116);
    out.push(97);
    out.push(34);
    out.push(58);
    proof {
        assert(out@ =~= old(out)@ + spec_json_data_key());
    }
}

} // verus!

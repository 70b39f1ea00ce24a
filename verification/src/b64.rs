//! Unpadded URL-safe base64, the encoding every ACME field uses.

use vstd::prelude::*;
use vstd::string::StringSliceAdditionalSpecFns;
use crate::text::push_char;

verus! {

/// The digit at position `v` of the URL-safe alphabet.
pub open spec fn b64_char(v: u8) -> char
    recommends
        v < 64,
{
    if v < 26 {
        (((65 + v) as u8) as char)  // 'A'..='Z'
    } else if v < 52 {
        (((71 + v) as u8) as char)  // 'a'..='z'
    } else if v < 62 {
        (((v - 52 + 48) as u8) as char)  // '0'..='9'
    } else if v == 62 {
        '-'
    } else {
        '_'
    }
}

/// The four digits of one full three-byte group.
pub open spec fn b64_group(b0: u8, b1: u8, b2: u8) -> Seq<char> {
    seq![
        b64_char(b0 >> 2),
        b64_char(((b0 & 0x03) << 4) | (b1 >> 4)),
        b64_char(((b1 & 0x0f) << 2) | (b2 >> 6)),
        b64_char(b2 & 0x3f),
    ]
}

/// The two digits of a one-byte tail (no padding).
pub open spec fn b64_tail1(b0: u8) -> Seq<char> {
    seq![b64_char(b0 >> 2), b64_char((b0 & 0x03) << 4)]
}

/// The three digits of a two-byte tail (no padding).
pub open spec fn b64_tail2(b0: u8, b1: u8) -> Seq<char> {
    seq![b64_char(b0 >> 2), b64_char(((b0 & 0x03) << 4) | (b1 >> 4)), b64_char((b1 & 0x0f) << 2)]
}

/// The unpadded URL-safe base64 encoding of a byte sequence.
pub open spec fn b64_chars(bs: Seq<u8>) -> Seq<char>
    decreases bs.len(),
{
    if bs.len() == 0 {
        Seq::empty()
    } else if bs.len() == 1 {
        b64_tail1(bs[0])
    } else if bs.len() == 2 {
        b64_tail2(bs[0], bs[1])
    } else {
        b64_group(bs[0], bs[1], bs[2]) + b64_chars(bs.skip(3))
    }
}

fn b64_digit(v: u8) -> (c: char)
    requires
        v < 64,
    ensures
        c == b64_char(v),
{
    if v < 26 {
        (65 + v) as char
    } else if v < 52 {
        (71 + v) as char
    } else if v < 62 {
        (v - 52 + 48) as char
    } else if v == 62 {
        '-'
    } else {
        '_'
    }
}

proof fn lemma_six_bit_bounds(b0: u8, b1: u8, b2: u8)
    by (bit_vector)
    ensures
        b0 >> 2 < 64,
        ((b0 & 0x03) << 4) | (b1 >> 4) < 64,
        ((b1 & 0x0f) << 2) | (b2 >> 6) < 64,
        b2 & 0x3f < 64,
        (b0 & 0x03) << 4 < 64,
        (b1 & 0x0f) << 2 < 64,
{
}

/// Encode bytes as unpadded URL-safe base64.
pub fn b64url(bytes: &[u8]) -> (r: String)
    ensures
        r@ == b64_chars(bytes@),
{
    let n = bytes.len();
    let mut out = String::new();
    let mut i: usize = 0;
    proof {
        assert(bytes@.skip(0) =~= bytes@);
        assert(out@ + b64_chars(bytes@) =~= b64_chars(bytes@));
    }
    while n - i >= 3
        invariant
            n == bytes@.len(),
            0 <= i <= n,
            out@ + b64_chars(bytes@.skip(i as int)) == b64_chars(bytes@),
        decreases n - i,
    {
        let b0 = bytes[i];
        let b1 = bytes[i + 1];
        let b2 = bytes[i + 2];
        proof {
            lemma_six_bit_bounds(b0, b1, b2);
        }
        push_char(&mut out, b64_digit(b0 >> 2));
        push_char(&mut out, b64_digit(((b0 & 0x03) << 4) | (b1 >> 4)));
        push_char(&mut out, b64_digit(((b1 & 0x0f) << 2) | (b2 >> 6)));
        push_char(&mut out, b64_digit(b2 & 0x3f));
        proof {
            let tail = bytes@.skip(i as int);
            assert(tail.len() >= 3);
            assert(tail[0] == b0 && tail[1] == b1 && tail[2] == b2);
            assert(tail.skip(3) =~= bytes@.skip(i + 3));
            assert(b64_chars(tail) == b64_group(b0, b1, b2) + b64_chars(bytes@.skip(i + 3)));
            assert(out@ + b64_chars(bytes@.skip(i + 3)) =~= b64_chars(bytes@));
        }
        i = i + 3;
    }
    proof {
        assert(bytes@.skip(i as int).len() == n - i < 3);
    }
    if n - i == 1 {
        let b0 = bytes[i];
        proof {
            lemma_six_bit_bounds(b0, 0, 0);
            let tail = bytes@.skip(i as int);
            assert(tail.len() == 1 && tail[0] == b0);
            assert(b64_chars(tail) == b64_tail1(b0));
        }
        push_char(&mut out, b64_digit(b0 >> 2));
        push_char(&mut out, b64_digit((b0 & 0x03) << 4));
    } else if n - i == 2 {
        let b0 = bytes[i];
        let b1 = bytes[i + 1];
        proof {
            lemma_six_bit_bounds(b0, b1, 0);
            let tail = bytes@.skip(i as int);
            assert(tail.len() == 2 && tail[0] == b0 && tail[1] == b1);
            assert(b64_chars(tail) == b64_tail2(b0, b1));
        }
        push_char(&mut out, b64_digit(b0 >> 2));
        push_char(&mut out, b64_digit(((b0 & 0x03) << 4) | (b1 >> 4)));
        push_char(&mut out, b64_digit((b1 & 0x0f) << 2));
    } else {
        proof {
            assert(i == n);
            assert(bytes@.skip(i as int) =~= Seq::<u8>::empty());
        }
    }
    proof {
        assert(out@ =~= b64_chars(bytes@));
    }
    out
}

/// Encode the UTF-8 bytes of a string as unpadded URL-safe base64.
pub fn b64url_of_str(s: &str) -> (r: String)
    ensures
        r@ == b64_chars(vstd::utf8::encode_utf8(s@)),
{
    let bytes = s.as_bytes();
    proof {
        assert(bytes@ == s.spec_bytes());
    }
    b64url(bytes)
}

} // verus!

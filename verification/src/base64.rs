//! Standard base64 (RFC 4648 alphabet, `=` padding), as the proxy header,
//! the Basic authorization value and the key files use it.
//!
//! Decoding skips white space, stops at the first `=`, and refuses any
//! other character outside the alphabet; a final group of fewer than four
//! characters yields the whole bytes it holds.

use vstd::prelude::*;

use vstd::arithmetic::div_mod::lemma_fundamental_div_mod_converse;

use crate::text::{chars_vec, push_char};

verus! {

/// The base64 digit for a value below 64.
pub open spec fn b64_char(v: nat) -> char {
    if v < 26 {
        (65 + v) as char
    } else if v < 52 {
        (97 + (v - 26)) as char
    } else if v < 62 {
        (48 + (v - 52)) as char
    } else if v == 62 {
        '+'
    } else {
        '/'
    }
}

/// The four digits of one group of up to three bytes (`n` bytes, 1 to 3),
/// padded with `=`.
pub open spec fn b64_group(b0: u8, b1: u8, b2: u8, n: int) -> Seq<char> {
    let v = b0 as nat * 65536 + b1 as nat * 256 + b2 as nat;
    seq![
        b64_char(v / 262144),
        b64_char((v / 4096) % 64),
        if n > 1 { b64_char((v / 64) % 64) } else { '=' },
        if n > 2 { b64_char(v % 64) } else { '=' },
    ]
}

/// The base64 encoding of `b`.
pub open spec fn b64_encode(b: Seq<u8>) -> Seq<char>
    decreases b.len(),
{
    if b.len() == 0 {
        Seq::empty()
    } else if b.len() == 1 {
        b64_group(b[0], 0, 0, 1)
    } else if b.len() == 2 {
        b64_group(b[0], b[1], 0, 2)
    } else {
        b64_group(b[0], b[1], b[2], 3) + b64_encode(b.subrange(3, b.len() as int))
    }
}

/// The value of a base64 digit.
pub open spec fn b64_value(c: char) -> Option<u8> {
    if 'A' <= c && c <= 'Z' {
        Some((c as u32 - 65) as u8)
    } else if 'a' <= c && c <= 'z' {
        Some((c as u32 - 97 + 26) as u8)
    } else if '0' <= c && c <= '9' {
        Some((c as u32 - 48 + 52) as u8)
    } else if c == '+' {
        Some(62)
    } else if c == '/' {
        Some(63)
    } else {
        None
    }
}

/// Whether `c` has the Unicode White_Space property (`char::is_whitespace`).
pub open spec fn is_white_space(c: char) -> bool {
    let u = c as u32;
    (0x09 <= u && u <= 0x0D) || u == 0x20 || u == 0x85 || u == 0xA0 || u == 0x1680
        || (0x2000 <= u && u <= 0x200A) || u == 0x2028 || u == 0x2029 || u == 0x202F || u == 0x205F
        || u == 0x3000
}

/// The digit values of `s` up to its first `=`, white space skipped; or the
/// first character that is neither.
pub open spec fn b64_digits(s: Seq<char>) -> Result<Seq<u8>, char>
    decreases s.len(),
{
    if s.len() == 0 {
        Ok(Seq::empty())
    } else if is_white_space(s[0]) {
        b64_digits(s.drop_first())
    } else if s[0] == '=' {
        Ok(Seq::empty())
    } else {
        match b64_value(s[0]) {
            Some(v) => match b64_digits(s.drop_first()) {
                Ok(rest) => Ok(seq![v] + rest),
                Err(c) => Err(c),
            },
            None => Err(s[0]),
        }
    }
}

/// The bytes that base64 digit values carry: three per four digits, and
/// the whole bytes of a shorter last group.
pub open spec fn b64_bytes(v: Seq<u8>) -> Seq<u8>
    decreases v.len(),
{
    if v.len() >= 4 {
        seq![
            (v[0] as nat * 4 + v[1] as nat / 16) as u8,
            ((v[1] as nat % 16) * 16 + v[2] as nat / 4) as u8,
            ((v[2] as nat % 4) * 64 + v[3] as nat) as u8,
        ] + b64_bytes(v.subrange(4, v.len() as int))
    } else if v.len() == 3 {
        seq![(v[0] as nat * 4 + v[1] as nat / 16) as u8, ((v[1] as nat % 16) * 16 + v[2] as nat / 4) as u8]
    } else if v.len() == 2 {
        seq![(v[0] as nat * 4 + v[1] as nat / 16) as u8]
    } else {
        Seq::empty()
    }
}

/// What decoding `s` gives: the bytes, or the offending character.
pub open spec fn b64_decode(s: Seq<char>) -> Result<Seq<u8>, char> {
    match b64_digits(s) {
        Ok(v) => Ok(b64_bytes(v)),
        Err(c) => Err(c),
    }
}

fn digit(v: u32) -> (c: char)
    requires
        v < 64,
    ensures
        c == b64_char(v as nat),
{
    if v < 26 {
        ((65 + v) as u8) as char
    } else if v < 52 {
        ((97 + (v - 26)) as u8) as char
    } else if v < 62 {
        ((48 + (v - 52)) as u8) as char
    } else if v == 62 {
        '+'
    } else {
        '/'
    }
}

fn push_group(s: &mut String, b0: u8, b1: u8, b2: u8, n: usize)
    requires
        1 <= n <= 3,
    ensures
        final(s)@ == old(s)@ + b64_group(b0, b1, b2, n as int),
{
    let v: u32 = (b0 as u32) * 65536 + (b1 as u32) * 256 + (b2 as u32);
    push_char(s, digit(v / 262144));
    push_char(s, digit((v / 4096) % 64));
    if n > 1 {
        push_char(s, digit((v / 64) % 64));
    } else {
        push_char(s, '=');
    }
    if n > 2 {
        push_char(s, digit(v % 64));
    } else {
        push_char(s, '=');
    }
    assert(s@ =~= old(s)@ + b64_group(b0, b1, b2, n as int));
}

/// Encode bytes in base64, padded.
pub fn base64_encode(input: &[u8]) -> (s: String)
    ensures
        s@ == b64_encode(input@),
{
    let mut s = String::new();
    let n = input.len();
    let mut i: usize = 0;
    assert(input@.subrange(0, n as int) =~= input@);
    assert(s@ + b64_encode(input@) =~= b64_encode(input@));
    while i < n
        invariant
            n == input@.len(),
            0 <= i <= n,
            s@ + b64_encode(input@.subrange(i as int, n as int)) == b64_encode(input@),
        decreases n - i,
    {
        let ghost rest = input@.subrange(i as int, n as int);
        let left = n - i;
        if left == 1 {
            push_group(&mut s, input[i], 0, 0, 1);
            i = n;
        } else if left == 2 {
            push_group(&mut s, input[i], input[i + 1], 0, 2);
            i = n;
        } else {
            push_group(&mut s, input[i], input[i + 1], input[i + 2], 3);
            assert(rest.subrange(3, rest.len() as int) =~= input@.subrange(i + 3, n as int));
            i = i + 3;
        }
        assert(input@.subrange(i as int, n as int).len() == 0 ==> b64_encode(input@.subrange(i as int, n as int)) == Seq::<char>::empty());
        assert(s@ + b64_encode(input@.subrange(i as int, n as int)) =~= b64_encode(input@));
    }
    assert(input@.subrange(0, n as int) =~= input@);
    assert(s@ + b64_encode(input@.subrange(i as int, n as int)) == s@ + Seq::<char>::empty());
    assert(s@ =~= b64_encode(input@));
    s
}

fn value_of(c: char) -> (r: Option<u8>)
    ensures
        r == b64_value(c),
{
    if 'A' <= c && c <= 'Z' {
        Some(((c as u32) - 65) as u8)
    } else if 'a' <= c && c <= 'z' {
        Some(((c as u32) - 97 + 26) as u8)
    } else if '0' <= c && c <= '9' {
        Some(((c as u32) - 48 + 52) as u8)
    } else if c == '+' {
        Some(62)
    } else if c == '/' {
        Some(63)
    } else {
        None
    }
}

/// `char::is_whitespace`: the Unicode White_Space property.
pub fn white_space(c: char) -> (b: bool)
    ensures
        b == is_white_space(c),
{
    let u = c as u32;
    (0x09 <= u && u <= 0x0D) || u == 0x20 || u == 0x85 || u == 0xA0 || u == 0x1680
        || (0x2000 <= u && u <= 0x200A) || u == 0x2028 || u == 0x2029 || u == 0x202F || u == 0x205F
        || u == 0x3000
}

fn digits_of(s: &str) -> (r: Result<Vec<u8>, char>)
    ensures
        match (r, b64_digits(s@)) {
            (Ok(v), Ok(w)) => v@ == w,
            (Err(c), Err(d)) => c == d,
            _ => false,
        },
{
    let cs = chars_vec(s);
    let n = cs.len();
    let mut out: Vec<u8> = Vec::new();
    let mut i: usize = 0;
    assert(cs@.subrange(0, n as int) =~= s@);
    assert forall|w: Seq<u8>| out@ + w == w by {
        assert(out@ + w =~= w);
    }
    while i < n
        invariant
            cs@ == s@,
            n == cs@.len(),
            0 <= i <= n,
            forall|w: Seq<u8>| b64_digits(cs@.subrange(i as int, n as int)) == Ok::<Seq<u8>, char>(w)
                ==> b64_digits(s@) == Ok::<Seq<u8>, char>(out@ + w),
            forall|c: char| b64_digits(cs@.subrange(i as int, n as int)) == Err::<Seq<u8>, char>(c)
                ==> b64_digits(s@) == Err::<Seq<u8>, char>(c),
        decreases n - i,
    {
        let ghost rest = cs@.subrange(i as int, n as int);
        assert(rest.drop_first() =~= cs@.subrange(i + 1, n as int));
        let c = cs[i];
        if white_space(c) {
            i = i + 1;
        } else if c == '=' {
            assert(b64_digits(rest) == Ok::<Seq<u8>, char>(Seq::empty()));
            assert(out@ + Seq::<u8>::empty() =~= out@);
            return Ok(out);
        } else {
            match value_of(c) {
                Some(v) => {
                    let ghost before = out@;
                    out.push(v);
                    proof {
                        assert forall|w: Seq<u8>| b64_digits(cs@.subrange(i + 1, n as int)) == Ok::<Seq<u8>, char>(w)
                            implies b64_digits(s@) == Ok::<Seq<u8>, char>(out@ + w) by {
                            assert(b64_digits(rest) == Ok::<Seq<u8>, char>(seq![v] + w));
                            assert(before + (seq![v] + w) =~= out@ + w);
                        }
                    }
                    i = i + 1;
                },
                None => {
                    return Err(c);
                },
            }
        }
    }
    assert(cs@.subrange(n as int, n as int) =~= Seq::<char>::empty());
    assert(out@ + Seq::<u8>::empty() =~= out@);
    Ok(out)
}

/// Decode base64: white space is skipped, decoding stops at the first `=`,
/// and any other character outside the alphabet is an error naming it.
pub fn base64_decode(input: &str) -> (r: Result<Vec<u8>, String>)
    ensures
        match b64_decode(input@) {
            Ok(b) => r matches Ok(v) && v@ == b,
            Err(c) => r matches Err(m) && m@ == "invalid base64 character: "@ + seq![c],
        },
{
    match digits_of(input) {
        Ok(v) => {
            let n = v.len();
            let mut out: Vec<u8> = Vec::new();
            let mut i: usize = 0;
            assert(v@.subrange(0, n as int) =~= v@);
            assert(out@ + b64_bytes(v@) =~= b64_bytes(v@));
            while n - i >= 4
                invariant
                    n == v@.len(),
                    0 <= i <= n,
                    i % 4 == 0,
                    out@ + b64_bytes(v@.subrange(i as int, n as int)) == b64_bytes(v@),
                decreases n - i,
            {
                let ghost rest = v@.subrange(i as int, n as int);
                let a = v[i];
                let b = v[i + 1];
                let c = v[i + 2];
                let d = v[i + 3];
                out.push(((a as u32) * 4 + (b as u32) / 16) as u8);
                out.push((((b as u32) % 16) * 16 + (c as u32) / 4) as u8);
                out.push((((c as u32) % 4) * 64 + (d as u32)) as u8);
                assert(rest.subrange(4, rest.len() as int) =~= v@.subrange(i + 4, n as int));
                i = i + 4;
                assert(out@ + b64_bytes(v@.subrange(i as int, n as int)) =~= b64_bytes(v@));
            }
            let left = n - i;
            if left >= 2 {
                out.push(((v[i] as u32) * 4 + (v[i + 1] as u32) / 16) as u8);
            }
            if left == 3 {
                out.push((((v[i + 1] as u32) % 16) * 16 + (v[i + 2] as u32) / 4) as u8);
            }
            assert(out@ =~= b64_bytes(v@));
            Ok(out)
        },
        Err(c) => {
            let mut m = String::from_str("invalid base64 character: ");
            push_char(&mut m, c);
            Err(m)
        },
    }
}

/// The digit values a byte string is encoded with: four per group of three
/// bytes, and two or three for a last group of one or two bytes.
pub open spec fn b64_values(b: Seq<u8>) -> Seq<u8>
    decreases b.len(),
{
    let v0 = b[0] as nat * 65536;
    if b.len() == 0 {
        Seq::empty()
    } else if b.len() == 1 {
        seq![(v0 / 262144) as u8, ((v0 / 4096) % 64) as u8]
    } else {
        let v1 = v0 + b[1] as nat * 256;
        if b.len() == 2 {
            seq![(v1 / 262144) as u8, ((v1 / 4096) % 64) as u8, ((v1 / 64) % 64) as u8]
        } else {
            let v = v1 + b[2] as nat;
            seq![(v / 262144) as u8, ((v / 4096) % 64) as u8, ((v / 64) % 64) as u8, (v % 64) as u8]
                + b64_values(b.subrange(3, b.len() as int))
        }
    }
}

proof fn lemma_digit_char(v: nat)
    requires
        v < 64,
    ensures
        b64_value(b64_char(v)) == Some(v as u8),
        !is_white_space(b64_char(v)),
        b64_char(v) != '=',
{
}

proof fn lemma_digits_prefix(c: char, rest: Seq<char>)
    requires
        b64_value(c) is Some,
        !is_white_space(c),
        c != '=',
    ensures
        b64_digits(seq![c] + rest) == match b64_digits(rest) {
            Ok(r) => Ok(seq![b64_value(c)->0] + r),
            Err(e) => Err::<Seq<u8>, char>(e),
        },
{
    assert((seq![c] + rest).drop_first() =~= rest);
    assert((seq![c] + rest)[0] == c);
}

proof fn lemma_group_bytes(b0: u8, b1: u8, b2: u8)
    ensures
        ({
            let v = b0 as nat * 65536 + b1 as nat * 256 + b2 as nat;
            let d0 = v / 262144;
            let d1 = (v / 4096) % 64;
            let d2 = (v / 64) % 64;
            let d3 = v % 64;
            &&& d0 < 64 && d1 < 64 && d2 < 64 && d3 < 64
            &&& d0 * 4 + d1 / 16 == b0
            &&& (d1 % 16) * 16 + d2 / 4 == b1
            &&& (d2 % 4) * 64 + d3 == b2
        }),
{
    let q0 = b0 as int / 4;
    let r0 = b0 as int % 4;
    let q1 = b1 as int / 16;
    let r1 = b1 as int % 16;
    let q2 = b2 as int / 64;
    let r2 = b2 as int % 64;
    let v = b0 as nat * 65536 + b1 as nat * 256 + b2 as nat;
    assert(v == q0 * 262144 + (r0 * 65536 + q1 * 4096 + r1 * 256 + q2 * 64 + r2));
    lemma_fundamental_div_mod_converse(v as int, 262144, q0, r0 * 65536 + q1 * 4096 + r1 * 256 + q2 * 64 + r2);
    lemma_fundamental_div_mod_converse(v as int, 4096, q0 * 64 + r0 * 16 + q1, r1 * 256 + q2 * 64 + r2);
    lemma_fundamental_div_mod_converse(q0 * 64 + r0 * 16 + q1, 64, q0, r0 * 16 + q1);
    lemma_fundamental_div_mod_converse(v as int, 64, q0 * 4096 + r0 * 1024 + q1 * 64 + r1 * 4 + q2, r2);
    lemma_fundamental_div_mod_converse(q0 * 4096 + r0 * 1024 + q1 * 64 + r1 * 4 + q2, 64, q0 * 64 + r0 * 16 + q1, r1 * 4 + q2);
    lemma_fundamental_div_mod_converse(r0 * 16 + q1, 16, r0, q1);
    lemma_fundamental_div_mod_converse(r1 * 4 + q2, 4, r1, q2);
}

proof fn lemma_encode_digits(b: Seq<u8>)
    ensures
        b64_digits(b64_encode(b)) == Ok::<Seq<u8>, char>(b64_values(b)),
    decreases b.len(),
{
    if b.len() == 0 {
    } else {
        let b1: u8 = if b.len() > 1 { b[1] } else { 0 };
        let b2: u8 = if b.len() > 2 { b[2] } else { 0 };
        let n: int = if b.len() >= 3 { 3 } else { b.len() as int };
        lemma_group_bytes(b[0], b1, b2);
        let v = b[0] as nat * 65536 + b1 as nat * 256 + b2 as nat;
        let g = b64_group(b[0], b1, b2, n);
        let rest = if b.len() >= 3 { b64_encode(b.subrange(3, b.len() as int)) } else { Seq::empty() };
        assert(b64_encode(b) == g + rest);
        lemma_digit_char(v / 262144);
        lemma_digit_char((v / 4096) % 64);
        lemma_digit_char((v / 64) % 64);
        lemma_digit_char(v % 64);
        let t3 = seq![g[3]] + rest;
        let t2 = seq![g[2]] + t3;
        let t1 = seq![g[1]] + t2;
        assert(g + rest =~= seq![g[0]] + t1);
        if b.len() >= 3 {
            lemma_encode_digits(b.subrange(3, b.len() as int));
            lemma_digits_prefix(g[3], rest);
            lemma_digits_prefix(g[2], t3);
            lemma_digits_prefix(g[1], t2);
            lemma_digits_prefix(g[0], t1);
            assert(b64_digits(g + rest) == Ok::<Seq<u8>, char>(b64_values(b))) by {
                assert(seq![(v / 262144) as u8] + (seq![((v / 4096) % 64) as u8] + (seq![((v / 64) % 64) as u8]
                    + (seq![(v % 64) as u8] + b64_values(b.subrange(3, b.len() as int))))) =~= b64_values(b));
            }
        } else if b.len() == 2 {
            assert(t3[0] == '=');
            lemma_digits_prefix(g[1], t2);
            lemma_digits_prefix(g[0], t1);
            assert(t2.drop_first() =~= t3);
            lemma_digits_prefix(g[2], t3);
            assert(b64_digits(t3) == Ok::<Seq<u8>, char>(Seq::empty()));
            assert(seq![(v / 262144) as u8] + (seq![((v / 4096) % 64) as u8] + (seq![((v / 64) % 64) as u8]
                + Seq::<u8>::empty())) =~= b64_values(b));
        } else {
            assert(t2[0] == '=');
            lemma_digits_prefix(g[0], t1);
            lemma_digits_prefix(g[1], t2);
            assert(b64_digits(t2) == Ok::<Seq<u8>, char>(Seq::empty()));
            assert(seq![(v / 262144) as u8] + (seq![((v / 4096) % 64) as u8] + Seq::<u8>::empty()) =~= b64_values(b));
        }
    }
}

proof fn lemma_values_bytes(b: Seq<u8>)
    ensures
        b64_bytes(b64_values(b)) == b,
    decreases b.len(),
{
    if b.len() == 0 {
        assert(b64_bytes(b64_values(b)) =~= b);
    } else {
        let b1: u8 = if b.len() > 1 { b[1] } else { 0 };
        let b2: u8 = if b.len() > 2 { b[2] } else { 0 };
        lemma_group_bytes(b[0], b1, b2);
        let vs = b64_values(b);
        if b.len() >= 3 {
            let tail = b.subrange(3, b.len() as int);
            lemma_values_bytes(tail);
            assert(vs.subrange(4, vs.len() as int) =~= b64_values(tail));
            assert(b64_bytes(vs) =~= b);
        } else {
            assert(b64_bytes(vs) =~= b);
        }
    }
}

/// Decoding the base64 encoding of bytes gives the bytes back.
pub proof fn law_base64_roundtrip(b: Seq<u8>)
    ensures
        b64_decode(b64_encode(b)) == Ok::<Seq<u8>, char>(b),
{
    lemma_encode_digits(b);
    lemma_values_bytes(b);
}

} // verus!

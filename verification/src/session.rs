//! Session helpers: reading the expiry claim of a JWT without validating it,
//! deciding whether a token has expired, and the password store used for
//! silent re-login once both Taiga tokens have expired.
use vstd::prelude::*;

use crate::client::pairs_view;
use crate::text::{chars_of, concat, owned, str_eq};

verus! {

/// Seconds of clock skew tolerated before a token is treated as expired.
pub const EXPIRY_SKEW_SECONDS: u64 = 30;

/// The six-bit value of one character of the URL-safe (or standard)
/// base64 alphabet; `None` for any other character.
pub open spec fn sextet(c: char) -> Option<u8> {
    if 'A' <= c && c <= 'Z' {
        Some((c as int - 'A' as int) as u8)
    } else if 'a' <= c && c <= 'z' {
        Some((c as int - 'a' as int + 26) as u8)
    } else if '0' <= c && c <= '9' {
        Some((c as int - '0' as int + 52) as u8)
    } else if c == '-' || c == '+' {
        Some(62u8)
    } else if c == '_' || c == '/' {
        Some(63u8)
    } else {
        None
    }
}

/// Three bytes carried by four sextets.
pub open spec fn quad_bytes(a: u8, b: u8, c: u8, d: u8) -> Seq<u8> {
    seq![
        ((a as int) * 4 + (b as int) / 16) as u8,
        (((b as int) % 16) * 16 + (c as int) / 4) as u8,
        (((c as int) % 4) * 64 + (d as int)) as u8,
    ]
}

/// Bytes carried by a trailing group of fewer than four sextets: one
/// sextet carries no whole byte, two carry one byte and three carry two.
pub open spec fn tail_bytes(v: Seq<u8>) -> Seq<u8> {
    if v.len() == 2 {
        seq![((v[0] as int) * 4 + (v[1] as int) / 16) as u8]
    } else if v.len() == 3 {
        seq![
            ((v[0] as int) * 4 + (v[1] as int) / 16) as u8,
            (((v[1] as int) % 16) * 16 + (v[2] as int) / 4) as u8,
        ]
    } else {
        Seq::empty()
    }
}

/// The bytes that a sequence of sextets encodes, group of four by group of four.
pub open spec fn decode_sextets(v: Seq<u8>) -> Seq<u8>
    decreases v.len(),
{
    if v.len() < 4 {
        tail_bytes(v)
    } else {
        quad_bytes(v[0], v[1], v[2], v[3]) + decode_sextets(v.skip(4))
    }
}

/// Index of the first occurrence of `c` in `s`, or the length of `s`.
pub open spec fn first_index_of(s: Seq<char>, c: char) -> nat
    decreases s.len(),
{
    if s.len() == 0 {
        0
    } else if s[0] == c {
        0
    } else {
        1 + first_index_of(s.drop_first(), c)
    }
}

/// The part of a base64 text that is decoded: everything before the first `=`.
pub open spec fn before_padding(s: Seq<char>) -> Seq<char> {
    s.take(first_index_of(s, '=') as int)
}

/// True when every character of `s` belongs to the base64 alphabet.
pub open spec fn all_sextets(s: Seq<char>) -> bool {
    forall|i: int| 0 <= i < s.len() ==> (#[trigger] sextet(s[i])) is Some
}

/// The sextet values of characters that all belong to the alphabet.
pub open spec fn sextets_of(s: Seq<char>) -> Seq<u8> {
    s.map_values(|c: char| sextet(c)->0)
}

/// What decoding a base64 (URL-safe or standard) text gives: decoding stops
/// at the first `=`, and any character outside the alphabet before it makes
/// the text undecodable.
pub open spec fn base64url_spec(s: Seq<char>) -> Option<Seq<u8>> {
    let body = before_padding(s);
    if all_sextets(body) {
        Some(decode_sextets(sextets_of(body)))
    } else {
        None
    }
}

proof fn lemma_first_index_bound(s: Seq<char>, c: char)
    ensures
        first_index_of(s, c) <= s.len(),
        first_index_of(s, c) < s.len() ==> s[first_index_of(s, c) as int] == c,
        forall|j: int| 0 <= j < first_index_of(s, c) ==> s[j] != c,
    decreases s.len(),
{
    if s.len() > 0 && s[0] != c {
        lemma_first_index_bound(s.drop_first(), c);
        assert forall|j: int| 0 <= j < first_index_of(s, c) implies s[j] != c by {
            if j > 0 {
                assert(s[j] == s.drop_first()[j - 1]);
            }
        }
    }
}

proof fn lemma_first_index_unique(s: Seq<char>, c: char, k: int)
    requires
        0 <= k <= s.len(),
        k < s.len() ==> s[k] == c,
        forall|j: int| 0 <= j < k ==> s[j] != c,
    ensures
        first_index_of(s, c) == k,
    decreases s.len(),
{
    if s.len() > 0 && k > 0 {
        lemma_first_index_unique(s.drop_first(), c, k - 1);
    }
}

/// Splitting sextets at a multiple of four splits the decoded bytes there.
proof fn lemma_decode_split(v: Seq<u8>, i: int)
    requires
        0 <= i <= v.len(),
        i % 4 == 0,
    ensures
        decode_sextets(v) == decode_sextets(v.take(i)) + decode_sextets(v.skip(i)),
    decreases i,
{
    if i == 0 {
        assert(v.take(0) =~= Seq::<u8>::empty());
        assert(v.skip(0) =~= v);
        assert(decode_sextets(v.take(0)) =~= Seq::<u8>::empty());
    } else {
        lemma_decode_split(v.skip(4), i - 4);
        assert(v.take(i).skip(4) =~= v.skip(4).take(i - 4));
        assert(v.skip(4).skip(i - 4) =~= v.skip(i));
        assert(v.take(i)[0] == v[0] && v.take(i)[1] == v[1] && v.take(i)[2] == v[2] && v.take(i)[3] == v[3]);
    }
}

/// One step of the bit buffer of the decoder, for each of the four
/// positions inside a group of four sextets.
/// The last full group of four sextets contributes the last three bytes.
proof fn lemma_decode_last_quad(v: Seq<u8>)
    requires
        v.len() >= 4,
        v.len() % 4 == 0,
    ensures
        decode_sextets(v) == decode_sextets(v.take(v.len() - 4)) + quad_bytes(
            v[v.len() - 4], v[v.len() - 3], v[v.len() - 2], v[v.len() - 1]),
{
    let n = v.len() as int;
    lemma_decode_split(v, n - 4);
    let t = v.skip(n - 4);
    assert(t.skip(4) =~= Seq::<u8>::empty());
    assert(decode_sextets(t.skip(4)) =~= Seq::<u8>::empty());
    assert(t[0] == v[n - 4] && t[1] == v[n - 3] && t[2] == v[n - 2] && t[3] == v[n - 1]);
    assert(decode_sextets(t) =~= quad_bytes(v[n - 4], v[n - 3], v[n - 2], v[n - 1]) + decode_sextets(t.skip(4)));
}

/// A trailing partial group contributes the bytes of `tail_bytes`.
proof fn lemma_decode_partial(v: Seq<u8>)
    ensures
        decode_sextets(v) == decode_sextets(v.take(v.len() - v.len() % 4)) + tail_bytes(v.skip(v.len() - v.len() % 4)),
{
    let n = v.len() as int;
    let r = n % 4;
    lemma_decode_split(v, n - r);
    assert(v.skip(n - r).len() == r);
}

proof fn lemma_bits_step(buffer: u32, bits: u8, value: u8)
    requires
        bits == 0 || bits == 2 || bits == 4 || bits == 6,
        bits == 0 ==> buffer == 0,
        bits == 6 ==> buffer < 64,
        bits == 4 ==> buffer < 16,
        bits == 2 ==> buffer < 4,
        value < 64,
    ensures
        bits == 0 ==> (buffer << 6u32) | (value as u32) == value as u32,
        bits == 6 ==> ((buffer << 6u32) | (value as u32)) >> 4u32 == buffer * 4 + (value as u32) / 16
            && ((buffer << 6u32) | (value as u32)) & (((1u32 << 4u32) - 1) as u32) == (value as u32) % 16,
        bits == 4 ==> ((buffer << 6u32) | (value as u32)) >> 2u32 == buffer * 16 + (value as u32) / 4
            && ((buffer << 6u32) | (value as u32)) & (((1u32 << 2u32) - 1) as u32) == (value as u32) % 4,
        bits == 2 ==> ((buffer << 6u32) | (value as u32)) >> 0u32 == buffer * 64 + (value as u32)
            && ((buffer << 6u32) | (value as u32)) & (((1u32 << 0u32) - 1) as u32) == 0,
{
    let v = value as u32;
    if bits == 0 {
        assert((0u32 << 6u32) | v == v) by (bit_vector) requires v < 64;
    } else if bits == 6 {
        assert(((buffer << 6u32) | v) >> 4u32 == buffer * 4 + v / 16
            && ((buffer << 6u32) | v) & (((1u32 << 4u32) - 1) as u32) == v % 16) by (bit_vector)
            requires buffer < 64, v < 64;
    } else if bits == 4 {
        assert(((buffer << 6u32) | v) >> 2u32 == buffer * 16 + v / 4
            && ((buffer << 6u32) | v) & (((1u32 << 2u32) - 1) as u32) == v % 4) by (bit_vector)
            requires buffer < 16, v < 64;
    } else {
        assert(((buffer << 6u32) | v) >> 0u32 == buffer * 64 + v
            && ((buffer << 6u32) | v) & (((1u32 << 0u32) - 1) as u32) == 0) by (bit_vector)
            requires buffer < 4, v < 64;
    }
}

/// The state of the bit buffer after `vals.len()` sextets: the bytes of the
/// finished groups plus the whole bytes of the current group, with the
/// left-over low bits of the last sextet kept in `buffer`.
#[verifier::opaque]
spec fn decoder_state(vals: Seq<u8>, buffer: u32, bits: u8, out: Seq<u8>) -> bool {
    let i = vals.len() as int;
    &&& forall|j: int| 0 <= j < i ==> vals[j] < 64
    &&& bits as int == (6 * i) % 8
    &&& (i % 4 == 0) ==> buffer == 0 && out == decode_sextets(vals)
    &&& (i % 4 == 1) ==> buffer == vals[i - 1] && out == decode_sextets(vals.take(i - 1))
    &&& (i % 4 == 2) ==> buffer == (vals[i - 1] as int) % 16 && out == decode_sextets(vals.take(i - 2))
        + seq![((vals[i - 2] as int) * 4 + (vals[i - 1] as int) / 16) as u8]
    &&& (i % 4 == 3) ==> buffer == (vals[i - 1] as int) % 4 && out == decode_sextets(vals.take(i - 3))
        + seq![((vals[i - 3] as int) * 4 + (vals[i - 2] as int) / 16) as u8,
            (((vals[i - 2] as int) % 16) * 16 + (vals[i - 1] as int) / 4) as u8]
}

proof fn lemma_decoder_start()
    ensures
        decoder_state(Seq::empty(), 0, 0, Seq::empty()),
{
    reveal(decoder_state);
    assert(decode_sextets(Seq::<u8>::empty()) =~= Seq::<u8>::empty());
}

/// The bits of one more sextet, as the decoder loop handles them.
proof fn lemma_decoder_step(
    vals: Seq<u8>, buffer: u32, bits: u8, out: Seq<u8>, value: u8,
    next_buffer: u32, next_bits: u8, next_out: Seq<u8>,
)
    requires
        decoder_state(vals, buffer, bits, out),
        value < 64,
        bits + 6 >= 8 ==> next_bits == bits + 6 - 8
            && next_out == out.push(((((buffer << 6u32) | (value as u32)) >> (next_bits as u32)) as u8))
            && next_buffer == ((buffer << 6u32) | (value as u32)) & ((((1u32 << (next_bits as u32)) - 1) as u32)),
        bits + 6 < 8 ==> next_bits == bits + 6 && next_out == out
            && next_buffer == (buffer << 6u32) | (value as u32),
    ensures
        decoder_state(vals.push(value), next_buffer, next_bits, next_out),
        bits + 6 >= 8 ==> (((buffer << 6u32) | (value as u32)) >> (next_bits as u32)) < 256,
{
    reveal(decoder_state);
    let i = vals.len() as int;
    let nv = vals.push(value);
    assert(bits == 0 || bits == 2 || bits == 4 || bits == 6);
    assert(i % 4 == 0 ==> bits == 0);
    assert(i % 4 == 1 ==> bits == 6);
    assert(i % 4 == 2 ==> bits == 4);
    assert(i % 4 == 3 ==> bits == 2);
    if i % 4 >= 1 {
        assert(buffer < 64);
    }
    lemma_bits_step(buffer, bits, value);
    assert(nv.take(i) =~= vals);
    assert(nv[i] == value);
    let x = (buffer << 6u32) | (value as u32);
    if i % 4 == 0 {
        assert(next_buffer == value as u32);
        assert(next_bits == 6);
        assert((6 * (i + 1)) % 8 == 6);
        assert(next_out =~= decode_sextets(nv.take(i)));
    } else if i % 4 == 1 {
        assert(next_bits == 4);
        assert(x >> 4u32 == buffer * 4 + (value as u32) / 16);
        assert(next_buffer == (value as u32) % 16);
        assert(nv.take(i - 1) =~= vals.take(i - 1));
        assert((6 * (i + 1)) % 8 == 4);
        assert(next_out =~= decode_sextets(nv.take(i - 1))
            + seq![((nv[i - 1] as int) * 4 + (nv[i] as int) / 16) as u8]);
    } else if i % 4 == 2 {
        assert(next_bits == 2);
        assert(next_buffer == (value as u32) % 4);
        assert(nv.take(i - 2) =~= vals.take(i - 2));
        assert((6 * (i + 1)) % 8 == 2);
        assert(x >> 2u32 == buffer * 16 + (value as u32) / 4);
        assert(next_out =~= decode_sextets(nv.take(i - 2))
            + seq![((nv[i - 2] as int) * 4 + (nv[i - 1] as int) / 16) as u8,
                (((nv[i - 1] as int) % 16) * 16 + (nv[i] as int) / 4) as u8]);
    } else {
        assert(next_bits == 0);
        assert(next_buffer == 0);
        lemma_decode_last_quad(nv);
        assert(nv.take(i - 3) =~= vals.take(i - 3));
        assert((6 * (i + 1)) % 8 == 0);
        assert(nv[i - 3] == vals[i - 3] && nv[i - 2] == vals[i - 2] && nv[i - 1] == vals[i - 1]);
        assert(x >> 0u32 == buffer * 64 + (value as u32));
        assert(next_out =~= decode_sextets(nv.take(i - 3)) + quad_bytes(nv[i - 3], nv[i - 2], nv[i - 1], nv[i]));
    }
}

/// Decodes URL-safe (or standard) base64 without padding checks.
pub fn base64url_decode(input: &str) -> (out: Option<Vec<u8>>)
    ensures
        match out {
            Some(bytes) => base64url_spec(input@) == Some(bytes@),
            None => base64url_spec(input@) is None,
        },
{
    let chars = chars_of(input);
    base64url_decode_chars(&chars)
}

/// Decodes the characters of a base64 text; see [`base64url_decode`].
#[verifier::rlimit(40)]
fn base64url_decode_chars(chars: &Vec<char>) -> (out: Option<Vec<u8>>)
    ensures
        match out {
            Some(bytes) => base64url_spec(chars@) == Some(bytes@),
            None => base64url_spec(chars@) is None,
        },
{
    let ghost s = chars@;
    let ghost k = first_index_of(s, '=');
    proof { lemma_first_index_bound(s, '='); }
    let mut output: Vec<u8> = Vec::new();
    let mut buffer: u32 = 0;
    let mut bits: u8 = 0;
    let mut i: usize = 0;
    let ghost mut vals: Seq<u8> = Seq::empty();
    proof { lemma_decoder_start(); }
    while i < chars.len()
        invariant
            chars@ == s,
            k == first_index_of(s, '='),
            k <= s.len(),
            k < s.len() ==> s[k as int] == '=',
            forall|j: int| 0 <= j < k ==> s[j] != '=',
            i <= k,
            vals.len() == i,
            forall|j: int| 0 <= j < i ==> sextet(#[trigger] s[j]) == Some(vals[j]),
            decoder_state(vals, buffer, bits, output@),
        ensures
            i == k,
        decreases chars.len() - i,
    {
        let c = chars[i];
        let value: u8 = if 'A' <= c && c <= 'Z' {
            (c as u32 - 'A' as u32) as u8
        } else if 'a' <= c && c <= 'z' {
            (c as u32 - 'a' as u32 + 26) as u8
        } else if '0' <= c && c <= '9' {
            (c as u32 - '0' as u32 + 52) as u8
        } else if c == '-' || c == '+' {
            62
        } else if c == '_' || c == '/' {
            63
        } else if c == '=' {
            proof { lemma_first_index_unique(s, '=', i as int); }
            break;
        } else {
            proof {
                assert(i < k);
                assert(before_padding(s)[i as int] == s[i as int]);
                assert(sextet(before_padding(s)[i as int]) is None);
                assert(!all_sextets(before_padding(s)));
            }
            return None;
        };
        assert(sextet(s[i as int]) == Some(value));
        let ghost old_vals = vals;
        let ghost old_buffer = buffer;
        let ghost old_bits = bits;
        let ghost old_out = output@;
        proof { reveal(decoder_state); }
        assert(bits == 0 || bits == 2 || bits == 4 || bits == 6);
        buffer = (buffer << 6u32) | (value as u32);
        bits = bits + 6;
        if bits >= 8 {
            bits = bits - 8;
            let shift = bits as u32;
            assert(shift < 8u32 ==> (1u32 << shift) >= 1) by (bit_vector);
            proof {
                lemma_decoder_step(old_vals, old_buffer, old_bits, old_out, value, buffer & ((((1u32 << shift) - 1) as u32)), bits, old_out.push(((buffer >> shift) as u8)));
            }
            output.push((buffer >> shift) as u8);
            buffer = buffer & ((1u32 << shift) - 1);
        } else {
            proof {
                lemma_decoder_step(old_vals, old_buffer, old_bits, old_out, value, buffer, bits, old_out);
            }
        }
        proof { vals = vals.push(value); }
        i = i + 1;
    }
    proof {
        reveal(decoder_state);
        let body = before_padding(s);
        assert(sextets_of(body) =~= vals);
        lemma_decode_partial(vals);
        let r = (i % 4) as int;
        let t = vals.skip(i - r);
        if r == 2 {
            assert(t[0] == vals[i - 2] && t[1] == vals[i - 1]);
        } else if r == 3 {
            assert(t[0] == vals[i - 3] && t[1] == vals[i - 2] && t[2] == vals[i - 1]);
        } else if r == 0 {
            assert(vals.take(i as int) =~= vals);
        }
    }
    Some(output)
}

/// The character of a sextet `v < 64` in the URL-safe alphabet (`-`, `_`)
/// or, when `url_safe` is false, the standard one (`+`, `/`).
pub open spec fn sextet_char(v: u8, url_safe: bool) -> char {
    if v < 26 {
        ((v as int) + ('A' as int)) as char
    } else if v < 52 {
        ((v as int) - 26 + ('a' as int)) as char
    } else if v < 62 {
        ((v as int) - 52 + ('0' as int)) as char
    } else if v == 62 {
        if url_safe { '-' } else { '+' }
    } else {
        if url_safe { '_' } else { '/' }
    }
}

/// The sextets that base64 writes for bytes: four for each group of three,
/// two for a final byte and three for two final bytes.
pub open spec fn encode_sextets(b: Seq<u8>) -> Seq<u8>
    decreases b.len(),
{
    if b.len() == 0 {
        Seq::empty()
    } else if b.len() == 1 {
        seq![b[0] / 4, ((b[0] % 4) * 16) as u8]
    } else if b.len() == 2 {
        seq![b[0] / 4, ((b[0] % 4) * 16 + b[1] / 16) as u8, ((b[1] % 16) * 4) as u8]
    } else {
        seq![
            b[0] / 4,
            ((b[0] % 4) * 16 + b[1] / 16) as u8,
            ((b[1] % 16) * 4 + b[2] / 64) as u8,
            b[2] % 64,
        ] + encode_sextets(b.skip(3))
    }
}

/// The base64 text of bytes, in the URL-safe or the standard alphabet,
/// with or without `=` padding to a multiple of four characters.
pub open spec fn base64_encode(b: Seq<u8>, url_safe: bool, padded: bool) -> Seq<char> {
    let chars = encode_sextets(b).map_values(|v: u8| sextet_char(v, url_safe));
    if padded {
        chars + Seq::new(((4 - chars.len() % 4) % 4) as nat, |i: int| '=')
    } else {
        chars
    }
}

proof fn lemma_encode_sextets(b: Seq<u8>)
    ensures
        forall|i: int| 0 <= i < encode_sextets(b).len() ==> #[trigger] encode_sextets(b)[i] < 64,
        decode_sextets(encode_sextets(b)) == b,
    decreases b.len(),
{
    let e = encode_sextets(b);
    if b.len() == 0 {
        assert(decode_sextets(e) =~= b);
    } else if b.len() == 1 {
        let x = b[0];
        assert((x / 4) * 4 + ((x % 4) * 16) / 16 == x) by (nonlinear_arith);
        assert(decode_sextets(e) =~= b);
    } else if b.len() == 2 {
        let x = b[0];
        let y = b[1];
        assert((x % 4) * 16 + y / 16 < 64 && (y % 16) * 4 < 64) by (nonlinear_arith);
        assert((x / 4) * 4 + ((x % 4) * 16 + y / 16) / 16 == x) by (nonlinear_arith);
        assert((((x % 4) * 16 + y / 16) % 16) * 16 + ((y % 16) * 4) / 4 == y) by (nonlinear_arith);
        assert(decode_sextets(e) =~= b);
    } else {
        let x = b[0];
        let y = b[1];
        let z = b[2];
        assert((x % 4) * 16 + y / 16 < 64 && (y % 16) * 4 + z / 64 < 64) by (nonlinear_arith);
        assert((x / 4) * 4 + ((x % 4) * 16 + y / 16) / 16 == x) by (nonlinear_arith);
        assert((((x % 4) * 16 + y / 16) % 16) * 16 + ((y % 16) * 4 + z / 64) / 4 == y) by (nonlinear_arith);
        assert((((y % 16) * 4 + z / 64) % 4) * 64 + z % 64 == z) by (nonlinear_arith);
        lemma_encode_sextets(b.skip(3));
        let head = seq![
            x / 4,
            ((x % 4) * 16 + y / 16) as u8,
            ((y % 16) * 4 + z / 64) as u8,
            z % 64,
        ];
        assert(e == head + encode_sextets(b.skip(3)));
        assert(e.skip(4) =~= encode_sextets(b.skip(3)));
        assert(decode_sextets(e) == quad_bytes(e[0], e[1], e[2], e[3]) + decode_sextets(e.skip(4)));
        assert(quad_bytes(e[0], e[1], e[2], e[3]) =~= b.take(3));
        assert(b =~= b.take(3) + b.skip(3));
        assert forall|i: int| 0 <= i < e.len() implies #[trigger] e[i] < 64 by {
            if i >= 4 {
                assert(e[i] == encode_sextets(b.skip(3))[i - 4]);
            }
        }
    }
}

/// Decoding gives back what was encoded: the base64 text of any bytes, in
/// either alphabet, with or without padding, decodes to those bytes.
pub proof fn lemma_base64_round_trip(b: Seq<u8>, url_safe: bool, padded: bool)
    ensures
        base64url_spec(base64_encode(b, url_safe, padded)) == Some(b),
{
    lemma_encode_sextets(b);
    let e = encode_sextets(b);
    let chars = e.map_values(|v: u8| sextet_char(v, url_safe));
    let s = base64_encode(b, url_safe, padded);
    assert forall|i: int| 0 <= i < chars.len() implies
        #[trigger] sextet(chars[i]) == Some(e[i]) && chars[i] != '=' by {
        let v = e[i];
        assert(v < 64);
    }
    assert(s.take(chars.len() as int) =~= chars);
    lemma_first_index_unique(s, '=', chars.len() as int);
    assert(before_padding(s) == chars);
    assert(all_sextets(chars));
    assert(sextets_of(chars) =~= e);
}

} // verus!

verus! {

/// The second `.`-separated segment of a token (the payload of a JWT), or
/// `None` when the token holds no `.` at all.
pub open spec fn second_segment(s: Seq<char>) -> Option<Seq<char>> {
    let i = first_index_of(s, '.');
    if i >= s.len() {
        None
    } else {
        let rest = s.skip(i + 1 as int);
        Some(rest.take(first_index_of(rest, '.') as int))
    }
}

/// The payload bytes of a JWT: its second segment, base64url-decoded.
pub open spec fn jwt_payload_spec(token: Seq<char>) -> Option<Seq<u8>> {
    match second_segment(token) {
        Some(segment) => base64url_spec(segment),
        None => None,
    }
}

/// The `exp` claim that serde_json reads from a JWT payload (see
/// [`exp_claim`]).
pub uninterp spec fn json_exp_claim(payload: Seq<u8>) -> Option<u64>;

/// The expiry that a token carries: `None` for opaque tokens, undecodable
/// payloads and payloads without a numeric `exp` claim.
pub open spec fn jwt_expiry_spec(token: Seq<char>) -> Option<u64> {
    match jwt_payload_spec(token) {
        Some(payload) => json_exp_claim(payload),
        None => None,
    }
}

/// Whether a token counts as expired at `now`: only when it carries an
/// `exp` claim no later than `now` plus the tolerated skew.
pub open spec fn is_expired_spec(token: Seq<char>, now: u64) -> bool {
    match jwt_expiry_spec(token) {
        Some(exp) => exp <= now + EXPIRY_SKEW_SECONDS,
        None => false,
    }
}

/// A token that has expired stays expired: later clocks only see it
/// expired too, and a token without an expiry never expires.
pub proof fn lemma_expiry_is_monotonic(token: Seq<char>, earlier: u64, later: u64)
    requires
        earlier <= later,
    ensures
        is_expired_spec(token, earlier) ==> is_expired_spec(token, later),
        jwt_expiry_spec(token) is None ==> !is_expired_spec(token, later),
{
}

/// Reads the `exp` claim of a JSON payload with serde_json: the payload is
/// parsed as a JSON value, its `exp` member is taken, and a number is
/// returned as an unsigned integer (an integer claim as it is, a
/// non-negative fractional claim truncated toward zero). Anything else
/// (invalid JSON, no `exp`, a negative number or a non-number) gives `None`.
/// The contract only names the result: it is a function of the payload bytes.
#[verifier::external_body]
fn exp_claim(payload: &[u8]) -> (claim: Option<u64>)
    ensures
        claim == json_exp_claim(payload@),
{
    let value: serde_json::Value = serde_json::from_slice(payload).ok()?;
    let exp = value.get("exp")?;
    exp.as_u64().or_else(|| exp.as_f64().filter(|f| f.abs() == *f).map(|f| f as u64))
}

/// The current UNIX time in seconds (0 if the clock reads before the epoch).
/// Nothing is promised about the value: it comes from the system clock.
#[verifier::external_body]
fn now() -> u64 {
    std::time::SystemTime::now()
        .duration_since(std::time::UNIX_EPOCH)
        .map(|d| d.as_secs())
        .unwrap_or(0)
}

/// Finds the second `.`-separated segment of a token.
fn second_segment_chars(s: &Vec<char>) -> (seg: Option<Vec<char>>)
    ensures
        match seg {
            Some(v) => second_segment(s@) == Some(v@),
            None => second_segment(s@) is None,
        },
{
    proof { lemma_first_index_bound(s@, '.'); }
    let mut i: usize = 0;
    while i < s.len() && s[i] != '.'
        invariant
            i <= s.len(),
            forall|j: int| 0 <= j < i ==> s@[j] != '.',
        decreases s.len() - i,
    {
        i = i + 1;
    }
    proof { lemma_first_index_unique(s@, '.', i as int); }
    if i == s.len() {
        return None;
    }
    let ghost rest = s@.skip(i as int + 1);
    let mut out: Vec<char> = Vec::new();
    let mut j: usize = i + 1;
    while j < s.len() && s[j] != '.'
        invariant
            i + 1 <= j <= s.len(),
            rest == s@.skip(i as int + 1),
            out@ == rest.take(j - i - 1),
            forall|t: int| 0 <= t < j - i - 1 ==> rest[t] != '.',
        decreases s.len() - j,
    {
        out.push(s[j]);
        j = j + 1;
        assert(out@ =~= rest.take(j - i - 1));
    }
    proof { lemma_first_index_unique(rest, '.', j - i - 1); }
    Some(out)
}

/// The payload bytes of a JWT, base64url-decoded from its second segment.
pub fn jwt_payload(token: &str) -> (payload: Option<Vec<u8>>)
    ensures
        match payload {
            Some(bytes) => jwt_payload_spec(token@) == Some(bytes@),
            None => jwt_payload_spec(token@) is None,
        },
{
    let chars = chars_of(token);
    match second_segment_chars(&chars) {
        Some(segment) => base64url_decode_chars(&segment),
        None => None,
    }
}

/// Returns the `exp` claim of a JWT without validating its signature.
///
/// The value is only used to decide whether a request is worth attempting,
/// so trusting the unverified payload is safe: a forged `exp` merely
/// changes which request fails first.
pub fn jwt_expiry(token: &str) -> (exp: Option<u64>)
    ensures
        exp == jwt_expiry_spec(token@),
{
    match jwt_payload(token) {
        Some(payload) => exp_claim(payload.as_slice()),
        None => None,
    }
}

/// True only when the token carries an `exp` claim that has already passed
/// at `now` (allowing a small skew). Opaque tokens are never expired.
pub fn is_expired_at(token: &str, now: u64) -> (expired: bool)
    ensures
        expired == is_expired_spec(token@, now),
{
    match jwt_expiry(token) {
        Some(exp) => exp <= now.saturating_add(EXPIRY_SKEW_SECONDS),
        None => false,
    }
}

/// True only when the token carries an `exp` claim that has already passed
/// (allowing a small skew). Opaque tokens are never reported as expired.
/// The clock is read once: the result is what [`is_expired_at`] gives at
/// the time read, whatever that time is.
pub fn is_expired(token: &str) -> (expired: bool)
    ensures
        exists|now: u64| #[trigger] is_expired_spec(token@, now) == expired,
        jwt_expiry_spec(token@) is None ==> !expired,
{
    let t = now();
    let expired = is_expired_at(token, t);
    assert(is_expired_spec(token@, t) == expired);
    expired
}

/// Where the login password is kept for silent re-login.
#[derive(Debug)]
pub enum PasswordStore {
    /// Platform credential store (macOS Keychain, Windows Credential
    /// Manager, or the Secret Service on other Unix systems).
    Keychain,
    /// Plaintext JSON file, selected through `TAIGA_PASSWORD_STORE_FILE`.
    File(std::path::PathBuf),
}

#[verifier::external_type_specification]
#[verifier::external_body]
pub struct ExPathBuf(std::path::PathBuf);

/// The credential-store service under which the password for an API URL is
/// kept.
pub open spec fn service_spec(api_url: Seq<char>) -> Seq<char> {
    "taiga-cli:"@ + api_url
}

/// The key of a password in the file store: the service, a unit separator
/// (U+001F), and the user name.
pub open spec fn file_key_spec(api_url: Seq<char>, username: Seq<char>) -> Seq<char> {
    service_spec(api_url) + seq!['\u{1f}'] + username
}

impl PasswordStore {
    /// The credential-store service for an API URL: `taiga-cli:<api_url>`.
    pub fn service(api_url: &str) -> (s: String)
        ensures
            s@ == service_spec(api_url@),
    {
        concat("taiga-cli:", api_url)
    }
}

/// The key of the password of `username` at `api_url` in the file store.
pub fn file_key(api_url: &str, username: &str) -> (k: String)
    ensures
        k@ == file_key_spec(api_url@, username@),
{
    let service = PasswordStore::service(api_url);
    let k = concat(service.as_str(), "\u{1f}");
    let k = concat(k.as_str(), username);
    proof {
        reveal_strlit("\u{1f}");
        assert(k@ =~= file_key_spec(api_url@, username@));
    }
    k
}

/// The map that a list of key/value pairs gives, a later pair replacing an
/// earlier one with the same key (as a JSON object read into a map is).
pub open spec fn pairs_map(pairs: Seq<(Seq<char>, Seq<char>)>) -> Map<Seq<char>, Seq<char>>
    decreases pairs.len(),
{
    if pairs.len() == 0 {
        Map::empty()
    } else {
        pairs_map(pairs.drop_last()).insert(pairs.last().0, pairs.last().1)
    }
}

/// The passwords of the file store: a map from [`file_key`] to password,
/// read from and written to a JSON object by the caller. The map is held as
/// a list of key/value pairs read as a map, a later pair replacing an earlier
/// one: vstd's specification of `BTreeMap` applies only to keys whose
/// ordering obeys its comparison laws, which it does not establish for
/// `String`, so a `BTreeMap<String, String>` would let nothing be proved of
/// lookups.
pub struct PasswordEntries {
    entries: Vec<(String, String)>,
}

impl View for PasswordEntries {
    type V = Map<Seq<char>, Seq<char>>;

    closed spec fn view(&self) -> Map<Seq<char>, Seq<char>> {
        pairs_map(pairs_view(self.entries@))
    }
}

impl PasswordEntries {
    /// An empty store.
    pub fn new() -> (s: Self)
        ensures
            s@ == Map::<Seq<char>, Seq<char>>::empty(),
    {
        let s = PasswordEntries { entries: Vec::new() };
        proof {
            assert(pairs_view(s.entries@) =~= Seq::empty());
        }
        s
    }

    /// The store that a JSON object of strings holds, given as its members in
    /// order.
    pub fn from_pairs(pairs: Vec<(String, String)>) -> (s: Self)
        ensures
            s@ == pairs_map(pairs_view(pairs@)),
    {
        PasswordEntries { entries: pairs }
    }

    /// The members of the JSON object that the store is written as.
    pub fn to_pairs(&self) -> (pairs: Vec<(String, String)>)
        ensures
            pairs_map(pairs_view(pairs@)) == self@,
    {
        let mut out: Vec<(String, String)> = Vec::new();
        let mut i: usize = 0;
        while i < self.entries.len()
            invariant
                i <= self.entries@.len(),
                out@ == self.entries@.take(i as int),
            decreases self.entries@.len() - i,
        {
            let k = self.entries[i].0.clone();
            let v = self.entries[i].1.clone();
            out.push((k, v));
            proof {
                assert(out@ =~= self.entries@.take(i + 1));
            }
            i = i + 1;
        }
        proof {
            assert(self.entries@.take(i as int) =~= self.entries@);
        }
        out
    }

    /// The password under `key`.
    fn lookup(&self, key: &str) -> (r: Option<String>)
        ensures
            match r {
                Some(v) => self@.contains_key(key@) && self@[key@] == v@,
                None => !self@.contains_key(key@),
            },
    {
        let ghost all = pairs_view(self.entries@);
        let mut j: usize = self.entries.len();
        proof {
            assert(all.take(j as int) =~= all);
        }
        while j > 0
            invariant
                all == pairs_view(self.entries@),
                j <= self.entries@.len(),
                pairs_map(all).contains_key(key@) == pairs_map(all.take(j as int)).contains_key(key@),
                pairs_map(all).contains_key(key@) ==> pairs_map(all)[key@] == pairs_map(all.take(j as int))[key@],
            decreases j,
        {
            proof {
                assert(all.take(j as int).drop_last() =~= all.take(j - 1));
            }
            if str_eq(self.entries[j - 1].0.as_str(), key) {
                let v = self.entries[j - 1].1.clone();
                return Some(v);
            }
            j = j - 1;
        }
        proof {
            assert(all.take(0) =~= Seq::<(Seq<char>, Seq<char>)>::empty());
        }
        None
    }

    /// Puts `value` under `key`.
    fn put(&mut self, key: String, value: String)
        ensures
            final(self)@ == old(self)@.insert(key@, value@),
    {
        self.entries.push((key, value));
        proof {
            assert(pairs_view(self.entries@).drop_last() =~= pairs_view(old(self).entries@));
        }
    }

    /// Removes what is under `key`.
    fn take_out(&mut self, key: &str)
        ensures
            final(self)@ == old(self)@.remove(key@),
    {
        let ghost all = pairs_view(self.entries@);
        let mut kept: Vec<(String, String)> = Vec::new();
        let mut i: usize = 0;
        while i < self.entries.len()
            invariant
                all == pairs_view(self.entries@),
                i <= self.entries@.len(),
                pairs_map(pairs_view(kept@)) == pairs_map(all.take(i as int)).remove(key@),
            decreases self.entries@.len() - i,
        {
            proof {
                assert(all.take(i + 1).drop_last() =~= all.take(i as int));
            }
            if !str_eq(self.entries[i].0.as_str(), key) {
                let k = self.entries[i].0.clone();
                let v = self.entries[i].1.clone();
                let ghost before = pairs_view(kept@);
                kept.push((k, v));
                proof {
                    assert(pairs_view(kept@).drop_last() =~= before);
                    assert(pairs_map(pairs_view(kept@)) =~= pairs_map(all.take(i + 1)).remove(key@));
                }
            } else {
                proof {
                    assert(pairs_map(pairs_view(kept@)) =~= pairs_map(all.take(i + 1)).remove(key@));
                }
            }
            i = i + 1;
        }
        proof {
            assert(all.take(i as int) =~= all);
        }
        self.entries = kept;
    }

    /// The password kept for `username` at `api_url`.
    pub fn get(&self, api_url: &str, username: &str) -> (r: Option<String>)
        ensures
            match r {
                Some(p) => self@.contains_key(file_key_spec(api_url@, username@))
                    && self@[file_key_spec(api_url@, username@)] == p@,
                None => !self@.contains_key(file_key_spec(api_url@, username@)),
            },
    {
        let key = file_key(api_url, username);
        self.lookup(key.as_str())
    }

    /// Keeps `password` for `username` at `api_url`.
    pub fn set(&mut self, api_url: &str, username: &str, password: &str)
        ensures
            final(self)@ == old(self)@.insert(file_key_spec(api_url@, username@), password@),
    {
        let key = file_key(api_url, username);
        self.put(key, owned(password));
    }

    /// Forgets the password of `username` at `api_url`.
    pub fn delete(&mut self, api_url: &str, username: &str)
        ensures
            final(self)@ == old(self)@.remove(file_key_spec(api_url@, username@)),
    {
        let key = file_key(api_url, username);
        self.take_out(key.as_str());
    }
}

/// What the store gives after a password is kept: that password for the
/// same user and API URL, and what it gave before for every other key.
pub proof fn lemma_get_after_set(
    store: Map<Seq<char>, Seq<char>>,
    api_url: Seq<char>,
    username: Seq<char>,
    password: Seq<char>,
    key: Seq<char>,
)
    ensures
        ({
            let after = store.insert(file_key_spec(api_url, username), password);
            &&& after.contains_key(file_key_spec(api_url, username))
            &&& after[file_key_spec(api_url, username)] == password
            &&& key != file_key_spec(api_url, username) ==> (after.contains_key(key) == store.contains_key(key)
                && (store.contains_key(key) ==> after[key] == store[key]))
        }),
{
}

/// What the store gives after a password is forgotten: nothing for the same
/// user and API URL, and what it gave before for every other key.
pub proof fn lemma_get_after_delete(
    store: Map<Seq<char>, Seq<char>>,
    api_url: Seq<char>,
    username: Seq<char>,
    key: Seq<char>,
)
    ensures
        ({
            let after = store.remove(file_key_spec(api_url, username));
            &&& !after.contains_key(file_key_spec(api_url, username))
            &&& key != file_key_spec(api_url, username) ==> (after.contains_key(key) == store.contains_key(key)
                && (store.contains_key(key) ==> after[key] == store[key]))
        }),
{
}

/// Two users, or two API URLs, never share a key, as long as the API URLs
/// hold no unit separator (U+001F): so keeping or forgetting one password
/// leaves every other one as it was.
pub proof fn lemma_file_key_injective(a1: Seq<char>, u1: Seq<char>, a2: Seq<char>, u2: Seq<char>)
    requires
        !a1.contains('\u{1f}'),
        !a2.contains('\u{1f}'),
        file_key_spec(a1, u1) == file_key_spec(a2, u2),
    ensures
        a1 == a2,
        u1 == u2,
{
    reveal_strlit("taiga-cli:");
    let k1 = file_key_spec(a1, u1);
    let n: int = "taiga-cli:"@.len() as int;
    if a1.len() < a2.len() {
        assert(k1[n + a1.len()] == '\u{1f}');
        assert(file_key_spec(a2, u2)[n + a1.len()] == a2[a1.len() as int]);
    } else if a2.len() < a1.len() {
        assert(file_key_spec(a2, u2)[n + a2.len()] == '\u{1f}');
        assert(k1[n + a2.len()] == a1[a2.len() as int]);
    } else {
        assert forall|i: int| 0 <= i < a1.len() implies a1[i] == a2[i] by {
            assert(k1[n + i] == a1[i]);
            assert(file_key_spec(a2, u2)[n + i] == a2[i]);
        }
        assert(a1 =~= a2);
        assert(k1.len() == file_key_spec(a2, u2).len());
        assert(u1.len() == u2.len());
        assert forall|i: int| 0 <= i < u1.len() implies u1[i] == u2[i] by {
            assert(k1[n + a1.len() + 1 + i] == u1[i]);
            assert(file_key_spec(a2, u2)[n + a2.len() + 1 + i] == u2[i]);
        }
        assert(u1 =~= u2);
    }
}

} // verus!

//! BER (Basic Encoding Rules) for SNMP: tag-length-value framing, integers,
//! object identifiers and octet strings, and the parser for response PDUs.

use vstd::prelude::*;
use vstd::arithmetic::div_mod::{
    lemma_fundamental_div_mod, lemma_mod_multiples_vanish, lemma_small_mod, lemma_mod_mod,
};
use vstd::arithmetic::mul::{lemma_mul_is_associative, lemma_mul_nonnegative};
use vstd::utf8::valid_utf8;
use crate::snmp::types::{
    SnmpValue, ValueModel, str_from_utf8, trim_nul_end, trim_nul_end_string, utf8_text,
};
use crate::text::{
    chars_of, lemma_split_char_nonempty, nat_decimal, parse_u64_chars, parse_u64_spec,
    push_char, push_decimal, skip_char, split_char, trim_start_char,
};

verus! {

// ---------------------------------------------------------------------------
// Tags
// ---------------------------------------------------------------------------

pub const TAG_INTEGER: u8 = 0x02;
pub const TAG_OCTET_STRING: u8 = 0x04;
pub const TAG_NULL: u8 = 0x05;
pub const TAG_OID: u8 = 0x06;
pub const TAG_SEQUENCE: u8 = 0x30;

// Application tags (SNMP)
pub const TAG_IP_ADDRESS: u8 = 0x40;
pub const TAG_COUNTER32: u8 = 0x41;
pub const TAG_GAUGE32: u8 = 0x42;
pub const TAG_TIMETICKS: u8 = 0x43;
pub const TAG_OPAQUE: u8 = 0x44;
pub const TAG_COUNTER64: u8 = 0x46;

// Context tags (PDU types)
pub const TAG_GET_REQUEST: u8 = 0xa0;
pub const TAG_GETNEXT_REQUEST: u8 = 0xa1;
pub const TAG_GET_RESPONSE: u8 = 0xa2;
pub const TAG_SET_REQUEST: u8 = 0xa3;
pub const TAG_GETBULK_REQUEST: u8 = 0xa5;
pub const TAG_REPORT: u8 = 0xa8;

// SNMPv2 exceptions
pub const TAG_NO_SUCH_OBJECT: u8 = 0x80;
pub const TAG_NO_SUCH_INSTANCE: u8 = 0x81;
pub const TAG_END_OF_MIB_VIEW: u8 = 0x82;

// SNMPv3 msgData wrappers
pub const TAG_PLAIN_TEXT: u8 = 0xa0;
pub const TAG_ENCRYPTED: u8 = 0xa1;

// ---------------------------------------------------------------------------
// Big-endian numbers
// ---------------------------------------------------------------------------

pub open spec fn pow256(n: nat) -> nat
    decreases n,
{
    if n == 0 { 1 } else { 256 * pow256((n - 1) as nat) }
}

/// The natural number that bytes denote, most significant first.
pub open spec fn be_value(s: Seq<u8>) -> nat
    decreases s.len(),
{
    if s.len() == 0 { 0 } else { be_value(s.drop_last()) * 256 + s.last() as nat }
}

/// The `n` low-order bytes of `x`, most significant first.
pub open spec fn be_bytes(x: nat, n: nat) -> Seq<u8>
    decreases n,
{
    if n == 0 { Seq::empty() } else { be_bytes(x / 256, (n - 1) as nat).push((x % 256) as u8) }
}

/// Shifting a digit into an accumulator kept modulo `base * k`:
/// `(y mod k) * base + b` is `(y * base + b) mod (base * k)`.
pub proof fn lemma_shift_in(y: int, b: int, base: int, k: int)
    requires
        y >= 0,
        0 <= b < base,
        k > 0,
    ensures
        ((y % k) * base + b) == (y * base + b) % (base * k),
        (y % (base * k)) % k == y % k,
        0 <= (y % k) * base + b < base * k,
{
    let q = y / k;
    let r = y % k;
    lemma_fundamental_div_mod(y, k);
    assert(y * base + b == (base * k) * q + (r * base + b)) by (nonlinear_arith)
        requires
            y == k * q + r,
    ;
    assert(r * base + b < base * k) by (nonlinear_arith)
        requires
            0 <= r < k,
            0 <= b < base,
    ;
    assert(0 <= r * base) by (nonlinear_arith)
        requires
            0 <= r,
            0 <= base,
    ;
    lemma_mod_multiples_vanish(q, r * base + b, base * k);
    lemma_small_mod((r * base + b) as nat, (base * k) as nat);
    lemma_mod_mod(y, k, base);
    assert(k * base == base * k) by (nonlinear_arith);
}

pub(crate) proof fn lemma_be_bytes_len(x: nat, n: nat)
    ensures
        be_bytes(x, n).len() == n,
    decreases n,
{
    if n > 0 {
        lemma_be_bytes_len(x / 256, (n - 1) as nat);
    }
}

proof fn lemma_pow256_pos(n: nat)
    ensures
        pow256(n) > 0,
    decreases n,
{
    if n > 0 {
        lemma_pow256_pos((n - 1) as nat);
    }
}

/// Reading back `n` written bytes gives `x` modulo `256^n`.
pub proof fn lemma_be_value_of_bytes(x: nat, n: nat)
    ensures
        be_value(be_bytes(x, n)) == x % pow256(n),
    decreases n,
{
    lemma_be_bytes_len(x, n);
    if n == 0 {
        assert(x % 1 == 0) by (nonlinear_arith);
    } else {
        let m = (n - 1) as nat;
        lemma_be_value_of_bytes(x / 256, m);
        lemma_pow256_pos(m);
        let bs = be_bytes(x, n);
        assert(bs.drop_last() =~= be_bytes(x / 256, m));
        // (x / 256 % P) * 256 + x % 256 == x % (256 * P)
        let p = pow256(m);
        lemma_fundamental_div_mod(x as int, 256);
        lemma_shift_in((x / 256) as int, (x % 256) as int, 256, p as int);
        assert((x / 256) * 256 + x % 256 == x) by (nonlinear_arith)
            requires
                x == 256 * (x / 256) + x % 256,
        ;
    }
}

/// Values that fit in `n` bytes are written without loss.
pub proof fn lemma_be_value_small(x: nat, n: nat)
    requires
        x < pow256(n),
    ensures
        be_value(be_bytes(x, n)) == x,
{
    lemma_be_value_of_bytes(x, n);
    lemma_small_mod(x, pow256(n));
}

// ---------------------------------------------------------------------------
// Length octets
// ---------------------------------------------------------------------------

/// The length octets written for `len`: short form below 128, then one, two
/// or three bytes after 0x81, 0x82 or 0x83 (only the low three bytes of larger
/// lengths are kept).
pub open spec fn length_octets(len: nat) -> Seq<u8> {
    if len < 0x80 {
        seq![len as u8]
    } else if len < 0x100 {
        seq![0x81u8, len as u8]
    } else if len < 0x10000 {
        seq![0x82u8] + be_bytes(len, 2)
    } else {
        seq![0x83u8] + be_bytes(len, 3)
    }
}

/// The size of the `usize` range, `usize::MAX + 1`.
pub open spec fn usize_range() -> nat {
    (usize::MAX + 1) as nat
}

/// What the length decoder reads at the start of `d`: the length (a long form
/// wraps around modulo the size of `usize`) and how many bytes it took.
pub open spec fn decode_length_spec(d: Seq<u8>) -> Option<(usize, usize)> {
    if d.len() == 0 {
        None
    } else if d[0] < 0x80 {
        Some((d[0] as usize, 1usize))
    } else {
        let n = (d[0] - 0x80) as nat;
        if d.len() < 1 + n {
            None
        } else {
            Some(((be_value(d.subrange(1, 1 + n as int)) % usize_range()) as usize, (1 + n) as usize))
        }
    }
}

/// Encodes a length in BER.
pub fn encode_length(len: usize) -> (r: Vec<u8>)
    ensures
        r@ == length_octets(len as nat),
{
    if len < 0x80 {
        vec![len as u8]
    } else if len < 0x100 {
        vec![0x81, len as u8]
    } else if len < 0x10000 {
        let r = vec![0x82, (len / 256) as u8, (len % 256) as u8];
        proof {
            reveal_with_fuel(be_bytes, 3);
            assert(len / 256 / 256 == 0);
            assert(len / 256 % 256 == len / 256);
        }
        assert(r@ =~= length_octets(len as nat));
        r
    } else {
        let r = vec![0x83, (len / 65536 % 256) as u8, (len / 256 % 256) as u8, (len % 256) as u8];
        proof {
            reveal_with_fuel(be_bytes, 4);
            assert(len / 256 / 256 == len / 65536);
        }
        assert(r@ =~= length_octets(len as nat));
        r
    }
}

/// Decodes BER length octets at the start of `data`: the length and the
/// number of bytes consumed, or `None` when the octets are cut short.
pub fn decode_length(data: &[u8]) -> (r: Option<(usize, usize)>)
    ensures
        r == decode_length_spec(data@),
{
    if data.len() == 0 {
        return None;
    }
    let first = data[0];
    if first < 0x80 {
        Some((first as usize, 1))
    } else {
        let len_bytes: usize = (first - 0x80) as usize;
        if data.len() < 1 + len_bytes {
            return None;
        }
        let k: usize = usize::MAX / 256 + 1;
        assert(256 * k == usize_range());
        let mut len: usize = 0;
        let mut i: usize = 1;
        let ghost field = data@.subrange(1, 1 + len_bytes as int);
        while i <= len_bytes
            invariant
                1 <= i <= len_bytes + 1,
                1 + len_bytes <= data.len(),
                k > 0,
                256 * k == usize_range(),
                field == data@.subrange(1, 1 + len_bytes as int),
                len as nat == be_value(field.take(i - 1)) % usize_range(),
            decreases len_bytes + 1 - i,
        {
            let b = data[i];
            proof {
                let prev = field.take(i - 1);
                let cur = field.take(i as int);
                assert(cur.drop_last() =~= prev);
                assert(cur.last() == b);
                let y = be_value(prev) as int;
                lemma_shift_in(y, b as int, 256, k as int);
                lemma_shift_in(len as int, b as int, 256, k as int);
                lemma_mod_mod(y, k as int, 256);
            }
            len = (len % k) * 256 + b as usize;
            i += 1;
        }
        assert(field.take(len_bytes as int) =~= field);
        Some((len, 1 + len_bytes))
    }
}


/// A length below 2^24 reads back from its own encoding, whatever follows it.
pub proof fn lemma_length_roundtrip(len: usize, rest: Seq<u8>)
    requires
        len < 0x100_0000,
    ensures
        decode_length_spec(length_octets(len as nat) + rest)
            == Some((len, length_octets(len as nat).len() as usize)),
{
    let enc = length_octets(len as nat);
    let d = enc + rest;
    assert(usize_range() >= 0x1_0000_0000) by {
        assert(usize::MAX >= 0xffff_ffff);
    }
    if len < 0x80 {
    } else if len < 0x100 {
        assert(d.subrange(1, 2) =~= seq![len as u8]);
        reveal_with_fuel(be_value, 2);
    } else if len < 0x10000 {
        lemma_be_bytes_len(len as nat, 2);
        assert(d.subrange(1, 3) =~= be_bytes(len as nat, 2));
        reveal_with_fuel(pow256, 3);
        lemma_be_value_small(len as nat, 2);
        lemma_small_mod(len as nat, usize_range());
    } else {
        lemma_be_bytes_len(len as nat, 3);
        assert(d.subrange(1, 4) =~= be_bytes(len as nat, 3));
        reveal_with_fuel(pow256, 4);
        lemma_be_value_small(len as nat, 3);
        lemma_small_mod(len as nat, usize_range());
    }
}

// ---------------------------------------------------------------------------
// Tag-length-value framing
// ---------------------------------------------------------------------------

/// Tag, length octets, then the value.
pub open spec fn tlv_spec(tag: u8, value: Seq<u8>) -> Seq<u8> {
    seq![tag] + length_octets(value.len()) + value
}

/// Builds a BER tag-length-value.
pub fn tlv(tag: u8, value: &[u8]) -> (r: Vec<u8>)
    ensures
        r@ == tlv_spec(tag, value@),
{
    let mut result: Vec<u8> = Vec::new();
    result.push(tag);
    let mut len_octets = encode_length(value.len());
    result.append(&mut len_octets);
    let mut i: usize = 0;
    let ghost head = result@;
    while i < value.len()
        invariant
            i <= value.len(),
            result@ == head + value@.take(i as int),
        decreases value.len() - i,
    {
        result.push(value[i]);
        i += 1;
        assert(value@.take(i as int) == value@.take(i - 1).push(value@[i - 1]));
    }
    assert(value@.take(value.len() as int) =~= value@);
    assert(result@ =~= tlv_spec(tag, value@));
    result
}

/// A SEQUENCE (0x30) around the given contents.
pub fn sequence(contents: &[u8]) -> (r: Vec<u8>)
    ensures
        r@ == tlv_spec(TAG_SEQUENCE, contents@),
{
    tlv(TAG_SEQUENCE, contents)
}

/// An OCTET STRING holding `data`.
pub fn encode_octet_string(data: &[u8]) -> (r: Vec<u8>)
    ensures
        r@ == tlv_spec(TAG_OCTET_STRING, data@),
{
    tlv(TAG_OCTET_STRING, data)
}

/// The NULL value: tag 0x05, length 0.
pub fn encode_null() -> (r: Vec<u8>)
    ensures
        r@ == seq![TAG_NULL, 0u8],
        r@ == tlv_spec(TAG_NULL, Seq::empty()),
{
    let r = vec![TAG_NULL, 0x00];
    assert(r@ =~= seq![TAG_NULL, 0u8]);
    assert(tlv_spec(TAG_NULL, Seq::empty()) =~= seq![TAG_NULL, 0u8]);
    r
}

// ---------------------------------------------------------------------------
// INTEGER
// ---------------------------------------------------------------------------

pub open spec fn two64() -> int {
    0x1_0000_0000_0000_0000int
}

/// `v` fits in `n` bytes of two's complement.
pub open spec fn fits_signed(v: int, n: nat) -> bool {
    -((pow256(n) / 2) as int) <= v < (pow256(n) / 2) as int
}

pub open spec fn signed_width_from(v: int, n: nat) -> nat
    decreases 8 - n,
{
    if n >= 8 || fits_signed(v, n) { n } else { signed_width_from(v, n + 1) }
}

/// The fewest bytes, from one to eight, that hold `v` in two's complement.
pub open spec fn signed_width(v: int) -> nat {
    signed_width_from(v, 1)
}

/// Content octets of an INTEGER: the minimal big-endian two's complement.
pub open spec fn integer_content(v: int) -> Seq<u8> {
    let n = signed_width(v);
    be_bytes((v % (pow256(n) as int)) as nat, n)
}

/// The integer that content octets denote in two's complement.
pub open spec fn signed_be(s: Seq<u8>) -> int {
    if s.len() > 0 && s[0] >= 0x80 {
        be_value(s) - pow256(s.len())
    } else {
        be_value(s) as int
    }
}

/// The `i64` congruent to `x` modulo 2^64.
pub open spec fn wrap_i64(x: int) -> i64 {
    let m = x % two64();
    if m > i64::MAX { (m - two64()) as i64 } else { m as i64 }
}

/// Content octets of an unsigned INTEGER: the fewest big-endian bytes, with a
/// leading zero byte where the top bit would otherwise read as a sign.
pub open spec fn uint_content(v: nat) -> Seq<u8> {
    let b = be_bytes(v, unsigned_width_from(v, 1));
    if b[0] >= 0x80 { seq![0u8] + b } else { b }
}

pub open spec fn unsigned_width_from(v: nat, n: nat) -> nat
    decreases 8 - n,
{
    if n >= 8 || v < pow256(n) { n } else { unsigned_width_from(v, n + 1) }
}

proof fn lemma_pow256_values()
    ensures
        pow256(1) == 0x100,
        pow256(2) == 0x1_0000,
        pow256(3) == 0x100_0000,
        pow256(4) == 0x1_0000_0000,
        pow256(5) == 0x100_0000_0000,
        pow256(6) == 0x1_0000_0000_0000,
        pow256(7) == 0x100_0000_0000_0000,
        pow256(8) == 0x1_0000_0000_0000_0000,
{
    reveal_with_fuel(pow256, 9);
}

proof fn lemma_pow256_mul(a: nat, b: nat)
    ensures
        pow256(a + b) == pow256(a) * pow256(b),
    decreases a,
{
    if a == 0 {
        assert(pow256(0) == 1);
        assert(a + b == b);
    } else {
        let c = (a - 1) as nat;
        lemma_pow256_mul(c, b);
        assert(a + b == (c + b) + 1);
        assert(pow256(a + b) == 256 * pow256(c + b));
        assert(pow256(a) == 256 * pow256(c));
        lemma_mul_is_associative(256, pow256(c) as int, pow256(b) as int);
    }
}

/// Appends the `n` low-order bytes of `x`, most significant first.
fn push_be_bytes(out: &mut Vec<u8>, x: u64, n: usize)
    ensures
        final(out)@ == old(out)@ + be_bytes(x as nat, n as nat),
    decreases n,
{
    if n > 0 {
        push_be_bytes(out, x / 256, n - 1);
        out.push((x % 256) as u8);
        assert(be_bytes(x as nat, n as nat) == be_bytes((x / 256) as nat, (n - 1) as nat).push((x % 256) as u8));
    }
}

/// The first byte that `be_bytes` writes.
proof fn lemma_be_bytes_first(x: nat, n: nat)
    requires
        n >= 1,
        x < pow256(n),
    ensures
        be_bytes(x, n)[0] as nat == x / pow256((n - 1) as nat),
    decreases n,
{
    lemma_be_bytes_len(x, n);
    lemma_pow256_pos((n - 1) as nat);
    if n == 1 {
        assert(be_bytes(x, 1) =~= be_bytes(x / 256, 0).push((x % 256) as u8));
    } else {
        let m = (n - 1) as nat;
        let p = pow256((m - 1) as nat);
        lemma_pow256_pos((m - 1) as nat);
        assert(x / 256 < pow256(m)) by (nonlinear_arith)
            requires
                x < 256 * pow256(m),
        ;
        lemma_be_bytes_first(x / 256, m);
        lemma_be_bytes_len(x / 256, m);
        assert(be_bytes(x, n)[0] == be_bytes(x / 256, m)[0]);
        assert(pow256(m) == 256 * p);
        vstd::arithmetic::div_mod::lemma_div_denominator(x as int, 256, p as int);
    }
}

/// `signed_width` yields a width in 1..=8 at which the value fits, when it fits in 8.
proof fn lemma_signed_width(v: int, n: nat)
    requires
        1 <= n <= 8,
        fits_signed(v, 8),
    ensures
        n <= signed_width_from(v, n) <= 8,
        fits_signed(v, signed_width_from(v, n)),
    decreases 8 - n,
{
    if n < 8 && !fits_signed(v, n) {
        lemma_signed_width(v, n + 1);
    }
}

/// The width loop: the fewest bytes, from one to eight, that hold `v`.
fn signed_width_exec(v: i64) -> (n: usize)
    ensures
        n as nat == signed_width(v as int),
        1 <= n <= 8,
{
    proof {
        lemma_pow256_values();
    }
    let mut n: usize = 1;
    let mut half: i64 = 128;
    while n < 8
        invariant
            1 <= n <= 8,
            n < 8 ==> half as int == pow256(n as nat) / 2,
            half <= 0x80_0000_0000_0000,
            signed_width(v as int) == signed_width_from(v as int, n as nat),
            pow256(1) == 0x100,
            pow256(2) == 0x1_0000,
            pow256(3) == 0x100_0000,
            pow256(4) == 0x1_0000_0000,
            pow256(5) == 0x100_0000_0000,
            pow256(6) == 0x1_0000_0000_0000,
            pow256(7) == 0x100_0000_0000_0000,
        decreases 8 - n,
    {
        if -half <= v && v < half {
            return n;
        }
        n += 1;
        if n < 8 {
            half = half * 256;
        }
    }
    n
}

/// Two's complement bits of `v`, as an unsigned number (`v mod 2^64`).
pub(crate) fn i64_bits(v: i64) -> (u: u64)
    ensures
        u as int == v as int % two64(),
{
    if v < 0 {
        let t: u64 = (v + i64::MAX + 1) as u64;
        let u = t + 0x8000_0000_0000_0000u64;
        assert(u as int == v + two64());
        proof {
            lemma_mod_multiples_vanish(1, v as int, two64());
            lemma_small_mod(u as nat, two64() as nat);
        }
        u
    } else {
        proof {
            lemma_small_mod(v as nat, two64() as nat);
        }
        v as u64
    }
}

/// `v mod 256^n`, read off the two's complement bits, for `1 <= n <= 8`.
proof fn lemma_mod_pow_of_bits(v: int, n: nat)
    requires
        1 <= n <= 8,
    ensures
        (v % two64()) % (pow256(n) as int) == v % (pow256(n) as int),
{
    lemma_pow256_values();
    lemma_pow256_mul(n, (8 - n) as nat);
    lemma_pow256_pos(n);
    lemma_pow256_pos((8 - n) as nat);
    assert(pow256(n) * pow256((8 - n) as nat) == two64());
    vstd::arithmetic::div_mod::lemma_mod_mod(v, pow256(n) as int, pow256((8 - n) as nat) as int);
}

/// Content octets of INTEGER `v`.
fn integer_content_exec(v: i64) -> (r: Vec<u8>)
    ensures
        r@ == integer_content(v as int),
{
    let n = signed_width_exec(v);
    let u = i64_bits(v);
    proof {
        lemma_pow256_values();
        lemma_mod_pow_of_bits(v as int, n as nat);
    }
    let x: u64 = if n == 8 {
        proof {
            lemma_small_mod(u as nat, two64() as nat);
        }
        u
    } else {
        let p: u64 = if n == 1 { 0x100 } else if n == 2 { 0x1_0000 } else if n == 3 {
            0x100_0000
        } else if n == 4 { 0x1_0000_0000 } else if n == 5 { 0x100_0000_0000 } else if n == 6 {
            0x1_0000_0000_0000
        } else { 0x100_0000_0000_0000 };
        assert(p as nat == pow256(n as nat));
        u % p
    };
    let mut out: Vec<u8> = Vec::new();
    push_be_bytes(&mut out, x, n);
    assert(out@ =~= integer_content(v as int));
    out
}

/// Encodes a signed integer in BER: the fewest two's complement bytes.
pub fn encode_integer(value: i64) -> (r: Vec<u8>)
    ensures
        r@ == tlv_spec(TAG_INTEGER, integer_content(value as int)),
{
    let content = integer_content_exec(value);
    tlv(TAG_INTEGER, content.as_slice())
}

/// Decodes INTEGER content octets: two's complement, most significant byte
/// first; longer runs than eight bytes keep their low 64 bits.
pub fn decode_integer(data: &[u8]) -> (r: Option<i64>)
    ensures
        r == Some(wrap_i64(signed_be(data@))),
{
    let k: u64 = 0x100_0000_0000_0000;
    if data.len() == 0 {
        proof {
            lemma_small_mod(0, two64() as nat);
        }
        return Some(0);
    }
    let negative = data[0] >= 0x80;
    let ghost init: int = if negative { two64() - 1 } else { 0 };
    let mut acc: u64 = if negative { u64::MAX } else { 0 };
    let mut i: usize = 0;
    proof {
        lemma_small_mod(acc as nat, two64() as nat);
        assert(data@.take(0) =~= Seq::<u8>::empty());
    }
    while i < data.len()
        invariant
            i <= data.len(),
            k == 0x100_0000_0000_0000,
            init >= 0,
            acc as int == (init * pow256(i as nat) + be_value(data@.take(i as int))) % two64(),
        decreases data.len() - i,
    {
        let b = data[i];
        proof {
            let p = pow256(i as nat);
            let bv = be_value(data@.take(i as int));
            let y: int = init * p + bv;
            assert(y >= 0) by {
                lemma_mul_nonnegative(init, p as int);
            }
            lemma_shift_in(y, b as int, 256, k as int);
            assert(data@.take(i + 1).drop_last() =~= data@.take(i as int));
            assert(y * 256 + b == init * pow256((i + 1) as nat) + be_value(data@.take(i + 1))) by (nonlinear_arith)
                requires
                    y == init * p + bv,
                    pow256((i + 1) as nat) == 256 * p,
                    be_value(data@.take(i + 1)) == bv * 256 + b,
            ;
        }
        acc = (acc % k) * 256 + b as u64;
        i += 1;
    }
    proof {
        assert(data@.take(data.len() as int) =~= data@);
        let p = pow256(data.len() as nat);
        let bv = be_value(data@);
        if negative {
            assert(init * p + bv == two64() * p + (bv - p)) by (nonlinear_arith)
                requires
                    init == two64() - 1,
            ;
            lemma_mod_multiples_vanish(p as int, bv - p, two64());
        }
    }
    if acc > 0x7fff_ffff_ffff_ffffu64 {
        let below: u64 = u64::MAX - acc;
        Some(-(below as i64) - 1)
    } else {
        Some(acc as i64)
    }
}

/// Content octets of an unsigned INTEGER.
fn uint_content_exec(value: u64) -> (r: Vec<u8>)
    ensures
        r@ == uint_content(value as nat),
{
    proof {
        lemma_pow256_values();
    }
    let mut n: usize = 1;
    let mut p: u64 = 256;
    while n < 8
        invariant
            1 <= n <= 8,
            n < 8 ==> p as nat == pow256(n as nat),
            unsigned_width_from(value as nat, 1) == unsigned_width_from(value as nat, n as nat),
            pow256(1) == 0x100,
            pow256(2) == 0x1_0000,
            pow256(3) == 0x100_0000,
            pow256(4) == 0x1_0000_0000,
            pow256(5) == 0x100_0000_0000,
            pow256(6) == 0x1_0000_0000_0000,
            pow256(7) == 0x100_0000_0000_0000,
        ensures
            1 <= n <= 8,
            unsigned_width_from(value as nat, 1) == n,
        decreases 8 - n,
    {
        if value < p {
            break;
        }
        n += 1;
        if n < 8 {
            p = p * 256;
        }
    }
    let mut bytes: Vec<u8> = Vec::new();
    push_be_bytes(&mut bytes, value, n);
    proof {
        lemma_be_bytes_len(value as nat, n as nat);
    }
    if bytes[0] >= 0x80 {
        let mut out: Vec<u8> = vec![0u8];
        out.append(&mut bytes);
        assert(out@ =~= uint_content(value as nat));
        out
    } else {
        assert(bytes@ =~= uint_content(value as nat));
        bytes
    }
}

/// Encodes an unsigned integer as a BER INTEGER.
pub fn encode_uint(value: u64) -> (r: Vec<u8>)
    ensures
        r@ == tlv_spec(TAG_INTEGER, uint_content(value as nat)),
{
    let content = uint_content_exec(value);
    tlv(TAG_INTEGER, content.as_slice())
}

/// Decodes unsigned content octets; longer runs than eight bytes keep their low 64 bits.
pub fn decode_uint(data: &[u8]) -> (r: u64)
    ensures
        r as int == (be_value(data@) as int) % two64(),
{
    let k: u64 = 0x100_0000_0000_0000;
    let mut acc: u64 = 0;
    let mut i: usize = 0;
    proof {
        assert(data@.take(0) =~= Seq::<u8>::empty());
        lemma_small_mod(0, two64() as nat);
    }
    while i < data.len()
        invariant
            i <= data.len(),
            k == 0x100_0000_0000_0000,
            acc as int == (be_value(data@.take(i as int)) as int) % two64(),
        decreases data.len() - i,
    {
        let b = data[i];
        proof {
            let bv = be_value(data@.take(i as int));
            lemma_shift_in(bv as int, b as int, 256, k as int);
            assert(data@.take(i + 1).drop_last() =~= data@.take(i as int));
        }
        acc = (acc % k) * 256 + b as u64;
        i += 1;
    }
    assert(data@.take(data.len() as int) =~= data@);
    acc
}

proof fn lemma_be_value_zero_prefix(s: Seq<u8>)
    ensures
        be_value(seq![0u8] + s) == be_value(s),
    decreases s.len(),
{
    if s.len() > 0 {
        lemma_be_value_zero_prefix(s.drop_last());
        assert((seq![0u8] + s).drop_last() =~= seq![0u8] + s.drop_last());
    } else {
        assert(seq![0u8] + s =~= seq![0u8]);
        reveal_with_fuel(be_value, 2);
    }
}

proof fn lemma_unsigned_width(v: nat, n: nat)
    requires
        1 <= n <= 8,
        v < pow256(8),
    ensures
        1 <= unsigned_width_from(v, n) <= 8,
        v < pow256(unsigned_width_from(v, n)),
    decreases 8 - n,
{
    if n < 8 && v >= pow256(n) {
        lemma_unsigned_width(v, n + 1);
    }
}

/// Reading INTEGER content octets back gives the number that was encoded.
pub proof fn lemma_integer_roundtrip(v: i64)
    ensures
        wrap_i64(signed_be(integer_content(v as int))) == v,
{
    let vi = v as int;
    lemma_pow256_values();
    lemma_signed_width(vi, 1);
    let n = signed_width(vi);
    let p = pow256(n);
    let q = pow256((n - 1) as nat);
    lemma_pow256_pos(n);
    lemma_pow256_pos((n - 1) as nat);
    assert(p == 256 * q);
    let x: nat = (vi % (p as int)) as nat;
    let c = integer_content(vi);
    assert(c == be_bytes(x, n));
    lemma_be_bytes_len(x, n);
    if vi >= 0 {
        lemma_small_mod(vi as nat, p);
        assert(x == vi);
    } else {
        lemma_mod_multiples_vanish(1, vi, p as int);
        lemma_small_mod((p + vi) as nat, p);
        assert(x == p + vi);
    }
    lemma_be_value_small(x, n);
    lemma_be_bytes_first(x, n);
    if vi >= 0 {
        assert(x < 128 * q);
        assert(x / q < 128) by (nonlinear_arith)
            requires
                x < 128 * q,
                q > 0,
        ;
        assert(signed_be(c) == vi);
        lemma_small_mod(vi as nat, two64() as nat);
    } else {
        assert(x >= 128 * q);
        assert(x / q >= 128) by (nonlinear_arith)
            requires
                x >= 128 * q,
                q > 0,
        ;
        assert(signed_be(c) == vi);
        lemma_mod_multiples_vanish(1, vi, two64());
        lemma_small_mod((two64() + vi) as nat, two64() as nat);
    }
}

/// Reading unsigned content octets back gives the number that was encoded.
pub proof fn lemma_uint_roundtrip(v: u64)
    ensures
        (be_value(uint_content(v as nat)) as int) % two64() == v as int,
        v <= i64::MAX ==> wrap_i64(signed_be(uint_content(v as nat))) == v as i64,
{
    lemma_pow256_values();
    lemma_unsigned_width(v as nat, 1);
    let n = unsigned_width_from(v as nat, 1);
    let b = be_bytes(v as nat, n);
    lemma_be_bytes_len(v as nat, n);
    lemma_be_value_small(v as nat, n);
    lemma_be_value_zero_prefix(b);
    let c = uint_content(v as nat);
    assert(be_value(c) == v);
    lemma_small_mod(v as nat, two64() as nat);
    if v <= i64::MAX {
        if b[0] >= 0x80 {
            assert(c[0] == 0);
        } else {
            assert(c == b);
        }
        assert(signed_be(c) == v);
    }
}

// ---------------------------------------------------------------------------
// OBJECT IDENTIFIER
// ---------------------------------------------------------------------------

/// The numbers of dotted pieces, or `None` when a piece is not a `u64`.
pub open spec fn pieces_values(parts: Seq<Seq<char>>) -> Option<Seq<u64>>
    decreases parts.len(),
{
    if parts.len() == 0 {
        Some(Seq::empty())
    } else {
        match (pieces_values(parts.drop_last()), parse_u64_spec(parts.last())) {
            (Some(a), Some(x)) => Some(a.push(x)),
            _ => None,
        }
    }
}

/// The arcs of a dotted OID such as "1.3.6.1.2.1.1.1.0" (leading dots ignored).
pub open spec fn oid_components_spec(s: Seq<char>) -> Option<Seq<u64>> {
    pieces_values(split_char(trim_start_char(s, '.'), '.'))
}

/// Continuation bytes (top bit set) of base-128 digits of `w`, most significant first.
pub open spec fn base128_lead(w: nat) -> Seq<u8>
    decreases w,
{
    if w == 0 { Seq::empty() } else { base128_lead(w / 128).push((w % 128 + 128) as u8) }
}

/// One OID arc in base 128: continuation bytes, then the last 7-bit digit.
pub open spec fn base128(v: nat) -> Seq<u8> {
    base128_lead(v / 128).push((v % 128) as u8)
}

/// The arcs after the first two, each in base 128.
pub open spec fn arcs_bytes(cs: Seq<u64>) -> Seq<u8>
    decreases cs.len(),
{
    if cs.len() == 0 { Seq::empty() } else { base128(cs[0] as nat) + arcs_bytes(cs.drop_first()) }
}

/// Content octets of an OID of at least two arcs: `40 * arc1 + arc2` (low
/// byte), then the remaining arcs in base 128.
pub open spec fn oid_content(c: Seq<u64>) -> Seq<u8> {
    seq![((c[0] * 40 + c[1]) % 256) as u8] + arcs_bytes(c.skip(2))
}

/// What `encode_oid` writes for a dotted OID: an empty OID when the text does
/// not parse or has fewer than two arcs.
pub open spec fn encode_oid_spec(s: Seq<char>) -> Seq<u8> {
    match oid_components_spec(s) {
        Some(c) => if c.len() >= 2 { tlv_spec(TAG_OID, oid_content(c)) } else { tlv_spec(TAG_OID, Seq::empty()) },
        None => tlv_spec(TAG_OID, Seq::empty()),
    }
}

/// `encode_oid` does not overflow on `s`: the first byte's arithmetic fits in 64 bits.
pub open spec fn oid_first_byte_fits(s: Seq<char>) -> bool {
    match oid_components_spec(s) {
        Some(c) => c.len() >= 2 ==> c[0] * 40 + c[1] <= u64::MAX,
        None => true,
    }
}

/// Length of the first base-128 group: up to and including the first byte
/// without its top bit, or to the end.
pub open spec fn group_end(s: Seq<u8>) -> nat
    decreases s.len(),
{
    if s.len() == 0 { 0 } else if s[0] < 128 { 1 } else { 1 + group_end(s.drop_first()) }
}

/// The number that 7-bit digits denote (top bits ignored).
pub open spec fn seven_value(s: Seq<u8>) -> nat
    decreases s.len(),
{
    if s.len() == 0 { 0 } else { seven_value(s.drop_last()) * 128 + (s.last() % 128) as nat }
}

pub proof fn lemma_group_end_bounds(s: Seq<u8>)
    ensures
        s.len() > 0 ==> 1 <= group_end(s) <= s.len(),
        s.len() == 0 ==> group_end(s) == 0,
    decreases s.len(),
{
    if s.len() > 0 {
        lemma_group_end_bounds(s.drop_first());
    }
}

/// The arcs after the first byte, group by group; each keeps its low 64 bits.
pub open spec fn oid_arcs(s: Seq<u8>) -> Seq<nat>
    decreases s.len(),
{
    if s.len() == 0 {
        Seq::empty()
    } else {
        let g = group_end(s);
        proof {
            lemma_group_end_bounds(s);
        }
        seq![(seven_value(s.take(g as int)) as int % two64()) as nat] + oid_arcs(s.skip(g as int))
    }
}

/// Numbers in dotted notation.
pub open spec fn dotted(cs: Seq<nat>) -> Seq<char>
    decreases cs.len(),
{
    if cs.len() == 0 {
        Seq::empty()
    } else if cs.len() == 1 {
        nat_decimal(cs[0])
    } else {
        dotted(cs.drop_last()) + seq!['.'] + nat_decimal(cs.last())
    }
}

/// What `decode_oid` yields: the first byte as `byte / 40` and `byte % 40`,
/// then each base-128 group.
pub open spec fn decode_oid_spec(d: Seq<u8>) -> Seq<char> {
    if d.len() == 0 {
        Seq::empty()
    } else {
        dotted(seq![(d[0] / 40) as nat, (d[0] % 40) as nat] + oid_arcs(d.drop_first()))
    }
}

/// Parses a dotted OID string into its arcs.
pub fn oid_string_to_components(oid: &str) -> (r: Option<Vec<u64>>)
    ensures
        match r {
            Some(v) => oid_components_spec(oid@) == Some(v@),
            None => oid_components_spec(oid@).is_none(),
        },
{
    let cs = chars_of(oid);
    let start = skip_char(cs.as_slice(), 0, '.');
    let ghost body = cs@.skip(start as int);
    assert(cs@.skip(0) =~= cs@);
    let mut done: Vec<u64> = Vec::new();
    let mut ok = true;
    let mut cur: Vec<char> = Vec::new();
    let ghost mut pieces: Seq<Seq<char>> = Seq::empty();
    let mut i = start;
    assert(body.take(0) =~= Seq::<char>::empty());
    while i < cs.len()
        invariant
            start <= i <= cs.len(),
            body == cs@.skip(start as int),
            split_char(body.take(i - start), '.') == pieces.push(cur@),
            pieces_values(pieces) == (if ok { Some(done@) } else { None::<Seq<u64>> }),
        decreases cs.len() - i,
    {
        let c = cs[i];
        let ghost k: int = i - start;
        proof {
            assert(body.take(k + 1).drop_last() =~= body.take(k));
            assert(body.take(k + 1).last() == c);
            lemma_split_char_nonempty(body.take(k), '.');
        }
        if c == '.' {
            let v = parse_u64_chars(cur.as_slice());
            let ghost prev_pieces = pieces;
            let ghost old_cur = cur@;
            proof {
                pieces = pieces.push(cur@);
                assert(pieces.drop_last() =~= prev_pieces);
                assert(pieces.last() == old_cur);
            }
            match v {
                Some(x) => {
                    if ok {
                        done.push(x);
                    }
                },
                None => {
                    ok = false;
                },
            }
            cur = Vec::new();
            proof {
                assert(pieces.push(cur@).drop_last() =~= pieces);
            }
        } else {
            cur.push(c);
            proof {
                let prev = split_char(body.take(k), '.');
                assert(prev.update(prev.len() - 1, prev.last().push(c)) =~= pieces.push(cur@));
            }
        }
        i += 1;
    }
    assert(body.take(cs.len() - start) =~= body);
    let last = parse_u64_chars(cur.as_slice());
    proof {
        assert(pieces.push(cur@).drop_last() =~= pieces);
    }
    match last {
        Some(x) => {
            if ok {
                done.push(x);
                Some(done)
            } else {
                None
            }
        },
        None => None,
    }
}

/// Appends the continuation bytes of `w`.
fn push_base128_lead(out: &mut Vec<u8>, w: u64)
    ensures
        final(out)@ == old(out)@ + base128_lead(w as nat),
    decreases w,
{
    if w > 0 {
        push_base128_lead(out, w / 128);
        out.push((w % 128 + 128) as u8);
    }
}

/// Appends one arc in base 128.
fn encode_oid_component(value: u64, output: &mut Vec<u8>)
    ensures
        final(output)@ == old(output)@ + base128(value as nat),
{
    push_base128_lead(output, value / 128);
    output.push((value % 128) as u8);
}

/// Encodes a dotted OID; text that does not parse, or has fewer than two arcs,
/// gives an empty OID.
pub fn encode_oid(oid: &str) -> (r: Vec<u8>)
    requires
        oid_first_byte_fits(oid@),
    ensures
        r@ == encode_oid_spec(oid@),
{
    let components = match oid_string_to_components(oid) {
        Some(c) => c,
        None => return tlv(TAG_OID, &[]),
    };
    if components.len() < 2 {
        return tlv(TAG_OID, &[]);
    }
    let mut bytes: Vec<u8> = Vec::new();
    bytes.push(((components[0] * 40 + components[1]) % 256) as u8);
    let ghost cs = components@;
    let mut i: usize = 2;
    assert(arcs_bytes(cs.skip(2).take(0)) =~= Seq::<u8>::empty());
    while i < components.len()
        invariant
            2 <= i <= components.len(),
            cs == components@,
            bytes@ == seq![((cs[0] * 40 + cs[1]) % 256) as u8] + arcs_bytes(cs.subrange(2, i as int)),
        decreases components.len() - i,
    {
        let ghost before = bytes@;
        encode_oid_component(components[i], &mut bytes);
        proof {
            lemma_arcs_bytes_push(cs.subrange(2, i as int), cs[i as int]);
            assert(cs.subrange(2, i as int).push(cs[i as int]) =~= cs.subrange(2, i + 1));
        }
        i += 1;
    }
    assert(cs.subrange(2, cs.len() as int) =~= cs.skip(2));
    tlv(TAG_OID, bytes.as_slice())
}

proof fn lemma_arcs_bytes_push(cs: Seq<u64>, x: u64)
    ensures
        arcs_bytes(cs.push(x)) == arcs_bytes(cs) + base128(x as nat),
    decreases cs.len(),
{
    if cs.len() == 0 {
        assert(seq![x].drop_first() =~= Seq::<u64>::empty());
        assert(cs.push(x) =~= seq![x]);
        assert(arcs_bytes(seq![x]) == base128(x as nat) + arcs_bytes(Seq::<u64>::empty()));
        assert(base128(x as nat) + Seq::<u8>::empty() =~= base128(x as nat));
        assert(Seq::<u8>::empty() + base128(x as nat) =~= base128(x as nat));
    } else {
        lemma_arcs_bytes_push(cs.drop_first(), x);
        assert(cs.push(x).drop_first() =~= cs.drop_first().push(x));
        assert(cs.push(x)[0] == cs[0]);
        let a = base128(cs[0] as nat);
        let b = arcs_bytes(cs.drop_first());
        let c = base128(x as nat);
        assert(a + (b + c) =~= (a + b) + c);
    }
}

/// Reads one base-128 group that starts at `i`: its value (low 64 bits) and
/// the index just after it.
fn read_group(data: &[u8], i: usize) -> (r: (u64, usize))
    requires
        i < data.len(),
    ensures
        r.1 == i + group_end(data@.skip(i as int)),
        i < r.1 <= data.len(),
        r.0 as int == (seven_value(data@.subrange(i as int, r.1 as int)) as int) % two64(),
{
    let k: u64 = 0x200_0000_0000_0000;
    let mut j = i;
    let mut acc: u64 = 0;
    proof {
        assert(data@.subrange(i as int, i as int) =~= Seq::<u8>::empty());
        lemma_small_mod(0, two64() as nat);
    }
    while j < data.len()
        invariant
            i <= j <= data.len(),
            k == 0x200_0000_0000_0000,
            acc as int == (seven_value(data@.subrange(i as int, j as int)) as int) % two64(),
            group_end(data@.skip(i as int)) == (j - i) + group_end(data@.skip(j as int)),
        decreases data.len() - j,
    {
        let b = data[j];
        proof {
            let sv = seven_value(data@.subrange(i as int, j as int));
            lemma_shift_in(sv as int, (b % 128) as int, 128, k as int);
            assert(data@.subrange(i as int, j + 1).drop_last() =~= data@.subrange(i as int, j as int));
            assert(data@.skip(j as int).drop_first() =~= data@.skip(j + 1));
        }
        acc = (acc % k) * 128 + (b % 128) as u64;
        j += 1;
        if b < 128 {
            return (acc, j);
        }
    }
    (acc, j)
}

/// Decodes OID content octets to dotted notation.
pub fn decode_oid(data: &[u8]) -> (r: String)
    ensures
        r@ == decode_oid_spec(data@),
{
    let mut out = String::new();
    if data.len() == 0 {
        return out;
    }
    let first = data[0] as u64;
    push_decimal(&mut out, first / 40);
    push_char(&mut out, '.');
    push_decimal(&mut out, first % 40);
    let ghost head: Seq<nat> = seq![(first / 40) as nat, (first % 40) as nat];
    let ghost mut comps: Seq<nat> = head;
    let ghost rest = data@.drop_first();
    proof {
        reveal_with_fuel(dotted, 3);
        assert(head.drop_last() =~= seq![(first / 40) as nat]);
        assert(out@ =~= dotted(comps));
        assert(data@.skip(1) =~= rest);
    }
    let mut i: usize = 1;
    while i < data.len()
        invariant
            1 <= i <= data.len(),
            rest == data@.drop_first(),
            comps.len() >= 2,
            out@ == dotted(comps),
            head + oid_arcs(rest) == comps + oid_arcs(data@.skip(i as int)),
        decreases data.len() - i,
    {
        let (value, next) = read_group(data, i);
        push_char(&mut out, '.');
        push_decimal(&mut out, value);
        proof {
            let s = data@.skip(i as int);
            let g = group_end(s);
            lemma_group_end_bounds(s);
            assert(s.take(g as int) =~= data@.subrange(i as int, next as int));
            assert(s.skip(g as int) =~= data@.skip(next as int));
            assert(oid_arcs(s) == seq![value as nat] + oid_arcs(data@.skip(next as int)));
            let newc = comps.push(value as nat);
            assert(newc.drop_last() =~= comps);
            assert(comps + oid_arcs(s) =~= newc + oid_arcs(data@.skip(next as int)));
            comps = newc;
        }
        i = next;
    }
    proof {
        assert(data@.skip(data.len() as int) =~= Seq::<u8>::empty());
        assert(comps =~= head + oid_arcs(rest));
    }
    out
}

proof fn lemma_base128_lead(w: nat)
    ensures
        forall|i: int| 0 <= i < base128_lead(w).len() ==> #[trigger] base128_lead(w)[i] >= 128,
        seven_value(base128_lead(w)) == w,
    decreases w,
{
    if w > 0 {
        lemma_base128_lead(w / 128);
        let l = base128_lead(w);
        assert(l.drop_last() =~= base128_lead(w / 128));
        assert(((w % 128 + 128) as u8) % 128 == w % 128);
    }
}

proof fn lemma_group_end_lead(l: Seq<u8>, b: u8, rest: Seq<u8>)
    requires
        forall|i: int| 0 <= i < l.len() ==> #[trigger] l[i] >= 128,
        b < 128,
    ensures
        group_end(l.push(b) + rest) == l.len() + 1,
    decreases l.len(),
{
    if l.len() > 0 {
        let t = l.drop_first();
        assert forall|i: int| 0 <= i < t.len() implies #[trigger] t[i] >= 128 by {
            assert(t[i] == l[i + 1]);
        }
        lemma_group_end_lead(t, b, rest);
        assert((l.push(b) + rest).drop_first() =~= t.push(b) + rest);
    } else {
        assert((l.push(b) + rest)[0] == b);
    }
}

/// The groups of a run of base-128 arcs are the arcs.
proof fn lemma_oid_arcs_of_bytes(cs: Seq<u64>)
    ensures
        oid_arcs(arcs_bytes(cs)) == cs.map_values(|x: u64| x as nat),
    decreases cs.len(),
{
    if cs.len() == 0 {
        assert(cs.map_values(|x: u64| x as nat) =~= Seq::<nat>::empty());
    } else {
        let v = cs[0] as nat;
        let l = base128_lead(v / 128);
        let b = (v % 128) as u8;
        let rest = arcs_bytes(cs.drop_first());
        let s = arcs_bytes(cs);
        assert(s == l.push(b) + rest);
        lemma_base128_lead(v / 128);
        lemma_group_end_lead(l, b, rest);
        let g = l.len() + 1;
        assert(s.take(g as int) =~= l.push(b));
        assert(s.skip(g as int) =~= rest);
        assert(l.push(b).drop_last() =~= l);
        assert(seven_value(l.push(b)) == v);
        lemma_small_mod(v, two64() as nat);
        lemma_oid_arcs_of_bytes(cs.drop_first());
        assert(cs.map_values(|x: u64| x as nat) =~= seq![v] + cs.drop_first().map_values(|x: u64| x as nat));
    }
}

/// An OID whose first two arcs fit the first byte reads back as its dotted arcs.
pub proof fn lemma_oid_roundtrip(c: Seq<u64>)
    requires
        c.len() >= 2,
        c[1] < 40,
        c[0] * 40 + c[1] < 256,
    ensures
        decode_oid_spec(oid_content(c)) == dotted(c.map_values(|x: u64| x as nat)),
{
    let d = oid_content(c);
    let first = (c[0] * 40 + c[1]) as nat;
    lemma_small_mod(first, 256);
    assert(d[0] == first);
    assert((c[0] * 40 + c[1]) / 40 == c[0]);
    assert((c[0] * 40 + c[1]) % 40 == c[1]);
    assert(d.drop_first() =~= arcs_bytes(c.skip(2)));
    lemma_oid_arcs_of_bytes(c.skip(2));
    assert(c.map_values(|x: u64| x as nat) =~= seq![c[0] as nat, c[1] as nat] + c.skip(2).map_values(|x: u64| x as nat));
}

// ---------------------------------------------------------------------------
// Parsing
// ---------------------------------------------------------------------------

/// One TLV at the start of `d`: tag, value, and bytes consumed.
pub open spec fn parse_tlv_spec(d: Seq<u8>) -> Option<(u8, Seq<u8>, nat)> {
    if d.len() < 2 {
        None
    } else {
        match decode_length_spec(d.drop_first()) {
            None => None,
            Some((len, lb)) => {
                let off = 1 + lb;
                if d.len() < off + len {
                    None
                } else {
                    Some((d[0], d.subrange(off as int, off + len), (off + len) as nat))
                }
            },
        }
    }
}

pub proof fn lemma_parse_tlv_consumed(d: Seq<u8>)
    ensures
        parse_tlv_spec(d) matches Some((t, v, c)) ==> 2 <= c <= d.len() && v.len() + 2 <= c,
{
}

/// Parses one TLV: tag, value slice, and bytes consumed.
pub fn parse_tlv(data: &[u8]) -> (r: Option<(u8, &[u8], usize)>)
    ensures
        match r {
            Some((t, v, c)) => parse_tlv_spec(data@) == Some((t, v@, c as nat)),
            None => parse_tlv_spec(data@).is_none(),
        },
{
    if data.len() < 2 {
        return None;
    }
    let tag = data[0];
    assert(data@.subrange(1, data.len() as int) =~= data@.drop_first());
    let (len, len_bytes) = match decode_length(vstd::slice::slice_subrange(data, 1, data.len())) {
        Some(x) => x,
        None => return None,
    };
    let offset = 1 + len_bytes;
    let end = match offset.checked_add(len) {
        Some(e) => e,
        None => return None,
    };
    if data.len() < end {
        return None;
    }
    Some((tag, vstd::slice::slice_subrange(data, offset, end), end))
}

/// A tag-length-value with a value shorter than 2^24 parses back to its parts.
pub proof fn lemma_tlv_roundtrip(tag: u8, value: Seq<u8>, rest: Seq<u8>)
    requires
        value.len() < 0x100_0000,
    ensures
        parse_tlv_spec(tlv_spec(tag, value) + rest)
            == Some((tag, value, tlv_spec(tag, value).len())),
{
    let lo = length_octets(value.len());
    let d = tlv_spec(tag, value) + rest;
    assert(d.drop_first() =~= lo + (value + rest));
    lemma_length_roundtrip(value.len() as usize, value + rest);
    assert(usize::MAX >= 0xffff_ffff);
    let off = 1 + lo.len();
    assert(d.subrange(off as int, off + value.len() as int) =~= value);
    assert(d[0] == tag);
    assert(tlv_spec(tag, value).len() == off + value.len());
    assert(usize::MAX >= 0xffff_ffff);
    assert((value.len() as usize) as nat == value.len());
    assert(length_octets((value.len() as usize) as nat) == lo);
    let dl = decode_length_spec(d.drop_first());
    assert(dl == Some((value.len() as usize, lo.len() as usize)));
    let (len, lb) = dl.unwrap();
    assert(d.len() >= 1 + lb + len);
    assert(parse_tlv_spec(d) == Some((d[0], d.subrange((1 + lb) as int, 1 + lb + len), (1 + lb + len) as nat)));
    lemma_be_bytes_len(value.len(), 2);
    lemma_be_bytes_len(value.len(), 3);
    assert(lo.len() <= 4);
    assert(len as int == value.len() as int);
    assert(lb as int == lo.len() as int);
    assert(d.subrange((1 + lb) as int, 1 + lb + len) == value);
    assert((1 + lb + len) as nat == tlv_spec(tag, value).len());
}

/// Dotted-quad text of four bytes.
pub open spec fn dotted_quad(d: Seq<u8>) -> Seq<char> {
    dotted(seq![d[0] as nat, d[1] as nat, d[2] as nat, d[3] as nat])
}

pub open spec fn list_body(d: Seq<u8>) -> Seq<char>
    decreases d.len(),
{
    if d.len() == 0 {
        Seq::empty()
    } else if d.len() == 1 {
        nat_decimal(d[0] as nat)
    } else {
        list_body(d.drop_last()) + seq![',', ' '] + nat_decimal(d.last() as nat)
    }
}

/// `format!("{:?}", bytes)`: the numbers between brackets, comma-separated.
pub open spec fn debug_bytes(d: Seq<u8>) -> Seq<char> {
    seq!['['] + list_body(d) + seq![']']
}

/// The value that a TLV of tag `tag` and content `d` stands for.
pub open spec fn parse_value_spec(tag: u8, d: Seq<u8>) -> ValueModel {
    let u = (be_value(d) as int) % two64();
    if tag == TAG_INTEGER {
        ValueModel::Integer(wrap_i64(signed_be(d)))
    } else if tag == TAG_OCTET_STRING {
        if valid_utf8(d) {
            ValueModel::OctetString(trim_nul_end(utf8_text(d)))
        } else if d.len() == 4 {
            ValueModel::IpAddress(dotted_quad(d))
        } else {
            ValueModel::OctetStringRaw(d)
        }
    } else if tag == TAG_NULL {
        ValueModel::Null
    } else if tag == TAG_OID {
        ValueModel::ObjectIdentifier(decode_oid_spec(d))
    } else if tag == TAG_IP_ADDRESS {
        if d.len() == 4 {
            ValueModel::IpAddress(dotted_quad(d))
        } else {
            ValueModel::OctetString(debug_bytes(d))
        }
    } else if tag == TAG_COUNTER32 {
        ValueModel::Counter32((u % 0x1_0000_0000) as u32)
    } else if tag == TAG_GAUGE32 {
        ValueModel::Gauge32((u % 0x1_0000_0000) as u32)
    } else if tag == TAG_TIMETICKS {
        ValueModel::TimeTicks((u % 0x1_0000_0000) as u32)
    } else if tag == TAG_COUNTER64 {
        ValueModel::Counter64(u as u64)
    } else if tag == TAG_NO_SUCH_OBJECT {
        ValueModel::NoSuchObject
    } else if tag == TAG_NO_SUCH_INSTANCE {
        ValueModel::NoSuchInstance
    } else if tag == TAG_END_OF_MIB_VIEW {
        ValueModel::EndOfMibView
    } else {
        ValueModel::OctetStringRaw(d)
    }
}

/// Dotted-quad text of the first four bytes of `d`.
fn format_quad(d: &[u8]) -> (r: String)
    requires
        d.len() == 4,
    ensures
        r@ == dotted_quad(d@),
{
    let mut out = String::new();
    push_decimal(&mut out, d[0] as u64);
    push_char(&mut out, '.');
    push_decimal(&mut out, d[1] as u64);
    push_char(&mut out, '.');
    push_decimal(&mut out, d[2] as u64);
    push_char(&mut out, '.');
    push_decimal(&mut out, d[3] as u64);
    proof {
        let q = seq![d[0] as nat, d[1] as nat, d[2] as nat, d[3] as nat];
        reveal_with_fuel(dotted, 5);
        assert(q.drop_last().drop_last().drop_last() =~= seq![d[0] as nat]);
        assert(q.drop_last().drop_last() =~= seq![d[0] as nat, d[1] as nat]);
        assert(q.drop_last() =~= seq![d[0] as nat, d[1] as nat, d[2] as nat]);
        assert(out@ =~= dotted_quad(d@));
    }
    out
}

/// `format!("{:?}", d)` of a byte slice.
fn format_debug_bytes(d: &[u8]) -> (r: String)
    ensures
        r@ == debug_bytes(d@),
{
    let mut out = String::new();
    push_char(&mut out, '[');
    let mut i: usize = 0;
    assert(d@.take(0) =~= Seq::<u8>::empty());
    while i < d.len()
        invariant
            i <= d.len(),
            out@ == seq!['['] + list_body(d@.take(i as int)),
        decreases d.len() - i,
    {
        let ghost before = out@;
        if i > 0 {
            push_char(&mut out, ',');
            push_char(&mut out, ' ');
        }
        push_decimal(&mut out, d[i] as u64);
        proof {
            let t = d@.take(i + 1);
            assert(t.drop_last() =~= d@.take(i as int));
            if i == 0 {
                assert(list_body(t) == nat_decimal(d[0] as nat));
            }
            assert(out@ =~= seq!['['] + list_body(t));
        }
        i += 1;
    }
    assert(d@.take(d.len() as int) =~= d@);
    push_char(&mut out, ']');
    assert(out@ =~= debug_bytes(d@));
    out
}

/// Decoding an unsigned SNMP type keeps the big-endian value of its content
/// octets modulo 2^32 (Counter32, Gauge32, TimeTicks) or 2^64 (Counter64),
/// whatever the content.
pub proof fn lemma_unsigned_values_wrap(d: Seq<u8>)
    ensures
        parse_value_spec(TAG_COUNTER32, d) == ValueModel::Counter32((be_value(d) % 0x1_0000_0000) as u32),
        parse_value_spec(TAG_GAUGE32, d) == ValueModel::Gauge32((be_value(d) % 0x1_0000_0000) as u32),
        parse_value_spec(TAG_TIMETICKS, d) == ValueModel::TimeTicks((be_value(d) % 0x1_0000_0000) as u32),
        parse_value_spec(TAG_COUNTER64, d) == ValueModel::Counter64((be_value(d) % 0x1_0000_0000_0000_0000) as u64),
{
    assert(two64() == 0x1_0000_0000int * 0x1_0000_0000int);
    lemma_mod_mod(be_value(d) as int, 0x1_0000_0000int, 0x1_0000_0000int);
}

/// An unsigned number encoded as INTEGER content reads back as the same
/// number under each unsigned SNMP type: every `u32` as Counter32, Gauge32
/// and TimeTicks, every `u64` as Counter64.
pub proof fn lemma_unsigned_values_roundtrip(v: u32, w: u64)
    ensures
        parse_value_spec(TAG_COUNTER32, uint_content(v as nat)) == ValueModel::Counter32(v),
        parse_value_spec(TAG_GAUGE32, uint_content(v as nat)) == ValueModel::Gauge32(v),
        parse_value_spec(TAG_TIMETICKS, uint_content(v as nat)) == ValueModel::TimeTicks(v),
        parse_value_spec(TAG_COUNTER64, uint_content(w as nat)) == ValueModel::Counter64(w),
{
    lemma_uint_roundtrip(v as u64);
    lemma_uint_roundtrip(w);
    lemma_unsigned_values_wrap(uint_content(v as nat));
    lemma_unsigned_values_wrap(uint_content(w as nat));
    assert(two64() == 0x1_0000_0000int * 0x1_0000_0000int);
    lemma_mod_mod(be_value(uint_content(v as nat)) as int, 0x1_0000_0000int, 0x1_0000_0000int);
    lemma_small_mod(v as nat, 0x1_0000_0000nat);
}

/// The value of a TLV with tag `tag` and content `data`.
pub fn parse_value(tag: u8, data: &[u8]) -> (r: SnmpValue)
    ensures
        r@ == parse_value_spec(tag, data@),
{
    if tag == TAG_INTEGER {
        let v = match decode_integer(data) {
            Some(v) => v,
            None => 0,
        };
        SnmpValue::Integer(v)
    } else if tag == TAG_OCTET_STRING {
        match str_from_utf8(data) {
            Some(s) => SnmpValue::OctetString(trim_nul_end_string(s)),
            None => {
                if data.len() == 4 {
                    SnmpValue::IpAddress(format_quad(data))
                } else {
                    SnmpValue::OctetStringRaw(vstd::slice::slice_to_vec(data))
                }
            },
        }
    } else if tag == TAG_NULL {
        SnmpValue::Null
    } else if tag == TAG_OID {
        SnmpValue::ObjectIdentifier(decode_oid(data))
    } else if tag == TAG_IP_ADDRESS {
        if data.len() == 4 {
            SnmpValue::IpAddress(format_quad(data))
        } else {
            SnmpValue::OctetString(format_debug_bytes(data))
        }
    } else if tag == TAG_COUNTER32 {
        SnmpValue::Counter32((decode_uint(data) % 0x1_0000_0000) as u32)
    } else if tag == TAG_GAUGE32 {
        SnmpValue::Gauge32((decode_uint(data) % 0x1_0000_0000) as u32)
    } else if tag == TAG_TIMETICKS {
        SnmpValue::TimeTicks((decode_uint(data) % 0x1_0000_0000) as u32)
    } else if tag == TAG_COUNTER64 {
        SnmpValue::Counter64(decode_uint(data))
    } else if tag == TAG_OPAQUE {
        SnmpValue::OctetStringRaw(vstd::slice::slice_to_vec(data))
    } else if tag == TAG_NO_SUCH_OBJECT {
        SnmpValue::NoSuchObject
    } else if tag == TAG_NO_SUCH_INSTANCE {
        SnmpValue::NoSuchInstance
    } else if tag == TAG_END_OF_MIB_VIEW {
        SnmpValue::EndOfMibView
    } else {
        SnmpValue::OctetStringRaw(vstd::slice::slice_to_vec(data))
    }
}

/// The VarBinds in the contents of a VarBindList: each a SEQUENCE holding an
/// OID and a value (NULL when the value is missing); the list stops at the
/// first entry that is not such a SEQUENCE.
pub open spec fn varbinds_spec(inner: Seq<u8>) -> Seq<(Seq<char>, ValueModel)>
    decreases inner.len(),
{
    match parse_tlv_spec(inner) {
        Some((tag, vb, consumed)) => {
            proof {
                lemma_parse_tlv_consumed(inner);
            }
            if tag == TAG_SEQUENCE {
                match parse_tlv_spec(vb) {
                    Some((t2, ob, c2)) => {
                        if t2 == TAG_OID {
                            let value = match parse_tlv_spec(vb.skip(c2 as int)) {
                                Some((t3, d3, _)) => parse_value_spec(t3, d3),
                                None => ValueModel::Null,
                            };
                            seq![(decode_oid_spec(ob), value)] + varbinds_spec(inner.skip(consumed as int))
                        } else {
                            Seq::empty()
                        }
                    },
                    None => Seq::empty(),
                }
            } else {
                Seq::empty()
            }
        },
        None => Seq::empty(),
    }
}

/// What `parse_varbind_list` yields: the VarBinds inside the leading SEQUENCE.
pub open spec fn varbind_list_spec(data: Seq<u8>) -> Seq<(Seq<char>, ValueModel)> {
    match parse_tlv_spec(data) {
        Some((tag, inner, _)) => if tag == TAG_SEQUENCE { varbinds_spec(inner) } else { Seq::empty() },
        None => Seq::empty(),
    }
}

/// Text and value model of a list of VarBinds.
pub open spec fn varbinds_model(v: Seq<(String, SnmpValue)>) -> Seq<(Seq<char>, ValueModel)> {
    v.map_values(|p: (String, SnmpValue)| (p.0@, p.1@))
}

/// Parses a VarBindList: `(oid, value)` pairs.
pub fn parse_varbind_list(data: &[u8]) -> (r: Vec<(String, SnmpValue)>)
    ensures
        varbinds_model(r@) == varbind_list_spec(data@),
{
    let mut results: Vec<(String, SnmpValue)> = Vec::new();
    let inner = match parse_tlv(data) {
        Some((tag, inner, _consumed)) => {
            if tag == TAG_SEQUENCE {
                inner
            } else {
                assert(varbinds_model(results@) =~= Seq::empty());
                return results;
            }
        },
        None => {
            assert(varbinds_model(results@) =~= Seq::empty());
            return results;
        },
    };
    let mut offset: usize = 0;
    assert(inner@.skip(0) =~= inner@);
    assert(varbinds_model(results@) =~= Seq::empty());
    while offset < inner.len()
        invariant
            offset <= inner.len(),
            varbind_list_spec(data@) == varbinds_model(results@) + varbinds_spec(inner@.skip(offset as int)),
        decreases inner.len() - offset,
    {
        let rest = vstd::slice::slice_subrange(inner, offset, inner.len());
        assert(rest@ =~= inner@.skip(offset as int));
        match parse_tlv(rest) {
            Some((tag, varbind_data, consumed)) => {
                if tag != TAG_SEQUENCE {
                    assert(varbinds_model(results@) + Seq::empty() =~= varbinds_model(results@));
                    return results;
                }
                let oid = match parse_tlv(varbind_data) {
                    Some((t2, oid_bytes, oid_consumed)) => {
                        if t2 != TAG_OID {
                            assert(varbinds_model(results@) + Seq::empty() =~= varbinds_model(results@));
                            return results;
                        }
                        let after = vstd::slice::slice_subrange(varbind_data, oid_consumed, varbind_data.len());
                        assert(after@ =~= varbind_data@.skip(oid_consumed as int));
                        let value = match parse_tlv(after) {
                            Some((val_tag, val_data, _val_consumed)) => parse_value(val_tag, val_data),
                            None => SnmpValue::Null,
                        };
                        let oid_text = decode_oid(oid_bytes);
                        let ghost before = results@;
                        results.push((oid_text, value));
                        proof {
                            assert(varbinds_model(results@) =~= varbinds_model(before).push((oid_text@, value@)));
                            assert(inner@.skip(offset as int).skip(consumed as int) =~= inner@.skip(offset + consumed));
                            let tail = varbinds_spec(inner@.skip(offset + consumed));
                            assert(varbinds_model(before) + (seq![(oid_text@, value@)] + tail)
                                =~= varbinds_model(results@) + tail);
                        }
                    },
                    None => {
                        assert(varbinds_model(results@) + Seq::empty() =~= varbinds_model(results@));
                        return results;
                    },
                };
                offset += consumed;
            },
            None => {
                assert(varbinds_model(results@) + Seq::empty() =~= varbinds_model(results@));
                return results;
            },
        }
    }
    proof {
        assert(inner@.skip(offset as int) =~= Seq::<u8>::empty());
        assert(varbinds_model(results@) + Seq::empty() =~= varbinds_model(results@));
    }
    results
}

// ---------------------------------------------------------------------------
// PDU
// ---------------------------------------------------------------------------

/// A response PDU: request id, error status and index, and the VarBinds.
#[derive(Debug)]
pub struct SnmpPdu {
    pub request_id: i32,
    pub error_status: i32,
    pub error_index: i32,
    pub varbinds: Vec<(String, SnmpValue)>,
}

/// The `i32` congruent to `x` modulo 2^32 (the cast `as i32`).
pub open spec fn wrap_i32(x: int) -> i32 {
    let m = x % 0x1_0000_0000int;
    if m > i32::MAX { (m - 0x1_0000_0000int) as i32 } else { m as i32 }
}

/// An INTEGER field of the PDU header, truncated to `i32`.
pub open spec fn header_field(d: Seq<u8>) -> i32 {
    wrap_i32(wrap_i64(signed_be(d)) as int)
}

/// What `parse_response_pdu` reads: three INTEGER TLVs, then a VarBindList.
pub open spec fn pdu_spec(d: Seq<u8>) -> Option<(i32, i32, i32, Seq<(Seq<char>, ValueModel)>)> {
    match parse_tlv_spec(d) {
        Some((t1, a, c1)) => if t1 != TAG_INTEGER { None } else {
            let d1 = d.skip(c1 as int);
            match parse_tlv_spec(d1) {
                Some((t2, b, c2)) => if t2 != TAG_INTEGER { None } else {
                    let d2 = d1.skip(c2 as int);
                    match parse_tlv_spec(d2) {
                        Some((t3, e, c3)) => if t3 != TAG_INTEGER { None } else {
                            Some((header_field(a), header_field(b), header_field(e),
                                varbind_list_spec(d2.skip(c3 as int))))
                        },
                        None => None,
                    }
                },
                None => None,
            }
        },
        None => None,
    }
}

/// `v as i32`.
fn i64_to_i32(v: i64) -> (r: i32)
    ensures
        r == wrap_i32(v as int),
{
    let u = i64_bits(v);
    let low: u64 = u % 0x1_0000_0000;
    proof {
        vstd::arithmetic::div_mod::lemma_mod_mod(v as int, 0x1_0000_0000int, 0x1_0000_0000int);
        assert(0x1_0000_0000int * 0x1_0000_0000int == two64());
    }
    if low > 0x7fff_ffff {
        (low as i64 - 0x1_0000_0000i64) as i32
    } else {
        low as i32
    }
}

/// Reads an INTEGER header field at the start of `d`.
fn header_integer(d: &[u8]) -> (r: Option<(i32, usize)>)
    ensures
        match r {
            Some((v, c)) => parse_tlv_spec(d@) matches Some((t, a, c2))
                && t == TAG_INTEGER && c2 == c && v == header_field(a),
            None => !(parse_tlv_spec(d@) matches Some((t, a, c2)) && t == TAG_INTEGER),
        },
{
    match parse_tlv(d) {
        Some((tag, content, consumed)) => {
            if tag != TAG_INTEGER {
                return None;
            }
            let v = match decode_integer(content) {
                Some(v) => v,
                None => 0,
            };
            Some((i64_to_i32(v), consumed))
        },
        None => None,
    }
}

impl SnmpPdu {
    pub open spec fn model(&self) -> (i32, i32, i32, Seq<(Seq<char>, ValueModel)>) {
        (self.request_id, self.error_status, self.error_index, varbinds_model(self.varbinds@))
    }
}

/// Parses the contents of a v1/v2c response PDU (after its own tag and length).
pub fn parse_response_pdu(data: &[u8]) -> (r: Option<SnmpPdu>)
    ensures
        match r {
            Some(p) => pdu_spec(data@) == Some(p.model()),
            None => pdu_spec(data@).is_none(),
        },
{
    let (request_id, c1) = match header_integer(data) {
        Some(x) => x,
        None => return None,
    };
    let d1 = vstd::slice::slice_subrange(data, c1, data.len());
    assert(d1@ =~= data@.skip(c1 as int));
    let (error_status, c2) = match header_integer(d1) {
        Some(x) => x,
        None => return None,
    };
    let d2 = vstd::slice::slice_subrange(d1, c2, d1.len());
    assert(d2@ =~= d1@.skip(c2 as int));
    let (error_index, c3) = match header_integer(d2) {
        Some(x) => x,
        None => return None,
    };
    let d3 = vstd::slice::slice_subrange(d2, c3, d2.len());
    assert(d3@ =~= d2@.skip(c3 as int));
    let varbinds = parse_varbind_list(d3);
    Some(SnmpPdu { request_id, error_status, error_index, varbinds })
}

} // verus!

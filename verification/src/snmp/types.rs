//! The normalised value of an SNMP variable and the outcome of one request.

use vstd::prelude::*;
use vstd::utf8::valid_utf8;
use crate::text::{
    i64_to_decimal, int_decimal, nat_decimal, parse_i64, parse_i64_spec, parse_u64,
    parse_u64_spec, push_char, string_of, u64_to_decimal, chars_of, to_owned_string,
};

verus! {

/// Any value that an agent can return (SNMP v1, v2c and v3).
#[derive(Debug, Clone)]
pub enum SnmpValue {
    /// INTEGER, also used for enumerations.
    Integer(i64),
    /// Counter32: wraps to zero.
    Counter32(u32),
    /// Counter64 (SNMPv2 and later).
    Counter64(u64),
    /// Gauge32 (also Unsigned32): does not wrap.
    Gauge32(u32),
    /// TimeTicks: hundredths of a second since the last restart.
    TimeTicks(u32),
    /// OCTET STRING that holds UTF-8 text.
    OctetString(String),
    /// OCTET STRING whose bytes are not UTF-8.
    OctetStringRaw(Vec<u8>),
    /// OBJECT IDENTIFIER in dotted notation.
    ObjectIdentifier(String),
    /// IpAddress in dotted-quad notation.
    IpAddress(String),
    /// NULL.
    Null,
    /// The object does not exist on the agent.
    NoSuchObject,
    /// The instance does not exist for this index.
    NoSuchInstance,
    /// End of the MIB tree.
    EndOfMibView,
}

/// The mathematical content of a [`SnmpValue`]: its variant and what it holds.
pub ghost enum ValueModel {
    Integer(i64),
    Counter32(u32),
    Counter64(u64),
    Gauge32(u32),
    TimeTicks(u32),
    OctetString(Seq<char>),
    OctetStringRaw(Seq<u8>),
    ObjectIdentifier(Seq<char>),
    IpAddress(Seq<char>),
    Null,
    NoSuchObject,
    NoSuchInstance,
    EndOfMibView,
}

impl View for SnmpValue {
    type V = ValueModel;

    open spec fn view(&self) -> ValueModel {
        match self {
            SnmpValue::Integer(v) => ValueModel::Integer(*v),
            SnmpValue::Counter32(v) => ValueModel::Counter32(*v),
            SnmpValue::Counter64(v) => ValueModel::Counter64(*v),
            SnmpValue::Gauge32(v) => ValueModel::Gauge32(*v),
            SnmpValue::TimeTicks(v) => ValueModel::TimeTicks(*v),
            SnmpValue::OctetString(s) => ValueModel::OctetString(s@),
            SnmpValue::OctetStringRaw(b) => ValueModel::OctetStringRaw(b@),
            SnmpValue::ObjectIdentifier(s) => ValueModel::ObjectIdentifier(s@),
            SnmpValue::IpAddress(s) => ValueModel::IpAddress(s@),
            SnmpValue::Null => ValueModel::Null,
            SnmpValue::NoSuchObject => ValueModel::NoSuchObject,
            SnmpValue::NoSuchInstance => ValueModel::NoSuchInstance,
            SnmpValue::EndOfMibView => ValueModel::EndOfMibView,
        }
    }
}

/// Lower-case hexadecimal digit of `d < 16`.
pub open spec fn hex_digit(d: nat) -> char {
    if d < 10 { (d + 48) as char } else { (d + 87) as char }
}

/// Two lower-case hexadecimal digits per byte (`format!("{:02x}")` of each byte).
pub open spec fn hex_spec(b: Seq<u8>) -> Seq<char>
    decreases b.len(),
{
    if b.len() == 0 {
        Seq::empty()
    } else {
        hex_spec(b.drop_last()) + seq![hex_digit((b.last() / 16) as nat), hex_digit((b.last() % 16) as nat)]
    }
}

/// The characters of `s` without the NUL characters at its end
/// (`str::trim_end_matches('\0')`).
pub open spec fn trim_nul_end(s: Seq<char>) -> Seq<char>
    decreases s.len(),
{
    if s.len() > 0 && s.last() == '\0' {
        trim_nul_end(s.drop_last())
    } else {
        s
    }
}

/// What `std::str::from_utf8` yields on valid UTF-8: the characters that the
/// bytes encode.
pub open spec fn utf8_text(b: Seq<u8>) -> Seq<char> {
    vstd::utf8::decode_utf8(b)
}

/// Wraps `std::str::from_utf8`: succeeds exactly on valid UTF-8, and the string
/// then holds the same bytes.
#[verifier::external_body]
pub(crate) fn str_from_utf8(data: &[u8]) -> (r: Option<&str>)
    ensures
        r.is_some() == valid_utf8(data@),
        r matches Some(s) ==> s@ == utf8_text(data@),
{
    std::str::from_utf8(data).ok()
}

impl SnmpValue {
    /// The value as a signed number, where the variant holds one.
    pub open spec fn as_i64_spec(&self) -> Option<i64> {
        match self {
            SnmpValue::Integer(v) => Some(*v),
            SnmpValue::Counter32(v) => Some(*v as i64),
            SnmpValue::Counter64(v) => if *v <= 0x7fff_ffff_ffff_ffffu64 { Some(*v as i64) } else { None },
            SnmpValue::Gauge32(v) => Some(*v as i64),
            SnmpValue::TimeTicks(v) => Some(*v as i64),
            SnmpValue::OctetString(s) => parse_i64_spec(s@),
            _ => None,
        }
    }

    /// The value as an unsigned number, where the variant holds one.
    pub open spec fn as_u64_spec(&self) -> Option<u64> {
        match self {
            SnmpValue::Integer(v) => if *v >= 0 { Some(*v as u64) } else { None },
            SnmpValue::Counter32(v) => Some(*v as u64),
            SnmpValue::Counter64(v) => Some(*v),
            SnmpValue::Gauge32(v) => Some(*v as u64),
            SnmpValue::TimeTicks(v) => Some(*v as u64),
            SnmpValue::OctetString(s) => parse_u64_spec(s@),
            _ => None,
        }
    }

    /// Human-readable text of the value.
    pub open spec fn as_string_spec(&self) -> Seq<char> {
        match self {
            SnmpValue::Integer(v) => int_decimal(*v as int),
            SnmpValue::Counter32(v) => nat_decimal(*v as nat),
            SnmpValue::Counter64(v) => nat_decimal(*v as nat),
            SnmpValue::Gauge32(v) => nat_decimal(*v as nat),
            SnmpValue::TimeTicks(v) => nat_decimal(*v as nat),
            SnmpValue::OctetString(s) => s@,
            SnmpValue::OctetStringRaw(b) => if valid_utf8(b@) {
                trim_nul_end(utf8_text(b@))
            } else {
                seq!['0', 'x'] + hex_spec(b@)
            },
            SnmpValue::ObjectIdentifier(s) => s@,
            SnmpValue::IpAddress(s) => s@,
            SnmpValue::Null => "NULL"@,
            SnmpValue::NoSuchObject => "noSuchObject"@,
            SnmpValue::NoSuchInstance => "noSuchInstance"@,
            SnmpValue::EndOfMibView => "endOfMibView"@,
        }
    }

    pub open spec fn is_error_spec(&self) -> bool {
        self is NoSuchObject || self is NoSuchInstance || self is EndOfMibView
    }

    pub open spec fn has_data_spec(&self) -> bool {
        !(self is Null || self is NoSuchObject || self is NoSuchInstance || self is EndOfMibView)
    }

    /// The value as `i64` where possible; a `Counter64` above `i64::MAX` has none.
    pub fn as_i64(&self) -> (r: Option<i64>)
        ensures
            r == self.as_i64_spec(),
    {
        match self {
            SnmpValue::Integer(v) => Some(*v),
            SnmpValue::Counter32(v) => Some(*v as i64),
            SnmpValue::Counter64(v) => {
                if *v <= 0x7fff_ffff_ffff_ffffu64 {
                    Some(*v as i64)
                } else {
                    None
                }
            },
            SnmpValue::Gauge32(v) => Some(*v as i64),
            SnmpValue::TimeTicks(v) => Some(*v as i64),
            SnmpValue::OctetString(s) => parse_i64(s.as_str()),
            _ => None,
        }
    }

    /// The value as `u64` where possible; negative integers give `None`.
    pub fn as_u64(&self) -> (r: Option<u64>)
        ensures
            r == self.as_u64_spec(),
    {
        match self {
            SnmpValue::Integer(v) => if *v >= 0 { Some(*v as u64) } else { None },
            SnmpValue::Counter32(v) => Some(*v as u64),
            SnmpValue::Counter64(v) => Some(*v),
            SnmpValue::Gauge32(v) => Some(*v as u64),
            SnmpValue::TimeTicks(v) => Some(*v as u64),
            SnmpValue::OctetString(s) => parse_u64(s.as_str()),
            _ => None,
        }
    }

    /// Human-readable text of the value.
    pub fn as_string(&self) -> (r: String)
        ensures
            r@ == self.as_string_spec(),
    {
        match self {
            SnmpValue::Integer(v) => i64_to_decimal(*v),
            SnmpValue::Counter32(v) => u64_to_decimal(*v as u64),
            SnmpValue::Counter64(v) => u64_to_decimal(*v),
            SnmpValue::Gauge32(v) => u64_to_decimal(*v as u64),
            SnmpValue::TimeTicks(v) => u64_to_decimal(*v as u64),
            SnmpValue::OctetString(s) => s.clone(),
            SnmpValue::OctetStringRaw(b) => match str_from_utf8(b.as_slice()) {
                Some(s) => trim_nul_end_string(s),
                None => {
                    let mut out = String::new();
                    push_char(&mut out, '0');
                    push_char(&mut out, 'x');
                    push_hex(&mut out, b.as_slice());
                    assert(out@ =~= seq!['0', 'x'] + hex_spec(b@));
                    out
                },
            },
            SnmpValue::ObjectIdentifier(s) => s.clone(),
            SnmpValue::IpAddress(s) => s.clone(),
            SnmpValue::Null => to_owned_string("NULL"),
            SnmpValue::NoSuchObject => to_owned_string("noSuchObject"),
            SnmpValue::NoSuchInstance => to_owned_string("noSuchInstance"),
            SnmpValue::EndOfMibView => to_owned_string("endOfMibView"),
        }
    }

    /// True for the SNMPv2 exceptions (no data).
    pub fn is_error(&self) -> (r: bool)
        ensures
            r == self.is_error_spec(),
    {
        match self {
            SnmpValue::NoSuchObject | SnmpValue::NoSuchInstance | SnmpValue::EndOfMibView => true,
            _ => false,
        }
    }

    /// True when the value carries data: neither NULL nor an exception.
    pub fn has_data(&self) -> (r: bool)
        ensures
            r == self.has_data_spec(),
    {
        match self {
            SnmpValue::Null
            | SnmpValue::NoSuchObject
            | SnmpValue::NoSuchInstance
            | SnmpValue::EndOfMibView => false,
            _ => true,
        }
    }
}

/// `s` without its trailing NUL characters, as an owned string.
pub(crate) fn trim_nul_end_string(s: &str) -> (r: String)
    ensures
        r@ == trim_nul_end(s@),
{
    let cs = chars_of(s);
    let mut end = cs.len();
    assert(cs@.take(cs.len() as int) =~= cs@);
    while end > 0 && cs[end - 1] == '\0'
        invariant
            end <= cs.len(),
            trim_nul_end(cs@) == trim_nul_end(cs@.take(end as int)),
        decreases end,
    {
        assert(cs@.take(end as int).drop_last() =~= cs@.take(end - 1));
        end -= 1;
    }
    assert(cs@.take(cs.len() as int) =~= cs@);
    let r = string_of(&cs.as_slice()[0..end]);
    proof {
        let t = cs@.take(end as int);
        assert(trim_nul_end(t) == t);
        assert(cs@.subrange(0, end as int) =~= t);
    }
    r
}

/// Appends the lower-case hex form of `bytes` to `out`.
fn push_hex(out: &mut String, bytes: &[u8])
    ensures
        final(out)@ == old(out)@ + hex_spec(bytes@),
{
    let ghost start = out@;
    let mut i: usize = 0;
    while i < bytes.len()
        invariant
            i <= bytes.len(),
            out@ == start + hex_spec(bytes@.take(i as int)),
        decreases bytes.len() - i,
    {
        let b = bytes[i];
        let hi: u8 = b / 16;
        let lo: u8 = b % 16;
        let c1: char = if hi < 10 { (48u8 + hi) as char } else { (87u8 + hi) as char };
        let c2: char = if lo < 10 { (48u8 + lo) as char } else { (87u8 + lo) as char };
        push_char(out, c1);
        push_char(out, c2);
        proof {
            let t = bytes@.take(i + 1);
            assert(t.drop_last() =~= bytes@.take(i as int));
            assert(hex_spec(t) == hex_spec(bytes@.take(i as int)) + seq![c1, c2]);
        }
        i += 1;
    }
    assert(bytes@.take(bytes.len() as int) =~= bytes@);
}

/// Lower-case hex form of `bytes`, two digits per byte.
pub fn encode_simple(bytes: &[u8]) -> (s: String)
    ensures
        s@ == hex_spec(bytes@),
{
    let mut s = String::new();
    push_hex(&mut s, bytes);
    assert(s@ =~= hex_spec(bytes@));
    s
}

/// The outcome of one SNMP operation (GET, GETNEXT, ...).
#[derive(Debug, Clone)]
pub struct SnmpResult {
    pub value: Option<SnmpValue>,
    pub error: Option<String>,
    pub oid: String,
}

impl SnmpResult {
    /// A successful result carrying `value`.
    pub fn ok(oid: String, value: SnmpValue) -> (r: Self)
        ensures
            r.oid == oid,
            r.value == Some(value),
            r.error.is_none(),
    {
        SnmpResult { value: Some(value), error: None, oid }
    }

    /// A failed result carrying `error`.
    pub fn err(oid: String, error: String) -> (r: Self)
        ensures
            r.oid == oid,
            r.value.is_none(),
            r.error == Some(error),
    {
        SnmpResult { value: None, error: Some(error), oid }
    }

    pub open spec fn is_ok_spec(&self) -> bool {
        self.error.is_none() && self.value.is_some()
    }

    /// No error and a value present.
    pub fn is_ok(&self) -> (r: bool)
        ensures
            r == self.is_ok_spec(),
    {
        self.error.is_none() && self.value.is_some()
    }

    /// Successful, and the value carries data.
    pub fn has_data(&self) -> (r: bool)
        ensures
            r == (self.is_ok_spec() && self.value.unwrap().has_data_spec()),
    {
        if self.is_ok() {
            match &self.value {
                Some(v) => v.has_data(),
                None => false,
            }
        } else {
            false
        }
    }
}

} // verus!

//! The interface table of a device (IF-MIB), put together from the walked
//! columns: one record per interface index, in index order, 64-bit
//! counters preferred to 32-bit ones and ifHighSpeed preferred to ifSpeed.
//!
//! The collector walks the columns; this module builds the records.

use vstd::prelude::*;
use crate::snmp::types::SnmpValue;
use crate::mikrotik::oid_index;
use crate::text::{after_last, eq_str, lemma_lex_lt_irreflexive, lemma_lex_lt_total, lemma_lex_lt_transitive, lex_lt, str_less, to_owned_string};

verus! {

/// The walked IF-MIB columns, each a list of (OID, value) rows.
pub struct IfMibColumns {
    pub descr: Vec<(String, SnmpValue)>,
    pub if_type: Vec<(String, SnmpValue)>,
    pub speed: Vec<(String, SnmpValue)>,
    pub admin_status: Vec<(String, SnmpValue)>,
    pub oper_status: Vec<(String, SnmpValue)>,
    pub in_octets: Vec<(String, SnmpValue)>,
    pub out_octets: Vec<(String, SnmpValue)>,
    pub in_errors: Vec<(String, SnmpValue)>,
    pub out_errors: Vec<(String, SnmpValue)>,
    pub in_discards: Vec<(String, SnmpValue)>,
    pub out_discards: Vec<(String, SnmpValue)>,
    pub in_ucast_pkts: Vec<(String, SnmpValue)>,
    pub out_ucast_pkts: Vec<(String, SnmpValue)>,
    pub name: Vec<(String, SnmpValue)>,
    pub hc_in_octets: Vec<(String, SnmpValue)>,
    pub hc_out_octets: Vec<(String, SnmpValue)>,
    pub high_speed: Vec<(String, SnmpValue)>,
    pub alias: Vec<(String, SnmpValue)>,
}

/// One interface of the device.
#[derive(Debug, Clone)]
pub struct InterfaceRecord {
    pub index: String,
    pub name: String,
    pub description: String,
    pub alias: String,
    pub if_type: i64,
    pub speed_bps: u64,
    /// `up` or `down`.
    pub admin_status: String,
    /// `up` or `down`.
    pub oper_status: String,
    pub in_octets: u64,
    pub out_octets: u64,
    pub in_errors: u64,
    pub out_errors: u64,
    pub in_discards: u64,
    pub out_discards: u64,
    pub in_unicast_pkts: u64,
    pub out_unicast_pkts: u64,
}

/// An interface with its texts as character sequences.
pub ghost struct InterfaceView {
    pub index: Seq<char>,
    pub name: Seq<char>,
    pub description: Seq<char>,
    pub alias: Seq<char>,
    pub if_type: i64,
    pub speed_bps: u64,
    pub admin_status: Seq<char>,
    pub oper_status: Seq<char>,
    pub in_octets: u64,
    pub out_octets: u64,
    pub in_errors: u64,
    pub out_errors: u64,
    pub in_discards: u64,
    pub out_discards: u64,
    pub in_unicast_pkts: u64,
    pub out_unicast_pkts: u64,
}

impl View for InterfaceRecord {
    type V = InterfaceView;

    open spec fn view(&self) -> InterfaceView {
        InterfaceView {
            index: self.index@,
            name: self.name@,
            description: self.description@,
            alias: self.alias@,
            if_type: self.if_type,
            speed_bps: self.speed_bps,
            admin_status: self.admin_status@,
            oper_status: self.oper_status@,
            in_octets: self.in_octets,
            out_octets: self.out_octets,
            in_errors: self.in_errors,
            out_errors: self.out_errors,
            in_discards: self.in_discards,
            out_discards: self.out_discards,
            in_unicast_pkts: self.in_unicast_pkts,
            out_unicast_pkts: self.out_unicast_pkts,
        }
    }
}

/// The interface index of row `j` of a column: what follows the last dot of its OID.
pub open spec fn row_index(t: Seq<(String, SnmpValue)>, j: int) -> Seq<char> {
    after_last(t[j].0@, '.')
}

/// The value of the last row of `t` for interface `idx` (a later row
/// replaces an earlier one).
pub open spec fn last_value(t: Seq<(String, SnmpValue)>, idx: Seq<char>) -> Option<SnmpValue>
    decreases t.len(),
{
    if t.len() == 0 {
        None
    } else if after_last(t.last().0@, '.') == idx {
        Some(t.last().1)
    } else {
        last_value(t.drop_last(), idx)
    }
}

/// The text of interface `idx` in a column, if the column has it.
pub open spec fn col_text(t: Seq<(String, SnmpValue)>, idx: Seq<char>) -> Option<Seq<char>> {
    match last_value(t, idx) {
        Some(v) => Some(v.as_string_spec()),
        None => None,
    }
}

/// The signed number of interface `idx` in a column (0 for a value that is
/// not a number), if the column has it.
pub open spec fn col_i64(t: Seq<(String, SnmpValue)>, idx: Seq<char>) -> Option<i64> {
    match last_value(t, idx) {
        Some(v) => match v.as_i64_spec() {
            Some(x) => Some(x),
            None => Some(0),
        },
        None => None,
    }
}

/// The counter of interface `idx` in a column, 0 when it is missing or not a number.
pub open spec fn col_u64(t: Seq<(String, SnmpValue)>, idx: Seq<char>) -> u64 {
    match last_value(t, idx) {
        Some(v) => match v.as_u64_spec() {
            Some(x) => x,
            None => 0,
        },
        None => 0,
    }
}

/// `primary` when it is positive, else `fallback`.
pub open spec fn prefer_positive(primary: u64, fallback: u64) -> u64 {
    if primary > 0 {
        primary
    } else {
        fallback
    }
}

/// `up` for status 1, `down` for anything else or no status.
pub open spec fn status_word(code: Option<i64>) -> Seq<char> {
    if code == Some(1i64) {
        "up"@
    } else {
        "down"@
    }
}

/// Every ifHighSpeed value, in Mbit/s, fits in a `u64` once in bit/s.
pub open spec fn high_speeds_fit(c: IfMibColumns) -> bool {
    forall|j: int| 0 <= j < c.high_speed@.len() ==> match (#[trigger] c.high_speed@[j]).1.as_u64_spec() {
        Some(v) => v <= u64::MAX / 1_000_000,
        None => true,
    }
}

/// The record of interface `idx`: names from ifDescr, ifName (else the
/// description) and ifAlias; speed from ifHighSpeed when positive, else
/// ifSpeed; octets from the 64-bit counters when positive, else the 32-bit ones.
pub open spec fn record_spec(c: IfMibColumns, idx: Seq<char>) -> InterfaceView {
    let descr = match col_text(c.descr@, idx) {
        Some(d) => d,
        None => Seq::empty(),
    };
    let high = col_u64(c.high_speed@, idx);
    InterfaceView {
        index: idx,
        name: match col_text(c.name@, idx) {
            Some(n) => n,
            None => descr,
        },
        description: descr,
        alias: match col_text(c.alias@, idx) {
            Some(a) => a,
            None => Seq::empty(),
        },
        if_type: match col_i64(c.if_type@, idx) {
            Some(t) => t,
            None => 0,
        },
        speed_bps: if high > 0 { (high * 1_000_000) as u64 } else { col_u64(c.speed@, idx) },
        admin_status: status_word(col_i64(c.admin_status@, idx)),
        oper_status: status_word(col_i64(c.oper_status@, idx)),
        in_octets: prefer_positive(col_u64(c.hc_in_octets@, idx), col_u64(c.in_octets@, idx)),
        out_octets: prefer_positive(col_u64(c.hc_out_octets@, idx), col_u64(c.out_octets@, idx)),
        in_errors: col_u64(c.in_errors@, idx),
        out_errors: col_u64(c.out_errors@, idx),
        in_discards: col_u64(c.in_discards@, idx),
        out_discards: col_u64(c.out_discards@, idx),
        in_unicast_pkts: col_u64(c.in_ucast_pkts@, idx),
        out_unicast_pkts: col_u64(c.out_ucast_pkts@, idx),
    }
}

/// The octet counters of an interface come from its 64-bit counters when
/// they hold a positive value, and from the 32-bit ones otherwise, the same
/// way in both directions: when the last ifHCOutOctets (ifHCInOctets) row
/// of the interface is a positive Counter64, that is its out (in) octets;
/// when the interface has no such row, its out (in) octets are the last
/// ifOutOctets (ifInOctets) Counter32.
pub proof fn lemma_octets_prefer_64_bit(c: IfMibColumns, idx: Seq<char>, v: u64, w: u32)
    ensures
        (last_value(c.hc_out_octets@, idx) == Some(SnmpValue::Counter64(v)) && v > 0)
            ==> record_spec(c, idx).out_octets == v,
        (last_value(c.hc_in_octets@, idx) == Some(SnmpValue::Counter64(v)) && v > 0)
            ==> record_spec(c, idx).in_octets == v,
        (last_value(c.hc_out_octets@, idx) is None && last_value(c.out_octets@, idx) == Some(SnmpValue::Counter32(w)))
            ==> record_spec(c, idx).out_octets == w,
        (last_value(c.hc_in_octets@, idx) is None && last_value(c.in_octets@, idx) == Some(SnmpValue::Counter32(w)))
            ==> record_spec(c, idx).in_octets == w,
{
}

/// The other counters of an interface are the last Counter32 of their
/// column, and its speed is ifHighSpeed in bit/s when that is a positive
/// Gauge32, else the last ifSpeed Gauge32.
pub proof fn lemma_interface_counters(c: IfMibColumns, idx: Seq<char>, w: u32)
    ensures
        last_value(c.in_errors@, idx) == Some(SnmpValue::Counter32(w)) ==> record_spec(c, idx).in_errors == w,
        last_value(c.out_errors@, idx) == Some(SnmpValue::Counter32(w)) ==> record_spec(c, idx).out_errors == w,
        last_value(c.in_discards@, idx) == Some(SnmpValue::Counter32(w)) ==> record_spec(c, idx).in_discards == w,
        last_value(c.out_discards@, idx) == Some(SnmpValue::Counter32(w)) ==> record_spec(c, idx).out_discards == w,
        last_value(c.in_ucast_pkts@, idx) == Some(SnmpValue::Counter32(w)) ==> record_spec(c, idx).in_unicast_pkts == w,
        last_value(c.out_ucast_pkts@, idx) == Some(SnmpValue::Counter32(w)) ==> record_spec(c, idx).out_unicast_pkts == w,
        (last_value(c.high_speed@, idx) == Some(SnmpValue::Gauge32(w)) && w > 0)
            ==> record_spec(c, idx).speed_bps == (w as int) * 1_000_000,
        (last_value(c.high_speed@, idx) is None && last_value(c.speed@, idx) == Some(SnmpValue::Gauge32(w)))
            ==> record_spec(c, idx).speed_bps == w,
{
    assert(4_294_967_295u64 * 1_000_000 <= u64::MAX);
}

/// The out octets of an interface are what its in octets would be with the
/// in and out counter columns exchanged.
pub proof fn lemma_octets_symmetric(c: IfMibColumns, d: IfMibColumns, idx: Seq<char>)
    requires
        d.in_octets@ == c.out_octets@,
        d.hc_in_octets@ == c.hc_out_octets@,
    ensures
        record_spec(d, idx).in_octets == record_spec(c, idx).out_octets,
{
}

/// Whether some row of `t` is for interface `x`.
pub open spec fn has_index(t: Seq<(String, SnmpValue)>, x: Seq<char>) -> bool {
    index_among(t, t.len() as int, x)
}

/// Whether one of the first `n` rows of `t` is for interface `x`.
pub open spec fn index_among(t: Seq<(String, SnmpValue)>, n: int, x: Seq<char>) -> bool {
    exists|j: int| 0 <= j < n && row_index(t, j) == x
}

/// Texts in strictly increasing order (hence without repetition).
pub open spec fn strictly_sorted(s: Seq<Seq<char>>) -> bool {
    forall|i: int, j: int| 0 <= i < j < s.len() ==> lex_lt(#[trigger] s[i], #[trigger] s[j])
}

/// The views of a list of texts.
pub open spec fn texts_of(v: Seq<String>) -> Seq<Seq<char>> {
    v.map_values(|s: String| s@)
}

/// The indexes of a list of records.
pub open spec fn record_indices(v: Seq<InterfaceRecord>) -> Seq<Seq<char>> {
    v.map_values(|r: InterfaceRecord| r.index@)
}

/// Where `x` goes in the sorted list `v`: after every text that sorts before it.
fn sorted_position(v: &Vec<String>, x: &str) -> (p: usize)
    ensures
        p <= v@.len(),
        forall|j: int| 0 <= j < p ==> lex_lt(#[trigger] texts_of(v@)[j], x@),
        p < v@.len() ==> !lex_lt(texts_of(v@)[p as int], x@),
{
    let n = v.len();
    let mut i: usize = 0;
    while i < n && str_less(v[i].as_str(), x)
        invariant
            n == v@.len(),
            i <= n,
            forall|j: int| 0 <= j < i ==> lex_lt(#[trigger] texts_of(v@)[j], x@),
        decreases n - i,
    {
        assert(texts_of(v@)[i as int] == v@[i as int]@);
        i += 1;
    }
    if i < n {
        assert(texts_of(v@)[i as int] == v@[i as int]@);
    }
    i
}

/// Puts `x` into the sorted list `v` unless it is there already.
fn insert_sorted(v: &mut Vec<String>, x: String)
    requires
        strictly_sorted(texts_of(old(v)@)),
    ensures
        strictly_sorted(texts_of(final(v)@)),
        forall|y: Seq<char>| texts_of(final(v)@).contains(y) <==> (texts_of(old(v)@).contains(y) || y == x@),
{
    let ghost old_s = texts_of(v@);
    let ghost k = x@;
    let n = v.len();
    let i = sorted_position(v, x.as_str());
    if i < n {
        assert(old_s[i as int] == v@[i as int]@);
    }
    if i < n && eq_str(v[i].as_str(), x.as_str()) {
        assert(old_s[i as int] == k);
        return;
    }
    proof {
        if i < n {
            lemma_lex_lt_total(old_s[i as int], k);
        }
        assert forall|y: Seq<char>| old_s.contains(y) implies y != k by {
            let j = old_s.index_of(y);
            if j < i {
                lemma_lex_lt_irreflexive(k);
            } else if y == k {
                if j > i {
                    lemma_lex_lt_transitive(k, old_s[i as int], old_s[j]);
                    lemma_lex_lt_irreflexive(k);
                }
            }
        }
    }
    v.insert(i, x);
    let ghost ns = texts_of(v@);
    assert(ns =~= old_s.insert(i as int, k));
    proof {
        old_s.insert_ensures(i as int, k);
        assert forall|a: int, b: int| 0 <= a < b < ns.len() implies lex_lt(#[trigger] ns[a], #[trigger] ns[b]) by {
            if b < i {
            } else if b == i {
            } else if a < i {
                if b > i + 1 {
                    lemma_lex_lt_transitive(k, old_s[i as int], old_s[b - 1]);
                }
                lemma_lex_lt_transitive(ns[a], k, ns[b]);
            } else if a == i {
                if b > i + 1 {
                    lemma_lex_lt_transitive(k, old_s[i as int], old_s[b - 1]);
                }
            } else {
                assert(ns[a] == old_s[a - 1]);
                assert(ns[b] == old_s[b - 1]);
            }
        }
        assert forall|y: Seq<char>| ns.contains(y) <==> (old_s.contains(y) || y == k) by {
            if ns.contains(y) {
                let j = ns.index_of(y);
                if j < i {
                    assert(old_s[j] == y);
                } else if j > i {
                    assert(old_s[j - 1] == y);
                }
            }
            if old_s.contains(y) {
                let j = old_s.index_of(y);
                if j < i {
                    assert(ns[j] == y);
                } else {
                    assert(ns[j + 1] == y);
                }
            }
            if y == k {
                assert(ns[i as int] == k);
            }
        }
    }
}

/// Adds the interface indexes of the rows of `t` to the sorted list `v`.
pub(crate) fn add_indices(v: &mut Vec<String>, t: &Vec<(String, SnmpValue)>)
    requires
        strictly_sorted(texts_of(old(v)@)),
    ensures
        strictly_sorted(texts_of(final(v)@)),
        forall|y: Seq<char>| #[trigger] texts_of(final(v)@).contains(y) <==> (texts_of(old(v)@).contains(y)
            || has_index(t@, y)),
{
    let ghost start = texts_of(v@);
    let mut i: usize = 0;
    while i < t.len()
        invariant
            i <= t@.len(),
            strictly_sorted(texts_of(v@)),
            forall|y: Seq<char>| #[trigger] texts_of(v@).contains(y) <==> (start.contains(y) || index_among(
                t@,
                i as int,
                y,
            )),
        decreases t.len() - i,
    {
        let idx = oid_index(t[i].0.as_str());
        let ghost before = texts_of(v@);
        insert_sorted(v, idx);
        assert forall|y: Seq<char>| #[trigger] texts_of(v@).contains(y) <==> (start.contains(y) || index_among(
            t@,
            i + 1,
            y,
        )) by {
            if index_among(t@, i + 1, y) {
                let j = choose|j: int| 0 <= j < i + 1 && row_index(t@, j) == y;
                if j < i {
                    assert(index_among(t@, i as int, y));
                    assert(before.contains(y));
                }
            }
            if y == row_index(t@, i as int) {
                assert(index_among(t@, i + 1, y));
            }
            if index_among(t@, i as int, y) {
                let j = choose|j: int| 0 <= j < i && row_index(t@, j) == y;
                assert(index_among(t@, i + 1, y));
            }
            if before.contains(y) {
            }
        }
        i += 1;
    }
}

/// The value of the last row of `t` for interface `idx`.
pub(crate) fn last_row<'a>(t: &'a Vec<(String, SnmpValue)>, idx: &str) -> (r: Option<&'a SnmpValue>)
    ensures
        match r {
            Some(v) => last_value(t@, idx@) == Some(*v),
            None => last_value(t@, idx@) is None,
        },
{
    let mut i: usize = t.len();
    assert(t@.take(i as int) =~= t@);
    while i > 0
        invariant
            i <= t@.len(),
            last_value(t@, idx@) == last_value(t@.take(i as int), idx@),
        decreases i,
    {
        let row = oid_index(t[i - 1].0.as_str());
        assert(t@.take(i as int).last() == t@[i - 1]);
        if eq_str(row.as_str(), idx) {
            return Some(&t[i - 1].1);
        }
        assert(t@.take(i as int).drop_last() =~= t@.take(i - 1));
        i -= 1;
    }
    None
}

pub(crate) fn text_of(t: &Vec<(String, SnmpValue)>, idx: &str) -> (r: Option<String>)
    ensures
        match r {
            Some(s) => col_text(t@, idx@) == Some(s@),
            None => col_text(t@, idx@) is None,
        },
{
    match last_row(t, idx) {
        Some(v) => Some(v.as_string()),
        None => None,
    }
}

pub(crate) fn i64_of(t: &Vec<(String, SnmpValue)>, idx: &str) -> (r: Option<i64>)
    ensures
        r == col_i64(t@, idx@),
{
    match last_row(t, idx) {
        Some(v) => match v.as_i64() {
            Some(x) => Some(x),
            None => Some(0),
        },
        None => None,
    }
}

pub(crate) fn u64_of(t: &Vec<(String, SnmpValue)>, idx: &str) -> (r: u64)
    ensures
        r == col_u64(t@, idx@),
{
    match last_row(t, idx) {
        Some(v) => match v.as_u64() {
            Some(x) => x,
            None => 0,
        },
        None => 0,
    }
}

fn status_text(code: Option<i64>) -> (r: String)
    ensures
        r@ == status_word(code),
{
    if code == Some(1i64) {
        to_owned_string("up")
    } else {
        to_owned_string("down")
    }
}

/// The record of interface `idx`.
fn interface_record(c: &IfMibColumns, idx: &String) -> (r: InterfaceRecord)
    requires
        high_speeds_fit(*c),
    ensures
        r@ == record_spec(*c, idx@),
{
    let i = idx.as_str();
    let descr = match text_of(&c.descr, i) {
        Some(d) => d,
        None => String::new(),
    };
    let name = match text_of(&c.name, i) {
        Some(n) => n,
        None => descr.clone(),
    };
    let alias = match text_of(&c.alias, i) {
        Some(a) => a,
        None => String::new(),
    };
    let high = u64_of(&c.high_speed, i);
    let speed_bps = if high > 0 {
        proof {
            let v = last_value(c.high_speed@, idx@);
            lemma_last_value_row(c.high_speed@, idx@);
            let j = choose|j: int| 0 <= j < c.high_speed@.len() && v == Some(#[trigger] c.high_speed@[j].1);
            assert(match c.high_speed@[j].1.as_u64_spec() {
                Some(x) => x <= u64::MAX / 1_000_000,
                None => true,
            });
        }
        high * 1_000_000
    } else {
        u64_of(&c.speed, i)
    };
    let hc_in = u64_of(&c.hc_in_octets, i);
    let hc_out = u64_of(&c.hc_out_octets, i);
    InterfaceRecord {
        index: idx.clone(),
        name,
        description: descr,
        alias,
        if_type: match i64_of(&c.if_type, i) {
            Some(t) => t,
            None => 0,
        },
        speed_bps,
        admin_status: status_text(i64_of(&c.admin_status, i)),
        oper_status: status_text(i64_of(&c.oper_status, i)),
        in_octets: if hc_in > 0 { hc_in } else { u64_of(&c.in_octets, i) },
        out_octets: if hc_out > 0 { hc_out } else { u64_of(&c.out_octets, i) },
        in_errors: u64_of(&c.in_errors, i),
        out_errors: u64_of(&c.out_errors, i),
        in_discards: u64_of(&c.in_discards, i),
        out_discards: u64_of(&c.out_discards, i),
        in_unicast_pkts: u64_of(&c.in_ucast_pkts, i),
        out_unicast_pkts: u64_of(&c.out_ucast_pkts, i),
    }
}

/// A value found for an index is the value of one of the rows.
proof fn lemma_last_value_row(t: Seq<(String, SnmpValue)>, idx: Seq<char>)
    ensures
        last_value(t, idx) matches Some(v) ==> exists|j: int| 0 <= j < t.len() && v == #[trigger] t[j].1,
    decreases t.len(),
{
    if t.len() > 0 {
        lemma_last_value_row(t.drop_last(), idx);
        match last_value(t, idx) {
            Some(v) => {
                if after_last(t.last().0@, '.') == idx {
                    assert(v == t[t.len() - 1].1);
                } else {
                    let j = choose|j: int| 0 <= j < t.drop_last().len() && v == #[trigger] t.drop_last()[j].1;
                    assert(v == t[j].1);
                }
            },
            None => {},
        }
    }
}

/// The interface table: one record for each index found in ifDescr or
/// ifName, in index order.
pub fn build_interfaces(c: &IfMibColumns) -> (r: Vec<InterfaceRecord>)
    requires
        high_speeds_fit(*c),
    ensures
        strictly_sorted(record_indices(r@)),
        forall|x: Seq<char>| record_indices(r@).contains(x) <==> (has_index(c.descr@, x) || has_index(c.name@, x)),
        forall|i: int| 0 <= i < r@.len() ==> (#[trigger] r@[i])@ == record_spec(*c, r@[i].index@),
{
    let mut idxs: Vec<String> = Vec::new();
    assert(texts_of(idxs@) =~= Seq::<Seq<char>>::empty());
    add_indices(&mut idxs, &c.descr);
    let ghost after_descr = texts_of(idxs@);
    add_indices(&mut idxs, &c.name);
    assert forall|x: Seq<char>| texts_of(idxs@).contains(x) <==> (has_index(c.descr@, x) || has_index(c.name@, x)) by {
        assert(after_descr.contains(x) <==> (Seq::<Seq<char>>::empty().contains(x) || has_index(c.descr@, x)));
    }
    let mut out: Vec<InterfaceRecord> = Vec::new();
    let mut i: usize = 0;
    while i < idxs.len()
        invariant
            i <= idxs@.len(),
            high_speeds_fit(*c),
            out@.len() == i,
            forall|j: int| 0 <= j < i ==> (#[trigger] out@[j]).index@ == idxs@[j]@,
            forall|j: int| 0 <= j < i ==> (#[trigger] out@[j])@ == record_spec(*c, out@[j].index@),
        decreases idxs.len() - i,
    {
        let rec = interface_record(c, &idxs[i]);
        out.push(rec);
        i += 1;
    }
    assert(record_indices(out@) =~= texts_of(idxs@));
    out
}

} // verus!

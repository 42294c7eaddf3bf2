//! Shapes shared by several vendors: a table of texts by index, a table of
//! status codes by index, and PoE ports with their power draw.

use vstd::prelude::*;
use crate::interfaces::{col_i64, i64_of};
use crate::mikrotik::oid_index;
use crate::snmp::types::SnmpValue;
use crate::text::after_last;

verus! {

/// A text found under a row index (an SSID, a VLAN name, ...).
#[derive(Debug, Clone)]
pub struct IndexedText {
    pub index: String,
    pub text: String,
}

/// A status code found under a row index (a fan, a power supply, ...).
#[derive(Debug, Clone)]
pub struct StatusEntry {
    pub index: String,
    pub status: i64,
}

/// A PoE port: its status code and the power it draws, in mW.
#[derive(Debug, Clone)]
pub struct PoePort {
    pub port: String,
    pub status: i64,
    pub power_mw: i64,
}

/// The row index of row `j` of a table.
pub open spec fn index_of_row(t: Seq<(String, SnmpValue)>, j: int) -> Seq<char> {
    after_last(t[j].0@, '.')
}

/// The signed number of a value, 0 when it is not a number.
pub open spec fn number_or_zero(v: SnmpValue) -> i64 {
    match v.as_i64_spec() {
        Some(n) => n,
        None => 0,
    }
}

/// The texts of a table, one per row, in walk order.
pub fn indexed_texts(t: &Vec<(String, SnmpValue)>) -> (r: Vec<IndexedText>)
    ensures
        r@.len() == t@.len(),
        forall|j: int| 0 <= j < r@.len() ==> (#[trigger] r@[j]).index@ == index_of_row(t@, j) && r@[j].text@
            == t@[j].1.as_string_spec(),
{
    let mut out: Vec<IndexedText> = Vec::new();
    let mut j: usize = 0;
    while j < t.len()
        invariant
            j <= t@.len(),
            out@.len() == j,
            forall|k: int| 0 <= k < j ==> (#[trigger] out@[k]).index@ == index_of_row(t@, k) && out@[k].text@
                == t@[k].1.as_string_spec(),
        decreases t.len() - j,
    {
        out.push(IndexedText { index: oid_index(t[j].0.as_str()), text: t[j].1.as_string() });
        j += 1;
    }
    out
}

/// The status codes of a table (0 for a value that is not a number), one
/// per row, in walk order.
pub fn status_entries(t: &Vec<(String, SnmpValue)>) -> (r: Vec<StatusEntry>)
    ensures
        r@.len() == t@.len(),
        forall|j: int| 0 <= j < r@.len() ==> (#[trigger] r@[j]).index@ == index_of_row(t@, j) && r@[j].status
            == number_or_zero(t@[j].1),
{
    let mut out: Vec<StatusEntry> = Vec::new();
    let mut j: usize = 0;
    while j < t.len()
        invariant
            j <= t@.len(),
            out@.len() == j,
            forall|k: int| 0 <= k < j ==> (#[trigger] out@[k]).index@ == index_of_row(t@, k) && out@[k].status
                == number_or_zero(t@[k].1),
        decreases t.len() - j,
    {
        let status = match t[j].1.as_i64() {
            Some(n) => n,
            None => 0,
        };
        out.push(StatusEntry { index: oid_index(t[j].0.as_str()), status });
        j += 1;
    }
    out
}

/// The power of port `idx` in the power table, 0 when missing.
pub open spec fn power_of(power: Seq<(String, SnmpValue)>, idx: Seq<char>) -> i64 {
    match col_i64(power, idx) {
        Some(p) => p,
        None => 0,
    }
}

/// The PoE ports, one per row of the status table, in walk order, each
/// with the power the power table gives for it.
pub fn poe_ports(status: &Vec<(String, SnmpValue)>, power: &Vec<(String, SnmpValue)>) -> (r: Vec<PoePort>)
    ensures
        r@.len() == status@.len(),
        forall|j: int| 0 <= j < r@.len() ==> (#[trigger] r@[j]).port@ == index_of_row(status@, j) && r@[j].status
            == number_or_zero(status@[j].1) && r@[j].power_mw == power_of(power@, index_of_row(status@, j)),
{
    let mut out: Vec<PoePort> = Vec::new();
    let mut j: usize = 0;
    while j < status.len()
        invariant
            j <= status@.len(),
            out@.len() == j,
            forall|k: int| 0 <= k < j ==> (#[trigger] out@[k]).port@ == index_of_row(status@, k) && out@[k].status
                == number_or_zero(status@[k].1) && out@[k].power_mw == power_of(power@, index_of_row(status@, k)),
        decreases status.len() - j,
    {
        let port = oid_index(status[j].0.as_str());
        let st = match status[j].1.as_i64() {
            Some(n) => n,
            None => 0,
        };
        let pw = match i64_of(power, port.as_str()) {
            Some(p) => p,
            None => 0,
        };
        out.push(PoePort { port, status: st, power_mw: pw });
        j += 1;
    }
    out
}

/// A later row of `t` has the same index as row `j` (which it replaces).
pub open spec fn replaced_later(t: Seq<(String, SnmpValue)>, j: int) -> bool {
    exists|k: int| j < k < t.len() && index_of_row(t, k) == index_of_row(t, j)
}

/// The sum, over the first `n` rows, of the values not replaced by a later
/// row: the total of the table read as a map from index to value.
pub open spec fn power_sum(t: Seq<(String, SnmpValue)>, n: int) -> int
    decreases n,
{
    if n <= 0 {
        0
    } else {
        power_sum(t, n - 1) + if replaced_later(t, n - 1) {
            0
        } else {
            number_or_zero(t[n - 1].1) as int
        }
    }
}

fn replaced_later_exec(t: &Vec<(String, SnmpValue)>, j: usize) -> (r: bool)
    requires
        j < t@.len(),
    ensures
        r == replaced_later(t@, j as int),
{
    let idx = oid_index(t[j].0.as_str());
    let n = t.len();
    let mut k: usize = j + 1;
    while k < n
        invariant
            n == t@.len(),
            j < k <= t@.len(),
            idx@ == index_of_row(t@, j as int),
            forall|m: int| j < m < k ==> index_of_row(t@, m) != index_of_row(t@, j as int),
        decreases n - k,
    {
        let other = oid_index(t[k].0.as_str());
        if crate::text::eq_str(other.as_str(), idx.as_str()) {
            assert(index_of_row(t@, k as int) == index_of_row(t@, j as int));
            return true;
        }
        k += 1;
    }
    false
}

/// The total power the ports draw, in mW: the values of the power table
/// read as a map from port to power (a later row for a port replaces an
/// earlier one). The sum is exact; it is for the caller to fit it in 64 bits.
pub fn poe_total_power(power: &Vec<(String, SnmpValue)>) -> (r: i128)
    ensures
        r == power_sum(power@, power@.len() as int),
{
    let mut total: i128 = 0;
    let mut j: usize = 0;
    while j < power.len()
        invariant
            j <= power@.len(),
            total == power_sum(power@, j as int),
            -(j as int) * 0x8000_0000_0000_0000 <= total <= (j as int) * 0x8000_0000_0000_0000,
        decreases power.len() - j,
    {
        proof {
            assert((j + 1) * 0x8000_0000_0000_0000 <= 0xffff_ffff_ffff_ffff * 0x8000_0000_0000_0000) by (nonlinear_arith)
                requires
                    j + 1 <= 0xffff_ffff_ffff_ffff,
            ;
        }
        if !replaced_later_exec(power, j) {
            let v: i64 = match power[j].1.as_i64() {
                Some(n) => n,
                None => 0,
            };
            total = total + v as i128;
        }
        j += 1;
    }
    total
}

} // verus!

//! pfSense data: the PF state table counters and the WAN interfaces, found
//! by their names.

use vstd::prelude::*;
use crate::interfaces::{add_indices, col_text, col_u64, has_index, strictly_sorted, text_of, texts_of, u64_of};
use crate::snmp::types::SnmpValue;
use crate::text::{contains, contains_spec, lemma_lex_lt_irreflexive, lex_lt, lowercase, to_lowercase};
use crate::vendor_data::fortinet::{scalar_i64, scalar_i64_exec};

verus! {

/// What was read from a pfSense: the state-table scalars and the walked
/// ifName, ifHCInOctets, ifHCOutOctets and ifHighSpeed columns.
pub struct PfSenseReadings {
    pub state_count: Option<SnmpValue>,
    pub state_limit: Option<SnmpValue>,
    pub if_names: Vec<(String, SnmpValue)>,
    pub if_hc_in: Vec<(String, SnmpValue)>,
    pub if_hc_out: Vec<(String, SnmpValue)>,
    pub if_high_speed: Vec<(String, SnmpValue)>,
}

/// A WAN interface of the firewall.
#[derive(Debug, Clone)]
pub struct PfWanInterface {
    pub name: String,
    pub index: String,
    pub in_bytes: u64,
    pub out_bytes: u64,
    pub speed_mbps: u64,
}

/// A WAN interface with its texts as character sequences.
pub ghost struct PfWanView {
    pub name: Seq<char>,
    pub index: Seq<char>,
    pub in_bytes: u64,
    pub out_bytes: u64,
    pub speed_mbps: u64,
}

impl View for PfWanInterface {
    type V = PfWanView;

    open spec fn view(&self) -> PfWanView {
        PfWanView {
            name: self.name@,
            index: self.index@,
            in_bytes: self.in_bytes,
            out_bytes: self.out_bytes,
            speed_mbps: self.speed_mbps,
        }
    }
}

/// The pfSense section (the state-table usage, a percentage, is left to the caller).
#[derive(Debug, Clone)]
pub struct PfSenseData {
    pub state_count: i64,
    pub state_limit: i64,
    pub wan_interfaces: Vec<PfWanInterface>,
    pub total_interfaces: usize,
}

/// A lower-cased interface name that looks like a WAN uplink.
pub open spec fn pf_wan_name(l: Seq<char>) -> bool {
    ||| contains_spec(l, "wan"@)
    ||| contains_spec(l, "opt1"@)
    ||| contains_spec(l, "pppoe"@)
    ||| contains_spec(l, "etb"@)
    ||| contains_spec(l, "tigo"@)
    ||| contains_spec(l, "claro"@)
    ||| contains_spec(l, "une"@)
    ||| contains_spec(l, "movistar"@)
    ||| contains_spec(l, "igb0"@)
    ||| contains_spec(l, "em0"@)
    ||| contains_spec(l, "vtnet0"@)
    ||| contains_spec(l, "ix0"@)
    ||| contains_spec(l, "bxe0"@)
    ||| contains_spec(l, "vmx0"@)
}

/// The name of interface `idx`, empty when the name table lacks it.
pub open spec fn if_name_of(r: PfSenseReadings, idx: Seq<char>) -> Seq<char> {
    match col_text(r.if_names@, idx) {
        Some(n) => n,
        None => Seq::empty(),
    }
}

/// Interface `idx` is a WAN uplink by its name.
pub open spec fn is_pf_wan(r: PfSenseReadings, idx: Seq<char>) -> bool {
    pf_wan_name(lowercase(if_name_of(r, idx)))
}

/// The record of WAN interface `idx`.
pub open spec fn pf_wan_spec(r: PfSenseReadings, idx: Seq<char>) -> PfWanView {
    PfWanView {
        name: if_name_of(r, idx),
        index: idx,
        in_bytes: col_u64(r.if_hc_in@, idx),
        out_bytes: col_u64(r.if_hc_out@, idx),
        speed_mbps: col_u64(r.if_high_speed@, idx),
    }
}

/// The distinct interface indexes of the name table.
pub open spec fn name_indices(r: PfSenseReadings) -> Set<Seq<char>> {
    Set::new(|x: Seq<char>| has_index(r.if_names@, x))
}

fn pf_wan_name_exec(l: &str) -> (b: bool)
    ensures
        b == pf_wan_name(l@),
{
    contains(l, "wan") || contains(l, "opt1") || contains(l, "pppoe") || contains(l, "etb") || contains(l, "tigo")
        || contains(l, "claro") || contains(l, "une") || contains(l, "movistar") || contains(l, "igb0")
        || contains(l, "em0") || contains(l, "vtnet0") || contains(l, "ix0") || contains(l, "bxe0") || contains(
        l,
        "vmx0",
    )
}

/// A strictly sorted list has as many items as the set of its items.
proof fn lemma_sorted_len(s: Seq<Seq<char>>)
    requires
        strictly_sorted(s),
    ensures
        s.to_set().len() == s.len(),
{
    assert forall|i: int, j: int| 0 <= i < s.len() && 0 <= j < s.len() && i != j implies s[i] != s[j] by {
        if i < j {
            assert(lex_lt(s[i], s[j]));
            lemma_lex_lt_irreflexive(s[i]);
        } else {
            assert(lex_lt(s[j], s[i]));
            lemma_lex_lt_irreflexive(s[j]);
        }
    }
    s.unique_seq_to_set();
}

/// The pfSense section: state counters (0 when unknown), the WAN interfaces
/// among the named interfaces, in index order, and how many interfaces are named.
pub fn pfsense_vendor_data(r: &PfSenseReadings) -> (d: PfSenseData)
    ensures
        d.state_count == scalar_i64(r.state_count),
        d.state_limit == scalar_i64(r.state_limit),
        d.total_interfaces == name_indices(*r).len(),
        strictly_sorted(d.wan_interfaces@.map_values(|w: PfWanInterface| w.index@)),
        forall|x: Seq<char>| d.wan_interfaces@.map_values(|w: PfWanInterface| w.index@).contains(x) <==> (
        has_index(r.if_names@, x) && is_pf_wan(*r, x)),
        forall|i: int| 0 <= i < d.wan_interfaces@.len() ==> (#[trigger] d.wan_interfaces@[i])@ == pf_wan_spec(
            *r,
            d.wan_interfaces@[i].index@,
        ),
{
    let mut idxs: Vec<String> = Vec::new();
    assert(texts_of(idxs@) =~= Seq::<Seq<char>>::empty());
    add_indices(&mut idxs, &r.if_names);
    proof {
        lemma_sorted_len(texts_of(idxs@));
        assert(texts_of(idxs@).to_set() =~= name_indices(*r));
    }
    let mut wans: Vec<PfWanInterface> = Vec::new();
    let ghost mut kept: Seq<int> = Seq::empty();
    let mut i: usize = 0;
    while i < idxs.len()
        invariant
            i <= idxs@.len(),
            strictly_sorted(texts_of(idxs@)),
            forall|x: Seq<char>| texts_of(idxs@).contains(x) <==> has_index(r.if_names@, x),
            wans@.len() == kept.len(),
            forall|k: int| 0 <= k < kept.len() ==> 0 <= #[trigger] kept[k] < i,
            forall|k: int, l: int| 0 <= k < l < kept.len() ==> kept[k] < kept[l],
            forall|k: int| 0 <= k < kept.len() ==> (#[trigger] wans@[k]).index@ == idxs@[kept[k]]@,
            forall|k: int| 0 <= k < kept.len() ==> (#[trigger] wans@[k])@ == pf_wan_spec(*r, wans@[k].index@),
            forall|j: int| 0 <= j < i ==> (is_pf_wan(*r, #[trigger] idxs@[j]@) <==> kept.contains(j)),
        decreases idxs.len() - i,
    {
        let idx = idxs[i].as_str();
        let name = match text_of(&r.if_names, idx) {
            Some(n) => n,
            None => String::new(),
        };
        let lower = to_lowercase(name.as_str());
        let ghost old_kept = kept;
        assert(idxs@[i as int]@ == texts_of(idxs@)[i as int]);
        if pf_wan_name_exec(lower.as_str()) {
            wans.push(PfWanInterface {
                name,
                index: idxs[i].clone(),
                in_bytes: u64_of(&r.if_hc_in, idx),
                out_bytes: u64_of(&r.if_hc_out, idx),
                speed_mbps: u64_of(&r.if_high_speed, idx),
            });
            proof {
                kept = kept.push(i as int);
                assert forall|j: int| 0 <= j < i + 1 implies (is_pf_wan(*r, #[trigger] idxs@[j]@) <==> kept.contains(j)) by {
                    if j < i {
                        if old_kept.contains(j) {
                            let k = old_kept.index_of(j);
                            assert(kept[k] == j);
                        }
                        if kept.contains(j) {
                            let k = kept.index_of(j);
                            if k < old_kept.len() {
                                assert(old_kept[k] == j);
                            }
                        }
                    } else {
                        assert(kept[kept.len() - 1] == i);
                    }
                }
            }
        } else {
            proof {
                assert forall|j: int| 0 <= j < i + 1 implies (is_pf_wan(*r, #[trigger] idxs@[j]@) <==> kept.contains(j)) by {
                    if j == i && kept.contains(j) {
                        let k = kept.index_of(j);
                        assert(kept[k] < i);
                    }
                }
            }
        }
        i += 1;
    }
    let ghost ws = wans@.map_values(|w: PfWanInterface| w.index@);
    proof {
        let s = texts_of(idxs@);
        assert forall|a: int, b: int| 0 <= a < b < ws.len() implies lex_lt(#[trigger] ws[a], #[trigger] ws[b]) by {
            assert(ws[a] == s[kept[a]]);
            assert(ws[b] == s[kept[b]]);
        }
        assert forall|x: Seq<char>| ws.contains(x) <==> (has_index(r.if_names@, x) && is_pf_wan(*r, x)) by {
            if ws.contains(x) {
                let k = ws.index_of(x);
                assert(ws[k] == s[kept[k]]);
                assert(s.contains(x));
                assert(kept.contains(kept[k]));
            }
            if has_index(r.if_names@, x) && is_pf_wan(*r, x) {
                assert(s.contains(x));
                let j = s.index_of(x);
                assert(s[j] == idxs@[j]@);
                assert(kept.contains(j));
                let k = kept.index_of(j);
                assert(ws[k] == x);
            }
        }
    }
    PfSenseData {
        state_count: scalar_i64_exec(&r.state_count),
        state_limit: scalar_i64_exec(&r.state_limit),
        wan_interfaces: wans,
        total_interfaces: idxs.len(),
    }
}

} // verus!

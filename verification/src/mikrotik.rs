//! Helpers of the MikroTik firewall profile: interface status text, which
//! interfaces carry an Internet uplink, and which provider they belong to.

use vstd::prelude::*;
use crate::snmp::types::SnmpValue;
use crate::text::{
    after_last, after_last_char, chars_of, contains, contains_spec, eq_str, lowercase, string_of, to_lowercase,
    to_owned_string, trim_chars, trim_spec,
};

verus! {

/// Text of an IF-MIB status: 1 is up, 2 is down.
pub open spec fn status_text_spec(status: u8) -> Seq<char> {
    if status == 1 {
        "UP"@
    } else if status == 2 {
        "DOWN"@
    } else {
        "unknown"@
    }
}

/// Text of an IF-MIB status (ifAdminStatus, ifOperStatus).
pub fn status_to_text(status: u8) -> (r: &'static str)
    ensures
        r@ == status_text_spec(status),
{
    match status {
        1 => "UP",
        2 => "DOWN",
        _ => "unknown",
    }
}

/// A lower-cased interface name that suggests a WAN uplink: Ethernet and
/// SFP ports, PPP tunnels, WAN VLANs, provider names and access technologies.
pub open spec fn wan_name_spec(lower: Seq<char>) -> bool {
    contains_spec(lower, "ether1"@) || contains_spec(lower, "ether-wan"@) || contains_spec(lower, "wan"@)
        || contains_spec(lower, "sfp1"@) || contains_spec(lower, "sfp-sfpplus1"@) || contains_spec(lower, "sfpplus1"@)
        || contains_spec(lower, "sfp-"@) || contains_spec(lower, "sfpplus"@) || contains_spec(lower, "internet"@)
        || contains_spec(lower, "isp"@) || contains_spec(lower, "uplink"@) || contains_spec(lower, "externa"@)
        || contains_spec(lower, "external"@) || contains_spec(lower, "primary"@) || contains_spec(lower, "secondary"@)
        || contains_spec(lower, "backup"@) || contains_spec(lower, "principal"@) || contains_spec(lower, "respaldo"@)
        || contains_spec(lower, "pppoe"@) || contains_spec(lower, "pppoe-out"@) || contains_spec(lower, "pppoe-wan"@)
        || contains_spec(lower, "pptp"@) || contains_spec(lower, "l2tp"@) || contains_spec(lower, "dhcp-wan"@)
        || contains_spec(lower, "vlan-wan"@) || contains_spec(lower, "vlan_wan"@) || contains_spec(lower, "vlan999"@)
        || contains_spec(lower, "etb"@) || contains_spec(lower, "tigo"@) || contains_spec(lower, "claro"@)
        || contains_spec(lower, "movistar"@) || contains_spec(lower, "azteca"@) || contains_spec(lower, "att"@)
        || contains_spec(lower, "une"@) || contains_spec(lower, "millicom"@) || contains_spec(lower, "telefonica"@)
        || contains_spec(lower, "supercanal"@) || contains_spec(lower, "edatel"@) || contains_spec(lower, "coltel"@)
        || contains_spec(lower, "directv"@) || contains_spec(lower, "starlink"@) || contains_spec(lower, "internexa"@)
        || contains_spec(lower, "fibra"@) || contains_spec(lower, "fiber"@) || contains_spec(lower, "dsl"@)
        || contains_spec(lower, "adsl"@) || contains_spec(lower, "cable"@) || contains_spec(lower, "mpls"@)
        || contains_spec(lower, "lte"@) || contains_spec(lower, "4g"@) || contains_spec(lower, "5g"@)
        || contains_spec(lower, "celular"@) || contains_spec(lower, "bridge-wan"@)
}

/// Whether an interface name suggests a WAN uplink, ignoring case.
pub fn is_wan_candidate(name: &str) -> (r: bool)
    ensures
        r == wan_name_spec(lowercase(name@)),
{
    let lower = to_lowercase(name);
    let l = lower.as_str();
    contains(l, "ether1") || contains(l, "ether-wan") || contains(l, "wan")
        || contains(l, "sfp1") || contains(l, "sfp-sfpplus1") || contains(l, "sfpplus1")
        || contains(l, "sfp-") || contains(l, "sfpplus") || contains(l, "internet")
        || contains(l, "isp") || contains(l, "uplink") || contains(l, "externa")
        || contains(l, "external") || contains(l, "primary") || contains(l, "secondary")
        || contains(l, "backup") || contains(l, "principal") || contains(l, "respaldo")
        || contains(l, "pppoe") || contains(l, "pppoe-out") || contains(l, "pppoe-wan")
        || contains(l, "pptp") || contains(l, "l2tp") || contains(l, "dhcp-wan")
        || contains(l, "vlan-wan") || contains(l, "vlan_wan") || contains(l, "vlan999")
        || contains(l, "etb") || contains(l, "tigo") || contains(l, "claro")
        || contains(l, "movistar") || contains(l, "azteca") || contains(l, "att")
        || contains(l, "une") || contains(l, "millicom") || contains(l, "telefonica")
        || contains(l, "supercanal") || contains(l, "edatel") || contains(l, "coltel")
        || contains(l, "directv") || contains(l, "starlink") || contains(l, "internexa")
        || contains(l, "fibra") || contains(l, "fiber") || contains(l, "dsl")
        || contains(l, "adsl") || contains(l, "cable") || contains(l, "mpls")
        || contains(l, "lte") || contains(l, "4g") || contains(l, "5g")
        || contains(l, "celular") || contains(l, "bridge-wan")
}

/// The provider a lower-cased name mentions, first pattern first.
pub open spec fn isp_spec(lower: Seq<char>) -> Option<Seq<char>> {
    if contains_spec(lower, "etb"@) {
        Some("ETB"@)
    } else if contains_spec(lower, "tigo"@) {
        Some("Tigo"@)
    } else if contains_spec(lower, "claro"@) {
        Some("Claro"@)
    } else if contains_spec(lower, "movistar"@) {
        Some("Movistar"@)
    } else if contains_spec(lower, "azteca"@) {
        Some("Azteca"@)
    } else if contains_spec(lower, "internexa"@) {
        Some("InterNexa"@)
    } else if contains_spec(lower, "edatel"@) {
        Some("Edatel"@)
    } else if contains_spec(lower, "coltel"@) {
        Some("Coltel"@)
    } else if contains_spec(lower, "directv"@) {
        Some("DirecTV"@)
    } else if contains_spec(lower, "starlink"@) {
        Some("Starlink"@)
    } else if contains_spec(lower, "at&t"@) {
        Some("AT&T"@)
    } else if contains_spec(lower, "att"@) {
        Some("AT&T"@)
    } else if contains_spec(lower, "une"@) {
        Some("UNE"@)
    } else if contains_spec(lower, "millicom"@) {
        Some("Millicom"@)
    } else if contains_spec(lower, "telefonica"@) {
        Some("Telefónica"@)
    } else if contains_spec(lower, "supercanal"@) {
        Some("Supercanal"@)
    } else {
        None
    }
}

/// The provider patterns and their labels, tried in this order.
pub open spec fn isp_table() -> Seq<(Seq<char>, Seq<char>)> {
    seq![
        ("etb"@, "ETB"@),
        ("tigo"@, "Tigo"@),
        ("claro"@, "Claro"@),
        ("movistar"@, "Movistar"@),
        ("azteca"@, "Azteca"@),
        ("internexa"@, "InterNexa"@),
        ("edatel"@, "Edatel"@),
        ("coltel"@, "Coltel"@),
        ("directv"@, "DirecTV"@),
        ("starlink"@, "Starlink"@),
        ("at&t"@, "AT&T"@),
        ("att"@, "AT&T"@),
        ("une"@, "UNE"@),
        ("millicom"@, "Millicom"@),
        ("telefonica"@, "Telefónica"@),
        ("supercanal"@, "Supercanal"@),
    ]
}

/// Detection follows the provider table: a lower-cased name that contains
/// a pattern of the table names the label of the first such pattern, and a
/// name that contains none names no provider.
pub proof fn lemma_isp_follows_table(lower: Seq<char>, i: int)
    ensures
        (0 <= i < isp_table().len() && contains_spec(lower, isp_table()[i].0)
            && forall|j: int| 0 <= j < i ==> !contains_spec(lower, #[trigger] isp_table()[j].0))
            ==> isp_spec(lower) == Some(isp_table()[i].1),
        (forall|j: int| 0 <= j < isp_table().len() ==> !contains_spec(lower, #[trigger] isp_table()[j].0))
            ==> isp_spec(lower) is None,
{
    let t = isp_table();
    assert(t.len() == 16);
    if 0 <= i < t.len() && contains_spec(lower, t[i].0) && forall|j: int| 0 <= j < i ==> !contains_spec(lower, #[trigger] t[j].0) {
        if 0 < i { assert(!contains_spec(lower, t[0].0)); }
        if 1 < i { assert(!contains_spec(lower, t[1].0)); }
        if 2 < i { assert(!contains_spec(lower, t[2].0)); }
        if 3 < i { assert(!contains_spec(lower, t[3].0)); }
        if 4 < i { assert(!contains_spec(lower, t[4].0)); }
        if 5 < i { assert(!contains_spec(lower, t[5].0)); }
        if 6 < i { assert(!contains_spec(lower, t[6].0)); }
        if 7 < i { assert(!contains_spec(lower, t[7].0)); }
        if 8 < i { assert(!contains_spec(lower, t[8].0)); }
        if 9 < i { assert(!contains_spec(lower, t[9].0)); }
        if 10 < i { assert(!contains_spec(lower, t[10].0)); }
        if 11 < i { assert(!contains_spec(lower, t[11].0)); }
        if 12 < i { assert(!contains_spec(lower, t[12].0)); }
        if 13 < i { assert(!contains_spec(lower, t[13].0)); }
        if 14 < i { assert(!contains_spec(lower, t[14].0)); }
        if 15 < i { assert(!contains_spec(lower, t[15].0)); }
        if i == 0 { assert(t[0] == ("etb"@, "ETB"@)); }
        if i == 1 { assert(t[1] == ("tigo"@, "Tigo"@)); }
        if i == 2 { assert(t[2] == ("claro"@, "Claro"@)); }
        if i == 3 { assert(t[3] == ("movistar"@, "Movistar"@)); }
        if i == 4 { assert(t[4] == ("azteca"@, "Azteca"@)); }
        if i == 5 { assert(t[5] == ("internexa"@, "InterNexa"@)); }
        if i == 6 { assert(t[6] == ("edatel"@, "Edatel"@)); }
        if i == 7 { assert(t[7] == ("coltel"@, "Coltel"@)); }
        if i == 8 { assert(t[8] == ("directv"@, "DirecTV"@)); }
        if i == 9 { assert(t[9] == ("starlink"@, "Starlink"@)); }
        if i == 10 { assert(t[10] == ("at&t"@, "AT&T"@)); }
        if i == 11 { assert(t[11] == ("att"@, "AT&T"@)); }
        if i == 12 { assert(t[12] == ("une"@, "UNE"@)); }
        if i == 13 { assert(t[13] == ("millicom"@, "Millicom"@)); }
        if i == 14 { assert(t[14] == ("telefonica"@, "Telefónica"@)); }
        if i == 15 { assert(t[15] == ("supercanal"@, "Supercanal"@)); }
    }
    if forall|j: int| 0 <= j < t.len() ==> !contains_spec(lower, #[trigger] t[j].0) {
        assert(!contains_spec(lower, t[0].0));
        assert(!contains_spec(lower, t[1].0));
        assert(!contains_spec(lower, t[2].0));
        assert(!contains_spec(lower, t[3].0));
        assert(!contains_spec(lower, t[4].0));
        assert(!contains_spec(lower, t[5].0));
        assert(!contains_spec(lower, t[6].0));
        assert(!contains_spec(lower, t[7].0));
        assert(!contains_spec(lower, t[8].0));
        assert(!contains_spec(lower, t[9].0));
        assert(!contains_spec(lower, t[10].0));
        assert(!contains_spec(lower, t[11].0));
        assert(!contains_spec(lower, t[12].0));
        assert(!contains_spec(lower, t[13].0));
        assert(!contains_spec(lower, t[14].0));
        assert(!contains_spec(lower, t[15].0));
    }
}

/// The Internet provider named in an interface name, ignoring case.
pub fn detect_isp_from_name(name: &str) -> (r: Option<String>)
    ensures
        match r {
            Some(s) => isp_spec(lowercase(name@)) == Some(s@),
            None => isp_spec(lowercase(name@)) is None,
        },
{
    let lower = to_lowercase(name);
    let l = lower.as_str();
    if contains(l, "etb") {
        Some(to_owned_string("ETB"))
    } else if contains(l, "tigo") {
        Some(to_owned_string("Tigo"))
    } else if contains(l, "claro") {
        Some(to_owned_string("Claro"))
    } else if contains(l, "movistar") {
        Some(to_owned_string("Movistar"))
    } else if contains(l, "azteca") {
        Some(to_owned_string("Azteca"))
    } else if contains(l, "internexa") {
        Some(to_owned_string("InterNexa"))
    } else if contains(l, "edatel") {
        Some(to_owned_string("Edatel"))
    } else if contains(l, "coltel") {
        Some(to_owned_string("Coltel"))
    } else if contains(l, "directv") {
        Some(to_owned_string("DirecTV"))
    } else if contains(l, "starlink") {
        Some(to_owned_string("Starlink"))
    } else if contains(l, "at&t") {
        Some(to_owned_string("AT&T"))
    } else if contains(l, "att") {
        Some(to_owned_string("AT&T"))
    } else if contains(l, "une") {
        Some(to_owned_string("UNE"))
    } else if contains(l, "millicom") {
        Some(to_owned_string("Millicom"))
    } else if contains(l, "telefonica") {
        Some(to_owned_string("Telefónica"))
    } else if contains(l, "supercanal") {
        Some(to_owned_string("Supercanal"))
    } else {
        None
    }
}

/// The row index of a table OID: what follows its last dot.
pub fn oid_index(oid: &str) -> (r: String)
    ensures
        r@ == after_last(oid@, '.'),
{
    after_last_char(oid, '.')
}

/// `s` without its NUL characters.
pub open spec fn without_nul(s: Seq<char>) -> Seq<char>
    decreases s.len(),
{
    if s.len() == 0 {
        s
    } else if s.last() == '\0' {
        without_nul(s.drop_last())
    } else {
        without_nul(s.drop_last()).push(s.last())
    }
}

/// Device text with NUL characters removed and surrounding white space trimmed.
pub open spec fn clean_text_spec(s: Seq<char>) -> Seq<char> {
    trim_spec(without_nul(s))
}

/// Removes NUL characters, then trims.
pub fn clean_text(s: &str) -> (r: String)
    ensures
        r@ == clean_text_spec(s@),
{
    let cs = chars_of(s);
    let mut kept: Vec<char> = Vec::new();
    let mut i: usize = 0;
    while i < cs.len()
        invariant
            i <= cs.len(),
            kept@ == without_nul(cs@.take(i as int)),
        decreases cs.len() - i,
    {
        assert(cs@.take(i + 1).drop_last() =~= cs@.take(i as int));
        if cs[i] != '\0' {
            kept.push(cs[i]);
        }
        i += 1;
    }
    assert(cs@.take(cs.len() as int) =~= cs@);
    let t = trim_chars(kept.as_slice());
    string_of(t.as_slice())
}

/// An address reported by the device as text.
pub open spec fn addr_text_spec(v: SnmpValue) -> Seq<char> {
    match v {
        SnmpValue::IpAddress(ip) => ip@,
        SnmpValue::OctetString(s) => clean_text_spec(s@),
        SnmpValue::OctetStringRaw(_) => "unknown"@,
        _ => clean_text_spec(v.as_string_spec()),
    }
}

/// An address value as text: IP addresses as they are, text cleaned, raw
/// bytes unknown.
pub fn snmp_addr_to_string(value: &SnmpValue) -> (r: String)
    ensures
        r@ == addr_text_spec(*value),
{
    match value {
        SnmpValue::IpAddress(ip) => ip.clone(),
        SnmpValue::OctetString(s) => clean_text(s.as_str()),
        SnmpValue::OctetStringRaw(_) => to_owned_string("unknown"),
        _ => {
            let t = value.as_string();
            clean_text(t.as_str())
        },
    }
}

/// The tables walked to find a router's WAN interfaces: each a list of
/// (OID, value) pairs, one per interface row.
pub struct InterfaceTables {
    pub descrs: Vec<(String, SnmpValue)>,
    pub names: Vec<(String, SnmpValue)>,
    pub aliases: Vec<(String, SnmpValue)>,
    pub admin_status: Vec<(String, SnmpValue)>,
    pub oper_status: Vec<(String, SnmpValue)>,
    pub speeds: Vec<(String, SnmpValue)>,
    pub in_octets: Vec<(String, SnmpValue)>,
    pub out_octets: Vec<(String, SnmpValue)>,
    pub in_errors: Vec<(String, SnmpValue)>,
    pub out_errors: Vec<(String, SnmpValue)>,
    pub in_discards: Vec<(String, SnmpValue)>,
    pub out_discards: Vec<(String, SnmpValue)>,
    pub in_ucast: Vec<(String, SnmpValue)>,
    pub out_ucast: Vec<(String, SnmpValue)>,
}

/// A WAN interface of the router, with its counters.
#[derive(Debug, Clone)]
pub struct WanInterface {
    pub index: String,
    pub name: String,
    pub if_name: String,
    pub alias: Option<String>,
    pub is_wan: bool,
    pub admin_status: u8,
    pub oper_status: u8,
    pub speed_mbps: u64,
    pub traffic_in_bytes: u64,
    pub traffic_out_bytes: u64,
    pub errors_in: u64,
    pub errors_out: u64,
    pub discards_in: u64,
    pub discards_out: u64,
    pub packets_in: u64,
    pub packets_out: u64,
    pub isp_detected: Option<String>,
}

/// A WAN interface with its texts as character sequences.
pub ghost struct WanView {
    pub index: Seq<char>,
    pub name: Seq<char>,
    pub if_name: Seq<char>,
    pub alias: Option<Seq<char>>,
    pub is_wan: bool,
    pub admin_status: u8,
    pub oper_status: u8,
    pub speed_mbps: u64,
    pub traffic_in_bytes: u64,
    pub traffic_out_bytes: u64,
    pub errors_in: u64,
    pub errors_out: u64,
    pub discards_in: u64,
    pub discards_out: u64,
    pub packets_in: u64,
    pub packets_out: u64,
    pub isp_detected: Option<Seq<char>>,
}

/// The view of an optional string.
pub open spec fn opt_str_view(o: Option<String>) -> Option<Seq<char>> {
    match o {
        Some(s) => Some(s@),
        None => None,
    }
}

impl View for WanInterface {
    type V = WanView;

    open spec fn view(&self) -> WanView {
        WanView {
            index: self.index@,
            name: self.name@,
            if_name: self.if_name@,
            alias: opt_str_view(self.alias),
            is_wan: self.is_wan,
            admin_status: self.admin_status,
            oper_status: self.oper_status,
            speed_mbps: self.speed_mbps,
            traffic_in_bytes: self.traffic_in_bytes,
            traffic_out_bytes: self.traffic_out_bytes,
            errors_in: self.errors_in,
            errors_out: self.errors_out,
            discards_in: self.discards_in,
            discards_out: self.discards_out,
            packets_in: self.packets_in,
            packets_out: self.packets_out,
            isp_detected: opt_str_view(self.isp_detected),
        }
    }
}

/// The value of the first row of `t` whose index is `idx`.
pub open spec fn table_find(t: Seq<(String, SnmpValue)>, idx: Seq<char>) -> Option<SnmpValue>
    decreases t.len(),
{
    if t.len() == 0 {
        None
    } else if after_last(t[0].0@, '.') == idx {
        Some(t[0].1)
    } else {
        table_find(t.drop_first(), idx)
    }
}

/// The signed number in row `idx` of `t`, or 0.
pub open spec fn table_i64(t: Seq<(String, SnmpValue)>, idx: Seq<char>) -> i64 {
    match table_find(t, idx) {
        Some(v) => match v.as_i64_spec() {
            Some(x) => x,
            None => 0,
        },
        None => 0,
    }
}

/// The unsigned number in row `idx` of `t`, or 0.
pub open spec fn table_u64(t: Seq<(String, SnmpValue)>, idx: Seq<char>) -> u64 {
    match table_find(t, idx) {
        Some(v) => match v.as_u64_spec() {
            Some(x) => x,
            None => 0,
        },
        None => 0,
    }
}

/// The provider named first by the name, the alias (if any), the interface name.
pub open spec fn row_isp(name: Seq<char>, alias: Option<Seq<char>>, if_name: Seq<char>) -> Option<Seq<char>> {
    match isp_spec(lowercase(name)) {
        Some(i) => Some(i),
        None => match alias {
            Some(a) => match isp_spec(lowercase(a)) {
                Some(i) => Some(i),
                None => isp_spec(lowercase(if_name)),
            },
            None => isp_spec(lowercase(if_name)),
        },
    }
}

/// The interface described by the base row (`oid`, `name_val`), when one of
/// its names suggests a WAN uplink.
pub open spec fn wan_row(t: InterfaceTables, oid: Seq<char>, name_val: SnmpValue) -> Option<WanView> {
    let idx = after_last(oid, '.');
    let name = clean_text_spec(name_val.as_string_spec());
    let if_name = match table_find(t.names@, idx) {
        Some(v) => clean_text_spec(v.as_string_spec()),
        None => name,
    };
    let alias = match table_find(t.aliases@, idx) {
        Some(v) => if clean_text_spec(v.as_string_spec()).len() > 0 {
            Some(clean_text_spec(v.as_string_spec()))
        } else {
            None
        },
        None => None,
    };
    let is_wan = wan_name_spec(lowercase(name)) || wan_name_spec(lowercase(if_name)) || match alias {
        Some(a) => wan_name_spec(lowercase(a)),
        None => false,
    };
    if !is_wan {
        None
    } else {
        Some(WanView {
            index: idx,
            name,
            if_name,
            alias,
            is_wan: true,
            admin_status: table_i64(t.admin_status@, idx) as u8,
            oper_status: table_i64(t.oper_status@, idx) as u8,
            speed_mbps: table_u64(t.speeds@, idx),
            traffic_in_bytes: table_u64(t.in_octets@, idx),
            traffic_out_bytes: table_u64(t.out_octets@, idx),
            errors_in: table_u64(t.in_errors@, idx),
            errors_out: table_u64(t.out_errors@, idx),
            discards_in: table_u64(t.in_discards@, idx),
            discards_out: table_u64(t.out_discards@, idx),
            packets_in: table_u64(t.in_ucast@, idx),
            packets_out: table_u64(t.out_ucast@, idx),
            isp_detected: row_isp(name, alias, if_name),
        })
    }
}

/// The WAN interfaces among the first `n` base rows, in row order.
pub open spec fn wan_rows(t: InterfaceTables, base: Seq<(String, SnmpValue)>) -> Seq<WanView>
    decreases base.len(),
{
    if base.len() == 0 {
        Seq::empty()
    } else {
        let rest = wan_rows(t, base.drop_last());
        match wan_row(t, base.last().0@, base.last().1) {
            Some(w) => rest.push(w),
            None => rest,
        }
    }
}

/// The rows interfaces are listed by: ifDescr when walked, else ifName.
pub open spec fn base_rows(t: InterfaceTables) -> Seq<(String, SnmpValue)> {
    if t.descrs@.len() > 0 {
        t.descrs@
    } else {
        t.names@
    }
}

/// The value of the first row of `t` whose index is `idx`.
pub fn find_row<'a>(t: &'a Vec<(String, SnmpValue)>, idx: &str) -> (r: Option<&'a SnmpValue>)
    ensures
        match r {
            Some(v) => table_find(t@, idx@) == Some(*v),
            None => table_find(t@, idx@) is None,
        },
{
    let mut i: usize = 0;
    assert(t@.skip(0) =~= t@);
    while i < t.len()
        invariant
            i <= t@.len(),
            table_find(t@, idx@) == table_find(t@.skip(i as int), idx@),
        decreases t.len() - i,
    {
        let row_idx = oid_index(t[i].0.as_str());
        if eq_str(row_idx.as_str(), idx) {
            assert(t@.skip(i as int)[0] == t@[i as int]);
            return Some(&t[i].1);
        }
        assert(t@.skip(i as int).drop_first() =~= t@.skip(i + 1));
        i += 1;
    }
    None
}

/// The signed number in row `idx` of `t`, or 0.
fn row_i64(t: &Vec<(String, SnmpValue)>, idx: &str) -> (r: i64)
    ensures
        r == table_i64(t@, idx@),
{
    match find_row(t, idx) {
        Some(v) => match v.as_i64() {
            Some(x) => x,
            None => 0,
        },
        None => 0,
    }
}

/// The unsigned number in row `idx` of `t`, or 0.
fn row_u64(t: &Vec<(String, SnmpValue)>, idx: &str) -> (r: u64)
    ensures
        r == table_u64(t@, idx@),
{
    match find_row(t, idx) {
        Some(v) => match v.as_u64() {
            Some(x) => x,
            None => 0,
        },
        None => 0,
    }
}

/// The interface of one base row, when it is a WAN uplink.
fn wan_interface_of(t: &InterfaceTables, oid: &str, name_val: &SnmpValue) -> (r: Option<WanInterface>)
    ensures
        match r {
            Some(w) => wan_row(*t, oid@, *name_val) == Some(w@),
            None => wan_row(*t, oid@, *name_val) is None,
        },
{
    let idx = oid_index(oid);
    let raw_name = name_val.as_string();
    let name = clean_text(raw_name.as_str());
    let if_name = match find_row(&t.names, idx.as_str()) {
        Some(v) => {
            let s = v.as_string();
            clean_text(s.as_str())
        },
        None => name.clone(),
    };
    let alias: Option<String> = match find_row(&t.aliases, idx.as_str()) {
        Some(v) => {
            let s = v.as_string();
            let a = clean_text(s.as_str());
            if a.as_str().is_empty() {
                None
            } else {
                Some(a)
            }
        },
        None => None,
    };
    let mut is_wan = is_wan_candidate(name.as_str()) || is_wan_candidate(if_name.as_str());
    match &alias {
        Some(a) => {
            if is_wan_candidate(a.as_str()) {
                is_wan = true;
            }
        },
        None => {},
    }
    if !is_wan {
        return None;
    }
    let admin_status = row_i64(&t.admin_status, idx.as_str()) as u8;
    let oper_status = row_i64(&t.oper_status, idx.as_str()) as u8;
    let speed_mbps = row_u64(&t.speeds, idx.as_str());
    let traffic_in = row_u64(&t.in_octets, idx.as_str());
    let traffic_out = row_u64(&t.out_octets, idx.as_str());
    let errors_in = row_u64(&t.in_errors, idx.as_str());
    let errors_out = row_u64(&t.out_errors, idx.as_str());
    let discards_in = row_u64(&t.in_discards, idx.as_str());
    let discards_out = row_u64(&t.out_discards, idx.as_str());
    let packets_in = row_u64(&t.in_ucast, idx.as_str());
    let packets_out = row_u64(&t.out_ucast, idx.as_str());
    let mut isp = detect_isp_from_name(name.as_str());
    if isp.is_none() {
        match &alias {
            Some(a) => {
                isp = detect_isp_from_name(a.as_str());
            },
            None => {},
        }
    }
    if isp.is_none() {
        isp = detect_isp_from_name(if_name.as_str());
    }
    let w = WanInterface {
        index: idx,
        name,
        if_name,
        alias,
        is_wan: true,
        admin_status,
        oper_status,
        speed_mbps,
        traffic_in_bytes: traffic_in,
        traffic_out_bytes: traffic_out,
        errors_in,
        errors_out,
        discards_in,
        discards_out,
        packets_in,
        packets_out,
        isp_detected: isp,
    };
    Some(w)
}

/// The WAN interfaces of the router, in the order of its interface rows:
/// each row whose description, name or alias suggests an uplink, with the
/// status and counters found under the same index (0 where none is).
pub fn build_wan_interfaces(t: &InterfaceTables) -> (r: Vec<WanInterface>)
    ensures
        r@.map_values(|w: WanInterface| w@) == wan_rows(*t, base_rows(*t)),
{
    let base = if t.descrs.len() > 0 { &t.descrs } else { &t.names };
    let mut out: Vec<WanInterface> = Vec::new();
    let mut i: usize = 0;
    while i < base.len()
        invariant
            base@ == base_rows(*t),
            i <= base@.len(),
            out@.map_values(|w: WanInterface| w@) == wan_rows(*t, base@.take(i as int)),
        decreases base.len() - i,
    {
        let row = wan_interface_of(t, base[i].0.as_str(), &base[i].1);
        assert(base@.take(i + 1).drop_last() =~= base@.take(i as int));
        match row {
            Some(w) => {
                out.push(w);
                assert(out@.map_values(|w: WanInterface| w@) =~= wan_rows(*t, base@.take(i as int)).push(w@));
            },
            None => {},
        }
        i += 1;
    }
    assert(base@.take(base@.len() as int) =~= base@);
    out
}

/// Netwatch probe status text: 1 is up, 2 is down.
pub open spec fn probe_status_text_spec(status: u8) -> Seq<char> {
    if status == 1 {
        "up"@
    } else if status == 2 {
        "down"@
    } else {
        "unknown"@
    }
}

/// The tables walked for the router's Netwatch probes.
pub struct NetwatchTables {
    pub names: Vec<(String, SnmpValue)>,
    pub ips: Vec<(String, SnmpValue)>,
    pub intervals: Vec<(String, SnmpValue)>,
    pub timeouts: Vec<(String, SnmpValue)>,
    pub status: Vec<(String, SnmpValue)>,
}

/// A Netwatch probe: a host the router pings, and whether it answers.
#[derive(Debug, Clone)]
pub struct NetwatchProbe {
    pub index: String,
    pub name: String,
    pub target_ip: String,
    pub interval_ms: u64,
    pub timeout_ms: u64,
    pub status: u8,
    pub status_text: String,
    pub isp_detected: Option<String>,
}

/// A Netwatch probe with its texts as character sequences.
pub ghost struct ProbeView {
    pub index: Seq<char>,
    pub name: Seq<char>,
    pub target_ip: Seq<char>,
    pub interval_ms: u64,
    pub timeout_ms: u64,
    pub status: u8,
    pub status_text: Seq<char>,
    pub isp_detected: Option<Seq<char>>,
}

impl View for NetwatchProbe {
    type V = ProbeView;

    open spec fn view(&self) -> ProbeView {
        ProbeView {
            index: self.index@,
            name: self.name@,
            target_ip: self.target_ip@,
            interval_ms: self.interval_ms,
            timeout_ms: self.timeout_ms,
            status: self.status,
            status_text: self.status_text@,
            isp_detected: opt_str_view(self.isp_detected),
        }
    }
}

/// The address in row `idx` of `t` as text, or nothing.
pub open spec fn table_addr(t: Seq<(String, SnmpValue)>, idx: Seq<char>) -> Seq<char> {
    match table_find(t, idx) {
        Some(v) => addr_text_spec(v),
        None => Seq::empty(),
    }
}

/// The probe described by the name row (`oid`, `name_val`).
pub open spec fn probe_row(t: NetwatchTables, oid: Seq<char>, name_val: SnmpValue) -> ProbeView {
    let idx = after_last(oid, '.');
    let name = name_val.as_string_spec();
    let status = table_i64(t.status@, idx) as u8;
    ProbeView {
        index: idx,
        name,
        target_ip: table_addr(t.ips@, idx),
        interval_ms: table_u64(t.intervals@, idx),
        timeout_ms: table_u64(t.timeouts@, idx),
        status,
        status_text: probe_status_text_spec(status),
        isp_detected: isp_spec(lowercase(name)),
    }
}

/// The address in row `idx` of `t` as text, or an empty string.
fn row_addr(t: &Vec<(String, SnmpValue)>, idx: &str) -> (r: String)
    ensures
        r@ == table_addr(t@, idx@),
{
    match find_row(t, idx) {
        Some(v) => snmp_addr_to_string(v),
        None => String::new(),
    }
}

/// The probes of the router, one per name row, in row order; and whether
/// Netwatch answered at all (some name row was walked).
pub fn build_netwatch_probes(t: &NetwatchTables) -> (r: (Vec<NetwatchProbe>, bool))
    ensures
        r.1 == (t.names@.len() > 0),
        r.0@.len() == t.names@.len(),
        forall|i: int| 0 <= i < r.0@.len() ==> #[trigger] r.0@[i]@ == probe_row(*t, t.names@[i].0@, t.names@[i].1),
{
    let mut out: Vec<NetwatchProbe> = Vec::new();
    if t.names.len() == 0 {
        return (out, false);
    }
    let mut i: usize = 0;
    while i < t.names.len()
        invariant
            i <= t.names@.len(),
            out@.len() == i,
            forall|j: int| 0 <= j < i ==> #[trigger] out@[j]@ == probe_row(*t, t.names@[j].0@, t.names@[j].1),
        decreases t.names.len() - i,
    {
        let idx = oid_index(t.names[i].0.as_str());
        let name = t.names[i].1.as_string();
        let target_ip = row_addr(&t.ips, idx.as_str());
        let interval = row_u64(&t.intervals, idx.as_str());
        let timeout = row_u64(&t.timeouts, idx.as_str());
        let status = row_i64(&t.status, idx.as_str()) as u8;
        let status_text = match status {
            1 => to_owned_string("up"),
            2 => to_owned_string("down"),
            _ => to_owned_string("unknown"),
        };
        let isp = detect_isp_from_name(name.as_str());
        out.push(NetwatchProbe {
            index: idx,
            name,
            target_ip,
            interval_ms: interval,
            timeout_ms: timeout,
            status,
            status_text,
            isp_detected: isp,
        });
        i += 1;
    }
    (out, true)
}

/// The tables walked for the router's simple queues.
pub struct QueueTables {
    pub names: Vec<(String, SnmpValue)>,
    pub src_addrs: Vec<(String, SnmpValue)>,
    pub dst_addrs: Vec<(String, SnmpValue)>,
    pub interfaces: Vec<(String, SnmpValue)>,
    pub tx_bytes: Vec<(String, SnmpValue)>,
    pub tx_packets: Vec<(String, SnmpValue)>,
    pub rx_bytes: Vec<(String, SnmpValue)>,
    pub rx_packets: Vec<(String, SnmpValue)>,
    pub tx_drops: Vec<(String, SnmpValue)>,
    pub rx_drops: Vec<(String, SnmpValue)>,
}

/// A simple queue of the router, with its traffic and drop counters.
#[derive(Debug, Clone)]
pub struct QueueEntry {
    pub index: String,
    pub name: String,
    pub src_addr: String,
    pub dst_addr: String,
    pub interface: String,
    pub tx_bytes: u64,
    pub rx_bytes: u64,
    pub tx_packets: u64,
    pub rx_packets: u64,
    pub tx_drop: u64,
    pub rx_drop: u64,
    pub isp_detected: Option<String>,
}

/// A queue with its texts as character sequences.
pub ghost struct QueueView {
    pub index: Seq<char>,
    pub name: Seq<char>,
    pub src_addr: Seq<char>,
    pub dst_addr: Seq<char>,
    pub interface: Seq<char>,
    pub tx_bytes: u64,
    pub rx_bytes: u64,
    pub tx_packets: u64,
    pub rx_packets: u64,
    pub tx_drop: u64,
    pub rx_drop: u64,
    pub isp_detected: Option<Seq<char>>,
}

impl View for QueueEntry {
    type V = QueueView;

    open spec fn view(&self) -> QueueView {
        QueueView {
            index: self.index@,
            name: self.name@,
            src_addr: self.src_addr@,
            dst_addr: self.dst_addr@,
            interface: self.interface@,
            tx_bytes: self.tx_bytes,
            rx_bytes: self.rx_bytes,
            tx_packets: self.tx_packets,
            rx_packets: self.rx_packets,
            tx_drop: self.tx_drop,
            rx_drop: self.rx_drop,
            isp_detected: opt_str_view(self.isp_detected),
        }
    }
}

/// The queue described by the name row (`oid`, `name_val`).
pub open spec fn queue_row(t: QueueTables, oid: Seq<char>, name_val: SnmpValue) -> QueueView {
    let idx = after_last(oid, '.');
    let name = name_val.as_string_spec();
    QueueView {
        index: idx,
        name,
        src_addr: table_addr(t.src_addrs@, idx),
        dst_addr: table_addr(t.dst_addrs@, idx),
        interface: match table_find(t.interfaces@, idx) {
            Some(v) => clean_text_spec(v.as_string_spec()),
            None => Seq::empty(),
        },
        tx_bytes: table_u64(t.tx_bytes@, idx),
        rx_bytes: table_u64(t.rx_bytes@, idx),
        tx_packets: table_u64(t.tx_packets@, idx),
        rx_packets: table_u64(t.rx_packets@, idx),
        tx_drop: table_u64(t.tx_drops@, idx),
        rx_drop: table_u64(t.rx_drops@, idx),
        isp_detected: isp_spec(lowercase(name)),
    }
}

/// The queues of the router, one per name row, in row order; and whether
/// any queue was walked.
pub fn build_queue_entries(t: &QueueTables) -> (r: (Vec<QueueEntry>, bool))
    ensures
        r.1 == (t.names@.len() > 0),
        r.0@.len() == t.names@.len(),
        forall|i: int| 0 <= i < r.0@.len() ==> #[trigger] r.0@[i]@ == queue_row(*t, t.names@[i].0@, t.names@[i].1),
{
    let mut out: Vec<QueueEntry> = Vec::new();
    if t.names.len() == 0 {
        return (out, false);
    }
    let mut i: usize = 0;
    while i < t.names.len()
        invariant
            i <= t.names@.len(),
            out@.len() == i,
            forall|j: int| 0 <= j < i ==> #[trigger] out@[j]@ == queue_row(*t, t.names@[j].0@, t.names@[j].1),
        decreases t.names.len() - i,
    {
        let idx = oid_index(t.names[i].0.as_str());
        let name = t.names[i].1.as_string();
        let src_addr = row_addr(&t.src_addrs, idx.as_str());
        let dst_addr = row_addr(&t.dst_addrs, idx.as_str());
        let interface = match find_row(&t.interfaces, idx.as_str()) {
            Some(v) => {
                let s = v.as_string();
                clean_text(s.as_str())
            },
            None => String::new(),
        };
        let tx_bytes = row_u64(&t.tx_bytes, idx.as_str());
        let tx_packets = row_u64(&t.tx_packets, idx.as_str());
        let rx_bytes = row_u64(&t.rx_bytes, idx.as_str());
        let rx_packets = row_u64(&t.rx_packets, idx.as_str());
        let tx_drop = row_u64(&t.tx_drops, idx.as_str());
        let rx_drop = row_u64(&t.rx_drops, idx.as_str());
        let isp = detect_isp_from_name(name.as_str());
        out.push(QueueEntry {
            index: idx,
            name,
            src_addr,
            dst_addr,
            interface,
            tx_bytes,
            rx_bytes,
            tx_packets,
            rx_packets,
            tx_drop,
            rx_drop,
            isp_detected: isp,
        });
        i += 1;
    }
    (out, true)
}

/// How many of `probes` report status 1 (up).
pub open spec fn probes_up(probes: Seq<NetwatchProbe>) -> nat
    decreases probes.len(),
{
    if probes.len() == 0 {
        0
    } else {
        probes_up(probes.drop_last()) + if probes.last().status == 1 { 1nat } else { 0nat }
    }
}

/// The Netwatch summary counts: probes in all, up, and down (not up).
pub fn netwatch_counts(probes: &Vec<NetwatchProbe>) -> (r: (usize, usize, usize))
    ensures
        r.0 == probes@.len(),
        r.1 == probes_up(probes@),
        r.2 == probes@.len() - probes_up(probes@),
{
    let mut up: usize = 0;
    let mut i: usize = 0;
    while i < probes.len()
        invariant
            i <= probes@.len(),
            up == probes_up(probes@.take(i as int)),
            up <= i,
        decreases probes.len() - i,
    {
        assert(probes@.take(i + 1).drop_last() =~= probes@.take(i as int));
        if probes[i].status == 1 {
            up += 1;
        }
        i += 1;
    }
    assert(probes@.take(probes.len() as int) =~= probes@);
    (probes.len(), up, probes.len() - up)
}

/// The sum of the transmit drops of the first `n` queues.
pub open spec fn tx_drops_sum(e: Seq<QueueEntry>, n: int) -> nat
    decreases n,
{
    if n <= 0 {
        0
    } else {
        tx_drops_sum(e, n - 1) + e[n - 1].tx_drop as nat
    }
}

/// The sum of the receive drops of the first `n` queues.
pub open spec fn rx_drops_sum(e: Seq<QueueEntry>, n: int) -> nat
    decreases n,
{
    if n <= 0 {
        0
    } else {
        rx_drops_sum(e, n - 1) + e[n - 1].rx_drop as nat
    }
}

/// The queues' total transmit and receive drops, exactly; it is for the
/// caller to fit them in 64 bits.
pub fn queue_drop_totals(entries: &Vec<QueueEntry>) -> (r: (u128, u128))
    ensures
        r.0 == tx_drops_sum(entries@, entries@.len() as int),
        r.1 == rx_drops_sum(entries@, entries@.len() as int),
{
    let mut tx: u128 = 0;
    let mut rx: u128 = 0;
    let mut i: usize = 0;
    while i < entries.len()
        invariant
            i <= entries@.len(),
            tx == tx_drops_sum(entries@, i as int),
            rx == rx_drops_sum(entries@, i as int),
            tx <= (i as int) * 0xffff_ffff_ffff_ffff,
            rx <= (i as int) * 0xffff_ffff_ffff_ffff,
        decreases entries.len() - i,
    {
        proof {
            assert((i + 1) * 0xffff_ffff_ffff_ffff <= 0xffff_ffff_ffff_ffff * 0xffff_ffff_ffff_ffff) by (nonlinear_arith)
                requires
                    i + 1 <= 0xffff_ffff_ffff_ffff,
            ;
        }
        tx = tx + entries[i].tx_drop as u128;
        rx = rx + entries[i].rx_drop as u128;
        i += 1;
    }
    (tx, rx)
}

} // verus!

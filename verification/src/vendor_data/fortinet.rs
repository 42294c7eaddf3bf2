//! FortiGate data: sessions, high availability, VPN tunnels, AV/IPS
//! detections and SD-WAN link health (FORTINET-FORTIGATE-MIB).

use vstd::prelude::*;
use crate::interfaces::{
    add_indices, col_i64, col_text, col_u64, has_index, i64_of, strictly_sorted, text_of, texts_of, u64_of,
};
use crate::mikrotik::oid_index;
use crate::snmp::types::SnmpValue;
use crate::text::after_last;

verus! {

/// What was read from a FortiGate: scalar values (`None` when the device
/// gave none) and the walked tables as (OID, value) rows.
pub struct FortinetReadings {
    pub sessions_ipv4: Option<SnmpValue>,
    pub sessions_ipv6: Option<SnmpValue>,
    pub session_rate: Option<SnmpValue>,
    pub ha_mode: Option<SnmpValue>,
    pub ha_group: Option<SnmpValue>,
    pub ha_priority: Option<SnmpValue>,
    pub av_detections: Option<SnmpValue>,
    pub ips_detections: Option<SnmpValue>,
    pub tunnel_names: Vec<(String, SnmpValue)>,
    pub tunnel_status: Vec<(String, SnmpValue)>,
    pub tunnel_in_octets: Vec<(String, SnmpValue)>,
    pub tunnel_out_octets: Vec<(String, SnmpValue)>,
    pub sdwan_names: Vec<(String, SnmpValue)>,
    pub sdwan_latency: Vec<(String, SnmpValue)>,
    pub sdwan_jitter: Vec<(String, SnmpValue)>,
    pub sdwan_packet_loss: Vec<(String, SnmpValue)>,
    pub sdwan_bandwidth_in: Vec<(String, SnmpValue)>,
    pub sdwan_bandwidth_out: Vec<(String, SnmpValue)>,
}

/// High-availability settings, reported when HA is enabled.
#[derive(Debug, Clone)]
pub struct HaInfo {
    pub mode: i64,
    pub group: String,
    pub priority: i64,
}

/// An IPsec tunnel; status 1 means up.
#[derive(Debug, Clone)]
pub struct VpnTunnel {
    pub index: String,
    pub name: String,
    pub status: i64,
    pub in_octets: u64,
    pub out_octets: u64,
}

/// The health of an SD-WAN link.
#[derive(Debug, Clone)]
pub struct SdwanLink {
    pub name: String,
    pub latency_ms: i64,
    pub jitter_ms: i64,
    pub packet_loss_pct: i64,
    pub bandwidth_in_kbps: u64,
    pub bandwidth_out_kbps: u64,
}

/// The FortiGate section.
#[derive(Debug, Clone)]
pub struct FortinetData {
    pub sessions_ipv4: i64,
    pub sessions_ipv6: i64,
    pub session_rate: i64,
    pub ha: Option<HaInfo>,
    pub vpn_tunnels: Vec<VpnTunnel>,
    pub av_detections: Option<i64>,
    pub ips_detections: Option<i64>,
    /// Present when the SD-WAN table was walked with at least one link.
    pub sdwan_links: Option<Vec<SdwanLink>>,
}

/// A tunnel with its texts as character sequences.
pub ghost struct TunnelView {
    pub index: Seq<char>,
    pub name: Seq<char>,
    pub status: i64,
    pub in_octets: u64,
    pub out_octets: u64,
}

impl View for VpnTunnel {
    type V = TunnelView;

    open spec fn view(&self) -> TunnelView {
        TunnelView {
            index: self.index@,
            name: self.name@,
            status: self.status,
            in_octets: self.in_octets,
            out_octets: self.out_octets,
        }
    }
}

/// A link with its name as a character sequence.
pub ghost struct LinkView {
    pub name: Seq<char>,
    pub latency_ms: i64,
    pub jitter_ms: i64,
    pub packet_loss_pct: i64,
    pub bandwidth_in_kbps: u64,
    pub bandwidth_out_kbps: u64,
}

impl View for SdwanLink {
    type V = LinkView;

    open spec fn view(&self) -> LinkView {
        LinkView {
            name: self.name@,
            latency_ms: self.latency_ms,
            jitter_ms: self.jitter_ms,
            packet_loss_pct: self.packet_loss_pct,
            bandwidth_in_kbps: self.bandwidth_in_kbps,
            bandwidth_out_kbps: self.bandwidth_out_kbps,
        }
    }
}

/// A scalar read as a signed number, 0 when missing or not a number.
pub open spec fn scalar_i64(v: Option<SnmpValue>) -> i64 {
    match v {
        Some(x) => match x.as_i64_spec() {
            Some(n) => n,
            None => 0,
        },
        None => 0,
    }
}

/// A scalar read as a signed number, when it is one.
pub open spec fn scalar_number(v: Option<SnmpValue>) -> Option<i64> {
    match v {
        Some(x) => x.as_i64_spec(),
        None => None,
    }
}

/// A scalar read as text, empty when missing.
pub open spec fn scalar_text(v: Option<SnmpValue>) -> Seq<char> {
    match v {
        Some(x) => x.as_string_spec(),
        None => Seq::empty(),
    }
}

/// The tunnel of index `idx`: its name, status (0 when unknown) and counters.
pub open spec fn tunnel_spec(r: FortinetReadings, idx: Seq<char>) -> TunnelView {
    TunnelView {
        index: idx,
        name: match col_text(r.tunnel_names@, idx) {
            Some(n) => n,
            None => Seq::empty(),
        },
        status: match col_i64(r.tunnel_status@, idx) {
            Some(s) => s,
            None => 0,
        },
        in_octets: col_u64(r.tunnel_in_octets@, idx),
        out_octets: col_u64(r.tunnel_out_octets@, idx),
    }
}

/// The link of row `j` of the SD-WAN names, with the health columns of its index.
pub open spec fn link_spec(r: FortinetReadings, j: int) -> LinkView {
    let idx = after_last(r.sdwan_names@[j].0@, '.');
    LinkView {
        name: r.sdwan_names@[j].1.as_string_spec(),
        latency_ms: match col_i64(r.sdwan_latency@, idx) {
            Some(v) => v,
            None => 0,
        },
        jitter_ms: match col_i64(r.sdwan_jitter@, idx) {
            Some(v) => v,
            None => 0,
        },
        packet_loss_pct: match col_i64(r.sdwan_packet_loss@, idx) {
            Some(v) => v,
            None => 0,
        },
        bandwidth_in_kbps: col_u64(r.sdwan_bandwidth_in@, idx),
        bandwidth_out_kbps: col_u64(r.sdwan_bandwidth_out@, idx),
    }
}

pub(crate) fn scalar_i64_exec(v: &Option<SnmpValue>) -> (r: i64)
    ensures
        r == scalar_i64(*v),
{
    match v {
        Some(x) => match x.as_i64() {
            Some(n) => n,
            None => 0,
        },
        None => 0,
    }
}

pub(crate) fn scalar_number_exec(v: &Option<SnmpValue>) -> (r: Option<i64>)
    ensures
        r == scalar_number(*v),
{
    match v {
        Some(x) => x.as_i64(),
        None => None,
    }
}

/// The tunnels: one per index of the name table, in index order.
fn vpn_tunnels(r: &FortinetReadings) -> (t: Vec<VpnTunnel>)
    ensures
        strictly_sorted(t@.map_values(|x: VpnTunnel| x.index@)),
        forall|x: Seq<char>| t@.map_values(|v: VpnTunnel| v.index@).contains(x) <==> has_index(r.tunnel_names@, x),
        forall|i: int| 0 <= i < t@.len() ==> (#[trigger] t@[i])@ == tunnel_spec(*r, t@[i].index@),
{
    let mut idxs: Vec<String> = Vec::new();
    assert(texts_of(idxs@) =~= Seq::<Seq<char>>::empty());
    add_indices(&mut idxs, &r.tunnel_names);
    let mut out: Vec<VpnTunnel> = Vec::new();
    let mut i: usize = 0;
    while i < idxs.len()
        invariant
            i <= idxs@.len(),
            out@.len() == i,
            forall|j: int| 0 <= j < i ==> (#[trigger] out@[j]).index@ == idxs@[j]@,
            forall|j: int| 0 <= j < i ==> (#[trigger] out@[j])@ == tunnel_spec(*r, out@[j].index@),
        decreases idxs.len() - i,
    {
        let idx = idxs[i].as_str();
        let tunnel = VpnTunnel {
            index: idxs[i].clone(),
            name: match text_of(&r.tunnel_names, idx) {
                Some(n) => n,
                None => String::new(),
            },
            status: match i64_of(&r.tunnel_status, idx) {
                Some(s) => s,
                None => 0,
            },
            in_octets: u64_of(&r.tunnel_in_octets, idx),
            out_octets: u64_of(&r.tunnel_out_octets, idx),
        };
        out.push(tunnel);
        i += 1;
    }
    assert(out@.map_values(|x: VpnTunnel| x.index@) =~= texts_of(idxs@));
    assert forall|x: Seq<char>| out@.map_values(|v: VpnTunnel| v.index@).contains(x) <==> has_index(
        r.tunnel_names@,
        x,
    ) by {
        assert(out@.map_values(|v: VpnTunnel| v.index@) =~= texts_of(idxs@));
        assert(Seq::<Seq<char>>::empty().contains(x) == false);
    }
    out
}

/// The SD-WAN links, one per row of the name table, in walk order.
fn sdwan_links(r: &FortinetReadings) -> (l: Vec<SdwanLink>)
    ensures
        l@.len() == r.sdwan_names@.len(),
        forall|j: int| 0 <= j < l@.len() ==> (#[trigger] l@[j])@ == link_spec(*r, j),
{
    let mut out: Vec<SdwanLink> = Vec::new();
    let mut j: usize = 0;
    while j < r.sdwan_names.len()
        invariant
            j <= r.sdwan_names@.len(),
            out@.len() == j,
            forall|k: int| 0 <= k < j ==> (#[trigger] out@[k])@ == link_spec(*r, k),
        decreases r.sdwan_names.len() - j,
    {
        let idx_s = oid_index(r.sdwan_names[j].0.as_str());
        let idx = idx_s.as_str();
        let link = SdwanLink {
            name: r.sdwan_names[j].1.as_string(),
            latency_ms: match i64_of(&r.sdwan_latency, idx) {
                Some(v) => v,
                None => 0,
            },
            jitter_ms: match i64_of(&r.sdwan_jitter, idx) {
                Some(v) => v,
                None => 0,
            },
            packet_loss_pct: match i64_of(&r.sdwan_packet_loss, idx) {
                Some(v) => v,
                None => 0,
            },
            bandwidth_in_kbps: u64_of(&r.sdwan_bandwidth_in, idx),
            bandwidth_out_kbps: u64_of(&r.sdwan_bandwidth_out, idx),
        };
        out.push(link);
        j += 1;
    }
    out
}

/// The FortiGate section: sessions (0 when unknown), HA settings when the
/// HA mode is positive, the VPN tunnels, the AV/IPS detection counts the
/// device gave, and the SD-WAN links when that table has rows.
pub fn fortinet_vendor_data(r: &FortinetReadings) -> (d: FortinetData)
    ensures
        d.sessions_ipv4 == scalar_i64(r.sessions_ipv4),
        d.sessions_ipv6 == scalar_i64(r.sessions_ipv6),
        d.session_rate == scalar_i64(r.session_rate),
        scalar_i64(r.ha_mode) > 0 ==> (d.ha matches Some(h) && h.mode == scalar_i64(r.ha_mode) && h.group@
            == scalar_text(r.ha_group) && h.priority == scalar_i64(r.ha_priority)),
        scalar_i64(r.ha_mode) <= 0 ==> d.ha is None,
        strictly_sorted(d.vpn_tunnels@.map_values(|x: VpnTunnel| x.index@)),
        forall|x: Seq<char>| d.vpn_tunnels@.map_values(|v: VpnTunnel| v.index@).contains(x) <==> has_index(
            r.tunnel_names@,
            x,
        ),
        forall|i: int| 0 <= i < d.vpn_tunnels@.len() ==> (#[trigger] d.vpn_tunnels@[i])@ == tunnel_spec(
            *r,
            d.vpn_tunnels@[i].index@,
        ),
        d.av_detections == scalar_number(r.av_detections),
        d.ips_detections == scalar_number(r.ips_detections),
        r.sdwan_names@.len() == 0 ==> d.sdwan_links is None,
        r.sdwan_names@.len() > 0 ==> (d.sdwan_links matches Some(l) && l@.len() == r.sdwan_names@.len() && forall|j: int|
            0 <= j < l@.len() ==> (#[trigger] l@[j])@ == link_spec(*r, j)),
{
    let mode = scalar_i64_exec(&r.ha_mode);
    let ha = if mode > 0 {
        Some(HaInfo {
            mode,
            group: match &r.ha_group {
                Some(v) => v.as_string(),
                None => String::new(),
            },
            priority: scalar_i64_exec(&r.ha_priority),
        })
    } else {
        None
    };
    FortinetData {
        sessions_ipv4: scalar_i64_exec(&r.sessions_ipv4),
        sessions_ipv6: scalar_i64_exec(&r.sessions_ipv6),
        session_rate: scalar_i64_exec(&r.session_rate),
        ha,
        vpn_tunnels: vpn_tunnels(r),
        av_detections: scalar_number_exec(&r.av_detections),
        ips_detections: scalar_number_exec(&r.ips_detections),
        sdwan_links: if r.sdwan_names.len() > 0 { Some(sdwan_links(r)) } else { None },
    }
}

} // verus!

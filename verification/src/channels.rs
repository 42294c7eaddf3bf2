//! The Internet channels of a MikroTik firewall: one per WAN uplink,
//! completed with the Netwatch probe and the queue of the same provider,
//! and how many are up and down.

use vstd::prelude::*;
use crate::mikrotik::{
    opt_str_view, status_text_spec, status_to_text, NetwatchProbe, ProbeView, QueueEntry, QueueView,
    WanInterface, WanView,
};
use crate::text::{
    eq_ignore_ascii_case, eq_ignore_ascii_case_spec, eq_str, nat_decimal, push_decimal, push_str,
    to_owned_string,
};

verus! {

/// Traffic and drop counters of the queue matched to a channel.
#[derive(Debug, Clone, Copy)]
pub struct QueueStats {
    pub tx_bytes: u64,
    pub rx_bytes: u64,
    pub tx_drops: u64,
    pub rx_drops: u64,
}

/// What a channel was found from.
#[derive(Debug, Clone, Copy)]
pub enum ChannelSource {
    WanInterface,
    Netwatch,
}

/// One Internet channel of the router.
#[derive(Debug)]
pub struct Channel {
    pub channel_name: String,
    /// The provider's name, `Desconocido` when none was recognised.
    pub isp: String,
    pub isp_detected: Option<String>,
    pub source: ChannelSource,
    pub oper_status: String,
    pub is_up: bool,
    pub speed_mbps: u64,
    pub traffic_in_bytes: u64,
    pub traffic_out_bytes: u64,
    pub errors_in: u64,
    pub errors_out: u64,
    pub discards_in: u64,
    pub discards_out: u64,
    pub netwatch_status: Option<String>,
    pub netwatch_probe: Option<String>,
    pub netwatch_probe_name: Option<String>,
    pub queue: Option<QueueStats>,
    pub alerts: Vec<String>,
}

/// A channel with its texts as character sequences.
pub ghost struct ChannelView {
    pub channel_name: Seq<char>,
    pub isp: Seq<char>,
    pub isp_detected: Option<Seq<char>>,
    pub source: ChannelSource,
    pub oper_status: Seq<char>,
    pub is_up: bool,
    pub speed_mbps: u64,
    pub traffic_in_bytes: u64,
    pub traffic_out_bytes: u64,
    pub errors_in: u64,
    pub errors_out: u64,
    pub discards_in: u64,
    pub discards_out: u64,
    pub netwatch_status: Option<Seq<char>>,
    pub netwatch_probe: Option<Seq<char>>,
    pub netwatch_probe_name: Option<Seq<char>>,
    pub queue: Option<QueueStats>,
    pub alerts: Seq<Seq<char>>,
}

/// The views of a list of strings.
pub open spec fn strings_view(v: Seq<String>) -> Seq<Seq<char>> {
    v.map_values(|s: String| s@)
}

impl View for Channel {
    type V = ChannelView;

    open spec fn view(&self) -> ChannelView {
        ChannelView {
            channel_name: self.channel_name@,
            isp: self.isp@,
            isp_detected: opt_str_view(self.isp_detected),
            source: self.source,
            oper_status: self.oper_status@,
            is_up: self.is_up,
            speed_mbps: self.speed_mbps,
            traffic_in_bytes: self.traffic_in_bytes,
            traffic_out_bytes: self.traffic_out_bytes,
            errors_in: self.errors_in,
            errors_out: self.errors_out,
            discards_in: self.discards_in,
            discards_out: self.discards_out,
            netwatch_status: opt_str_view(self.netwatch_status),
            netwatch_probe: opt_str_view(self.netwatch_probe),
            netwatch_probe_name: opt_str_view(self.netwatch_probe_name),
            queue: self.queue,
            alerts: strings_view(self.alerts@),
        }
    }
}

/// The views of a list of channels.
pub open spec fn channels_view(v: Seq<Channel>) -> Seq<ChannelView> {
    v.map_values(|c: Channel| c@)
}

/// The alerts of a WAN channel: down, many errors (over 100), many
/// discards (over 500).
pub open spec fn channel_alerts_spec(
    name: Seq<char>,
    oper_status: Seq<char>,
    errors_in: u64,
    errors_out: u64,
    discards_in: u64,
    discards_out: u64,
) -> Seq<Seq<char>> {
    let a1: Seq<Seq<char>> = if eq_ignore_ascii_case_spec(oper_status, "DOWN"@) {
        seq!["Canal WAN DOWN: "@ + name]
    } else {
        Seq::empty()
    };
    let a2 = if errors_in + errors_out > 100 {
        a1.push(
            "Alto numero de errores en interfaz WAN: IN="@ + nat_decimal(errors_in as nat) + " OUT="@
                + nat_decimal(errors_out as nat),
        )
    } else {
        a1
    };
    if discards_in + discards_out > 500 {
        a2.push(
            "Descartes elevados en interfaz WAN: "@ + nat_decimal((discards_in + discards_out) as nat)
                + " paquetes"@,
        )
    } else {
        a2
    }
}

/// The alerts of a WAN channel.
pub fn check_channel_alerts(
    channel_name: &str,
    oper_status: &str,
    errors_in: u64,
    errors_out: u64,
    discards_in: u64,
    discards_out: u64,
) -> (r: Vec<String>)
    requires
        errors_in + errors_out <= u64::MAX,
        discards_in + discards_out <= u64::MAX,
    ensures
        strings_view(r@) == channel_alerts_spec(
            channel_name@,
            oper_status@,
            errors_in,
            errors_out,
            discards_in,
            discards_out,
        ),
{
    let mut alerts: Vec<String> = Vec::new();
    if eq_ignore_ascii_case(oper_status, "DOWN") {
        let mut m = to_owned_string("Canal WAN DOWN: ");
        push_str(&mut m, channel_name);
        alerts.push(m);
    }
    assert(strings_view(alerts@) =~= (if eq_ignore_ascii_case_spec(oper_status@, "DOWN"@) {
        seq!["Canal WAN DOWN: "@ + channel_name@]
    } else {
        Seq::<Seq<char>>::empty()
    }));
    let ghost a1 = strings_view(alerts@);
    if errors_in + errors_out > 100 {
        let mut m = to_owned_string("Alto numero de errores en interfaz WAN: IN=");
        push_decimal(&mut m, errors_in);
        push_str(&mut m, " OUT=");
        push_decimal(&mut m, errors_out);
        alerts.push(m);
        assert(strings_view(alerts@) =~= a1.push(m@));
    }
    let ghost a2 = strings_view(alerts@);
    if discards_in + discards_out > 500 {
        let mut m = to_owned_string("Descartes elevados en interfaz WAN: ");
        push_decimal(&mut m, discards_in + discards_out);
        push_str(&mut m, " paquetes");
        alerts.push(m);
        assert(strings_view(alerts@) =~= a2.push(m@));
    }
    alerts
}

/// The name a WAN channel is shown under: its alias, else its interface
/// name, else its description.
pub open spec fn wan_channel_name(w: WanView) -> Seq<char> {
    match w.alias {
        Some(a) => if a.len() > 0 {
            a
        } else if w.if_name.len() > 0 {
            w.if_name
        } else {
            w.name
        },
        None => if w.if_name.len() > 0 {
            w.if_name
        } else {
            w.name
        },
    }
}

/// The provider's name to show: the recognised one, else `Desconocido`.
pub open spec fn isp_label(isp: Option<Seq<char>>) -> Seq<char> {
    match isp {
        Some(i) => i,
        None => "Desconocido"@,
    }
}

/// The channel of a WAN interface.
pub open spec fn wan_channel(w: WanView) -> ChannelView {
    let name = wan_channel_name(w);
    let oper = status_text_spec(w.oper_status);
    ChannelView {
        channel_name: name,
        isp: isp_label(w.isp_detected),
        isp_detected: w.isp_detected,
        source: ChannelSource::WanInterface,
        oper_status: oper,
        is_up: eq_ignore_ascii_case_spec(oper, "UP"@),
        speed_mbps: w.speed_mbps,
        traffic_in_bytes: w.traffic_in_bytes,
        traffic_out_bytes: w.traffic_out_bytes,
        errors_in: w.errors_in,
        errors_out: w.errors_out,
        discards_in: w.discards_in,
        discards_out: w.discards_out,
        netwatch_status: None,
        netwatch_probe: None,
        netwatch_probe_name: None,
        queue: None,
        alerts: channel_alerts_spec(name, oper, w.errors_in, w.errors_out, w.discards_in, w.discards_out),
    }
}

/// The channel of a Netwatch probe that matched no WAN channel.
pub open spec fn probe_channel(p: ProbeView) -> ChannelView {
    ChannelView {
        channel_name: p.name,
        isp: isp_label(p.isp_detected),
        isp_detected: p.isp_detected,
        source: ChannelSource::Netwatch,
        oper_status: "unknown"@,
        is_up: p.status_text == "up"@,
        speed_mbps: 0,
        traffic_in_bytes: 0,
        traffic_out_bytes: 0,
        errors_in: 0,
        errors_out: 0,
        discards_in: 0,
        discards_out: 0,
        netwatch_status: Some(p.status_text),
        netwatch_probe: Some(p.target_ip),
        netwatch_probe_name: Some(p.name),
        queue: None,
        alerts: Seq::empty(),
    }
}

/// A channel completed with a probe of its provider.
pub open spec fn with_probe(c: ChannelView, p: ProbeView) -> ChannelView {
    ChannelView {
        netwatch_status: Some(p.status_text),
        netwatch_probe: Some(p.target_ip),
        netwatch_probe_name: Some(p.name),
        ..c
    }
}

/// The alert of a queue that dropped packets.
pub open spec fn queue_drop_alert(isp: Seq<char>, q: QueueView) -> Seq<char> {
    "Queue drops detectados en canal "@ + isp + ": "@ + nat_decimal((q.tx_drop + q.rx_drop) as nat) + " drops"@
}

/// A channel completed with a queue of its provider.
pub open spec fn with_queue(c: ChannelView, q: QueueView, isp: Seq<char>) -> ChannelView {
    ChannelView {
        queue: Some(QueueStats { tx_bytes: q.tx_bytes, rx_bytes: q.rx_bytes, tx_drops: q.tx_drop, rx_drops: q.rx_drop }),
        alerts: if q.tx_drop > 0 || q.rx_drop > 0 {
            c.alerts.push(queue_drop_alert(isp, q))
        } else {
            c.alerts
        },
        ..c
    }
}

/// `i` is the first channel of provider `isp`.
pub open spec fn is_first_slot(chs: Seq<ChannelView>, isp: Seq<char>, i: int) -> bool {
    &&& 0 <= i < chs.len()
    &&& chs[i].isp_detected == Some(isp)
    &&& forall|j: int| 0 <= j < i ==> chs[j].isp_detected != Some(isp)
}

/// The first channel of provider `isp`, if any.
pub open spec fn isp_slot(chs: Seq<ChannelView>, isp: Seq<char>) -> Option<int> {
    if exists|i: int| is_first_slot(chs, isp, i) {
        Some(choose|i: int| is_first_slot(chs, isp, i))
    } else {
        None
    }
}

/// A probe completes the first channel of its provider; otherwise it makes
/// a channel of its own.
pub open spec fn apply_probe(chs: Seq<ChannelView>, p: ProbeView) -> Seq<ChannelView> {
    match p.isp_detected {
        Some(isp) => match isp_slot(chs, isp) {
            Some(i) => chs.update(i, with_probe(chs[i], p)),
            None => chs.push(probe_channel(p)),
        },
        None => chs.push(probe_channel(p)),
    }
}

/// A queue completes the first channel of its provider; otherwise it is left out.
pub open spec fn apply_queue(chs: Seq<ChannelView>, q: QueueView) -> Seq<ChannelView> {
    match q.isp_detected {
        Some(isp) => match isp_slot(chs, isp) {
            Some(i) => chs.update(i, with_queue(chs[i], q, isp)),
            None => chs,
        },
        None => chs,
    }
}

/// The channels after the probes, in order.
pub open spec fn fold_probes(chs: Seq<ChannelView>, ps: Seq<ProbeView>) -> Seq<ChannelView>
    decreases ps.len(),
{
    if ps.len() == 0 {
        chs
    } else {
        apply_probe(fold_probes(chs, ps.drop_last()), ps.last())
    }
}

/// The channels after the queues, in order.
pub open spec fn fold_queues(chs: Seq<ChannelView>, qs: Seq<QueueView>) -> Seq<ChannelView>
    decreases qs.len(),
{
    if qs.len() == 0 {
        chs
    } else {
        apply_queue(fold_queues(chs, qs.drop_last()), qs.last())
    }
}

/// All the channels: one per WAN interface, then the probes (when Netwatch
/// answered), then the queues (when queues were found).
pub open spec fn channels_spec(
    wan: Seq<WanView>,
    probes: Seq<ProbeView>,
    netwatch_available: bool,
    queues: Seq<QueueView>,
    queues_available: bool,
) -> Seq<ChannelView> {
    let c1 = wan.map_values(|w: WanView| wan_channel(w));
    let c2 = if netwatch_available {
        fold_probes(c1, probes)
    } else {
        c1
    };
    if queues_available {
        fold_queues(c2, queues)
    } else {
        c2
    }
}

/// How many channels are up.
pub open spec fn count_up(chs: Seq<ChannelView>) -> nat
    decreases chs.len(),
{
    if chs.len() == 0 {
        0
    } else {
        count_up(chs.drop_last()) + if chs.last().is_up {
            1nat
        } else {
            0nat
        }
    }
}

/// How many channels are down: not up, with a known status.
pub open spec fn count_down(chs: Seq<ChannelView>) -> nat
    decreases chs.len(),
{
    if chs.len() == 0 {
        0
    } else {
        count_down(chs.drop_last()) + if !chs.last().is_up && chs.last().oper_status != "unknown"@ {
            1nat
        } else {
            0nat
        }
    }
}

/// No channel is counted both up and down.
pub proof fn lemma_counts_bounded(chs: Seq<ChannelView>)
    ensures
        count_up(chs) + count_down(chs) <= chs.len(),
    decreases chs.len(),
{
    if chs.len() > 0 {
        lemma_counts_bounded(chs.drop_last());
    }
}

/// Queues only complete channels: they never add or remove one.
pub proof fn lemma_fold_queues_len(chs: Seq<ChannelView>, qs: Seq<QueueView>)
    ensures
        fold_queues(chs, qs).len() == chs.len(),
    decreases qs.len(),
{
    if qs.len() > 0 {
        lemma_fold_queues_len(chs, qs.drop_last());
    }
}

/// Each probe completes a channel or adds one.
pub proof fn lemma_fold_probes_len(chs: Seq<ChannelView>, ps: Seq<ProbeView>)
    ensures
        chs.len() <= fold_probes(chs, ps).len() <= chs.len() + ps.len(),
    decreases ps.len(),
{
    if ps.len() > 0 {
        lemma_fold_probes_len(chs, ps.drop_last());
    }
}

/// There are at least as many channels as WAN interfaces, and besides these
/// at most one per probe.
pub proof fn lemma_channels_cover_wan(
    wan: Seq<WanView>,
    probes: Seq<ProbeView>,
    netwatch_available: bool,
    queues: Seq<QueueView>,
    queues_available: bool,
)
    ensures
        wan.len() <= channels_spec(wan, probes, netwatch_available, queues, queues_available).len()
            <= wan.len() + probes.len(),
{
    let c1 = wan.map_values(|w: WanView| wan_channel(w));
    lemma_fold_probes_len(c1, probes);
    let c2 = if netwatch_available {
        fold_probes(c1, probes)
    } else {
        c1
    };
    lemma_fold_queues_len(c2, queues);
}

/// The channels of the router and how many are up and down.
pub struct InternetChannels {
    pub channels: Vec<Channel>,
    pub channels_up: usize,
    pub channels_down: usize,
    pub netwatch_available: bool,
    pub queues_available: bool,
}

/// The channel of one WAN interface.
fn make_wan_channel(w: &WanInterface) -> (c: Channel)
    requires
        w.errors_in + w.errors_out <= u64::MAX,
        w.discards_in + w.discards_out <= u64::MAX,
    ensures
        c@ == wan_channel(w@),
{
    let channel_name = match &w.alias {
        Some(a) => if !a.as_str().is_empty() {
            a.clone()
        } else if !w.if_name.as_str().is_empty() {
            w.if_name.clone()
        } else {
            w.name.clone()
        },
        None => if !w.if_name.as_str().is_empty() {
            w.if_name.clone()
        } else {
            w.name.clone()
        },
    };
    let isp = match &w.isp_detected {
        Some(i) => i.clone(),
        None => to_owned_string("Desconocido"),
    };
    let oper = status_to_text(w.oper_status);
    let is_up = eq_ignore_ascii_case(oper, "UP");
    let alerts = check_channel_alerts(
        channel_name.as_str(),
        oper,
        w.errors_in,
        w.errors_out,
        w.discards_in,
        w.discards_out,
    );
    let detected = match &w.isp_detected {
        Some(i) => Some(i.clone()),
        None => None,
    };
    Channel {
        channel_name,
        isp,
        isp_detected: detected,
        source: ChannelSource::WanInterface,
        oper_status: to_owned_string(oper),
        is_up,
        speed_mbps: w.speed_mbps,
        traffic_in_bytes: w.traffic_in_bytes,
        traffic_out_bytes: w.traffic_out_bytes,
        errors_in: w.errors_in,
        errors_out: w.errors_out,
        discards_in: w.discards_in,
        discards_out: w.discards_out,
        netwatch_status: None,
        netwatch_probe: None,
        netwatch_probe_name: None,
        queue: None,
        alerts,
    }
}

/// The channel of a probe that matched no WAN channel.
fn make_probe_channel(p: &NetwatchProbe) -> (c: Channel)
    ensures
        c@ == probe_channel(p@),
{
    let isp = match &p.isp_detected {
        Some(i) => i.clone(),
        None => to_owned_string("Desconocido"),
    };
    let detected = match &p.isp_detected {
        Some(i) => Some(i.clone()),
        None => None,
    };
    let c = Channel {
        channel_name: p.name.clone(),
        isp,
        isp_detected: detected,
        source: ChannelSource::Netwatch,
        oper_status: to_owned_string("unknown"),
        is_up: eq_str(p.status_text.as_str(), "up"),
        speed_mbps: 0,
        traffic_in_bytes: 0,
        traffic_out_bytes: 0,
        errors_in: 0,
        errors_out: 0,
        discards_in: 0,
        discards_out: 0,
        netwatch_status: Some(p.status_text.clone()),
        netwatch_probe: Some(p.target_ip.clone()),
        netwatch_probe_name: Some(p.name.clone()),
        queue: None,
        alerts: Vec::new(),
    };
    assert(c@.alerts =~= Seq::<Seq<char>>::empty());
    c
}

/// The first channel of provider `isp`, if any.
fn find_isp_slot(chs: &Vec<Channel>, isp: &str) -> (r: Option<usize>)
    ensures
        match r {
            Some(i) => isp_slot(channels_view(chs@), isp@) == Some(i as int),
            None => isp_slot(channels_view(chs@), isp@) is None,
        },
{
    let ghost v = channels_view(chs@);
    let mut i: usize = 0;
    while i < chs.len()
        invariant
            v == channels_view(chs@),
            i <= chs@.len(),
            forall|j: int| 0 <= j < i ==> v[j].isp_detected != Some(isp@),
        decreases chs.len() - i,
    {
        let found = match &chs[i].isp_detected {
            Some(d) => eq_str(d.as_str(), isp),
            None => false,
        };
        if found {
            assert(is_first_slot(v, isp@, i as int));
            assert forall|k: int| #[trigger] is_first_slot(v, isp@, k) implies k == i by {
                if k < i {
                } else if k > i {
                    assert(v[i as int].isp_detected == Some(isp@));
                }
            }
            return Some(i);
        }
        i += 1;
    }
    assert(!exists|k: int| is_first_slot(v, isp@, k));
    None
}

/// The Internet channels of the router: one per WAN interface, completed or
/// followed by the Netwatch probes (when Netwatch answered), completed with
/// the queues (when queues were found) matched by provider; and how many
/// channels are up and how many are down.
pub fn build_internet_channels_summary(
    wan_interfaces: &[WanInterface],
    netwatch_probes: &[NetwatchProbe],
    netwatch_available: bool,
    queue_entries: &[QueueEntry],
    queues_available: bool,
) -> (r: InternetChannels)
    requires
        forall|i: int| 0 <= i < wan_interfaces@.len() ==> #[trigger] wan_interfaces@[i].errors_in
            + wan_interfaces@[i].errors_out <= u64::MAX && wan_interfaces@[i].discards_in
            + wan_interfaces@[i].discards_out <= u64::MAX,
        forall|i: int| 0 <= i < queue_entries@.len() ==> #[trigger] queue_entries@[i].tx_drop
            + queue_entries@[i].rx_drop <= u64::MAX,
    ensures
        channels_view(r.channels@) == channels_spec(
            wan_interfaces@.map_values(|w: WanInterface| w@),
            netwatch_probes@.map_values(|p: NetwatchProbe| p@),
            netwatch_available,
            queue_entries@.map_values(|q: QueueEntry| q@),
            queues_available,
        ),
        r.channels_up == count_up(channels_view(r.channels@)),
        r.channels_down == count_down(channels_view(r.channels@)),
        r.netwatch_available == netwatch_available,
        r.queues_available == queues_available,
{
    let ghost wv = wan_interfaces@.map_values(|w: WanInterface| w@);
    let ghost pv = netwatch_probes@.map_values(|p: NetwatchProbe| p@);
    let ghost qv = queue_entries@.map_values(|q: QueueEntry| q@);
    let mut chs: Vec<Channel> = Vec::new();
    let mut i: usize = 0;
    while i < wan_interfaces.len()
        invariant
            i <= wan_interfaces@.len(),
            wv == wan_interfaces@.map_values(|w: WanInterface| w@),
            forall|k: int| 0 <= k < wan_interfaces@.len() ==> #[trigger] wan_interfaces@[k].errors_in
                + wan_interfaces@[k].errors_out <= u64::MAX && wan_interfaces@[k].discards_in
                + wan_interfaces@[k].discards_out <= u64::MAX,
            channels_view(chs@) == wv.take(i as int).map_values(|w: WanView| wan_channel(w)),
        decreases wan_interfaces.len() - i,
    {
        let c = make_wan_channel(&wan_interfaces[i]);
        let ghost prev = channels_view(chs@);
        assert(wv[i as int] == wan_interfaces@[i as int]@);
        chs.push(c);
        assert(channels_view(chs@) =~= prev.push(wan_channel(wv[i as int])));
        assert(wv.take(i + 1).map_values(|w: WanView| wan_channel(w)) =~= wv.take(i as int).map_values(
            |w: WanView| wan_channel(w),
        ).push(wan_channel(wv[i as int])));
        i += 1;
    }
    assert(wv.take(wv.len() as int) =~= wv);
    let ghost c1 = channels_view(chs@);
    if netwatch_available {
        let mut k: usize = 0;
        while k < netwatch_probes.len()
            invariant
                k <= netwatch_probes@.len(),
                pv == netwatch_probes@.map_values(|p: NetwatchProbe| p@),
                channels_view(chs@) == fold_probes(c1, pv.take(k as int)),
            decreases netwatch_probes.len() - k,
        {
            let p = &netwatch_probes[k];
            let ghost before = channels_view(chs@);
            assert(pv.take(k + 1).drop_last() =~= pv.take(k as int));
            let slot = match &p.isp_detected {
                Some(isp) => find_isp_slot(&chs, isp.as_str()),
                None => None,
            };
            match slot {
                Some(j) => {
                    chs[j].netwatch_status = Some(p.status_text.clone());
                    chs[j].netwatch_probe = Some(p.target_ip.clone());
                    chs[j].netwatch_probe_name = Some(p.name.clone());
                    assert(channels_view(chs@) =~= before.update(j as int, with_probe(before[j as int], p@)));
                },
                None => {
                    let c = make_probe_channel(p);
                    chs.push(c);
                    assert(channels_view(chs@) =~= before.push(probe_channel(p@)));
                },
            }
            k += 1;
        }
        assert(pv.take(pv.len() as int) =~= pv);
    }
    let ghost c2 = channels_view(chs@);
    if queues_available {
        let mut k: usize = 0;
        while k < queue_entries.len()
            invariant
                k <= queue_entries@.len(),
                qv == queue_entries@.map_values(|q: QueueEntry| q@),
                forall|m: int| 0 <= m < queue_entries@.len() ==> #[trigger] queue_entries@[m].tx_drop
                    + queue_entries@[m].rx_drop <= u64::MAX,
                channels_view(chs@) == fold_queues(c2, qv.take(k as int)),
            decreases queue_entries.len() - k,
        {
            let q = &queue_entries[k];
            let ghost before = channels_view(chs@);
            assert(qv.take(k + 1).drop_last() =~= qv.take(k as int));
            match &q.isp_detected {
                Some(isp) => {
                    match find_isp_slot(&chs, isp.as_str()) {
                        Some(j) => {
                            chs[j].queue = Some(
                                QueueStats {
                                    tx_bytes: q.tx_bytes,
                                    rx_bytes: q.rx_bytes,
                                    tx_drops: q.tx_drop,
                                    rx_drops: q.rx_drop,
                                },
                            );
                            let ghost old_alerts = chs@[j as int].alerts@;
                            if q.tx_drop > 0 || q.rx_drop > 0 {
                                let mut m = to_owned_string("Queue drops detectados en canal ");
                                push_str(&mut m, isp.as_str());
                                push_str(&mut m, ": ");
                                push_decimal(&mut m, q.tx_drop + q.rx_drop);
                                push_str(&mut m, " drops");
                                assert(m@ == queue_drop_alert(isp@, q@));
                                chs[j].alerts.push(m);
                                assert(strings_view(chs@[j as int].alerts@) =~= strings_view(old_alerts).push(
                                    queue_drop_alert(isp@, q@),
                                ));
                            }
                            assert(channels_view(chs@) =~= before.update(
                                j as int,
                                with_queue(before[j as int], q@, isp@),
                            ));
                        },
                        None => {},
                    }
                },
                None => {},
            }
            k += 1;
        }
        assert(qv.take(qv.len() as int) =~= qv);
    }
    let ghost fin = channels_view(chs@);
    let mut up: usize = 0;
    let mut down: usize = 0;
    let mut n: usize = 0;
    while n < chs.len()
        invariant
            fin == channels_view(chs@),
            n <= chs@.len(),
            up == count_up(fin.take(n as int)),
            down == count_down(fin.take(n as int)),
            up <= n,
            down <= n,
        decreases chs.len() - n,
    {
        assert(fin.take(n + 1).drop_last() =~= fin.take(n as int));
        if chs[n].is_up {
            up += 1;
        } else if !eq_str(chs[n].oper_status.as_str(), "unknown") {
            down += 1;
        }
        n += 1;
    }
    assert(fin.take(fin.len() as int) =~= fin);
    InternetChannels { channels: chs, channels_up: up, channels_down: down, netwatch_available, queues_available }
}

} // verus!

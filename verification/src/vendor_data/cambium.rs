//! Cambium access point data: temperatures, radio settings, connected
//! clients with their signal, and the SSIDs (CAMBIUM-MIB).

use vstd::prelude::*;
use crate::interfaces::{col_i64, i64_of};
use crate::mikrotik::oid_index;
use crate::snmp::types::SnmpValue;
use crate::text::after_last;
use crate::vendor_data::fortinet::{scalar_number, scalar_number_exec};
use crate::vendor_data::tables::{index_of_row, indexed_texts, IndexedText};

verus! {

/// What was read from a Cambium access point.
pub struct CambiumReadings {
    pub temperature_board: Option<SnmpValue>,
    pub temperature_cpu: Option<SnmpValue>,
    pub radio_channel: Option<SnmpValue>,
    pub radio_tx_power: Option<SnmpValue>,
    pub radio_freq: Option<SnmpValue>,
    pub channel_utilization: Option<SnmpValue>,
    pub noise_floor: Option<SnmpValue>,
    pub client_count: Option<SnmpValue>,
    pub client_rssi: Vec<(String, SnmpValue)>,
    pub client_snr: Vec<(String, SnmpValue)>,
    pub client_tx_rate: Vec<(String, SnmpValue)>,
    pub client_rx_rate: Vec<(String, SnmpValue)>,
    pub ssid_names: Vec<(String, SnmpValue)>,
}

/// A wireless client and its signal.
#[derive(Debug, Clone)]
pub struct WirelessClient {
    pub index: String,
    pub rssi_dbm: i64,
    pub snr_db: i64,
    pub tx_rate_mbps: i64,
    pub rx_rate_mbps: i64,
}

/// A wireless client with its index as a character sequence.
pub ghost struct ClientView {
    pub index: Seq<char>,
    pub rssi_dbm: i64,
    pub snr_db: i64,
    pub tx_rate_mbps: i64,
    pub rx_rate_mbps: i64,
}

impl View for WirelessClient {
    type V = ClientView;

    open spec fn view(&self) -> ClientView {
        ClientView {
            index: self.index@,
            rssi_dbm: self.rssi_dbm,
            snr_db: self.snr_db,
            tx_rate_mbps: self.tx_rate_mbps,
            rx_rate_mbps: self.rx_rate_mbps,
        }
    }
}

/// The Cambium section; each value is present when the device gave a number.
#[derive(Debug, Clone)]
pub struct CambiumData {
    pub temperature_board_c: Option<i64>,
    pub temperature_cpu_c: Option<i64>,
    pub radio_channel: Option<i64>,
    pub radio_tx_power_dbm: Option<i64>,
    pub radio_freq_mhz: Option<i64>,
    pub channel_utilization_pct: Option<i64>,
    pub noise_floor_dbm: Option<i64>,
    pub connected_clients: Option<i64>,
    /// Present when the client table has rows.
    pub clients: Option<Vec<WirelessClient>>,
    /// The SSIDs by index, present when the SSID table has rows.
    pub ssids: Option<Vec<IndexedText>>,
}

/// A column value of `idx` as a signed number, 0 when missing or not a number.
pub open spec fn i64_or_zero(t: Seq<(String, SnmpValue)>, idx: Seq<char>) -> i64 {
    match col_i64(t, idx) {
        Some(v) => v,
        None => 0,
    }
}

/// The client of row `j` of the RSSI table.
pub open spec fn client_spec(r: CambiumReadings, j: int) -> ClientView {
    let idx = after_last(r.client_rssi@[j].0@, '.');
    ClientView {
        index: idx,
        rssi_dbm: match r.client_rssi@[j].1.as_i64_spec() {
            Some(v) => v,
            None => 0,
        },
        snr_db: i64_or_zero(r.client_snr@, idx),
        tx_rate_mbps: i64_or_zero(r.client_tx_rate@, idx),
        rx_rate_mbps: i64_or_zero(r.client_rx_rate@, idx),
    }
}

fn i64_or_zero_exec(t: &Vec<(String, SnmpValue)>, idx: &str) -> (r: i64)
    ensures
        r == i64_or_zero(t@, idx@),
{
    match i64_of(t, idx) {
        Some(v) => v,
        None => 0,
    }
}

/// The clients, one per row of the RSSI table, in walk order.
fn wireless_clients(r: &CambiumReadings) -> (c: Vec<WirelessClient>)
    ensures
        c@.len() == r.client_rssi@.len(),
        forall|j: int| 0 <= j < c@.len() ==> (#[trigger] c@[j])@ == client_spec(*r, j),
{
    let mut out: Vec<WirelessClient> = Vec::new();
    let mut j: usize = 0;
    while j < r.client_rssi.len()
        invariant
            j <= r.client_rssi@.len(),
            out@.len() == j,
            forall|k: int| 0 <= k < j ==> (#[trigger] out@[k])@ == client_spec(*r, k),
        decreases r.client_rssi.len() - j,
    {
        let idx = oid_index(r.client_rssi[j].0.as_str());
        let rssi = match r.client_rssi[j].1.as_i64() {
            Some(v) => v,
            None => 0,
        };
        let c = WirelessClient {
            rssi_dbm: rssi,
            snr_db: i64_or_zero_exec(&r.client_snr, idx.as_str()),
            tx_rate_mbps: i64_or_zero_exec(&r.client_tx_rate, idx.as_str()),
            rx_rate_mbps: i64_or_zero_exec(&r.client_rx_rate, idx.as_str()),
            index: idx,
        };
        out.push(c);
        j += 1;
    }
    out
}

/// The Cambium section: the numeric readings the device gave, the clients
/// when the RSSI table has rows, and the SSIDs when that table has rows.
pub fn cambium_vendor_data(r: &CambiumReadings) -> (d: CambiumData)
    ensures
        d.temperature_board_c == scalar_number(r.temperature_board),
        d.temperature_cpu_c == scalar_number(r.temperature_cpu),
        d.radio_channel == scalar_number(r.radio_channel),
        d.radio_tx_power_dbm == scalar_number(r.radio_tx_power),
        d.radio_freq_mhz == scalar_number(r.radio_freq),
        d.channel_utilization_pct == scalar_number(r.channel_utilization),
        d.noise_floor_dbm == scalar_number(r.noise_floor),
        d.connected_clients == scalar_number(r.client_count),
        r.client_rssi@.len() == 0 ==> d.clients is None,
        r.client_rssi@.len() > 0 ==> (d.clients matches Some(c) && c@.len() == r.client_rssi@.len() && forall|j: int|
            0 <= j < c@.len() ==> (#[trigger] c@[j])@ == client_spec(*r, j)),
        r.ssid_names@.len() == 0 ==> d.ssids is None,
        r.ssid_names@.len() > 0 ==> (d.ssids matches Some(s) && s@.len() == r.ssid_names@.len() && forall|j: int|
            0 <= j < s@.len() ==> (#[trigger] s@[j]).index@ == index_of_row(r.ssid_names@, j) && s@[j].text@
            == r.ssid_names@[j].1.as_string_spec()),
{
    CambiumData {
        temperature_board_c: scalar_number_exec(&r.temperature_board),
        temperature_cpu_c: scalar_number_exec(&r.temperature_cpu),
        radio_channel: scalar_number_exec(&r.radio_channel),
        radio_tx_power_dbm: scalar_number_exec(&r.radio_tx_power),
        radio_freq_mhz: scalar_number_exec(&r.radio_freq),
        channel_utilization_pct: scalar_number_exec(&r.channel_utilization),
        noise_floor_dbm: scalar_number_exec(&r.noise_floor),
        connected_clients: scalar_number_exec(&r.client_count),
        clients: if r.client_rssi.len() > 0 { Some(wireless_clients(r)) } else { None },
        ssids: if r.ssid_names.len() > 0 { Some(indexed_texts(&r.ssid_names)) } else { None },
    }
}

} // verus!

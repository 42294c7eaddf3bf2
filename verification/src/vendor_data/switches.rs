//! Switch data: Ubiquiti (identity, temperature, PoE, VLANs), Aruba/HPE
//! (temperature, fans, PoE) and Extreme Networks (temperature, fans, power
//! supplies).

use vstd::prelude::*;
use crate::snmp::types::SnmpValue;
use crate::vendor_data::fortinet::{scalar_number, scalar_number_exec};
use crate::vendor_data::tables::{
    index_of_row, indexed_texts, number_or_zero, poe_ports, poe_total_power, power_of, power_sum, status_entries,
    IndexedText, PoePort, StatusEntry,
};

verus! {

/// A value's text, when the value is present and its text is not empty.
pub open spec fn nonempty_text(v: Option<SnmpValue>) -> Option<Seq<char>> {
    match v {
        Some(x) => if x.as_string_spec().len() > 0 {
            Some(x.as_string_spec())
        } else {
            None
        },
        None => None,
    }
}

/// The view of an optional text.
pub open spec fn opt_view(o: Option<String>) -> Option<Seq<char>> {
    match o {
        Some(s) => Some(s@),
        None => None,
    }
}

fn nonempty_text_exec(v: &Option<SnmpValue>) -> (r: Option<String>)
    ensures
        opt_view(r) == nonempty_text(*v),
{
    match v {
        Some(x) => {
            let s = x.as_string();
            if s.as_str().is_empty() {
                None
            } else {
                Some(s)
            }
        },
        None => None,
    }
}

/// The PoE ports of a status table and a power table are what `poe_ports` gives.
pub open spec fn poe_matches(p: Seq<PoePort>, status: Seq<(String, SnmpValue)>, power: Seq<(String, SnmpValue)>) -> bool {
    &&& p.len() == status.len()
    &&& forall|j: int| 0 <= j < p.len() ==> (#[trigger] p[j]).port@ == index_of_row(status, j) && p[j].status
        == number_or_zero(status[j].1) && p[j].power_mw == power_of(power, index_of_row(status, j))
}

/// The entries of a status table are what `status_entries` gives.
pub open spec fn statuses_match(e: Seq<StatusEntry>, t: Seq<(String, SnmpValue)>) -> bool {
    &&& e.len() == t.len()
    &&& forall|j: int| 0 <= j < e.len() ==> (#[trigger] e[j]).index@ == index_of_row(t, j) && e[j].status
        == number_or_zero(t[j].1)
}

/// The entries of a text table are what `indexed_texts` gives.
pub open spec fn texts_match(e: Seq<IndexedText>, t: Seq<(String, SnmpValue)>) -> bool {
    &&& e.len() == t.len()
    &&& forall|j: int| 0 <= j < e.len() ==> (#[trigger] e[j]).index@ == index_of_row(t, j) && e[j].text@
        == t[j].1.as_string_spec()
}

// ---------------------------------------------------------------------------
// Ubiquiti
// ---------------------------------------------------------------------------

/// What was read from a Ubiquiti switch.
pub struct UbntReadings {
    pub model: Option<SnmpValue>,
    pub firmware_version: Option<SnmpValue>,
    pub mac_address: Option<SnmpValue>,
    pub temperature: Option<SnmpValue>,
    pub poe_status: Vec<(String, SnmpValue)>,
    pub poe_power: Vec<(String, SnmpValue)>,
    pub vlan_names: Vec<(String, SnmpValue)>,
}

/// The Ubiquiti section.
#[derive(Debug, Clone)]
pub struct UbntData {
    pub model: Option<String>,
    pub firmware_version: Option<String>,
    pub mac_address: Option<String>,
    pub temperature_c: Option<i64>,
    /// Present when the PoE status table has rows.
    pub poe_ports: Option<Vec<PoePort>>,
    /// The total draw in mW, with the ports.
    pub poe_total_power_mw: Option<i128>,
    /// VLANs by id, present when the VLAN table has rows.
    pub vlans: Option<Vec<IndexedText>>,
}

/// The Ubiquiti section: identity texts that are not empty, the
/// temperature when it is a number, PoE ports and their total draw when
/// the PoE table has rows, and the VLANs when that table has rows.
pub fn ubnt_vendor_data(r: &UbntReadings) -> (d: UbntData)
    ensures
        opt_view(d.model) == nonempty_text(r.model),
        opt_view(d.firmware_version) == nonempty_text(r.firmware_version),
        opt_view(d.mac_address) == nonempty_text(r.mac_address),
        d.temperature_c == scalar_number(r.temperature),
        r.poe_status@.len() == 0 ==> d.poe_ports is None && d.poe_total_power_mw is None,
        r.poe_status@.len() > 0 ==> (d.poe_ports matches Some(p) && poe_matches(p@, r.poe_status@, r.poe_power@)),
        r.poe_status@.len() > 0 ==> d.poe_total_power_mw == Some(power_sum(r.poe_power@, r.poe_power@.len() as int) as i128),
        r.vlan_names@.len() == 0 ==> d.vlans is None,
        r.vlan_names@.len() > 0 ==> (d.vlans matches Some(v) && texts_match(v@, r.vlan_names@)),
{
    let has_poe = r.poe_status.len() > 0;
    UbntData {
        model: nonempty_text_exec(&r.model),
        firmware_version: nonempty_text_exec(&r.firmware_version),
        mac_address: nonempty_text_exec(&r.mac_address),
        temperature_c: scalar_number_exec(&r.temperature),
        poe_ports: if has_poe { Some(poe_ports(&r.poe_status, &r.poe_power)) } else { None },
        poe_total_power_mw: if has_poe { Some(poe_total_power(&r.poe_power)) } else { None },
        vlans: if r.vlan_names.len() > 0 { Some(indexed_texts(&r.vlan_names)) } else { None },
    }
}

// ---------------------------------------------------------------------------
// Aruba / HPE
// ---------------------------------------------------------------------------

/// What was read from an Aruba switch.
pub struct ArubaReadings {
    pub temperature: Option<SnmpValue>,
    pub fan_status: Vec<(String, SnmpValue)>,
    pub poe_status: Vec<(String, SnmpValue)>,
    pub poe_power: Vec<(String, SnmpValue)>,
}

/// The Aruba section.
#[derive(Debug, Clone)]
pub struct ArubaData {
    pub temperature_c: Option<i64>,
    /// Present when the fan table has rows.
    pub fans: Option<Vec<StatusEntry>>,
    /// Present when the PoE table has rows; the status is the detection status.
    pub poe_ports: Option<Vec<PoePort>>,
    pub poe_total_power_mw: Option<i128>,
}

/// The name of an hpicfSensorStatus value.
pub open spec fn aruba_sensor_text_spec(status: i64) -> Seq<char> {
    if status == 2 {
        "bad"@
    } else if status == 3 {
        "warning"@
    } else if status == 4 {
        "good"@
    } else {
        "unknown"@
    }
}

/// The name of an hpicfSensorStatus value: 2 bad, 3 warning, 4 good, else unknown.
pub fn aruba_sensor_text(status: i64) -> (r: &'static str)
    ensures
        r@ == aruba_sensor_text_spec(status),
{
    if status == 2 {
        "bad"
    } else if status == 3 {
        "warning"
    } else if status == 4 {
        "good"
    } else {
        "unknown"
    }
}

/// The Aruba section: the temperature when it is a number, the fans when
/// their table has rows, PoE ports and their total draw when that table has rows.
pub fn aruba_vendor_data(r: &ArubaReadings) -> (d: ArubaData)
    ensures
        d.temperature_c == scalar_number(r.temperature),
        r.fan_status@.len() == 0 ==> d.fans is None,
        r.fan_status@.len() > 0 ==> (d.fans matches Some(f) && statuses_match(f@, r.fan_status@)),
        r.poe_status@.len() == 0 ==> d.poe_ports is None && d.poe_total_power_mw is None,
        r.poe_status@.len() > 0 ==> (d.poe_ports matches Some(p) && poe_matches(p@, r.poe_status@, r.poe_power@)),
        r.poe_status@.len() > 0 ==> d.poe_total_power_mw == Some(power_sum(r.poe_power@, r.poe_power@.len() as int) as i128),
{
    let has_poe = r.poe_status.len() > 0;
    ArubaData {
        temperature_c: scalar_number_exec(&r.temperature),
        fans: if r.fan_status.len() > 0 { Some(status_entries(&r.fan_status)) } else { None },
        poe_ports: if has_poe { Some(poe_ports(&r.poe_status, &r.poe_power)) } else { None },
        poe_total_power_mw: if has_poe { Some(poe_total_power(&r.poe_power)) } else { None },
    }
}

// ---------------------------------------------------------------------------
// Extreme Networks
// ---------------------------------------------------------------------------

/// What was read from an Extreme switch.
pub struct ExtremeReadings {
    pub temperature: Option<SnmpValue>,
    pub fan_status: Vec<(String, SnmpValue)>,
    pub psu_status: Vec<(String, SnmpValue)>,
}

/// The Extreme section.
#[derive(Debug, Clone)]
pub struct ExtremeData {
    /// The temperature in half degrees Celsius, as EXOS reports it.
    pub temperature_half_c: Option<i64>,
    /// Present when the fan table has rows.
    pub fans: Option<Vec<StatusEntry>>,
    /// Present when the power supply table has rows.
    pub power_supplies: Option<Vec<StatusEntry>>,
}

/// The name of an extremeFanOperational value.
pub open spec fn extreme_fan_text_spec(status: i64) -> Seq<char> {
    if status == 1 {
        "operational"@
    } else if status == 2 {
        "not operational"@
    } else {
        "unknown"@
    }
}

/// The name of a fan status: 1 operational, 2 not operational, else unknown.
pub fn extreme_fan_text(status: i64) -> (r: &'static str)
    ensures
        r@ == extreme_fan_text_spec(status),
{
    if status == 1 {
        "operational"
    } else if status == 2 {
        "not operational"
    } else {
        "unknown"
    }
}

/// The name of an extremePowerSupplyStatus value.
pub open spec fn extreme_psu_text_spec(status: i64) -> Seq<char> {
    if status == 1 {
        "present_ok"@
    } else if status == 2 {
        "absent"@
    } else {
        "unknown"@
    }
}

/// The name of a power supply status: 1 present and working, 2 absent, else unknown.
pub fn extreme_psu_text(status: i64) -> (r: &'static str)
    ensures
        r@ == extreme_psu_text_spec(status),
{
    if status == 1 {
        "present_ok"
    } else if status == 2 {
        "absent"
    } else {
        "unknown"
    }
}

/// The Extreme section: the temperature reading when it is a number, the
/// fans and the power supplies when their tables have rows.
pub fn extreme_vendor_data(r: &ExtremeReadings) -> (d: ExtremeData)
    ensures
        d.temperature_half_c == scalar_number(r.temperature),
        r.fan_status@.len() == 0 ==> d.fans is None,
        r.fan_status@.len() > 0 ==> (d.fans matches Some(f) && statuses_match(f@, r.fan_status@)),
        r.psu_status@.len() == 0 ==> d.power_supplies is None,
        r.psu_status@.len() > 0 ==> (d.power_supplies matches Some(p) && statuses_match(p@, r.psu_status@)),
{
    ExtremeData {
        temperature_half_c: scalar_number_exec(&r.temperature),
        fans: if r.fan_status.len() > 0 { Some(status_entries(&r.fan_status)) } else { None },
        power_supplies: if r.psu_status.len() > 0 { Some(status_entries(&r.psu_status)) } else { None },
    }
}

} // verus!

//! Firewall profiles: pfSense, Fortinet FortiGate, MikroTik (firewall role), Sophos,
//! Check Point, Palo Alto.

use vstd::prelude::*;
use crate::profiles::base::DeviceProfile;
use crate::text::{contains, contains_spec, starts_with, starts_with_spec};

verus! {

/// pfSense (FreeBSD): PF-MIB and UCD-SNMP-MIB; its enterprise number may appear anywhere in the sysObjectID.
#[derive(Debug, Clone, Copy)]
pub struct PfSenseProfile;

impl PfSenseProfile {
    pub fn new() -> Self {
        PfSenseProfile
    }
}

impl DeviceProfile for PfSenseProfile {
    open spec fn vendor_spec(&self) -> Seq<char> {
        "pfsense"@
    }

    open spec fn display_name_spec(&self) -> Seq<char> {
        "pfSense (FreeBSD)"@
    }

    open spec fn device_type_spec(&self) -> Seq<char> {
        "firewall"@
    }

    open spec fn matches_spec(&self, sys_oid: Seq<char>) -> bool {
        contains_spec(sys_oid, "1.3.6.1.4.1.12325"@)
    }

    fn vendor(&self) -> (r: &str) {
        "pfsense"
    }

    fn vendor_display_name(&self) -> (r: &str) {
        "pfSense (FreeBSD)"
    }

    fn device_type(&self) -> (r: &str) {
        "firewall"
    }

    fn matches_sys_object_id(&self, sys_oid: &str) -> (r: bool) {
        contains(sys_oid, "1.3.6.1.4.1.12325")
    }
}

/// Fortinet FortiGate (enterprise 12356).
#[derive(Debug, Clone, Copy)]
pub struct FortinetProfile;

impl FortinetProfile {
    pub fn new() -> Self {
        FortinetProfile
    }
}

impl DeviceProfile for FortinetProfile {
    open spec fn vendor_spec(&self) -> Seq<char> {
        "fortinet"@
    }

    open spec fn display_name_spec(&self) -> Seq<char> {
        "Fortinet FortiGate"@
    }

    open spec fn device_type_spec(&self) -> Seq<char> {
        "firewall"@
    }

    open spec fn matches_spec(&self, sys_oid: Seq<char>) -> bool {
        starts_with_spec(sys_oid, "1.3.6.1.4.1.12356"@)
    }

    fn vendor(&self) -> (r: &str) {
        "fortinet"
    }

    fn vendor_display_name(&self) -> (r: &str) {
        "Fortinet FortiGate"
    }

    fn device_type(&self) -> (r: &str) {
        "firewall"
    }

    fn matches_sys_object_id(&self, sys_oid: &str) -> (r: bool) {
        starts_with(sys_oid, "1.3.6.1.4.1.12356")
    }
}

/// MikroTik RouterOS in the firewall role (enterprise 14988).
#[derive(Debug, Clone, Copy)]
pub struct MikroTikFwProfile;

impl MikroTikFwProfile {
    pub fn new() -> Self {
        MikroTikFwProfile
    }
}

impl DeviceProfile for MikroTikFwProfile {
    open spec fn vendor_spec(&self) -> Seq<char> {
        "mikrotik_fw"@
    }

    open spec fn display_name_spec(&self) -> Seq<char> {
        "MikroTik Firewall (RouterOS)"@
    }

    open spec fn device_type_spec(&self) -> Seq<char> {
        "firewall"@
    }

    open spec fn matches_spec(&self, sys_oid: Seq<char>) -> bool {
        starts_with_spec(sys_oid, "1.3.6.1.4.1.14988"@)
    }

    fn vendor(&self) -> (r: &str) {
        "mikrotik_fw"
    }

    fn vendor_display_name(&self) -> (r: &str) {
        "MikroTik Firewall (RouterOS)"
    }

    fn device_type(&self) -> (r: &str) {
        "firewall"
    }

    fn matches_sys_object_id(&self, sys_oid: &str) -> (r: bool) {
        starts_with(sys_oid, "1.3.6.1.4.1.14988")
    }
}

/// Sophos firewalls (enterprise 2604).
#[derive(Debug, Clone, Copy)]
pub struct SophosProfile;

impl SophosProfile {
    pub fn new() -> Self {
        SophosProfile
    }
}

impl DeviceProfile for SophosProfile {
    open spec fn vendor_spec(&self) -> Seq<char> {
        "sophos"@
    }

    open spec fn display_name_spec(&self) -> Seq<char> {
        "Sophos Firewall"@
    }

    open spec fn device_type_spec(&self) -> Seq<char> {
        "firewall"@
    }

    open spec fn matches_spec(&self, sys_oid: Seq<char>) -> bool {
        starts_with_spec(sys_oid, "1.3.6.1.4.1.2604"@)
    }

    fn vendor(&self) -> (r: &str) {
        "sophos"
    }

    fn vendor_display_name(&self) -> (r: &str) {
        "Sophos Firewall"
    }

    fn device_type(&self) -> (r: &str) {
        "firewall"
    }

    fn matches_sys_object_id(&self, sys_oid: &str) -> (r: bool) {
        starts_with(sys_oid, "1.3.6.1.4.1.2604")
    }
}

/// Check Point gateways (enterprise 2620).
#[derive(Debug, Clone, Copy)]
pub struct CheckPointProfile;

impl CheckPointProfile {
    pub fn new() -> Self {
        CheckPointProfile
    }
}

impl DeviceProfile for CheckPointProfile {
    open spec fn vendor_spec(&self) -> Seq<char> {
        "checkpoint"@
    }

    open spec fn display_name_spec(&self) -> Seq<char> {
        "Check Point"@
    }

    open spec fn device_type_spec(&self) -> Seq<char> {
        "firewall"@
    }

    open spec fn matches_spec(&self, sys_oid: Seq<char>) -> bool {
        starts_with_spec(sys_oid, "1.3.6.1.4.1.2620"@)
    }

    fn vendor(&self) -> (r: &str) {
        "checkpoint"
    }

    fn vendor_display_name(&self) -> (r: &str) {
        "Check Point"
    }

    fn device_type(&self) -> (r: &str) {
        "firewall"
    }

    fn matches_sys_object_id(&self, sys_oid: &str) -> (r: bool) {
        starts_with(sys_oid, "1.3.6.1.4.1.2620")
    }
}

/// Palo Alto Networks firewalls (enterprise 25461).
#[derive(Debug, Clone, Copy)]
pub struct PaloAltoProfile;

impl PaloAltoProfile {
    pub fn new() -> Self {
        PaloAltoProfile
    }
}

impl DeviceProfile for PaloAltoProfile {
    open spec fn vendor_spec(&self) -> Seq<char> {
        "palo_alto"@
    }

    open spec fn display_name_spec(&self) -> Seq<char> {
        "Palo Alto"@
    }

    open spec fn device_type_spec(&self) -> Seq<char> {
        "firewall"@
    }

    open spec fn matches_spec(&self, sys_oid: Seq<char>) -> bool {
        starts_with_spec(sys_oid, "1.3.6.1.4.1.25461"@)
    }

    fn vendor(&self) -> (r: &str) {
        "palo_alto"
    }

    fn vendor_display_name(&self) -> (r: &str) {
        "Palo Alto"
    }

    fn device_type(&self) -> (r: &str) {
        "firewall"
    }

    fn matches_sys_object_id(&self, sys_oid: &str) -> (r: bool) {
        starts_with(sys_oid, "1.3.6.1.4.1.25461")
    }
}

} // verus!

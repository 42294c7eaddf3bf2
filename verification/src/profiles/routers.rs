//! Router profiles: MikroTik RouterOS, Cisco, Juniper MX/SRX.

use vstd::prelude::*;
use crate::profiles::base::DeviceProfile;
use crate::text::{starts_with, starts_with_spec};

verus! {

/// MikroTik RouterOS in its router role (enterprise 14988, shared with the firewall role).
#[derive(Debug, Clone, Copy)]
pub struct MikroTikProfile;

impl MikroTikProfile {
    pub fn new() -> Self {
        MikroTikProfile
    }
}

impl DeviceProfile for MikroTikProfile {
    open spec fn vendor_spec(&self) -> Seq<char> {
        "mikrotik"@
    }

    open spec fn display_name_spec(&self) -> Seq<char> {
        "MikroTik RouterOS"@
    }

    open spec fn device_type_spec(&self) -> Seq<char> {
        "router"@
    }

    open spec fn matches_spec(&self, sys_oid: Seq<char>) -> bool {
        starts_with_spec(sys_oid, "1.3.6.1.4.1.14988"@)
    }

    fn vendor(&self) -> (r: &str) {
        "mikrotik"
    }

    fn vendor_display_name(&self) -> (r: &str) {
        "MikroTik RouterOS"
    }

    fn device_type(&self) -> (r: &str) {
        "router"
    }

    fn matches_sys_object_id(&self, sys_oid: &str) -> (r: bool) {
        starts_with(sys_oid, "1.3.6.1.4.1.14988")
    }
}

/// Cisco routers and switches (enterprise 9).
#[derive(Debug, Clone, Copy)]
pub struct CiscoProfile;

impl CiscoProfile {
    pub fn new() -> Self {
        CiscoProfile
    }
}

impl DeviceProfile for CiscoProfile {
    open spec fn vendor_spec(&self) -> Seq<char> {
        "cisco"@
    }

    open spec fn display_name_spec(&self) -> Seq<char> {
        "Cisco"@
    }

    open spec fn device_type_spec(&self) -> Seq<char> {
        "router"@
    }

    open spec fn matches_spec(&self, sys_oid: Seq<char>) -> bool {
        starts_with_spec(sys_oid, "1.3.6.1.4.1.9."@)
    }

    fn vendor(&self) -> (r: &str) {
        "cisco"
    }

    fn vendor_display_name(&self) -> (r: &str) {
        "Cisco"
    }

    fn device_type(&self) -> (r: &str) {
        "router"
    }

    fn matches_sys_object_id(&self, sys_oid: &str) -> (r: bool) {
        starts_with(sys_oid, "1.3.6.1.4.1.9.")
    }
}

/// Juniper MX/SRX: every sysObjectID of enterprise 2636 not claimed first by EX/QFX.
#[derive(Debug, Clone, Copy)]
pub struct JuniperMxProfile;

impl JuniperMxProfile {
    pub fn new() -> Self {
        JuniperMxProfile
    }
}

impl DeviceProfile for JuniperMxProfile {
    open spec fn vendor_spec(&self) -> Seq<char> {
        "juniper_mx"@
    }

    open spec fn display_name_spec(&self) -> Seq<char> {
        "Juniper MX/SRX"@
    }

    open spec fn device_type_spec(&self) -> Seq<char> {
        "router"@
    }

    open spec fn matches_spec(&self, sys_oid: Seq<char>) -> bool {
        starts_with_spec(sys_oid, "1.3.6.1.4.1.2636"@)
    }

    fn vendor(&self) -> (r: &str) {
        "juniper_mx"
    }

    fn vendor_display_name(&self) -> (r: &str) {
        "Juniper MX/SRX"
    }

    fn device_type(&self) -> (r: &str) {
        "router"
    }

    fn matches_sys_object_id(&self, sys_oid: &str) -> (r: bool) {
        starts_with(sys_oid, "1.3.6.1.4.1.2636")
    }
}

} // verus!

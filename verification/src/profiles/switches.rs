//! Switch profiles: Ubiquiti, Aruba (HPE), Extreme Networks, Dell, TP-Link,
//! Huawei, Datacom, Juniper EX/QFX.

use vstd::prelude::*;
use crate::profiles::base::DeviceProfile;
use crate::text::{starts_with, starts_with_spec};

verus! {

/// Ubiquiti UniFi, EdgeSwitch and EdgeRouter (enterprises 41112 and 4413).
#[derive(Debug, Clone, Copy)]
pub struct UbntProfile;

impl UbntProfile {
    pub fn new() -> Self {
        UbntProfile
    }
}

impl DeviceProfile for UbntProfile {
    open spec fn vendor_spec(&self) -> Seq<char> {
        "ubnt"@
    }

    open spec fn display_name_spec(&self) -> Seq<char> {
        "Ubiquiti"@
    }

    open spec fn device_type_spec(&self) -> Seq<char> {
        "switch"@
    }

    open spec fn matches_spec(&self, sys_oid: Seq<char>) -> bool {
        starts_with_spec(sys_oid, "1.3.6.1.4.1.41112"@) || starts_with_spec(sys_oid, "1.3.6.1.4.1.4413"@)
    }

    fn vendor(&self) -> (r: &str) {
        "ubnt"
    }

    fn vendor_display_name(&self) -> (r: &str) {
        "Ubiquiti"
    }

    fn device_type(&self) -> (r: &str) {
        "switch"
    }

    fn matches_sys_object_id(&self, sys_oid: &str) -> (r: bool) {
        starts_with(sys_oid, "1.3.6.1.4.1.41112") || starts_with(sys_oid, "1.3.6.1.4.1.4413")
    }
}

/// Aruba and HP ProCurve switches.
#[derive(Debug, Clone, Copy)]
pub struct ArubaProfile;

impl ArubaProfile {
    pub fn new() -> Self {
        ArubaProfile
    }
}

impl DeviceProfile for ArubaProfile {
    open spec fn vendor_spec(&self) -> Seq<char> {
        "aruba"@
    }

    open spec fn display_name_spec(&self) -> Seq<char> {
        "Aruba (HPE)"@
    }

    open spec fn device_type_spec(&self) -> Seq<char> {
        "switch"@
    }

    open spec fn matches_spec(&self, sys_oid: Seq<char>) -> bool {
        starts_with_spec(sys_oid, "1.3.6.1.4.1.11.2.3.7"@) || starts_with_spec(sys_oid, "1.3.6.1.4.1.14823"@)
    }

    fn vendor(&self) -> (r: &str) {
        "aruba"
    }

    fn vendor_display_name(&self) -> (r: &str) {
        "Aruba (HPE)"
    }

    fn device_type(&self) -> (r: &str) {
        "switch"
    }

    fn matches_sys_object_id(&self, sys_oid: &str) -> (r: bool) {
        starts_with(sys_oid, "1.3.6.1.4.1.11.2.3.7") || starts_with(sys_oid, "1.3.6.1.4.1.14823")
    }
}

/// Extreme Networks switches (enterprise 1916).
#[derive(Debug, Clone, Copy)]
pub struct ExtremeProfile;

impl ExtremeProfile {
    pub fn new() -> Self {
        ExtremeProfile
    }
}

impl DeviceProfile for ExtremeProfile {
    open spec fn vendor_spec(&self) -> Seq<char> {
        "extreme"@
    }

    open spec fn display_name_spec(&self) -> Seq<char> {
        "Extreme Networks"@
    }

    open spec fn device_type_spec(&self) -> Seq<char> {
        "switch"@
    }

    open spec fn matches_spec(&self, sys_oid: Seq<char>) -> bool {
        starts_with_spec(sys_oid, "1.3.6.1.4.1.1916"@)
    }

    fn vendor(&self) -> (r: &str) {
        "extreme"
    }

    fn vendor_display_name(&self) -> (r: &str) {
        "Extreme Networks"
    }

    fn device_type(&self) -> (r: &str) {
        "switch"
    }

    fn matches_sys_object_id(&self, sys_oid: &str) -> (r: bool) {
        starts_with(sys_oid, "1.3.6.1.4.1.1916")
    }
}

/// Dell Networking switches; recognised by their sysDescr, not their sysObjectID.
#[derive(Debug, Clone, Copy)]
pub struct DellProfile;

impl DeviceProfile for DellProfile {
    open spec fn vendor_spec(&self) -> Seq<char> {
        "dell"@
    }

    open spec fn display_name_spec(&self) -> Seq<char> {
        "Dell Networking"@
    }

    open spec fn device_type_spec(&self) -> Seq<char> {
        "switch"@
    }

    open spec fn matches_spec(&self, sys_oid: Seq<char>) -> bool {
        false
    }

    fn vendor(&self) -> (r: &str) {
        "dell"
    }

    fn vendor_display_name(&self) -> (r: &str) {
        "Dell Networking"
    }

    fn device_type(&self) -> (r: &str) {
        "switch"
    }

    fn matches_sys_object_id(&self, sys_oid: &str) -> (r: bool) {
        false
    }
}

/// TP-Link JetStream switches; recognised by their sysDescr, not their sysObjectID.
#[derive(Debug, Clone, Copy)]
pub struct TpLinkProfile;

impl DeviceProfile for TpLinkProfile {
    open spec fn vendor_spec(&self) -> Seq<char> {
        "tp_link"@
    }

    open spec fn display_name_spec(&self) -> Seq<char> {
        "TP-Link"@
    }

    open spec fn device_type_spec(&self) -> Seq<char> {
        "switch"@
    }

    open spec fn matches_spec(&self, sys_oid: Seq<char>) -> bool {
        false
    }

    fn vendor(&self) -> (r: &str) {
        "tp_link"
    }

    fn vendor_display_name(&self) -> (r: &str) {
        "TP-Link"
    }

    fn device_type(&self) -> (r: &str) {
        "switch"
    }

    fn matches_sys_object_id(&self, sys_oid: &str) -> (r: bool) {
        false
    }
}

/// Huawei switches; recognised by their sysDescr, not their sysObjectID.
#[derive(Debug, Clone, Copy)]
pub struct HuaweiProfile;

impl DeviceProfile for HuaweiProfile {
    open spec fn vendor_spec(&self) -> Seq<char> {
        "huawei"@
    }

    open spec fn display_name_spec(&self) -> Seq<char> {
        "Huawei"@
    }

    open spec fn device_type_spec(&self) -> Seq<char> {
        "switch"@
    }

    open spec fn matches_spec(&self, sys_oid: Seq<char>) -> bool {
        false
    }

    fn vendor(&self) -> (r: &str) {
        "huawei"
    }

    fn vendor_display_name(&self) -> (r: &str) {
        "Huawei"
    }

    fn device_type(&self) -> (r: &str) {
        "switch"
    }

    fn matches_sys_object_id(&self, sys_oid: &str) -> (r: bool) {
        false
    }
}

/// Datacom switches; recognised by their sysDescr, not their sysObjectID.
#[derive(Debug, Clone, Copy)]
pub struct DatacomProfile;

impl DeviceProfile for DatacomProfile {
    open spec fn vendor_spec(&self) -> Seq<char> {
        "datacomm"@
    }

    open spec fn display_name_spec(&self) -> Seq<char> {
        "Datacom"@
    }

    open spec fn device_type_spec(&self) -> Seq<char> {
        "switch"@
    }

    open spec fn matches_spec(&self, sys_oid: Seq<char>) -> bool {
        false
    }

    fn vendor(&self) -> (r: &str) {
        "datacomm"
    }

    fn vendor_display_name(&self) -> (r: &str) {
        "Datacom"
    }

    fn device_type(&self) -> (r: &str) {
        "switch"
    }

    fn matches_sys_object_id(&self, sys_oid: &str) -> (r: bool) {
        false
    }
}

/// Juniper EX/QFX switches: the EX and QFX subtrees of enterprise 2636.
#[derive(Debug, Clone, Copy)]
pub struct JuniperExProfile;

impl JuniperExProfile {
    pub fn new() -> Self {
        JuniperExProfile
    }
}

impl DeviceProfile for JuniperExProfile {
    open spec fn vendor_spec(&self) -> Seq<char> {
        "juniper_ex"@
    }

    open spec fn display_name_spec(&self) -> Seq<char> {
        "Juniper EX/QFX"@
    }

    open spec fn device_type_spec(&self) -> Seq<char> {
        "switch"@
    }

    open spec fn matches_spec(&self, sys_oid: Seq<char>) -> bool {
        starts_with_spec(sys_oid, "1.3.6.1.4.1.2636.1.51"@) || starts_with_spec(sys_oid, "1.3.6.1.4.1.2636.1.62"@)
    }

    fn vendor(&self) -> (r: &str) {
        "juniper_ex"
    }

    fn vendor_display_name(&self) -> (r: &str) {
        "Juniper EX/QFX"
    }

    fn device_type(&self) -> (r: &str) {
        "switch"
    }

    fn matches_sys_object_id(&self, sys_oid: &str) -> (r: bool) {
        starts_with(sys_oid, "1.3.6.1.4.1.2636.1.51") || starts_with(sys_oid, "1.3.6.1.4.1.2636.1.62")
    }
}

} // verus!

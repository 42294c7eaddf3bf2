//! What every device profile provides, and the closed set of profiles.

use vstd::prelude::*;
use crate::profiles::access_points::CambiumProfile;
use crate::profiles::firewalls::{
    CheckPointProfile, FortinetProfile, MikroTikFwProfile, PaloAltoProfile, PfSenseProfile, SophosProfile,
};
use crate::profiles::routers::{CiscoProfile, JuniperMxProfile, MikroTikProfile};
use crate::profiles::generic::GenericProfile;
use crate::profiles::switches::{
    ArubaProfile, DatacomProfile, DellProfile, ExtremeProfile, HuaweiProfile, JuniperExProfile, TpLinkProfile,
    UbntProfile,
};

verus! {

/// Identity of a device profile: vendor key, display name, device type, and
/// which sysObjectID values belong to it.
pub trait DeviceProfile {
    spec fn vendor_spec(&self) -> Seq<char>;

    spec fn display_name_spec(&self) -> Seq<char>;

    spec fn device_type_spec(&self) -> Seq<char>;

    spec fn matches_spec(&self, sys_oid: Seq<char>) -> bool;

    /// Registry key of the vendor.
    fn vendor(&self) -> (r: &str)
        ensures
            r@ == self.vendor_spec(),
    ;

    /// Human-readable vendor name.
    fn vendor_display_name(&self) -> (r: &str)
        ensures
            r@ == self.display_name_spec(),
    ;

    /// Kind of device (firewall, switch, ap, ...).
    fn device_type(&self) -> (r: &str)
        ensures
            r@ == self.device_type_spec(),
    ;

    /// Whether a sysObjectID belongs to this vendor.
    fn matches_sys_object_id(&self, sys_oid: &str) -> (r: bool)
        ensures
            r == self.matches_spec(sys_oid@),
    ;
}

/// One of the profiles the relay knows.
#[derive(Debug, Clone)]
pub enum Profile {
    PfSense(PfSenseProfile),
    Fortinet(FortinetProfile),
    MikroTikFw(MikroTikFwProfile),
    Sophos(SophosProfile),
    Ubnt(UbntProfile),
    Aruba(ArubaProfile),
    Extreme(ExtremeProfile),
    Dell(DellProfile),
    TpLink(TpLinkProfile),
    Cambium(CambiumProfile),
    CheckPoint(CheckPointProfile),
    PaloAlto(PaloAltoProfile),
    MikroTik(MikroTikProfile),
    Cisco(CiscoProfile),
    JuniperMx(JuniperMxProfile),
    Huawei(HuaweiProfile),
    Datacom(DatacomProfile),
    JuniperEx(JuniperExProfile),
    Generic(GenericProfile),
}

impl DeviceProfile for Profile {
    open spec fn vendor_spec(&self) -> Seq<char> {
        match self {
            Profile::PfSense(p) => p.vendor_spec(),
            Profile::Fortinet(p) => p.vendor_spec(),
            Profile::MikroTikFw(p) => p.vendor_spec(),
            Profile::Sophos(p) => p.vendor_spec(),
            Profile::Ubnt(p) => p.vendor_spec(),
            Profile::Aruba(p) => p.vendor_spec(),
            Profile::Extreme(p) => p.vendor_spec(),
            Profile::Dell(p) => p.vendor_spec(),
            Profile::TpLink(p) => p.vendor_spec(),
            Profile::Cambium(p) => p.vendor_spec(),
            Profile::CheckPoint(p) => p.vendor_spec(),
            Profile::PaloAlto(p) => p.vendor_spec(),
            Profile::MikroTik(p) => p.vendor_spec(),
            Profile::Cisco(p) => p.vendor_spec(),
            Profile::JuniperMx(p) => p.vendor_spec(),
            Profile::Huawei(p) => p.vendor_spec(),
            Profile::Datacom(p) => p.vendor_spec(),
            Profile::JuniperEx(p) => p.vendor_spec(),
            Profile::Generic(p) => p.vendor_spec(),
        }
    }

    open spec fn display_name_spec(&self) -> Seq<char> {
        match self {
            Profile::PfSense(p) => p.display_name_spec(),
            Profile::Fortinet(p) => p.display_name_spec(),
            Profile::MikroTikFw(p) => p.display_name_spec(),
            Profile::Sophos(p) => p.display_name_spec(),
            Profile::Ubnt(p) => p.display_name_spec(),
            Profile::Aruba(p) => p.display_name_spec(),
            Profile::Extreme(p) => p.display_name_spec(),
            Profile::Dell(p) => p.display_name_spec(),
            Profile::TpLink(p) => p.display_name_spec(),
            Profile::Cambium(p) => p.display_name_spec(),
            Profile::CheckPoint(p) => p.display_name_spec(),
            Profile::PaloAlto(p) => p.display_name_spec(),
            Profile::MikroTik(p) => p.display_name_spec(),
            Profile::Cisco(p) => p.display_name_spec(),
            Profile::JuniperMx(p) => p.display_name_spec(),
            Profile::Huawei(p) => p.display_name_spec(),
            Profile::Datacom(p) => p.display_name_spec(),
            Profile::JuniperEx(p) => p.display_name_spec(),
            Profile::Generic(p) => p.display_name_spec(),
        }
    }

    open spec fn device_type_spec(&self) -> Seq<char> {
        match self {
            Profile::PfSense(p) => p.device_type_spec(),
            Profile::Fortinet(p) => p.device_type_spec(),
            Profile::MikroTikFw(p) => p.device_type_spec(),
            Profile::Sophos(p) => p.device_type_spec(),
            Profile::Ubnt(p) => p.device_type_spec(),
            Profile::Aruba(p) => p.device_type_spec(),
            Profile::Extreme(p) => p.device_type_spec(),
            Profile::Dell(p) => p.device_type_spec(),
            Profile::TpLink(p) => p.device_type_spec(),
            Profile::Cambium(p) => p.device_type_spec(),
            Profile::CheckPoint(p) => p.device_type_spec(),
            Profile::PaloAlto(p) => p.device_type_spec(),
            Profile::MikroTik(p) => p.device_type_spec(),
            Profile::Cisco(p) => p.device_type_spec(),
            Profile::JuniperMx(p) => p.device_type_spec(),
            Profile::Huawei(p) => p.device_type_spec(),
            Profile::Datacom(p) => p.device_type_spec(),
            Profile::JuniperEx(p) => p.device_type_spec(),
            Profile::Generic(p) => p.device_type_spec(),
        }
    }

    open spec fn matches_spec(&self, sys_oid: Seq<char>) -> bool {
        match self {
            Profile::PfSense(p) => p.matches_spec(sys_oid),
            Profile::Fortinet(p) => p.matches_spec(sys_oid),
            Profile::MikroTikFw(p) => p.matches_spec(sys_oid),
            Profile::Sophos(p) => p.matches_spec(sys_oid),
            Profile::Ubnt(p) => p.matches_spec(sys_oid),
            Profile::Aruba(p) => p.matches_spec(sys_oid),
            Profile::Extreme(p) => p.matches_spec(sys_oid),
            Profile::Dell(p) => p.matches_spec(sys_oid),
            Profile::TpLink(p) => p.matches_spec(sys_oid),
            Profile::Cambium(p) => p.matches_spec(sys_oid),
            Profile::CheckPoint(p) => p.matches_spec(sys_oid),
            Profile::PaloAlto(p) => p.matches_spec(sys_oid),
            Profile::MikroTik(p) => p.matches_spec(sys_oid),
            Profile::Cisco(p) => p.matches_spec(sys_oid),
            Profile::JuniperMx(p) => p.matches_spec(sys_oid),
            Profile::Huawei(p) => p.matches_spec(sys_oid),
            Profile::Datacom(p) => p.matches_spec(sys_oid),
            Profile::JuniperEx(p) => p.matches_spec(sys_oid),
            Profile::Generic(p) => p.matches_spec(sys_oid),
        }
    }

    fn vendor(&self) -> (r: &str) {
        match self {
            Profile::PfSense(p) => p.vendor(),
            Profile::Fortinet(p) => p.vendor(),
            Profile::MikroTikFw(p) => p.vendor(),
            Profile::Sophos(p) => p.vendor(),
            Profile::Ubnt(p) => p.vendor(),
            Profile::Aruba(p) => p.vendor(),
            Profile::Extreme(p) => p.vendor(),
            Profile::Dell(p) => p.vendor(),
            Profile::TpLink(p) => p.vendor(),
            Profile::Cambium(p) => p.vendor(),
            Profile::CheckPoint(p) => p.vendor(),
            Profile::PaloAlto(p) => p.vendor(),
            Profile::MikroTik(p) => p.vendor(),
            Profile::Cisco(p) => p.vendor(),
            Profile::JuniperMx(p) => p.vendor(),
            Profile::Huawei(p) => p.vendor(),
            Profile::Datacom(p) => p.vendor(),
            Profile::JuniperEx(p) => p.vendor(),
            Profile::Generic(p) => p.vendor(),
        }
    }

    fn vendor_display_name(&self) -> (r: &str) {
        match self {
            Profile::PfSense(p) => p.vendor_display_name(),
            Profile::Fortinet(p) => p.vendor_display_name(),
            Profile::MikroTikFw(p) => p.vendor_display_name(),
            Profile::Sophos(p) => p.vendor_display_name(),
            Profile::Ubnt(p) => p.vendor_display_name(),
            Profile::Aruba(p) => p.vendor_display_name(),
            Profile::Extreme(p) => p.vendor_display_name(),
            Profile::Dell(p) => p.vendor_display_name(),
            Profile::TpLink(p) => p.vendor_display_name(),
            Profile::Cambium(p) => p.vendor_display_name(),
            Profile::CheckPoint(p) => p.vendor_display_name(),
            Profile::PaloAlto(p) => p.vendor_display_name(),
            Profile::MikroTik(p) => p.vendor_display_name(),
            Profile::Cisco(p) => p.vendor_display_name(),
            Profile::JuniperMx(p) => p.vendor_display_name(),
            Profile::Huawei(p) => p.vendor_display_name(),
            Profile::Datacom(p) => p.vendor_display_name(),
            Profile::JuniperEx(p) => p.vendor_display_name(),
            Profile::Generic(p) => p.vendor_display_name(),
        }
    }

    fn device_type(&self) -> (r: &str) {
        match self {
            Profile::PfSense(p) => p.device_type(),
            Profile::Fortinet(p) => p.device_type(),
            Profile::MikroTikFw(p) => p.device_type(),
            Profile::Sophos(p) => p.device_type(),
            Profile::Ubnt(p) => p.device_type(),
            Profile::Aruba(p) => p.device_type(),
            Profile::Extreme(p) => p.device_type(),
            Profile::Dell(p) => p.device_type(),
            Profile::TpLink(p) => p.device_type(),
            Profile::Cambium(p) => p.device_type(),
            Profile::CheckPoint(p) => p.device_type(),
            Profile::PaloAlto(p) => p.device_type(),
            Profile::MikroTik(p) => p.device_type(),
            Profile::Cisco(p) => p.device_type(),
            Profile::JuniperMx(p) => p.device_type(),
            Profile::Huawei(p) => p.device_type(),
            Profile::Datacom(p) => p.device_type(),
            Profile::JuniperEx(p) => p.device_type(),
            Profile::Generic(p) => p.device_type(),
        }
    }

    fn matches_sys_object_id(&self, sys_oid: &str) -> (r: bool) {
        match self {
            Profile::PfSense(p) => p.matches_sys_object_id(sys_oid),
            Profile::Fortinet(p) => p.matches_sys_object_id(sys_oid),
            Profile::MikroTikFw(p) => p.matches_sys_object_id(sys_oid),
            Profile::Sophos(p) => p.matches_sys_object_id(sys_oid),
            Profile::Ubnt(p) => p.matches_sys_object_id(sys_oid),
            Profile::Aruba(p) => p.matches_sys_object_id(sys_oid),
            Profile::Extreme(p) => p.matches_sys_object_id(sys_oid),
            Profile::Dell(p) => p.matches_sys_object_id(sys_oid),
            Profile::TpLink(p) => p.matches_sys_object_id(sys_oid),
            Profile::Cambium(p) => p.matches_sys_object_id(sys_oid),
            Profile::CheckPoint(p) => p.matches_sys_object_id(sys_oid),
            Profile::PaloAlto(p) => p.matches_sys_object_id(sys_oid),
            Profile::MikroTik(p) => p.matches_sys_object_id(sys_oid),
            Profile::Cisco(p) => p.matches_sys_object_id(sys_oid),
            Profile::JuniperMx(p) => p.matches_sys_object_id(sys_oid),
            Profile::Huawei(p) => p.matches_sys_object_id(sys_oid),
            Profile::Datacom(p) => p.matches_sys_object_id(sys_oid),
            Profile::JuniperEx(p) => p.matches_sys_object_id(sys_oid),
            Profile::Generic(p) => p.matches_sys_object_id(sys_oid),
        }
    }
}

} // verus!

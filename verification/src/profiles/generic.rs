//! The generic profile of a device category, for devices of no known vendor.

use vstd::prelude::*;
use crate::profiles::base::DeviceProfile;
use crate::text::{eq_str, to_owned_string};

verus! {

/// Standard MIBs only (HOST-RESOURCES-MIB, IF-MIB), named after a category
/// such as "router" or "printer".
#[derive(Debug, Clone)]
pub struct GenericProfile {
    vendor_name: String,
}

impl GenericProfile {
    /// The category name the profile was made with.
    pub closed spec fn category(&self) -> Seq<char> {
        self.vendor_name@
    }

    /// The generic profile registered under `name`.
    pub fn new(name: &str) -> (r: Self)
        ensures
            r.category() == name@,
    {
        GenericProfile { vendor_name: to_owned_string(name) }
    }
}

impl DeviceProfile for GenericProfile {
    open spec fn vendor_spec(&self) -> Seq<char> {
        self.category()
    }

    open spec fn display_name_spec(&self) -> Seq<char> {
        let v = self.category();
        if v == "router"@ {
            "Router genérico SNMP"@
        } else if v == "switch"@ {
            "Switch genérico SNMP"@
        } else if v == "firewall"@ {
            "Firewall genérico SNMP"@
        } else if v == "ap"@ {
            "Access Point genérico SNMP"@
        } else if v == "printer"@ {
            "Impresora genérica SNMP"@
        } else {
            "Generic SNMP"@
        }
    }

    open spec fn device_type_spec(&self) -> Seq<char> {
        let v = self.category();
        if v == "router"@ || v == "switch"@ || v == "firewall"@ || v == "ap"@ || v == "printer"@ {
            v
        } else {
            "generic"@
        }
    }

    open spec fn matches_spec(&self, sys_oid: Seq<char>) -> bool {
        false
    }

    fn vendor(&self) -> (r: &str) {
        self.vendor_name.as_str()
    }

    fn vendor_display_name(&self) -> (r: &str) {
        let v = self.vendor_name.as_str();
        if eq_str(v, "router") {
            "Router genérico SNMP"
        } else if eq_str(v, "switch") {
            "Switch genérico SNMP"
        } else if eq_str(v, "firewall") {
            "Firewall genérico SNMP"
        } else if eq_str(v, "ap") {
            "Access Point genérico SNMP"
        } else if eq_str(v, "printer") {
            "Impresora genérica SNMP"
        } else {
            "Generic SNMP"
        }
    }

    fn device_type(&self) -> (r: &str) {
        let v = self.vendor_name.as_str();
        if eq_str(v, "router") {
            "router"
        } else if eq_str(v, "switch") {
            "switch"
        } else if eq_str(v, "firewall") {
            "firewall"
        } else if eq_str(v, "ap") {
            "ap"
        } else if eq_str(v, "printer") {
            "printer"
        } else {
            "generic"
        }
    }

    fn matches_sys_object_id(&self, sys_oid: &str) -> (r: bool) {
        false
    }
}

} // verus!

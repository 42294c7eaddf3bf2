//! Access point profiles: Cambium Networks.

use vstd::prelude::*;
use crate::profiles::base::DeviceProfile;
use crate::text::{starts_with, starts_with_spec};

verus! {

/// Cambium Networks access points (enterprise 17713).
#[derive(Debug, Clone, Copy)]
pub struct CambiumProfile;

impl CambiumProfile {
    pub fn new() -> Self {
        CambiumProfile
    }
}

impl DeviceProfile for CambiumProfile {
    open spec fn vendor_spec(&self) -> Seq<char> {
        "c_n"@
    }

    open spec fn display_name_spec(&self) -> Seq<char> {
        "Cambium Networks"@
    }

    open spec fn device_type_spec(&self) -> Seq<char> {
        "ap"@
    }

    open spec fn matches_spec(&self, sys_oid: Seq<char>) -> bool {
        starts_with_spec(sys_oid, "1.3.6.1.4.1.17713"@)
    }

    fn vendor(&self) -> (r: &str) {
        "c_n"
    }

    fn vendor_display_name(&self) -> (r: &str) {
        "Cambium Networks"
    }

    fn device_type(&self) -> (r: &str) {
        "ap"
    }

    fn matches_sys_object_id(&self, sys_oid: &str) -> (r: bool) {
        starts_with(sys_oid, "1.3.6.1.4.1.17713")
    }
}

} // verus!

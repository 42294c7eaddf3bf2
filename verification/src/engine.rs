//! The decisions of the collection cycle that do not touch the network:
//! which profile a device gets, and where its vendor section goes.

use vstd::prelude::*;
use crate::profiles::base::Profile;
use crate::profiles::loader::{lookup, resolve_spec, ProfileLoader};
use crate::snmp::types::SnmpResult;
use crate::geoip::{join_path, join_path_spec};
use crate::text::{concat, lowercase, push_decimal, push_str, nat_decimal, to_owned_string};

verus! {

/// The text a query reported: its value as text, or nothing.
pub open spec fn reported_text_spec(r: SnmpResult) -> Seq<char> {
    match r.value {
        Some(v) => v.as_string_spec(),
        None => Seq::empty(),
    }
}

/// The text a query reported, empty when it failed.
pub fn reported_text(r: &SnmpResult) -> (s: String)
    ensures
        s@ == reported_text_spec(*r),
{
    match &r.value {
        Some(v) => v.as_string(),
        None => String::new(),
    }
}

/// The key of a device's vendor-specific section: the vendor, then `_specific`.
pub fn vendor_section_key(vendor: &str) -> (k: String)
    ensures
        k@ == vendor@ + "_specific"@,
{
    concat(vendor, "_specific")
}

/// `Path::join` on Unix: an absolute name replaces the path, a relative one
/// is appended.
pub open spec fn path_join_spec(base: Seq<char>, name: Seq<char>) -> Seq<char> {
    if name.len() > 0 && name[0] == '/' {
        name
    } else {
        join_path_spec(base, name)
    }
}

fn path_join(base: &str, name: &str) -> (r: String)
    ensures
        r@ == path_join_spec(base@, name@),
{
    let cs = crate::text::chars_of(name);
    if cs.len() > 0 && cs[0] == '/' {
        to_owned_string(name)
    } else {
        join_path(base, name)
    }
}

/// Where a device's payload is written: `devices/<type>_<vendor>/output`
/// under the installation directory.
pub open spec fn device_output_dir_spec(install_dir: Seq<char>, device_type: Seq<char>, vendor: Seq<char>) -> Seq<char> {
    path_join_spec(
        path_join_spec(path_join_spec(install_dir, "devices"@), device_type + "_"@ + vendor),
        "output"@,
    )
}

/// Where a device's payload is written.
pub fn device_output_dir(install_dir: &str, device_type: &str, vendor: &str) -> (r: String)
    ensures
        r@ == device_output_dir_spec(install_dir@, device_type@, vendor@),
{
    let devices = path_join(install_dir, "devices");
    let mut leaf = to_owned_string(device_type);
    push_str(&mut leaf, "_");
    push_str(&mut leaf, vendor);
    let dir = path_join(devices.as_str(), leaf.as_str());
    path_join(dir.as_str(), "output")
}

/// How a collection cycle ends: an error naming how many devices could not
/// send their data, if any could not.
pub open spec fn cycle_result_spec(failed: u32) -> Result<(), Seq<char>> {
    if failed > 0 {
        Err(nat_decimal(failed as nat) + " dispositivo(s) fallaron al enviar datos al servidor"@)
    } else {
        Ok(())
    }
}

/// How a collection cycle ends.
pub fn cycle_result(failed: u32) -> (r: Result<(), String>)
    ensures
        match r {
            Ok(_) => cycle_result_spec(failed) is Ok,
            Err(m) => cycle_result_spec(failed) == Err::<(), Seq<char>>(m@),
        },
{
    if failed > 0 {
        let mut m = String::new();
        push_decimal(&mut m, failed as u64);
        push_str(&mut m, " dispositivo(s) fallaron al enviar datos al servidor");
        assert(m@ =~= nat_decimal(failed as nat) + " dispositivo(s) fallaron al enviar datos al servidor"@);
        Err(m)
    } else {
        Ok(())
    }
}

/// Runs the collection cycle over the configured devices, with the relay's
/// configuration (of type `C`) and its profile registry.
pub struct CollectionEngine<C> {
    config: C,
    profile_loader: ProfileLoader,
}

impl<C> CollectionEngine<C> {
    /// The configuration the engine runs with.
    pub closed spec fn config_spec(&self) -> C {
        self.config
    }

    /// The engine's profile registry.
    pub closed spec fn loader(&self) -> ProfileLoader {
        self.profile_loader
    }

    /// An engine over `config`, with the built-in profile registry.
    pub fn new(config: C) -> (r: Self)
        ensures
            r.config_spec() == config,
            r.loader().is_builtin(),
    {
        CollectionEngine { config, profile_loader: ProfileLoader::new() }
    }

    /// The configuration the engine runs with.
    pub fn config(&self) -> (r: &C)
        ensures
            *r == self.config_spec(),
    {
        &self.config
    }

    /// The profile a device starts with, from its configured vendor alone.
    pub fn initial_profile(&self, vendor: &str) -> (r: &Profile)
        ensures
            *r == lookup(self.loader().registry(), lowercase(vendor@)),
    {
        self.profile_loader.get_profile(vendor)
    }

    /// The profile a device is collected with, once its sysObjectID and
    /// sysDescr have been queried (a failed query counts as empty text).
    pub fn device_profile(&self, vendor: &str, sys_object_id: &SnmpResult, sys_descr: &SnmpResult) -> (r: &Profile)
        ensures
            *r == resolve_spec(
                self.loader().registry(),
                self.loader().detection(),
                vendor@,
                reported_text_spec(*sys_object_id),
                reported_text_spec(*sys_descr),
            ),
    {
        let descr = reported_text(sys_descr);
        let oid = reported_text(sys_object_id);
        self.profile_loader.resolve_profile(vendor, oid.as_str(), descr.as_str())
    }
}

} // verus!

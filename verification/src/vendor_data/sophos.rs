//! Sophos firewall data: live users, HTTP hits, active connections and the
//! state of its services (SFOS-FIREWALL-MIB).

use vstd::prelude::*;
use crate::snmp::types::SnmpValue;
use crate::text::{contains, contains_spec, eq_str, lowercase, to_lowercase};
use crate::vendor_data::fortinet::{scalar_number, scalar_number_exec};

verus! {

/// The services whose state is read, with the OID of each.
pub open spec fn sophos_services_spec() -> Seq<(Seq<char>, Seq<char>)> {
    seq![
        ("pop3"@, "1.3.6.1.4.1.2604.5.1.7.0"@),
        ("imap"@, "1.3.6.1.4.1.2604.5.1.8.0"@),
        ("smtp"@, "1.3.6.1.4.1.2604.5.1.9.0"@),
        ("ftp"@, "1.3.6.1.4.1.2604.5.1.10.0"@),
        ("http"@, "1.3.6.1.4.1.2604.5.1.11.0"@),
        ("av"@, "1.3.6.1.4.1.2604.5.1.12.0"@),
        ("as"@, "1.3.6.1.4.1.2604.5.1.13.0"@),
        ("dns"@, "1.3.6.1.4.1.2604.5.1.14.0"@),
        ("ha"@, "1.3.6.1.4.1.2604.5.1.15.0"@),
        ("ips"@, "1.3.6.1.4.1.2604.5.1.16.0"@),
        ("apache"@, "1.3.6.1.4.1.2604.5.1.17.0"@),
        ("ssl_vpn"@, "1.3.6.1.4.1.2604.5.1.21.0"@),
    ]
}

/// The views of a list of static text pairs.
pub open spec fn pairs_view(v: Seq<(&'static str, &'static str)>) -> Seq<(Seq<char>, Seq<char>)> {
    v.map_values(|p: (&'static str, &'static str)| (p.0@, p.1@))
}

/// The services whose state is read, with the OID of each, in reading order.
pub fn sophos_service_oids() -> (r: Vec<(&'static str, &'static str)>)
    ensures
        pairs_view(r@) == sophos_services_spec(),
{
    let r = vec![
        ("pop3", "1.3.6.1.4.1.2604.5.1.7.0"),
        ("imap", "1.3.6.1.4.1.2604.5.1.8.0"),
        ("smtp", "1.3.6.1.4.1.2604.5.1.9.0"),
        ("ftp", "1.3.6.1.4.1.2604.5.1.10.0"),
        ("http", "1.3.6.1.4.1.2604.5.1.11.0"),
        ("av", "1.3.6.1.4.1.2604.5.1.12.0"),
        ("as", "1.3.6.1.4.1.2604.5.1.13.0"),
        ("dns", "1.3.6.1.4.1.2604.5.1.14.0"),
        ("ha", "1.3.6.1.4.1.2604.5.1.15.0"),
        ("ips", "1.3.6.1.4.1.2604.5.1.16.0"),
        ("apache", "1.3.6.1.4.1.2604.5.1.17.0"),
        ("ssl_vpn", "1.3.6.1.4.1.2604.5.1.21.0"),
    ];
    assert(pairs_view(r@) =~= sophos_services_spec());
    r
}

/// What was read from a Sophos firewall; each service with the value read
/// for it, if any.
pub struct SophosReadings {
    pub live_users: Option<SnmpValue>,
    pub http_hits: Option<SnmpValue>,
    pub active_connections: Option<SnmpValue>,
    pub services: Vec<(String, Option<SnmpValue>)>,
}

/// The state of a service.
#[derive(Debug, Clone)]
pub struct SophosService {
    pub name: String,
    pub status: String,
    pub running: bool,
}

/// A service with its texts as character sequences.
pub ghost struct ServiceView {
    pub name: Seq<char>,
    pub status: Seq<char>,
    pub running: bool,
}

impl View for SophosService {
    type V = ServiceView;

    open spec fn view(&self) -> ServiceView {
        ServiceView { name: self.name@, status: self.status@, running: self.running }
    }
}

/// The Sophos section.
#[derive(Debug, Clone)]
pub struct SophosData {
    pub live_users: Option<i64>,
    pub http_hits: Option<i64>,
    pub active_connections: Option<i64>,
    /// The services that answered, in reading order.
    pub services: Vec<SophosService>,
}

/// A service runs when its state says `running` (in any case) or is `1`.
pub open spec fn running_spec(status: Seq<char>) -> bool {
    contains_spec(lowercase(status), "running"@) || status == "1"@
}

/// The services that answered, in reading order, with their state.
pub open spec fn services_spec(s: Seq<(String, Option<SnmpValue>)>) -> Seq<ServiceView>
    decreases s.len(),
{
    if s.len() == 0 {
        Seq::empty()
    } else {
        let rest = services_spec(s.drop_last());
        match s.last().1 {
            Some(v) => rest.push(
                ServiceView {
                    name: s.last().0@,
                    status: v.as_string_spec(),
                    running: running_spec(v.as_string_spec()),
                },
            ),
            None => rest,
        }
    }
}

/// The views of a list of services.
pub open spec fn services_view(v: Seq<SophosService>) -> Seq<ServiceView> {
    v.map_values(|s: SophosService| s@)
}

/// The Sophos section: the counters the device gave as numbers, and the
/// services that answered.
pub fn sophos_vendor_data(r: &SophosReadings) -> (d: SophosData)
    ensures
        d.live_users == scalar_number(r.live_users),
        d.http_hits == scalar_number(r.http_hits),
        d.active_connections == scalar_number(r.active_connections),
        services_view(d.services@) == services_spec(r.services@),
{
    let mut services: Vec<SophosService> = Vec::new();
    let mut i: usize = 0;
    while i < r.services.len()
        invariant
            i <= r.services@.len(),
            services_view(services@) == services_spec(r.services@.take(i as int)),
        decreases r.services.len() - i,
    {
        assert(r.services@.take(i + 1).drop_last() =~= r.services@.take(i as int));
        assert(r.services@.take(i + 1).last() == r.services@[i as int]);
        match &r.services[i].1 {
            Some(v) => {
                let status = v.as_string();
                let lower = to_lowercase(status.as_str());
                let running = contains(lower.as_str(), "running") || eq_str(status.as_str(), "1");
                let ghost before = services_view(services@);
                services.push(SophosService { name: r.services[i].0.clone(), status, running });
                assert(services_view(services@) =~= before.push(services@.last()@));
            },
            None => {},
        }
        i += 1;
    }
    assert(r.services@.take(r.services@.len() as int) =~= r.services@);
    SophosData {
        live_users: scalar_number_exec(&r.live_users),
        http_hits: scalar_number_exec(&r.http_hits),
        active_connections: scalar_number_exec(&r.active_connections),
        services,
    }
}

} // verus!

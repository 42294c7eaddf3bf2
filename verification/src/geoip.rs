//! Where the GeoLite2 databases are, and how a location is named from what
//! they hold.

use vstd::prelude::*;
use crate::text::{push_str, to_owned_string};

verus! {

/// The directory of the GeoLite2 databases.
pub fn default_db_dir() -> (r: String)
    ensures
        r@ == "/opt/ness_relay/data"@,
{
    to_owned_string("/opt/ness_relay/data")
}

/// `Path::join` of a relative name onto a directory: a `/` between them
/// unless the directory is empty or already ends with one.
pub open spec fn join_path_spec(base: Seq<char>, name: Seq<char>) -> Seq<char> {
    if base.len() == 0 {
        name
    } else if base.last() == '/' {
        base + name
    } else {
        base + "/"@ + name
    }
}

/// `Path::join` of a relative name onto a directory.
pub fn join_path(base: &str, name: &str) -> (r: String)
    requires
        name@.len() == 0 || name@[0] != '/',
    ensures
        r@ == join_path_spec(base@, name@),
{
    let b = crate::text::chars_of(base);
    if b.len() == 0 {
        return to_owned_string(name);
    }
    let mut r = to_owned_string(base);
    if b[b.len() - 1] != '/' {
        push_str(&mut r, "/");
    }
    push_str(&mut r, name);
    r
}

/// The city database under `base`.
pub fn city_db_path(base: &str) -> (r: String)
    ensures
        r@ == join_path_spec(base@, "GeoLite2-City.mmdb"@),
{
    proof {
        reveal_strlit("GeoLite2-City.mmdb");
    }
    join_path(base, "GeoLite2-City.mmdb")
}

/// The ASN database under `base`.
pub fn asn_db_path(base: &str) -> (r: String)
    ensures
        r@ == join_path_spec(base@, "GeoLite2-ASN.mmdb"@),
{
    proof {
        reveal_strlit("GeoLite2-ASN.mmdb");
    }
    join_path(base, "GeoLite2-ASN.mmdb")
}

/// The name to show of a place: the Spanish one, else the English one.
pub fn localized_name(es: Option<&str>, en: Option<&str>) -> (r: Option<String>)
    ensures
        match (es, en) {
            (Some(s), _) => r is Some && r->0@ == s@,
            (None, Some(e)) => r is Some && r->0@ == e@,
            (None, None) => r is None,
        },
{
    match es {
        Some(s) => Some(to_owned_string(s)),
        None => match en {
            Some(e) => Some(to_owned_string(e)),
            None => None,
        },
    }
}

/// A located IP address: city, region and country.
#[derive(Debug, Clone)]
pub struct GeoPlace {
    pub city: String,
    pub region: String,
    pub country: String,
}

/// A place from the names found; an unknown city or region is `Unknown`, an
/// unknown country `Colombia`.
pub fn geo_place(city: Option<String>, region: Option<String>, country: Option<String>) -> (r: GeoPlace)
    ensures
        r.city@ == match city {
            Some(c) => c@,
            None => "Unknown"@,
        },
        r.region@ == match region {
            Some(c) => c@,
            None => "Unknown"@,
        },
        r.country@ == match country {
            Some(c) => c@,
            None => "Colombia"@,
        },
{
    GeoPlace {
        city: match city {
            Some(c) => c,
            None => to_owned_string("Unknown"),
        },
        region: match region {
            Some(c) => c,
            None => to_owned_string("Unknown"),
        },
        country: match country {
            Some(c) => c,
            None => to_owned_string("Colombia"),
        },
    }
}

/// The organisation that holds an IP address's network, `Unknown` when the
/// database names none.
pub fn asn_organization(org: Option<&str>) -> (r: String)
    ensures
        r@ == match org {
            Some(o) => o@,
            None => "Unknown"@,
        },
{
    match org {
        Some(o) => to_owned_string(o),
        None => to_owned_string("Unknown"),
    }
}

} // verus!

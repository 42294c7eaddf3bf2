//! The profile registry: profiles by vendor key, and the order in which a
//! device's sysObjectID is tried against them.

use vstd::prelude::*;
use crate::profiles::access_points::CambiumProfile;
use crate::profiles::base::{DeviceProfile, Profile};
use crate::profiles::firewalls::{
    CheckPointProfile, FortinetProfile, MikroTikFwProfile, PaloAltoProfile, PfSenseProfile, SophosProfile,
};
use crate::profiles::generic::GenericProfile;
use crate::profiles::routers::{CiscoProfile, JuniperMxProfile, MikroTikProfile};
use crate::profiles::switches::{
    ArubaProfile, DatacomProfile, DellProfile, ExtremeProfile, HuaweiProfile, JuniperExProfile, TpLinkProfile,
    UbntProfile,
};
use crate::text::{
    contains, contains_spec, eq_str, lemma_lex_lt_irreflexive, lemma_lex_lt_total,
    lemma_lex_lt_transitive, lex_lt, lowercase, starts_with, starts_with_spec, str_less,
    to_lowercase, to_owned_string, trim, trim_spec, is_ascii_text,
};

verus! {

/// Each key sorts strictly before the ones after it (so no key occurs twice).
pub open spec fn sorted_keys(s: Seq<Seq<char>>) -> bool {
    forall|i: int, j: int| 0 <= i < j < s.len() ==> lex_lt(#[trigger] s[i], #[trigger] s[j])
}

/// The profile `get_profile` gives for an already lower-cased key: the one
/// registered under it, else the generic one.
pub open spec fn lookup(m: Map<Seq<char>, Profile>, key: Seq<char>) -> Profile {
    if m.dom().contains(key) {
        m[key]
    } else {
        m["generic"@]
    }
}

/// The first profile of `det` that claims `oid`.
pub open spec fn first_match(det: Seq<Profile>, oid: Seq<char>) -> Option<Profile>
    decreases det.len(),
{
    if det.len() == 0 {
        None
    } else if det[0].matches_spec(oid) {
        Some(det[0])
    } else {
        first_match(det.drop_first(), oid)
    }
}

/// Detection by sysObjectID: nothing for an empty one, else the first match.
pub open spec fn detect_spec(det: Seq<Profile>, oid: Seq<char>) -> Option<Profile> {
    if oid.len() == 0 {
        None
    } else {
        first_match(det, oid)
    }
}

/// A string view of an optional string.
pub open spec fn opt_view(r: Option<&str>) -> Option<Seq<char>> {
    match r {
        Some(s) => Some(s@),
        None => None,
    }
}

/// Generic family from the sysObjectID: printers of Kyocera, Lexmark, Canon,
/// Brother and Epson, by their enterprise prefixes.
pub open spec fn oid_generic_vendor(oid: Seq<char>) -> Option<Seq<char>> {
    let t = trim_spec(oid);
    if t.len() == 0 {
        None
    } else if starts_with_spec(t, "1.3.6.1.4.1.367."@) || starts_with_spec(t, "1.3.6.1.4.1.1347."@)
        || starts_with_spec(t, "1.3.6.1.4.1.1602."@) || starts_with_spec(t, "1.3.6.1.4.1.2435."@)
        || starts_with_spec(t, "1.3.6.1.4.1.1248."@) {
        Some("printer"@)
    } else {
        None
    }
}

/// Vendor named in a lower-cased sysDescr, by keywords, first rule first.
pub open spec fn descr_vendor(d: Seq<char>) -> Option<Seq<char>> {
    if contains_spec(d, "pfsense"@) {
        Some("pfsense"@)
    } else if contains_spec(d, "fortinet"@) || contains_spec(d, "fortigate"@) {
        Some("fortinet"@)
    } else if contains_spec(d, "sophos"@) || contains_spec(d, "sfos"@) || contains_spec(d, "cyberoam"@) {
        Some("sophos"@)
    } else if contains_spec(d, "check point"@) || contains_spec(d, "checkpoint"@) || contains_spec(d, "gaia"@) {
        Some("checkpoint"@)
    } else if contains_spec(d, "palo alto"@) || contains_spec(d, "pan-os"@) || contains_spec(d, "panos"@) {
        Some("palo_alto"@)
    } else if contains_spec(d, "mikrotik"@) || contains_spec(d, "routeros"@) {
        Some("mikrotik"@)
    } else if contains_spec(d, "ubiquiti"@) || contains_spec(d, "ubnt"@) || contains_spec(d, "edgeswitch"@) {
        Some("ubnt"@)
    } else if contains_spec(d, "cisco"@) || contains_spec(d, "ios"@) {
        Some("cisco"@)
    } else if contains_spec(d, "juniper"@) || contains_spec(d, "junos"@) {
        Some("juniper_mx"@)
    } else if contains_spec(d, "aruba"@) || contains_spec(d, "procurve"@) || contains_spec(d, "hpe switch"@) {
        Some("aruba"@)
    } else if contains_spec(d, "extreme"@) || contains_spec(d, "extremexos"@) || contains_spec(d, "exos"@) {
        Some("extreme"@)
    } else if contains_spec(d, "huawei"@) || contains_spec(d, "vrp"@) {
        Some("huawei"@)
    } else if contains_spec(d, "tp-link"@) || contains_spec(d, "tplink"@) {
        Some("tp_link"@)
    } else if contains_spec(d, "dell"@) || contains_spec(d, "force10"@) {
        Some("dell"@)
    } else if contains_spec(d, "datacom"@) {
        Some("datacomm"@)
    } else if contains_spec(d, "cambium"@) || contains_spec(d, "cnpilot"@) {
        Some("c_n"@)
    } else {
        None
    }
}

/// Device family named in a lower-cased sysDescr when no vendor is.
pub open spec fn descr_generic_vendor(d: Seq<char>) -> Option<Seq<char>> {
    if contains_spec(d, "printer"@) || contains_spec(d, "laserjet"@) || contains_spec(d, "deskjet"@)
        || contains_spec(d, "epson"@) || contains_spec(d, "brother"@) || contains_spec(d, "lexmark"@)
        || contains_spec(d, "multifunction"@) {
        Some("printer"@)
    } else if contains_spec(d, "firewall"@) || contains_spec(d, "next-generation firewall"@)
        || contains_spec(d, "utm"@) {
        Some("firewall"@)
    } else if contains_spec(d, "access point"@) || contains_spec(d, "wireless ap"@)
        || contains_spec(d, "wifi ap"@) {
        Some("ap"@)
    } else if contains_spec(d, "switch"@) || contains_spec(d, "l2 switch"@) || contains_spec(d, "l3 switch"@) {
        Some("switch"@)
    } else if contains_spec(d, "router"@) || contains_spec(d, "gateway"@) || contains_spec(d, "edge device"@) {
        Some("router"@)
    } else {
        None
    }
}

/// Vendor values of a device's configuration that name no vendor.
pub open spec fn is_generic_fallback_spec(v: Seq<char>) -> bool {
    v == ""@ || v == "generic"@ || v == "linux"@ || v == "windows"@ || v == "router"@ || v == "switch"@
        || v == "firewall"@ || v == "ap"@ || v == "access_point"@ || v == "other"@
}

/// The profile chosen for a device: an explicitly configured vendor, else the
/// sysObjectID, else the sysDescr, else the configured vendor (or generic).
/// A MikroTik found with a generic configured vendor is taken in its
/// firewall role.
pub open spec fn resolve_spec(
    reg: Map<Seq<char>, Profile>,
    det: Seq<Profile>,
    fallback: Seq<char>,
    oid: Seq<char>,
    descr: Seq<char>,
) -> Profile {
    let n = lowercase(trim_spec(fallback));
    let g = is_generic_fallback_spec(n);
    if n.len() > 0 && !g && reg.dom().contains(n) {
        lookup(reg, lowercase(n))
    } else {
        match detect_spec(det, oid) {
            Some(p) => if p.vendor_spec() == "mikrotik"@ && g {
                lookup(reg, "mikrotik_fw"@)
            } else {
                p
            },
            None => match oid_generic_vendor(oid) {
                Some(v) => lookup(reg, v),
                None => {
                    let d = lowercase(descr);
                    match descr_vendor(d) {
                        Some(v) => if v == "mikrotik"@ && g {
                            lookup(reg, "mikrotik_fw"@)
                        } else {
                            lookup(reg, v)
                        },
                        None => match descr_generic_vendor(d) {
                            Some(v) => lookup(reg, v),
                            None => lookup(reg, lowercase(n)),
                        },
                    }
                },
            },
        }
    }
}

/// `p` is the generic profile of category `name`.
pub open spec fn is_generic_named(p: Profile, name: Seq<char>) -> bool {
    match p {
        Profile::Generic(g) => g.category() == name,
        _ => false,
    }
}

/// The profiles tried against a sysObjectID, first to last. MikroTik is
/// tried in its router role only (the firewall role shares its enterprise
/// number), Juniper EX/QFX before the Juniper MX/SRX catch-all, and the
/// switches without an enterprise number of their own (Huawei, TP-Link,
/// Dell, Datacom) are found by sysDescr.
pub open spec fn builtin_detection() -> Seq<Profile> {
    seq![
        Profile::PfSense(PfSenseProfile),
        Profile::Fortinet(FortinetProfile),
        Profile::Sophos(SophosProfile),
        Profile::CheckPoint(CheckPointProfile),
        Profile::PaloAlto(PaloAltoProfile),
        Profile::MikroTik(MikroTikProfile),
        Profile::Cisco(CiscoProfile),
        Profile::JuniperEx(JuniperExProfile),
        Profile::JuniperMx(JuniperMxProfile),
        Profile::Ubnt(UbntProfile),
        Profile::Aruba(ArubaProfile),
        Profile::Extreme(ExtremeProfile),
        Profile::Cambium(CambiumProfile),
    ]
}


/// A profile found by `first_match` is one of those it was given.
pub proof fn lemma_first_match_in(det: Seq<Profile>, oid: Seq<char>)
    ensures
        first_match(det, oid) matches Some(p) ==> det.contains(p),
    decreases det.len(),
{
    if det.len() > 0 && !det[0].matches_spec(oid) {
        lemma_first_match_in(det.drop_first(), oid);
        if let Some(p) = first_match(det.drop_first(), oid) {
            let i = choose|i: int| 0 <= i < det.drop_first().len() && det.drop_first()[i] == p;
            assert(det[i + 1] == p);
        }
    } else if det.len() > 0 {
        assert(det[0] == det[0]);
    }
}

/// Once `register(vendor, p)` has run, `get_profile(vendor)` gives `p`.
pub proof fn lemma_get_after_register(reg: Map<Seq<char>, Profile>, vendor: Seq<char>, p: Profile)
    ensures
        lookup(reg.insert(lowercase(vendor), p), lowercase(vendor)) == p,
{
}

/// What `register(vendor, p)` does to lookups by any text `w`: a text whose
/// lower-case form is the new key finds `p`; any other text finds what it
/// found before (when the generic fallback is not the key replaced, or the
/// text has a key of its own); the keys become the old ones plus the new
/// one; and keys that are their own lower-case forms stay so when the new
/// key is one too.
pub proof fn lemma_register_law(reg: Map<Seq<char>, Profile>, vendor: Seq<char>, p: Profile, w: Seq<char>)
    ensures
        lowercase(w) == lowercase(vendor) ==> lookup(reg.insert(lowercase(vendor), p), lowercase(w)) == p,
        (lowercase(w) != lowercase(vendor) && (lowercase(vendor) != "generic"@ || reg.dom().contains(lowercase(w))))
            ==> lookup(reg.insert(lowercase(vendor), p), lowercase(w)) == lookup(reg, lowercase(w)),
        reg.insert(lowercase(vendor), p).dom() == reg.dom().insert(lowercase(vendor)),
        (lowercase_keys(reg) && lowercase(lowercase(vendor)) == lowercase(vendor))
            ==> lowercase_keys(reg.insert(lowercase(vendor), p)),
{
    assert(reg.insert(lowercase(vendor), p).dom() =~= reg.dom().insert(lowercase(vendor)));
}

/// In a registry whose keys are their own lower-case forms, every key
/// registered before `register(vendor, p)`, other than the new one, keeps
/// its profile through `get_profile`.
pub proof fn lemma_register_keeps_earlier_keys(reg: Map<Seq<char>, Profile>, vendor: Seq<char>, p: Profile, x: Seq<char>)
    requires
        lowercase_keys(reg),
        reg.dom().contains(x),
        x != lowercase(vendor),
    ensures
        lookup(reg, lowercase(x)) == reg[x],
        lookup(reg.insert(lowercase(vendor), p), lowercase(x)) == reg[x],
{
    assert(lowercase(x) == x);
}

/// Two strictly sorted lists of keys with the same members are the same
/// list: the vendor list is fixed by the registered keys alone, so after
/// `register` it is the sorted list of the old keys and the new one.
pub proof fn lemma_sorted_keys_unique(a: Seq<Seq<char>>, b: Seq<Seq<char>>)
    requires
        sorted_keys(a),
        sorted_keys(b),
        forall|x: Seq<char>| a.contains(x) <==> b.contains(x),
    ensures
        a == b,
    decreases a.len(),
{
    if a.len() == 0 {
        if b.len() > 0 {
            assert(b.contains(b[0]));
        }
        assert(a =~= b);
    } else {
        assert(a.contains(a[0]));
        assert(b.len() > 0);
        assert(b.contains(b[0]));
        let i = choose|i: int| 0 <= i < a.len() && a[i] == b[0];
        let j = choose|j: int| 0 <= j < b.len() && b[j] == a[0];
        if i > 0 && j > 0 {
            assert(lex_lt(a[0], a[i]));
            assert(lex_lt(b[0], b[j]));
            lemma_lex_lt_transitive(a[0], b[0], a[0]);
            lemma_lex_lt_irreflexive(a[0]);
        }
        assert(a[0] == b[0]);
        let ra = a.drop_first();
        let rb = b.drop_first();
        assert(sorted_keys(ra)) by {
            assert forall|m: int, n: int| 0 <= m < n < ra.len() implies lex_lt(#[trigger] ra[m], #[trigger] ra[n]) by {
                assert(ra[m] == a[m + 1] && ra[n] == a[n + 1]);
            }
        }
        assert(sorted_keys(rb)) by {
            assert forall|m: int, n: int| 0 <= m < n < rb.len() implies lex_lt(#[trigger] rb[m], #[trigger] rb[n]) by {
                assert(rb[m] == b[m + 1] && rb[n] == b[n + 1]);
            }
        }
        assert forall|x: Seq<char>| ra.contains(x) <==> rb.contains(x) by {
            if ra.contains(x) {
                let m = choose|m: int| 0 <= m < ra.len() && ra[m] == x;
                assert(a[m + 1] == x);
                assert(lex_lt(a[0], a[m + 1]));
                if x == a[0] {
                    lemma_lex_lt_irreflexive(x);
                }
                assert(a.contains(x));
                assert(b.contains(x));
                let n = choose|n: int| 0 <= n < b.len() && b[n] == x;
                assert(n != 0);
                assert(rb[n - 1] == x);
            }
            if rb.contains(x) {
                let m = choose|m: int| 0 <= m < rb.len() && rb[m] == x;
                assert(b[m + 1] == x);
                assert(lex_lt(b[0], b[m + 1]));
                if x == b[0] {
                    lemma_lex_lt_irreflexive(x);
                }
                assert(b.contains(x));
                assert(a.contains(x));
                let n = choose|n: int| 0 <= n < a.len() && a[n] == x;
                assert(n != 0);
                assert(ra[n - 1] == x);
            }
        }
        lemma_sorted_keys_unique(ra, rb);
        assert(a =~= seq![a[0]] + ra);
        assert(b =~= seq![b[0]] + rb);
    }
}

/// A vendor configured explicitly, registered and naming no generic family,
/// is kept whatever the device reports.
pub proof fn lemma_explicit_vendor_kept(
    reg: Map<Seq<char>, Profile>,
    det: Seq<Profile>,
    fallback: Seq<char>,
    oid: Seq<char>,
    descr: Seq<char>,
)
    requires
        lowercase(trim_spec(fallback)).len() > 0,
        !is_generic_fallback_spec(lowercase(trim_spec(fallback))),
        reg.dom().contains(lowercase(trim_spec(fallback))),
    ensures
        resolve_spec(reg, det, fallback, oid, descr) == lookup(reg, lowercase(lowercase(trim_spec(fallback)))),
{
}

/// A MikroTik whose configured vendor names no vendor (generic, linux,
/// router, ...) is taken in its firewall role, whether the sysObjectID or,
/// failing that, the sysDescr recognises it.
pub proof fn lemma_mikrotik_firewall_role(
    reg: Map<Seq<char>, Profile>,
    det: Seq<Profile>,
    fallback: Seq<char>,
    oid: Seq<char>,
    descr: Seq<char>,
)
    requires
        is_generic_fallback_spec(lowercase(trim_spec(fallback))),
        (detect_spec(det, oid) matches Some(p) && p.vendor_spec() == "mikrotik"@) || (detect_spec(det, oid) is None
            && oid_generic_vendor(oid) is None && descr_vendor(lowercase(descr)) == Some("mikrotik"@)),
    ensures
        resolve_spec(reg, det, fallback, oid, descr) == lookup(reg, "mikrotik_fw"@),
{
}

/// Resolution always ends on a registered profile, when a generic profile is
/// registered and every profile of the detection order is registered too.
pub proof fn lemma_resolve_registered(
    reg: Map<Seq<char>, Profile>,
    det: Seq<Profile>,
    fallback: Seq<char>,
    oid: Seq<char>,
    descr: Seq<char>,
)
    requires
        reg.dom().contains("generic"@),
        forall|i: int| 0 <= i < det.len() ==> exists|k: Seq<char>| reg.dom().contains(k) && reg[k] == #[trigger] det[i],
    ensures
        exists|k: Seq<char>| reg.dom().contains(k) && reg[k] == resolve_spec(reg, det, fallback, oid, descr),
{
    let r = resolve_spec(reg, det, fallback, oid, descr);
    lemma_first_match_in(det, oid);
    assert forall|key: Seq<char>| exists|k: Seq<char>| reg.dom().contains(k) && reg[k] == #[trigger] lookup(reg, key) by {
        if reg.dom().contains(key) {
            assert(reg[key] == lookup(reg, key));
        } else {
            assert(reg["generic"@] == lookup(reg, key));
        }
    }
    if let Some(p) = detect_spec(det, oid) {
        let i = choose|i: int| 0 <= i < det.len() && det[i] == p;
        assert(exists|k: Seq<char>| reg.dom().contains(k) && reg[k] == det[i]);
    }
    assert(exists|k: Seq<char>| reg.dom().contains(k) && reg[k] == r);
}

/// The keys of a list of registry entries.
spec fn entry_keys(v: Seq<(String, Profile)>) -> Seq<Seq<char>> {
    Seq::new(v.len(), |i: int| v[i].0@)
}

/// The profile under each key of a list of registry entries.
spec fn entry_map(v: Seq<(String, Profile)>) -> Map<Seq<char>, Profile> {
    Map::new(
        |k: Seq<char>| entry_keys(v).contains(k),
        |k: Seq<char>| v[entry_keys(v).index_of(k)].1,
    )
}

proof fn lemma_entry_at(v: Seq<(String, Profile)>, i: int)
    requires
        sorted_keys(entry_keys(v)),
        0 <= i < v.len(),
    ensures
        entry_map(v).dom().contains(entry_keys(v)[i]),
        entry_map(v)[entry_keys(v)[i]] == v[i].1,
{
    let k = entry_keys(v)[i];
    assert(entry_keys(v).contains(k));
    let j = entry_keys(v).index_of(k);
    if j < i {
        assert(lex_lt(entry_keys(v)[j], entry_keys(v)[i]));
        lemma_lex_lt_irreflexive(k);
    } else if j > i {
        assert(lex_lt(entry_keys(v)[i], entry_keys(v)[j]));
        lemma_lex_lt_irreflexive(k);
    }
}

/// Text of ASCII characters none of which is an upper-case letter.
pub open spec fn lower_ascii(s: Seq<char>) -> bool {
    &&& is_ascii_text(s)
    &&& forall|i: int| 0 <= i < s.len() ==> !('A' <= #[trigger] s[i] && s[i] <= 'Z')
}

/// Every key of the registry is its own lower-case form, so that looking a
/// key up through `get_profile` finds that very key.
pub open spec fn lowercase_keys(m: Map<Seq<char>, Profile>) -> bool {
    forall|k: Seq<char>| #[trigger] m.dom().contains(k) ==> lowercase(k) == k
}

/// The lower-case form of a built-in key, which is the key itself.
fn builtin_key(key: &str) -> (r: String)
    requires
        lower_ascii(key@),
    ensures
        r@ == key@,
        lowercase(key@) == key@,
{
    let r = to_lowercase(key);
    assert(r@ =~= key@);
    r
}

/// Registry of device profiles.
///
/// The entries are kept sorted by key, which makes the vendor list come out
/// in order, and a generic profile is always registered to fall back on;
/// the detection order is fixed when the registry is built.
pub struct ProfileLoader {
    profiles: Vec<(String, Profile)>,
    detection_order: Vec<Profile>,
}

impl ProfileLoader {
    /// The registered keys, in sorted order.
    pub closed spec fn keys(&self) -> Seq<Seq<char>> {
        entry_keys(self.profiles@)
    }

    /// The profile registered under each key.
    pub closed spec fn registry(&self) -> Map<Seq<char>, Profile> {
        entry_map(self.profiles@)
    }

    /// The profiles tried, in this order, against a sysObjectID.
    pub closed spec fn detection(&self) -> Seq<Profile> {
        self.detection_order@
    }

    /// Sorted keys, and a generic profile to fall back on.
    #[verifier::type_invariant]
    closed spec fn wf(&self) -> bool {
        &&& sorted_keys(entry_keys(self.profiles@))
        &&& entry_map(self.profiles@).dom().contains("generic"@)
    }

    /// What the registry holds when it is built: every profile under its
    /// key, a generic profile for each device category, and the detection
    /// order.
    pub open spec fn is_builtin(&self) -> bool {
        &&& Self::builtin_registry(self.registry())
        &&& self.detection() == builtin_detection()
    }

    /// The built-in profiles, each under its key.
    pub open spec fn builtin_registry(m: Map<Seq<char>, Profile>) -> bool {
        &&& lowercase_keys(m)
        &&& m.dom() == set![
            "pfsense"@, "fortinet"@, "mikrotik_fw"@, "sophos"@, "checkpoint"@, "palo_alto"@,
            "mikrotik"@, "cisco"@, "juniper_mx"@, "ubnt"@, "huawei"@, "tp_link"@, "dell"@,
            "datacomm"@, "aruba"@, "juniper_ex"@, "extreme"@, "c_n"@, "generic"@, "firewall"@,
            "router"@, "switch"@, "ap"@, "printer"@,
        ]
        &&& m["pfsense"@] == Profile::PfSense(PfSenseProfile)
        &&& m["fortinet"@] == Profile::Fortinet(FortinetProfile)
        &&& m["mikrotik_fw"@] == Profile::MikroTikFw(MikroTikFwProfile)
        &&& m["sophos"@] == Profile::Sophos(SophosProfile)
        &&& m["checkpoint"@] == Profile::CheckPoint(CheckPointProfile)
        &&& m["palo_alto"@] == Profile::PaloAlto(PaloAltoProfile)
        &&& m["mikrotik"@] == Profile::MikroTik(MikroTikProfile)
        &&& m["cisco"@] == Profile::Cisco(CiscoProfile)
        &&& m["juniper_mx"@] == Profile::JuniperMx(JuniperMxProfile)
        &&& m["huawei"@] == Profile::Huawei(HuaweiProfile)
        &&& m["datacomm"@] == Profile::Datacom(DatacomProfile)
        &&& m["juniper_ex"@] == Profile::JuniperEx(JuniperExProfile)
        &&& m["ubnt"@] == Profile::Ubnt(UbntProfile)
        &&& m["tp_link"@] == Profile::TpLink(TpLinkProfile)
        &&& m["dell"@] == Profile::Dell(DellProfile)
        &&& m["aruba"@] == Profile::Aruba(ArubaProfile)
        &&& m["extreme"@] == Profile::Extreme(ExtremeProfile)
        &&& m["c_n"@] == Profile::Cambium(CambiumProfile)
        &&& is_generic_named(m["generic"@], "generic"@)
        &&& is_generic_named(m["firewall"@], "firewall"@)
        &&& is_generic_named(m["router"@], "router"@)
        &&& is_generic_named(m["switch"@], "switch"@)
        &&& is_generic_named(m["ap"@], "ap"@)
        &&& is_generic_named(m["printer"@], "printer"@)
    }

    /// Where `key` is, or would go: the first entry that does not sort before it.
    fn position(v: &Vec<(String, Profile)>, key: &str) -> (p: usize)
        requires
            sorted_keys(entry_keys(v@)),
        ensures
            p <= entry_keys(v@).len(),
            forall|j: int| 0 <= j < p ==> lex_lt(#[trigger] entry_keys(v@)[j], key@),
            p < entry_keys(v@).len() ==> !lex_lt(entry_keys(v@)[p as int], key@),
            entry_keys(v@).contains(key@) <==> (p < entry_keys(v@).len() && entry_keys(v@)[p as int] == key@),
    {
        let n = v.len();
        let mut i: usize = 0;
        while i < n && str_less(v[i].0.as_str(), key)
            invariant
                n == v@.len(),
                i <= n,
                forall|j: int| 0 <= j < i ==> lex_lt(#[trigger] entry_keys(v@)[j], key@),
            decreases n - i,
        {
            i += 1;
        }
        proof {
            if entry_keys(v@).contains(key@) {
                let j = entry_keys(v@).index_of(key@);
                if j < i {
                    assert(lex_lt(entry_keys(v@)[j], key@));
                    lemma_lex_lt_irreflexive(key@);
                } else if j > i {
                    assert(lex_lt(entry_keys(v@)[i as int], entry_keys(v@)[j]));
                }
            }
        }
        i
    }

    /// Puts `p` under `key`, replacing what was registered there.
    fn insert_entry(v: &mut Vec<(String, Profile)>, key: String, p: Profile)
        requires
            sorted_keys(entry_keys(old(v)@)),
        ensures
            sorted_keys(entry_keys(final(v)@)),
            entry_map(final(v)@) == entry_map(old(v)@).insert(key@, p),
    {
        let ghost old_keys = entry_keys(v@);
        let ghost old_reg = entry_map(v@);
        let ghost old_v = v@;
        let pos = Self::position(v, key.as_str());
        if pos < v.len() && eq_str(v[pos].0.as_str(), key.as_str()) {
            let ghost k = key@;
            v[pos] = (key, p);
            assert(entry_keys(v@) =~= old_keys);
            assert forall|q: Seq<char>| #[trigger] entry_map(v@).dom().contains(q)
                == old_reg.insert(k, p).dom().contains(q) by {}
            assert forall|q: Seq<char>| #[trigger] entry_map(v@).dom().contains(q) implies
                entry_map(v@)[q] == old_reg.insert(k, p)[q] by {
                let j = entry_keys(v@).index_of(q);
                lemma_entry_at(v@, j);
                if j != pos {
                    assert(v@[j] == old_v[j]);
                    lemma_entry_at(old_v, j);
                }
            }
            assert(entry_map(v@) =~= old_reg.insert(k, p));
        } else {
            let ghost k = key@;
            v.insert(pos, (key, p));
            let ghost nk = entry_keys(v@);
            assert(nk =~= old_keys.insert(pos as int, k));
            proof {
                old_keys.insert_ensures(pos as int, k);
                if pos < old_keys.len() {
                    lemma_lex_lt_total(old_keys[pos as int], k);
                }
                assert forall|i: int, j: int| 0 <= i < j < nk.len() implies lex_lt(
                    #[trigger] nk[i],
                    #[trigger] nk[j],
                ) by {
                    if j < pos {
                    } else if j == pos {
                    } else if i < pos {
                        assert(nk[pos + 1] == old_keys[pos as int]);
                        if j > pos + 1 {
                            assert(lex_lt(old_keys[pos as int], old_keys[j - 1]));
                            lemma_lex_lt_transitive(k, old_keys[pos as int], old_keys[j - 1]);
                        }
                        lemma_lex_lt_transitive(nk[i], k, nk[j]);
                    } else if i == pos {
                        if j > pos + 1 {
                            assert(lex_lt(old_keys[pos as int], old_keys[j - 1]));
                            lemma_lex_lt_transitive(k, old_keys[pos as int], old_keys[j - 1]);
                        }
                    } else {
                        assert(nk[i] == old_keys[i - 1]);
                        assert(nk[j] == old_keys[j - 1]);
                    }
                }
            }
            assert forall|q: Seq<char>| #[trigger] entry_map(v@).dom().contains(q)
                == old_reg.insert(k, p).dom().contains(q) by {
                if nk.contains(q) {
                    let j = nk.index_of(q);
                    if j < pos {
                        assert(old_keys[j] == q);
                    } else if j > pos {
                        assert(old_keys[j - 1] == q);
                    }
                }
                if old_keys.contains(q) {
                    let j = old_keys.index_of(q);
                    if j < pos {
                        assert(nk[j] == q);
                    } else {
                        assert(nk[j + 1] == q);
                    }
                }
                assert(nk[pos as int] == k);
            }
            assert forall|q: Seq<char>| #[trigger] entry_map(v@).dom().contains(q) implies
                entry_map(v@)[q] == old_reg.insert(k, p)[q] by {
                let j = nk.index_of(q);
                lemma_entry_at(v@, j);
                if j < pos {
                    assert(v@[j] == old_v[j]);
                    lemma_entry_at(old_v, j);
                } else if j > pos {
                    assert(v@[j] == old_v[j - 1]);
                    lemma_entry_at(old_v, j - 1);
                }
            }
            assert(entry_map(v@) =~= old_reg.insert(k, p));
        }
    }

    /// Builds the registry with every profile the relay knows.
    pub fn new() -> (r: Self)
        ensures
            r.is_builtin(),
    {
        let mut profiles: Vec<(String, Profile)> = Vec::new();
        Self::register_all(&mut profiles);
        let detection_order = Self::builtin_detection_order();
        let r = ProfileLoader { profiles, detection_order };
        assert(r.detection() =~= builtin_detection());
        r
    }

    /// The order in which the built-in profiles are tried against a sysObjectID.
    fn builtin_detection_order() -> (r: Vec<Profile>)
        ensures
            r@ == builtin_detection(),
    {
        let mut det: Vec<Profile> = Vec::new();
        det.push(Profile::PfSense(PfSenseProfile));
        det.push(Profile::Fortinet(FortinetProfile));
        det.push(Profile::Sophos(SophosProfile));
        det.push(Profile::CheckPoint(CheckPointProfile));
        det.push(Profile::PaloAlto(PaloAltoProfile));
        det.push(Profile::MikroTik(MikroTikProfile));
        det.push(Profile::Cisco(CiscoProfile));
        det.push(Profile::JuniperEx(JuniperExProfile));
        det.push(Profile::JuniperMx(JuniperMxProfile));
        det.push(Profile::Ubnt(UbntProfile));
        det.push(Profile::Aruba(ArubaProfile));
        det.push(Profile::Extreme(ExtremeProfile));
        det.push(Profile::Cambium(CambiumProfile));
        assert(det@ =~= builtin_detection());
        det
    }

    /// Registers the built-in profiles in an empty list of entries.
    fn register_all(v: &mut Vec<(String, Profile)>)
        requires
            old(v)@.len() == 0,
        ensures
            sorted_keys(entry_keys(final(v)@)),
            Self::builtin_registry(entry_map(final(v)@)),
    {
        proof {
            reveal_strlit("pfsense");
            reveal_strlit("fortinet");
            reveal_strlit("mikrotik_fw");
            reveal_strlit("sophos");
            reveal_strlit("checkpoint");
            reveal_strlit("palo_alto");
            reveal_strlit("mikrotik");
            reveal_strlit("cisco");
            reveal_strlit("juniper_mx");
            reveal_strlit("ubnt");
            reveal_strlit("huawei");
            reveal_strlit("tp_link");
            reveal_strlit("dell");
            reveal_strlit("datacomm");
            reveal_strlit("aruba");
            reveal_strlit("juniper_ex");
            reveal_strlit("extreme");
            reveal_strlit("c_n");
            reveal_strlit("generic");
            reveal_strlit("firewall");
            reveal_strlit("router");
            reveal_strlit("switch");
            reveal_strlit("ap");
            reveal_strlit("printer");
            assert(lower_ascii("pfsense"@));
            assert(lower_ascii("fortinet"@));
            assert(lower_ascii("mikrotik_fw"@));
            assert(lower_ascii("sophos"@));
            assert(lower_ascii("checkpoint"@));
            assert(lower_ascii("palo_alto"@));
            assert(lower_ascii("mikrotik"@));
            assert(lower_ascii("cisco"@));
            assert(lower_ascii("juniper_mx"@));
            assert(lower_ascii("ubnt"@));
            assert(lower_ascii("huawei"@));
            assert(lower_ascii("tp_link"@));
            assert(lower_ascii("dell"@));
            assert(lower_ascii("datacomm"@));
            assert(lower_ascii("aruba"@));
            assert(lower_ascii("juniper_ex"@));
            assert(lower_ascii("extreme"@));
            assert(lower_ascii("c_n"@));
            assert(lower_ascii("generic"@));
            assert(lower_ascii("firewall"@));
            assert(lower_ascii("router"@));
            assert(lower_ascii("switch"@));
            assert(lower_ascii("ap"@));
            assert(lower_ascii("printer"@));
        }
        assert(entry_map(v@) =~= Map::<Seq<char>, Profile>::empty());
        Self::insert_entry(v, builtin_key("pfsense"), Profile::PfSense(PfSenseProfile));
        Self::insert_entry(v, builtin_key("fortinet"), Profile::Fortinet(FortinetProfile));
        Self::insert_entry(v, builtin_key("mikrotik_fw"), Profile::MikroTikFw(MikroTikFwProfile));
        Self::insert_entry(v, builtin_key("sophos"), Profile::Sophos(SophosProfile));
        Self::insert_entry(v, builtin_key("checkpoint"), Profile::CheckPoint(CheckPointProfile));
        Self::insert_entry(v, builtin_key("palo_alto"), Profile::PaloAlto(PaloAltoProfile));
        Self::insert_entry(v, builtin_key("mikrotik"), Profile::MikroTik(MikroTikProfile));
        Self::insert_entry(v, builtin_key("cisco"), Profile::Cisco(CiscoProfile));
        Self::insert_entry(v, builtin_key("juniper_mx"), Profile::JuniperMx(JuniperMxProfile));
        Self::insert_entry(v, builtin_key("ubnt"), Profile::Ubnt(UbntProfile));
        Self::insert_entry(v, builtin_key("huawei"), Profile::Huawei(HuaweiProfile));
        Self::insert_entry(v, builtin_key("tp_link"), Profile::TpLink(TpLinkProfile));
        Self::insert_entry(v, builtin_key("dell"), Profile::Dell(DellProfile));
        Self::insert_entry(v, builtin_key("datacomm"), Profile::Datacom(DatacomProfile));
        Self::insert_entry(v, builtin_key("aruba"), Profile::Aruba(ArubaProfile));
        Self::insert_entry(v, builtin_key("juniper_ex"), Profile::JuniperEx(JuniperExProfile));
        Self::insert_entry(v, builtin_key("extreme"), Profile::Extreme(ExtremeProfile));
        Self::insert_entry(v, builtin_key("c_n"), Profile::Cambium(CambiumProfile));
        Self::insert_entry(v, builtin_key("generic"), Profile::Generic(GenericProfile::new("generic")));
        Self::insert_entry(v, builtin_key("firewall"), Profile::Generic(GenericProfile::new("firewall")));
        Self::insert_entry(v, builtin_key("router"), Profile::Generic(GenericProfile::new("router")));
        Self::insert_entry(v, builtin_key("switch"), Profile::Generic(GenericProfile::new("switch")));
        Self::insert_entry(v, builtin_key("ap"), Profile::Generic(GenericProfile::new("ap")));
        Self::insert_entry(v, builtin_key("printer"), Profile::Generic(GenericProfile::new("printer")));
        proof {
            reveal_strlit("pfsense");
            reveal_strlit("fortinet");
            reveal_strlit("mikrotik_fw");
            reveal_strlit("sophos");
            reveal_strlit("checkpoint");
            reveal_strlit("palo_alto");
            reveal_strlit("mikrotik");
            reveal_strlit("cisco");
            reveal_strlit("juniper_mx");
            reveal_strlit("ubnt");
            reveal_strlit("huawei");
            reveal_strlit("tp_link");
            reveal_strlit("dell");
            reveal_strlit("datacomm");
            reveal_strlit("aruba");
            reveal_strlit("juniper_ex");
            reveal_strlit("extreme");
            reveal_strlit("c_n");
            reveal_strlit("generic");
            reveal_strlit("firewall");
            reveal_strlit("router");
            reveal_strlit("switch");
            reveal_strlit("ap");
            reveal_strlit("printer");
            assert("pfsense"@.len() == 7 && "pfsense"@[0] == 'p' && "pfsense"@[1] == 'f');
            assert("fortinet"@.len() == 8 && "fortinet"@[0] == 'f' && "fortinet"@[1] == 'o');
            assert("mikrotik_fw"@.len() == 11 && "mikrotik_fw"@[0] == 'm' && "mikrotik_fw"@[1] == 'i');
            assert("sophos"@.len() == 6 && "sophos"@[0] == 's' && "sophos"@[1] == 'o');
            assert("checkpoint"@.len() == 10 && "checkpoint"@[0] == 'c' && "checkpoint"@[1] == 'h');
            assert("palo_alto"@.len() == 9 && "palo_alto"@[0] == 'p' && "palo_alto"@[1] == 'a');
            assert("mikrotik"@.len() == 8 && "mikrotik"@[0] == 'm' && "mikrotik"@[1] == 'i');
            assert("cisco"@.len() == 5 && "cisco"@[0] == 'c' && "cisco"@[1] == 'i');
            assert("juniper_mx"@.len() == 10 && "juniper_mx"@[0] == 'j' && "juniper_mx"@[1] == 'u' && "juniper_mx"@[8] == 'm');
            assert("ubnt"@.len() == 4 && "ubnt"@[0] == 'u' && "ubnt"@[1] == 'b');
            assert("huawei"@.len() == 6 && "huawei"@[0] == 'h' && "huawei"@[1] == 'u');
            assert("tp_link"@.len() == 7 && "tp_link"@[0] == 't' && "tp_link"@[1] == 'p');
            assert("dell"@.len() == 4 && "dell"@[0] == 'd' && "dell"@[1] == 'e');
            assert("datacomm"@.len() == 8 && "datacomm"@[0] == 'd' && "datacomm"@[1] == 'a');
            assert("aruba"@.len() == 5 && "aruba"@[0] == 'a' && "aruba"@[1] == 'r');
            assert("juniper_ex"@.len() == 10 && "juniper_ex"@[0] == 'j' && "juniper_ex"@[1] == 'u' && "juniper_ex"@[8] == 'e');
            assert("extreme"@.len() == 7 && "extreme"@[0] == 'e' && "extreme"@[1] == 'x');
            assert("c_n"@.len() == 3 && "c_n"@[0] == 'c' && "c_n"@[1] == '_');
            assert("generic"@.len() == 7 && "generic"@[0] == 'g' && "generic"@[1] == 'e');
            assert("firewall"@.len() == 8 && "firewall"@[0] == 'f' && "firewall"@[1] == 'i');
            assert("router"@.len() == 6 && "router"@[0] == 'r' && "router"@[1] == 'o');
            assert("switch"@.len() == 6 && "switch"@[0] == 's' && "switch"@[1] == 'w');
            assert("ap"@.len() == 2 && "ap"@[0] == 'a' && "ap"@[1] == 'p');
            assert("printer"@.len() == 7 && "printer"@[0] == 'p' && "printer"@[1] == 'r');
        }
        assert(entry_map(v@).dom() =~= set![
            "pfsense"@, "fortinet"@, "mikrotik_fw"@, "sophos"@, "checkpoint"@, "palo_alto"@,
            "mikrotik"@, "cisco"@, "juniper_mx"@, "ubnt"@, "huawei"@, "tp_link"@, "dell"@,
            "datacomm"@, "aruba"@, "juniper_ex"@, "extreme"@, "c_n"@, "generic"@, "firewall"@,
            "router"@, "switch"@, "ap"@, "printer"@,
        ]);
    }

    /// Registers `profile` under the lower-cased `vendor`, replacing any
    /// profile registered there before.
    pub fn register(&mut self, vendor: &str, profile: Profile)
        ensures
            final(self).registry() == old(self).registry().insert(lowercase(vendor@), profile),
            final(self).detection() == old(self).detection(),
    {
        proof {
            use_type_invariant(&*self);
        }
        let key = to_lowercase(vendor);
        // A registry with the generic profile alone stands in while the
        // entries are rebuilt, so that the registry stays valid throughout.
        let mut entries: Vec<(String, Profile)> = Vec::new();
        entries.push((to_owned_string("generic"), Profile::Generic(GenericProfile::new("generic"))));
        proof {
            reveal_strlit("generic");
            assert(entry_keys(entries@) =~= seq!["generic"@]);
            assert(entry_keys(entries@).contains("generic"@)) by {
                assert(entry_keys(entries@)[0] == "generic"@);
            }
        }
        std::mem::swap(&mut self.profiles, &mut entries);
        let ghost before = entries@;
        Self::insert_entry(&mut entries, key, profile);
        proof {
            assert(entry_map(before).dom().contains("generic"@));
            assert(entry_map(entries@).dom().contains("generic"@));
        }
        self.profiles = entries;
    }

    /// Whether a profile is registered under `key` as it is.
    fn contains_key(&self, key: &str) -> (r: bool)
        ensures
            r == self.registry().dom().contains(key@),
    {
        proof {
            use_type_invariant(self);
        }
        let p = Self::position(&self.profiles, key);
        p < self.profiles.len() && eq_str(self.profiles[p].0.as_str(), key)
    }

    /// The profile under `key` as it is, else the generic one.
    fn profile_for_key(&self, key: &str) -> (r: &Profile)
        ensures
            *r == lookup(self.registry(), key@),
    {
        proof {
            use_type_invariant(self);
        }
        let p = Self::position(&self.profiles, key);
        if p < self.profiles.len() && eq_str(self.profiles[p].0.as_str(), key) {
            proof {
                lemma_entry_at(self.profiles@, p as int);
            }
            &self.profiles[p].1
        } else {
            let g = Self::position(&self.profiles, "generic");
            proof {
                lemma_entry_at(self.profiles@, g as int);
            }
            &self.profiles[g].1
        }
    }

    /// The profile of a vendor (lower-cased); the generic profile when the
    /// vendor is not registered.
    pub fn get_profile(&self, vendor: &str) -> (r: &Profile)
        ensures
            *r == lookup(self.registry(), lowercase(vendor@)),
    {
        let key = to_lowercase(vendor);
        self.profile_for_key(key.as_str())
    }

    /// The registered vendor keys, sorted.
    pub fn list_vendors(&self) -> (r: Vec<String>)
        ensures
            sorted_keys(r@.map_values(|s: String| s@)),
            forall|k: Seq<char>| r@.map_values(|s: String| s@).contains(k) <==> self.registry().dom().contains(k),
    {
        proof {
            use_type_invariant(self);
        }
        let mut out: Vec<String> = Vec::new();
        let n = self.profiles.len();
        let mut i: usize = 0;
        while i < n
            invariant
                n == self.profiles@.len(),
                i <= n,
                out@.len() == i,
                forall|j: int| 0 <= j < i ==> #[trigger] out@[j]@ == self.keys()[j],
            decreases n - i,
        {
            out.push(self.profiles[i].0.clone());
            i += 1;
        }
        assert(out@.map_values(|s: String| s@) =~= self.keys());
        out
    }

    /// The first profile of the detection order that claims `sys_object_id`;
    /// none for an empty one.
    pub fn auto_detect(&self, sys_object_id: &str) -> (r: Option<&Profile>)
        ensures
            match r {
                Some(p) => detect_spec(self.detection(), sys_object_id@) == Some(*p),
                None => detect_spec(self.detection(), sys_object_id@) is None,
            },
    {
        if sys_object_id.is_empty() {
            return None;
        }
        let ghost det = self.detection();
        let n = self.detection_order.len();
        let mut i: usize = 0;
        assert(det.skip(0) =~= det);
        while i < n
            invariant
                n == det.len(),
                det == self.detection(),
                sys_object_id@.len() > 0,
                i <= n,
                first_match(det, sys_object_id@) == first_match(det.skip(i as int), sys_object_id@),
            decreases n - i,
        {
            if self.detection_order[i].matches_sys_object_id(sys_object_id) {
                assert(det.skip(i as int)[0] == det[i as int]);
                return Some(&self.detection_order[i]);
            }
            assert(det.skip(i as int).drop_first() =~= det.skip(i + 1));
            i += 1;
        }
        None
    }

    /// Family of devices known by the sysObjectID alone (printers).
    fn infer_generic_vendor_from_oid(sys_object_id: &str) -> (r: Option<&'static str>)
        ensures
            opt_view(r) == oid_generic_vendor(sys_object_id@),
    {
        let normalized = trim(sys_object_id);
        let t = normalized.as_str();
        if t.is_empty() {
            return None;
        }
        if starts_with(t, "1.3.6.1.4.1.367.") || starts_with(t, "1.3.6.1.4.1.1347.")
            || starts_with(t, "1.3.6.1.4.1.1602.") || starts_with(t, "1.3.6.1.4.1.2435.")
            || starts_with(t, "1.3.6.1.4.1.1248.") {
            return Some("printer");
        }
        None
    }

    /// Vendor named in a lower-cased sysDescr.
    fn infer_vendor_from_sys_descr(d: &str) -> (r: Option<&'static str>)
        ensures
            opt_view(r) == descr_vendor(d@),
    {
        if contains(d, "pfsense") {
            Some("pfsense")
        } else if contains(d, "fortinet") || contains(d, "fortigate") {
            Some("fortinet")
        } else if contains(d, "sophos") || contains(d, "sfos") || contains(d, "cyberoam") {
            Some("sophos")
        } else if contains(d, "check point") || contains(d, "checkpoint") || contains(d, "gaia") {
            Some("checkpoint")
        } else if contains(d, "palo alto") || contains(d, "pan-os") || contains(d, "panos") {
            Some("palo_alto")
        } else if contains(d, "mikrotik") || contains(d, "routeros") {
            Some("mikrotik")
        } else if contains(d, "ubiquiti") || contains(d, "ubnt") || contains(d, "edgeswitch") {
            Some("ubnt")
        } else if contains(d, "cisco") || contains(d, "ios") {
            Some("cisco")
        } else if contains(d, "juniper") || contains(d, "junos") {
            Some("juniper_mx")
        } else if contains(d, "aruba") || contains(d, "procurve") || contains(d, "hpe switch") {
            Some("aruba")
        } else if contains(d, "extreme") || contains(d, "extremexos") || contains(d, "exos") {
            Some("extreme")
        } else if contains(d, "huawei") || contains(d, "vrp") {
            Some("huawei")
        } else if contains(d, "tp-link") || contains(d, "tplink") {
            Some("tp_link")
        } else if contains(d, "dell") || contains(d, "force10") {
            Some("dell")
        } else if contains(d, "datacom") {
            Some("datacomm")
        } else if contains(d, "cambium") || contains(d, "cnpilot") {
            Some("c_n")
        } else {
            None
        }
    }

    /// Device family named in a lower-cased sysDescr.
    fn infer_generic_vendor_from_sys_descr(d: &str) -> (r: Option<&'static str>)
        ensures
            opt_view(r) == descr_generic_vendor(d@),
    {
        if contains(d, "printer") || contains(d, "laserjet") || contains(d, "deskjet") || contains(d, "epson")
            || contains(d, "brother") || contains(d, "lexmark") || contains(d, "multifunction") {
            return Some("printer");
        }
        if contains(d, "firewall") || contains(d, "next-generation firewall") || contains(d, "utm") {
            return Some("firewall");
        }
        if contains(d, "access point") || contains(d, "wireless ap") || contains(d, "wifi ap") {
            return Some("ap");
        }
        if contains(d, "switch") || contains(d, "l2 switch") || contains(d, "l3 switch") {
            return Some("switch");
        }
        if contains(d, "router") || contains(d, "gateway") || contains(d, "edge device") {
            return Some("router");
        }
        None
    }

    /// Whether a configured vendor names no vendor in particular.
    fn is_generic_fallback_vendor(vendor: &str) -> (r: bool)
        ensures
            r == is_generic_fallback_spec(vendor@),
    {
        eq_str(vendor, "") || eq_str(vendor, "generic") || eq_str(vendor, "linux") || eq_str(vendor, "windows")
            || eq_str(vendor, "router") || eq_str(vendor, "switch") || eq_str(vendor, "firewall")
            || eq_str(vendor, "ap") || eq_str(vendor, "access_point") || eq_str(vendor, "other")
    }

    /// The best profile for a device, from its configured vendor, its
    /// sysObjectID and its sysDescr.
    pub fn resolve_profile(&self, fallback_vendor: &str, sys_object_id: &str, sys_descr: &str) -> (r: &Profile)
        ensures
            *r == resolve_spec(self.registry(), self.detection(), fallback_vendor@, sys_object_id@, sys_descr@),
    {
        let trimmed = trim(fallback_vendor);
        let fb = to_lowercase(trimmed.as_str());
        let fb_generic = Self::is_generic_fallback_vendor(fb.as_str());
        if !fb.as_str().is_empty() && !fb_generic && self.contains_key(fb.as_str()) {
            return self.get_profile(fb.as_str());
        }
        match self.auto_detect(sys_object_id) {
            Some(p) => {
                if eq_str(p.vendor(), "mikrotik") && fb_generic {
                    return self.profile_for_key("mikrotik_fw");
                }
                return p;
            },
            None => {},
        }
        match Self::infer_generic_vendor_from_oid(sys_object_id) {
            Some(v) => {
                return self.profile_for_key(v);
            },
            None => {},
        }
        let d = to_lowercase(sys_descr);
        match Self::infer_vendor_from_sys_descr(d.as_str()) {
            Some(v) => {
                if eq_str(v, "mikrotik") && fb_generic {
                    return self.profile_for_key("mikrotik_fw");
                }
                return self.profile_for_key(v);
            },
            None => {},
        }
        match Self::infer_generic_vendor_from_sys_descr(d.as_str()) {
            Some(v) => {
                return self.profile_for_key(v);
            },
            None => {},
        }
        self.get_profile(fb.as_str())
    }
}

impl Default for ProfileLoader {
    fn default() -> (r: Self)
        ensures
            r.is_builtin(),
    {
        Self::new()
    }
}

} // verus!

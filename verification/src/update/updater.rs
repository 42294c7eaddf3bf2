//! Release metadata and the decisions of the updater: version comparison,
//! compatibility, choice of the variant for this machine, the download to
//! fetch, integrity of the download, and which files in an archive to take.

use vstd::prelude::*;
use crate::snmp::types::{encode_simple, hex_spec};
use crate::snmp::v3::{sha256_digest, sha256_hash};
use crate::text::{
    after_last, after_last_char, chars_of, concat, contains, contains_spec, ends_with, ends_with_spec, eq_ignore_ascii_case,
    eq_ignore_ascii_case_spec, eq_str, lemma_split_char_nonempty, lowercase, parse_u32_chars,
    parse_u32_spec, skip_char, split_char, to_lowercase, to_owned_string, trim, trim_spec,
    trim_start_char,
};

verus! {

/// A package to download.
#[allow(non_snake_case)]
#[derive(Debug, Clone)]
pub struct PackInfo {
    pub url: String,
    pub fileName: String,
    pub sha256: String,
}

/// The build of a release for one architecture: a ZIP pack, a bare binary, or both.
#[derive(Debug, Clone)]
pub struct ArchVariant {
    pub arch: String,
    pub platform: String,
    pub pack: Option<PackInfo>,
    pub binary: Option<PackInfo>,
}

/// Release metadata (latest.json), one variant per architecture.
#[derive(Debug, Clone)]
pub struct UpdateMetadata {
    pub version: String,
    pub release_date: String,
    pub min_supported: String,
    pub variants: Vec<ArchVariant>,
    pub installer: Option<PackInfo>,
    pub changelog: Vec<String>,
}

// ---------------------------------------------------------------------------
// Versions
// ---------------------------------------------------------------------------

/// The numbers among dot-separated pieces, in order; pieces that are not a
/// `u32` are skipped.
pub open spec fn numeric_pieces(parts: Seq<Seq<char>>) -> Seq<u32>
    decreases parts.len(),
{
    if parts.len() == 0 {
        Seq::empty()
    } else {
        let prev = numeric_pieces(parts.drop_last());
        match parse_u32_spec(parts.last()) {
            Some(v) => prev.push(v),
            None => prev,
        }
    }
}

/// Major, minor and patch of a version such as "v2.0.3"; missing parts are 0.
pub open spec fn semver_spec(s: Seq<char>) -> (u32, u32, u32) {
    let p = numeric_pieces(split_char(trim_start_char(s, 'v'), '.'));
    (
        if p.len() > 0 { p[0] } else { 0 },
        if p.len() > 1 { p[1] } else { 0 },
        if p.len() > 2 { p[2] } else { 0 },
    )
}

/// Lexicographic order of version triples.
pub open spec fn semver_lt(a: (u32, u32, u32), b: (u32, u32, u32)) -> bool {
    a.0 < b.0 || (a.0 == b.0 && (a.1 < b.1 || (a.1 == b.1 && a.2 < b.2)))
}

/// Reads major, minor and patch from a version string.
fn parse_semver(s: &str) -> (r: (u32, u32, u32))
    ensures
        r == semver_spec(s@),
{
    let cs = chars_of(s);
    let start = skip_char(cs.as_slice(), 0, 'v');
    assert(cs@.skip(0) =~= cs@);
    let ghost body = cs@.skip(start as int);
    let mut nums: Vec<u32> = Vec::new();
    let mut cur: Vec<char> = Vec::new();
    let ghost mut pieces: Seq<Seq<char>> = Seq::empty();
    let mut i = start;
    assert(body.take(0) =~= Seq::<char>::empty());
    while i < cs.len()
        invariant
            start <= i <= cs.len(),
            body == cs@.skip(start as int),
            split_char(body.take(i - start), '.') == pieces.push(cur@),
            numeric_pieces(pieces) == nums@,
        decreases cs.len() - i,
    {
        let c = cs[i];
        let ghost k: int = i - start;
        proof {
            assert(body.take(k + 1).drop_last() =~= body.take(k));
            assert(body.take(k + 1).last() == c);
            lemma_split_char_nonempty(body.take(k), '.');
        }
        if c == '.' {
            let ghost prev_pieces = pieces;
            proof {
                pieces = pieces.push(cur@);
                assert(pieces.drop_last() =~= prev_pieces);
            }
            match parse_u32_chars(cur.as_slice()) {
                Some(x) => nums.push(x),
                None => {},
            }
            cur = Vec::new();
            proof {
                assert(pieces.push(cur@).drop_last() =~= pieces);
            }
        } else {
            cur.push(c);
            proof {
                let prev = split_char(body.take(k), '.');
                assert(prev.update(prev.len() - 1, prev.last().push(c)) =~= pieces.push(cur@));
            }
        }
        i += 1;
    }
    assert(body.take(cs.len() - start) =~= body);
    proof {
        assert(pieces.push(cur@).drop_last() =~= pieces);
    }
    match parse_u32_chars(cur.as_slice()) {
        Some(x) => nums.push(x),
        None => {},
    }
    let a = if nums.len() > 0 { nums[0] } else { 0 };
    let b = if nums.len() > 1 { nums[1] } else { 0 };
    let c = if nums.len() > 2 { nums[2] } else { 0 };
    (a, b, c)
}

fn semver_less(a: (u32, u32, u32), b: (u32, u32, u32)) -> (r: bool)
    ensures
        r == semver_lt(a, b),
{
    a.0 < b.0 || (a.0 == b.0 && (a.1 < b.1 || (a.1 == b.1 && a.2 < b.2)))
}

/// Why an upgrade was refused.
#[derive(Debug, Clone, Copy, PartialEq, Eq, Structural)]
pub enum UpgradeError {
    /// The remote version is not newer than the local one.
    NotAnUpgrade,
    /// The local version is older than the oldest one the release supports.
    BelowMinimum,
}

/// What `is_compatible_upgrade` decides.
pub open spec fn upgrade_check_spec(local: Seq<char>, remote: Seq<char>, min_supported: Seq<char>) -> Result<(), UpgradeError> {
    if !semver_lt(semver_spec(local), semver_spec(remote)) {
        Err(UpgradeError::NotAnUpgrade)
    } else if semver_lt(semver_spec(local), semver_spec(min_supported)) {
        Err(UpgradeError::BelowMinimum)
    } else {
        Ok(())
    }
}

/// Accepts an upgrade when the remote version is newer and the local one is
/// at least the minimum the release supports.
pub fn is_compatible_upgrade(local_version: &str, remote_version: &str, min_supported: &str) -> (r: Result<(), UpgradeError>)
    ensures
        r == upgrade_check_spec(local_version@, remote_version@, min_supported@),
{
    let local = parse_semver(local_version);
    let remote = parse_semver(remote_version);
    let min_required = parse_semver(min_supported);
    if !semver_less(local, remote) {
        return Err(UpgradeError::NotAnUpgrade);
    }
    if semver_less(local, min_required) {
        return Err(UpgradeError::BelowMinimum);
    }
    Ok(())
}

/// An accepted upgrade goes strictly up and never from below the minimum.
pub proof fn lemma_upgrade_accepted(local: Seq<char>, remote: Seq<char>, min_supported: Seq<char>)
    ensures
        upgrade_check_spec(local, remote, min_supported) is Ok ==> {
            &&& semver_lt(semver_spec(local), semver_spec(remote))
            &&& !semver_lt(semver_spec(local), semver_spec(min_supported))
        },
        upgrade_check_spec(local, local, min_supported) == Err::<(), UpgradeError>(UpgradeError::NotAnUpgrade),
{
}

/// The version order is a strict total order in which the major number
/// decides first, then the minor, then the patch.
pub proof fn lemma_semver_order(a: (u32, u32, u32), b: (u32, u32, u32), c: (u32, u32, u32))
    ensures
        !semver_lt(a, a),
        semver_lt(a, b) ==> !semver_lt(b, a),
        (semver_lt(a, b) && semver_lt(b, c)) ==> semver_lt(a, c),
        a != b ==> (semver_lt(a, b) || semver_lt(b, a)),
        a.0 < b.0 ==> semver_lt(a, b),
        (a.0 == b.0 && a.1 < b.1) ==> semver_lt(a, b),
        (a.0 == b.0 && a.1 == b.1 && a.2 < b.2) ==> semver_lt(a, b),
{
}

/// A release whose version is not above the local one, component by
/// component from the major number, is refused as no upgrade.
pub proof fn lemma_downgrade_refused(local: Seq<char>, remote: Seq<char>, min_supported: Seq<char>)
    requires
        ({
            let l = semver_spec(local);
            let r = semver_spec(remote);
            r.0 < l.0 || (r.0 == l.0 && r.1 < l.1) || (r.0 == l.0 && r.1 == l.1 && r.2 <= l.2)
        }),
    ensures
        upgrade_check_spec(local, remote, min_supported) == Err::<(), UpgradeError>(UpgradeError::NotAnUpgrade),
{
}

// ---------------------------------------------------------------------------
// Architecture and variant
// ---------------------------------------------------------------------------

/// Canonical architecture name for the trimmed output of `uname -m`.
pub open spec fn canonical_arch(raw: Seq<char>) -> Seq<char> {
    if raw == "x86_64"@ || raw == "amd64"@ {
        "x86_64"@
    } else if raw == "aarch64"@ || raw == "arm64"@ {
        "aarch64"@
    } else if raw == "armv7l"@ || raw == "armv7"@ {
        "armv7l"@
    } else {
        raw
    }
}

/// Normalises the output of `uname -m` to the names the metadata uses.
pub fn normalize_arch(uname_output: &str) -> (r: String)
    ensures
        r@ == canonical_arch(trim_spec(uname_output@)),
{
    let raw = trim(uname_output);
    let s = raw.as_str();
    if eq_str(s, "x86_64") || eq_str(s, "amd64") {
        to_owned_string("x86_64")
    } else if eq_str(s, "aarch64") || eq_str(s, "arm64") {
        to_owned_string("aarch64")
    } else if eq_str(s, "armv7l") || eq_str(s, "armv7") {
        to_owned_string("armv7l")
    } else {
        raw
    }
}

/// Index of the first variant built for `arch`.
pub open spec fn first_variant_index(vs: Seq<ArchVariant>, arch: Seq<char>) -> Option<int>
    decreases vs.len(),
{
    if vs.len() == 0 {
        None
    } else if vs[0].arch@ == arch {
        Some(0)
    } else {
        match first_variant_index(vs.drop_first(), arch) {
            Some(i) => Some(i + 1),
            None => None,
        }
    }
}

proof fn lemma_first_variant_found(vs: Seq<ArchVariant>, arch: Seq<char>, i: int)
    requires
        0 <= i <= vs.len(),
        forall|j: int| 0 <= j < i ==> #[trigger] vs[j].arch@ != arch,
    ensures
        i < vs.len() && vs[i].arch@ == arch ==> first_variant_index(vs, arch) == Some(i),
        i == vs.len() ==> first_variant_index(vs, arch).is_none(),
    decreases vs.len(),
{
    if vs.len() > 0 && i > 0 {
        let t = vs.drop_first();
        assert forall|j: int| 0 <= j < i - 1 implies #[trigger] t[j].arch@ != arch by {
            assert(t[j] == vs[j + 1]);
        }
        lemma_first_variant_found(t, arch, i - 1);
        assert(vs[0].arch@ != arch);
    }
}

/// No usable variant for the architecture; the ones the release offers.
#[derive(Debug, Clone)]
pub struct VariantError {
    pub target_arch: String,
    pub available: Vec<String>,
}

/// The first variant for `target_arch`, when it has a pack or a binary.
pub fn select_variant<'a>(metadata: &'a UpdateMetadata, target_arch: &str) -> (r: Result<&'a ArchVariant, VariantError>)
    ensures
        match r {
            Ok(v) => first_variant_index(metadata.variants@, target_arch@) matches Some(i)
                && *v == metadata.variants@[i] && (v.pack.is_some() || v.binary.is_some()),
            Err(e) => !(first_variant_index(metadata.variants@, target_arch@) matches Some(i)
                && (metadata.variants@[i].pack.is_some() || metadata.variants@[i].binary.is_some()))
                && e.target_arch@ == target_arch@
                && e.available@.len() == metadata.variants@.len()
                && forall|j: int| 0 <= j < e.available@.len() ==> #[trigger] e.available@[j]@ == metadata.variants@[j].arch@,
        },
{
    let vs = &metadata.variants;
    let mut i: usize = 0;
    while i < vs.len()
        invariant
            i <= vs.len(),
            vs == &metadata.variants,
            forall|j: int| 0 <= j < i ==> #[trigger] vs@[j].arch@ != target_arch@,
        decreases vs.len() - i,
    {
        if eq_str(vs[i].arch.as_str(), target_arch) {
            proof {
                lemma_first_variant_found(vs@, target_arch@, i as int);
            }
            let v = &vs[i];
            if v.pack.is_some() || v.binary.is_some() {
                return Ok(v);
            }
            return Err(VariantError { target_arch: to_owned_string(target_arch), available: variant_arches(vs) });
        }
        i += 1;
    }
    proof {
        lemma_first_variant_found(vs@, target_arch@, i as int);
    }
    Err(VariantError { target_arch: to_owned_string(target_arch), available: variant_arches(vs) })
}

/// The architectures of the variants, in order.
fn variant_arches(vs: &Vec<ArchVariant>) -> (r: Vec<String>)
    ensures
        r@.len() == vs@.len(),
        forall|k: int| 0 <= k < r@.len() ==> #[trigger] r@[k]@ == vs@[k].arch@,
{
    let mut available: Vec<String> = Vec::new();
    let mut j: usize = 0;
    while j < vs.len()
        invariant
            j <= vs.len(),
            available@.len() == j,
            forall|k: int| 0 <= k < j ==> #[trigger] available@[k]@ == vs@[k].arch@,
        decreases vs.len() - j,
    {
        available.push(vs[j].arch.clone());
        j += 1;
    }
    available
}

/// Outcome of a version check once the metadata was fetched.
#[derive(Debug, Clone, Copy, PartialEq, Eq, Structural)]
pub enum UpdateDecision {
    /// A newer, compatible release has a build for this architecture.
    Available,
    /// The release is not an upgrade, or this version is too old for it.
    NotCompatible(UpgradeError),
    /// The release has no usable build for this architecture.
    UnsupportedArch,
}

/// Decides whether fetched metadata is an update for this version and architecture.
pub fn evaluate_update(metadata: &UpdateMetadata, local_version: &str, current_arch: &str) -> (r: UpdateDecision)
    ensures
        match upgrade_check_spec(local_version@, metadata.version@, metadata.min_supported@) {
            Err(e) => r == UpdateDecision::NotCompatible(e),
            Ok(_) => r == (if (first_variant_index(metadata.variants@, current_arch@) matches Some(i)
                && (metadata.variants@[i].pack.is_some() || metadata.variants@[i].binary.is_some())) {
                UpdateDecision::Available
            } else {
                UpdateDecision::UnsupportedArch
            }),
        },
{
    match is_compatible_upgrade(local_version, metadata.version.as_str(), metadata.min_supported.as_str()) {
        Err(e) => UpdateDecision::NotCompatible(e),
        Ok(()) => match select_variant(metadata, current_arch) {
            Ok(_) => UpdateDecision::Available,
            Err(_) => UpdateDecision::UnsupportedArch,
        },
    }
}

// ---------------------------------------------------------------------------
// Download
// ---------------------------------------------------------------------------

/// What to download and the digest it must have.
#[derive(Debug, Clone)]
pub struct DownloadPlan {
    pub url: String,
    pub sha256: String,
    /// The release ships an installer script, which is run instead of
    /// replacing the binary directly.
    pub installer: bool,
}

/// The installer when the release has one; otherwise the variant's binary,
/// else its pack.
pub fn plan_download(metadata: &UpdateMetadata, variant: &ArchVariant) -> (r: Option<DownloadPlan>)
    ensures
        match metadata.installer {
            Some(inst) => r matches Some(p) && p.installer && p.url@ == inst.url@ && p.sha256@ == inst.sha256@,
            None => match variant.binary {
                Some(b) => r matches Some(p) && !p.installer && p.url@ == b.url@ && p.sha256@ == b.sha256@,
                None => match variant.pack {
                    Some(k) => r matches Some(p) && !p.installer && p.url@ == k.url@ && p.sha256@ == k.sha256@,
                    None => r.is_none(),
                },
            },
        },
{
    match &metadata.installer {
        Some(inst) => Some(DownloadPlan { url: inst.url.clone(), sha256: inst.sha256.clone(), installer: true }),
        None => match &variant.binary {
            Some(b) => Some(DownloadPlan { url: b.url.clone(), sha256: b.sha256.clone(), installer: false }),
            None => match &variant.pack {
                Some(k) => Some(DownloadPlan { url: k.url.clone(), sha256: k.sha256.clone(), installer: false }),
                None => None,
            },
        },
    }
}

/// Where a download is stored: a fixed name for ZIP archives, otherwise the
/// last path segment of the URL with a `_download` suffix, under /tmp.
pub open spec fn download_target_spec(url: Seq<char>) -> Seq<char> {
    if ends_with_spec(lowercase(url), ".zip"@) {
        "/tmp/ness_relay_update.zip"@
    } else {
        "/tmp/"@ + after_last(url, '/') + "_download"@
    }
}

/// The `Authorization` header sent with a metadata request: the token,
/// unless it is blank or the metadata lives on public Google Cloud Storage
/// (which refuses requests that carry a token it does not know).
pub open spec fn metadata_auth_spec(url: Seq<char>, token: Seq<char>) -> Option<Seq<char>> {
    if !contains_spec(url, "storage.googleapis.com"@) && trim_spec(token).len() > 0 {
        Some("Token "@ + token)
    } else {
        None
    }
}

/// The `Authorization` header for a metadata request, if one is sent.
pub fn metadata_auth_header(metadata_url: &str, api_token: &str) -> (r: Option<String>)
    ensures
        match r {
            Some(h) => metadata_auth_spec(metadata_url@, api_token@) == Some(h@),
            None => metadata_auth_spec(metadata_url@, api_token@) is None,
        },
{
    let is_gcs_public = contains(metadata_url, "storage.googleapis.com");
    let t = trim(api_token);
    if !is_gcs_public && !t.as_str().is_empty() {
        Some(concat("Token ", api_token))
    } else {
        None
    }
}

/// Local path for the file downloaded from `url`.
pub fn download_target_path(url: &str) -> (r: String)
    ensures
        r@ == download_target_spec(url@),
{
    let lower = to_lowercase(url);
    if ends_with(lower.as_str(), ".zip") {
        to_owned_string("/tmp/ness_relay_update.zip")
    } else {
        let file_name = after_last_char(url, '/');
        let head = concat("/tmp/", file_name.as_str());
        concat(head.as_str(), "_download")
    }
}

/// Why a download failed verification.
#[derive(Debug, Clone, Copy, PartialEq, Eq, Structural)]
pub enum HashError {
    /// The metadata carries no SHA-256; verification is mandatory.
    Missing,
    /// The digest differs from the expected one.
    Mismatch,
}

/// Lower-case hex SHA-256 of `data`.
pub fn sha256_hex(data: &[u8]) -> (r: String)
    ensures
        r@ == hex_spec(sha256_digest(data@)),
{
    let digest = sha256_hash(data);
    encode_simple(digest.as_slice())
}

/// Checks downloaded bytes against the expected hex SHA-256 (letter case is ignored).
pub fn verify_hash(data: &[u8], expected_hex: &str) -> (r: Result<(), HashError>)
    ensures
        r == (if expected_hex@.len() == 0 {
            Err(HashError::Missing)
        } else if eq_ignore_ascii_case_spec(hex_spec(sha256_digest(data@)), expected_hex@) {
            Ok(())
        } else {
            Err(HashError::Mismatch)
        }),
{
    if expected_hex.is_empty() {
        return Err(HashError::Missing);
    }
    let calculated = sha256_hex(data);
    if eq_ignore_ascii_case(calculated.as_str(), expected_hex) {
        Ok(())
    } else {
        Err(HashError::Mismatch)
    }
}

// ---------------------------------------------------------------------------
// Archive entries
// ---------------------------------------------------------------------------

/// Names the new binary may have inside the archive, in order, with
/// neighbouring duplicates removed.
pub open spec fn candidate_names_spec(binary_name: Seq<char>, current_exe_name: Seq<char>) -> Seq<Seq<char>> {
    dedup_adjacent(seq![binary_name, current_exe_name, "ness-relay-x86_64"@, "ness-relay"@, "ness_relay"@])
}

/// `Vec::dedup`: consecutive repeated elements removed.
pub open spec fn dedup_adjacent(s: Seq<Seq<char>>) -> Seq<Seq<char>>
    decreases s.len(),
{
    if s.len() <= 1 {
        s
    } else {
        let prev = dedup_adjacent(s.drop_last());
        if s.last() == s[s.len() - 2] { prev } else { prev.push(s.last()) }
    }
}

/// The candidate names of the new binary in the update archive.
pub fn candidate_names(binary_name: &str, current_exe_name: &str) -> (r: Vec<String>)
    ensures
        r@.len() == candidate_names_spec(binary_name@, current_exe_name@).len(),
        forall|i: int| 0 <= i < r@.len() ==> #[trigger] r@[i]@ == candidate_names_spec(binary_name@, current_exe_name@)[i],
{
    let all: Vec<String> = vec![
        to_owned_string(binary_name),
        to_owned_string(current_exe_name),
        to_owned_string("ness-relay-x86_64"),
        to_owned_string("ness-relay"),
        to_owned_string("ness_relay"),
    ];
    let ghost views = seq![binary_name@, current_exe_name@, "ness-relay-x86_64"@, "ness-relay"@, "ness_relay"@];
    assert(forall|i: int| 0 <= i < 5 ==> #[trigger] all@[i]@ == views[i]);
    let mut out: Vec<String> = Vec::new();
    let mut i: usize = 0;
    while i < 5
        invariant
            i <= 5,
            all@.len() == 5,
            views.len() == 5,
            forall|k: int| 0 <= k < 5 ==> #[trigger] all@[k]@ == views[k],
            out@.len() == dedup_adjacent(views.take(i as int)).len(),
            forall|k: int| 0 <= k < out@.len() ==> #[trigger] out@[k]@ == dedup_adjacent(views.take(i as int))[k],
        decreases 5 - i,
    {
        let ghost t = views.take(i + 1);
        assert(t.drop_last() =~= views.take(i as int));
        if i > 0 && eq_str(all[i].as_str(), all[i - 1].as_str()) {
            assert(t.last() == t[t.len() - 2]);
        } else {
            out.push(all[i].clone());
            proof {
                if i > 0 {
                    assert(t.last() != t[t.len() - 2]);
                }
            }
        }
        i += 1;
    }
    assert(views.take(5) =~= views);
    out
}

/// An archive entry is the binary when its name equals a candidate or ends
/// with `/` and the candidate.
pub open spec fn entry_matches_spec(entry: Seq<char>, candidates: Seq<Seq<char>>) -> bool {
    exists|i: int| 0 <= i < candidates.len() && (entry == #[trigger] candidates[i] || ends_with_spec(entry, seq!['/'] + candidates[i]))
}

/// Whether an archive entry name is one of the candidate names of the binary.
pub fn entry_matches(entry: &str, candidates: &Vec<String>) -> (r: bool)
    ensures
        r == entry_matches_spec(entry@, candidates@.map_values(|c: String| c@)),
{
    let ghost cv = candidates@.map_values(|c: String| c@);
    let mut i: usize = 0;
    while i < candidates.len()
        invariant
            i <= candidates.len(),
            cv == candidates@.map_values(|c: String| c@),
            forall|j: int| 0 <= j < i ==> !(entry@ == #[trigger] cv[j] || ends_with_spec(entry@, seq!['/'] + cv[j])),
        decreases candidates.len() - i,
    {
        let cand = candidates[i].as_str();
        let slash_cand = concat("/", cand);
        assert(slash_cand@ == seq!['/'] + cv[i as int]) by {
            reveal_strlit("/");
        }
        if eq_str(entry, cand) || ends_with(entry, slash_cand.as_str()) {
            return true;
        }
        i += 1;
    }
    false
}

/// What to take from the update archive: the index of the binary (the first
/// entry that matches a candidate name) and, among the entries before it,
/// those of the install script.
pub struct ExtractionPlan {
    pub binary: Option<usize>,
    pub scripts: Vec<usize>,
}

/// An archive entry of the install script.
pub open spec fn is_install_script(entry: Seq<char>) -> bool {
    ends_with_spec(entry, "install_relay.sh"@)
}

/// Which entries of the update archive to extract: the binary, the first
/// entry whose name is a candidate, and the install scripts met before it.
pub fn plan_extraction(entries: &Vec<String>, candidates: &Vec<String>) -> (r: ExtractionPlan)
    ensures
        ({
            let ev = entries@.map_values(|e: String| e@);
            let cv = candidates@.map_values(|c: String| c@);
            let stop = match r.binary {
                Some(b) => b as int,
                None => ev.len() as int,
            };
            &&& match r.binary {
                Some(b) => b < ev.len() && entry_matches_spec(ev[b as int], cv) && forall|j: int|
                    0 <= j < b ==> !entry_matches_spec(#[trigger] ev[j], cv),
                None => forall|j: int| 0 <= j < ev.len() ==> !entry_matches_spec(#[trigger] ev[j], cv),
            }
            &&& forall|k: int| 0 <= k < r.scripts@.len() ==> #[trigger] r.scripts@[k] < stop
                && is_install_script(ev[r.scripts@[k] as int])
            &&& forall|k: int, m: int| 0 <= k < m < r.scripts@.len() ==> r.scripts@[k] < r.scripts@[m]
            &&& forall|j: int| 0 <= j < stop && is_install_script(ev[j]) ==> r.scripts@.contains(j as usize)
        }),
{
    let ghost ev = entries@.map_values(|e: String| e@);
    let ghost cv = candidates@.map_values(|c: String| c@);
    let mut scripts: Vec<usize> = Vec::new();
    let mut i: usize = 0;
    while i < entries.len()
        invariant
            ev == entries@.map_values(|e: String| e@),
            cv == candidates@.map_values(|c: String| c@),
            i <= entries@.len(),
            forall|j: int| 0 <= j < i ==> !entry_matches_spec(#[trigger] ev[j], cv),
            forall|k: int| 0 <= k < scripts@.len() ==> #[trigger] scripts@[k] < i && is_install_script(
                ev[scripts@[k] as int],
            ),
            forall|k: int, m: int| 0 <= k < m < scripts@.len() ==> scripts@[k] < scripts@[m],
            forall|j: int| 0 <= j < i && is_install_script(ev[j]) ==> scripts@.contains(j as usize),
        decreases entries.len() - i,
    {
        assert(ev[i as int] == entries@[i as int]@);
        if entry_matches(entries[i].as_str(), candidates) {
            return ExtractionPlan { binary: Some(i), scripts };
        }
        if ends_with(entries[i].as_str(), "install_relay.sh") {
            let ghost before = scripts@;
            scripts.push(i);
            assert forall|j: int| 0 <= j < i + 1 && is_install_script(ev[j]) implies scripts@.contains(
                j as usize,
            ) by {
                if j < i {
                    let k = choose|k: int| 0 <= k < before.len() && before[k] == j as usize;
                    assert(scripts@[k] == j as usize);
                } else {
                    assert(scripts@[before.len() as int] == j as usize);
                }
            }
        }
        i += 1;
    }
    ExtractionPlan { binary: None, scripts }
}

/// Where the installer puts the binary for `arch`.
pub fn installed_binary_path(arch: &str) -> (r: String)
    ensures
        r@ == "/opt/ness_relay/executables/ness-relay-"@ + arch@,
{
    concat("/opt/ness_relay/executables/ness-relay-", arch)
}

/// The name under which a new binary is staged before it replaces `exe_name`.
pub fn staged_binary_name(exe_name: &str) -> (r: String)
    ensures
        r@ == exe_name@ + ".new"@,
{
    concat(exe_name, ".new")
}

/// The installed binary reports the expected version: `--version` printed it.
pub fn installation_verified(version_output: &str, expected_version: &str) -> (r: bool)
    ensures
        r == contains_spec(version_output@, expected_version@),
{
    contains(version_output, expected_version)
}

/// A downloaded file is an archive to extract (its path ends in `.zip`,
/// ignoring case) rather than the binary itself.
pub fn is_zip_download(path: &str) -> (r: bool)
    ensures
        r == ends_with_spec(lowercase(path@), ".zip"@),
{
    let lower = to_lowercase(path);
    ends_with(lower.as_str(), ".zip")
}

/// Name of the backup directory of the running version made on `date`.
pub fn backup_dir_name(version: &str, date: &str) -> (r: String)
    ensures
        r@ == "backup_v"@ + version@ + "_"@ + date@,
{
    let a = concat("backup_v", version);
    let b = concat(a.as_str(), "_");
    concat(b.as_str(), date)
}

} // verus!

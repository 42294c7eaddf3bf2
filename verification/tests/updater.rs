use ness_relay::update::updater::{installation_verified, installed_binary_path, is_zip_download, metadata_auth_header, staged_binary_name};
use ness_relay::update::backups::{backups_to_remove, group_backups, version_of_backup};
use ness_relay::update::reporter::{
    update_available_report, update_completed_report, update_failed_report, update_pending_report,
    update_started_report, UpdateStatus,
};
use ness_relay::update::updater::{
    backup_dir_name, candidate_names, download_target_path, entry_matches, evaluate_update,
    is_compatible_upgrade, normalize_arch, plan_download, plan_extraction, select_variant, sha256_hex,
    verify_hash, ArchVariant, HashError, PackInfo, UpdateDecision, UpdateMetadata, UpgradeError,
};

fn pack(url: &str, sha: &str) -> PackInfo {
    PackInfo { url: url.to_string(), fileName: "f".to_string(), sha256: sha.to_string() }
}

fn metadata(version: &str, min: &str, variants: Vec<ArchVariant>, installer: Option<PackInfo>) -> UpdateMetadata {
    UpdateMetadata {
        version: version.to_string(),
        release_date: "2026-01-01".to_string(),
        min_supported: min.to_string(),
        variants,
        installer,
        changelog: vec![],
    }
}

fn variant(arch: &str, pack_url: Option<&str>, binary_url: Option<&str>) -> ArchVariant {
    ArchVariant {
        arch: arch.to_string(),
        platform: "linux".to_string(),
        pack: pack_url.map(|u| pack(u, "aa")),
        binary: binary_url.map(|u| pack(u, "bb")),
    }
}

#[test]
fn compatible_upgrades() {
    assert_eq!(is_compatible_upgrade("2.0.0", "2.1.0", "1.0.0"), Ok(()));
    assert_eq!(is_compatible_upgrade("2.0.9", "2.0.10", "2.0.0"), Ok(()));
    assert_eq!(is_compatible_upgrade("v2.0.0", "2.0.1", "2.0.0"), Ok(()));
    assert_eq!(is_compatible_upgrade("2.1.0", "2.1.0", "1.0.0"), Err(UpgradeError::NotAnUpgrade));
    assert_eq!(is_compatible_upgrade("2.2.0", "2.1.0", "1.0.0"), Err(UpgradeError::NotAnUpgrade));
    assert_eq!(is_compatible_upgrade("1.9.0", "2.1.0", "2.0.0"), Err(UpgradeError::BelowMinimum));
    // missing pieces count as zero
    assert_eq!(is_compatible_upgrade("2", "2.0.1", "1"), Ok(()));
}

#[test]
fn arch_normalisation() {
    assert_eq!(normalize_arch("x86_64\n"), "x86_64");
    assert_eq!(normalize_arch("amd64"), "x86_64");
    assert_eq!(normalize_arch("arm64"), "aarch64");
    assert_eq!(normalize_arch(" armv7 "), "armv7l");
    assert_eq!(normalize_arch("riscv64"), "riscv64");
}

#[test]
fn variant_selection() {
    let m = metadata(
        "2.1.0",
        "1.0.0",
        vec![variant("aarch64", None, None), variant("x86_64", Some("p"), None), variant("x86_64", None, Some("b"))],
        None,
    );
    let v = select_variant(&m, "x86_64").unwrap();
    assert_eq!(v.pack.as_ref().unwrap().url, "p");
    let e = select_variant(&m, "aarch64").unwrap_err();
    assert_eq!(e.target_arch, "aarch64");
    assert_eq!(e.available, vec!["aarch64", "x86_64", "x86_64"]);
    assert!(select_variant(&m, "mips").is_err());
}

#[test]
fn update_evaluation() {
    let m = metadata("2.1.0", "2.0.0", vec![variant("x86_64", Some("p"), None)], None);
    assert_eq!(evaluate_update(&m, "2.0.3", "x86_64"), UpdateDecision::Available);
    assert_eq!(evaluate_update(&m, "2.0.3", "aarch64"), UpdateDecision::UnsupportedArch);
    assert_eq!(evaluate_update(&m, "2.1.0", "x86_64"), UpdateDecision::NotCompatible(UpgradeError::NotAnUpgrade));
    assert_eq!(evaluate_update(&m, "1.5.0", "x86_64"), UpdateDecision::NotCompatible(UpgradeError::BelowMinimum));
}

#[test]
fn download_planning() {
    let v = variant("x86_64", Some("https://x/pack.zip"), Some("https://x/bin"));
    let m = metadata("2.1.0", "1.0.0", vec![v.clone()], None);
    let p = plan_download(&m, &v).unwrap();
    assert_eq!(p.url, "https://x/bin");
    assert_eq!(p.sha256, "bb");
    assert!(!p.installer);
    let only_pack = variant("x86_64", Some("https://x/pack.zip"), None);
    let p = plan_download(&m, &only_pack).unwrap();
    assert_eq!(p.url, "https://x/pack.zip");
    let with_installer = metadata("2.1.0", "1.0.0", vec![], Some(pack("https://x/install.sh", "cc")));
    let p = plan_download(&with_installer, &v).unwrap();
    assert!(p.installer);
    assert_eq!(p.url, "https://x/install.sh");
    assert!(plan_download(&m, &variant("x86_64", None, None)).is_none());
}

#[test]
fn download_targets() {
    assert_eq!(download_target_path("https://cdn/x/ness.ZIP"), "/tmp/ness_relay_update.zip");
    assert_eq!(download_target_path("https://cdn/x/ness-relay"), "/tmp/ness-relay_download");
    assert_eq!(download_target_path("plain"), "/tmp/plain_download");
}

#[test]
fn hashing() {
    assert_eq!(
        sha256_hex(b"abc"),
        "ba7816bf8f01cfea414140de5dae2223b00361a396177a9cb410ff61f20015ad"
    );
    assert_eq!(verify_hash(b"abc", "BA7816BF8F01CFEA414140DE5DAE2223B00361A396177A9CB410FF61F20015AD"), Ok(()));
    assert_eq!(verify_hash(b"abc", ""), Err(HashError::Missing));
    assert_eq!(verify_hash(b"abd", "ba7816bf8f01cfea414140de5dae2223b00361a396177a9cb410ff61f20015ad"), Err(HashError::Mismatch));
}

#[test]
fn archive_entries() {
    let c = candidate_names("ness_relay", "ness_relay");
    assert_eq!(c, vec!["ness_relay", "ness-relay-x86_64", "ness-relay", "ness_relay"]);
    let c = candidate_names("ness-relay-x86_64", "relay");
    assert_eq!(c, vec!["ness-relay-x86_64", "relay", "ness-relay-x86_64", "ness-relay", "ness_relay"]);
    assert!(entry_matches("dist/ness-relay", &c));
    assert!(entry_matches("relay", &c));
    assert!(!entry_matches("dist/my-relay", &c));
    assert!(!entry_matches("ness-relay.txt", &c));
}

#[test]
fn extraction_plan() {
    let c = candidate_names("ness_relay", "ness-relay-x86_64");
    let entries: Vec<String> = ["README.md", "scripts/install_relay.sh", "bin/ness_relay", "install_relay.sh"]
        .iter()
        .map(|s| s.to_string())
        .collect();
    let p = plan_extraction(&entries, &c);
    assert_eq!(p.binary, Some(2));
    assert_eq!(p.scripts, vec![1]);
    let none: Vec<String> = ["a.txt", "install_relay.sh"].iter().map(|s| s.to_string()).collect();
    let p = plan_extraction(&none, &c);
    assert_eq!(p.binary, None);
    assert_eq!(p.scripts, vec![1]);
}

#[test]
fn backup_names() {
    assert_eq!(backup_dir_name("2.0.3", "20260430"), "backup_v2.0.3_20260430");
    assert_eq!(version_of_backup("backup_v2.0.3_20260430"), Some("2.0.3".to_string()));
    assert_eq!(version_of_backup("backup_v2.0.3"), None);
    assert_eq!(version_of_backup("snapshot_2.0.3_x"), None);
    assert_eq!(version_of_backup("backup_v_x"), Some(String::new()));
}

#[test]
fn backup_cleanup_selection() {
    let names: Vec<String> = [
        "backup_v2.0.1_20260101",
        "backup_v2.0.3_20260301",
        "backup_v2.0.1_20260115",
        "backup_v2.0.2_20260201",
        "other_dir",
        "backup_vbroken",
    ]
    .iter()
    .map(|s| s.to_string())
    .collect();
    let g = group_backups(&names);
    assert_eq!(g.versions, vec!["2.0.1", "2.0.2", "2.0.3"]);
    assert_eq!(g.latest, vec!["backup_v2.0.1_20260115", "backup_v2.0.2_20260201", "backup_v2.0.3_20260301"]);
    assert_eq!(backups_to_remove(&names, 2), vec!["backup_v2.0.1_20260115"]);
    assert_eq!(backups_to_remove(&names, 1), vec!["backup_v2.0.1_20260115", "backup_v2.0.2_20260201"]);
    assert!(backups_to_remove(&names, 3).is_empty());
    assert!(backups_to_remove(&names, 10).is_empty());
}

#[test]
fn status_reports() {
    let r = update_available_report("2.0.0", "2.1.0", 1704067200);
    assert_eq!(r.timestamp, 1704067200);
    assert_eq!(r.current_version, "2.0.0");
    assert_eq!(r.new_version.as_deref(), Some("2.1.0"));
    assert_eq!(r.status, UpdateStatus::Available);
    assert_eq!(r.message, "Nueva versión disponible: 2.0.0 → 2.1.0");
    assert_eq!(r.status.wire_name(), "AVAILABLE");

    let r = update_started_report("2.0.0", "2.1.0", 1);
    assert_eq!(r.message, "Iniciando actualización a v2.1.0");
    assert_eq!(r.status.wire_name(), "STARTED");

    let r = update_completed_report("2.0.0", "2.1.0", 2);
    assert_eq!(r.current_version, "2.1.0");
    assert_eq!(r.message, "Actualización completada: 2.0.0 → 2.1.0 (reinicio pendiente)");
    assert_eq!(r.status.wire_name(), "COMPLETED");

    let r = update_failed_report("2.0.0", "Hash SHA-256 inválido: esperado abc123, calculado def456", 3);
    assert_eq!(r.status.wire_name(), "FAILED");
    assert_eq!(r.message, "Error durante la actualización");
    assert_eq!(r.details.as_deref(), Some("Hash SHA-256 inválido: esperado abc123, calculado def456"));
    assert!(r.new_version.is_none());

    let r = update_pending_report("2.0.0", "2.1.0", 4);
    assert_eq!(r.status.wire_name(), "PENDING");
    assert_eq!(r.message, "Actualización pendiente: 2.0.0 → 2.1.0 (se aplicará en siguiente reinicio)");
}

#[test]
fn metadata_auth_header_rules() {
    assert_eq!(
        metadata_auth_header("https://ness.example.com/api/version.json", "abc"),
        Some("Token abc".to_string())
    );
    assert_eq!(metadata_auth_header("https://storage.googleapis.com/bucket/latest.json", "abc"), None);
    assert_eq!(metadata_auth_header("https://ness.example.com/api/version.json", "   "), None);
    assert_eq!(metadata_auth_header("https://ness.example.com/api/version.json", ""), None);
}

#[test]
fn install_paths_and_checks() {
    assert_eq!(installed_binary_path("x86_64"), "/opt/ness_relay/executables/ness-relay-x86_64");
    assert_eq!(staged_binary_name("/usr/local/bin/ness-relay"), "/usr/local/bin/ness-relay.new");
    assert!(installation_verified("ness-relay 2.1.0\n", "2.1.0"));
    assert!(!installation_verified("ness-relay 2.0.3\n", "2.1.0"));
    assert!(is_zip_download("/tmp/ness-relay-2.1.0.ZIP"));
    assert!(is_zip_download("pack.zip"));
    assert!(!is_zip_download("ness-relay-x86_64"));
    assert!(!is_zip_download("archive.zip.sig"));
}

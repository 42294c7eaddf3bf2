use ness_relay::config_backup::{config_as_args, config_env_vars, default_backup_path, PreservedConfig};

fn sample(server_url: Option<&str>) -> PreservedConfig {
    PreservedConfig {
        api_token: "token".to_string(),
        server_id: "2".to_string(),
        server_url: server_url.map(|s| s.to_string()),
        version_check_url: None,
        update_report_url: None,
        collection_interval_minutes: 10,
        devices_config_path: "/etc/ness/devices.config".to_string(),
        output_dir: "/var/ness/output".to_string(),
        log_dir: "/var/ness/logs".to_string(),
        saved_at: "2026-04-30 12:00:00 UTC".to_string(),
    }
}

#[test]
fn test_config_as_args() {
    let config = sample(Some("http://custom.com"));
    let args = config_as_args(&config);
    assert!(args.contains(&"--api-token".to_string()));
    assert!(args.contains(&"token".to_string()));
    assert!(args.contains(&"--server-id".to_string()));
    assert!(args.contains(&"2".to_string()));
    assert!(args.contains(&"--server-url".to_string()));
    assert!(args.contains(&"http://custom.com".to_string()));
}

#[test]
fn config_args_exact_order() {
    let mut config = sample(Some("http://custom.com"));
    config.update_report_url = Some("http://r".to_string());
    let args = config_as_args(&config);
    let expected: Vec<String> = [
        "--api-token",
        "token",
        "--server-id",
        "2",
        "--server-url",
        "http://custom.com",
        "--update-report-url",
        "http://r",
        "--devices-file",
        "/etc/ness/devices.config",
        "--output-dir",
        "/var/ness/output",
        "--log-dir",
        "/var/ness/logs",
    ]
    .iter()
    .map(|s| s.to_string())
    .collect();
    assert_eq!(args, expected);
}

#[test]
fn config_args_without_urls() {
    let config = sample(None);
    let args = config_as_args(&config);
    assert_eq!(args.len(), 10);
    assert!(!args.contains(&"--server-url".to_string()));
    assert!(!args.contains(&"--version-check-url".to_string()));
}

#[test]
fn backup_path_default() {
    assert_eq!(default_backup_path(), "/tmp/ness_relay_config_backup.json");
}

#[test]
fn config_env_vars_carry_every_setting() {
    let vars = config_env_vars(&sample(Some("http://custom.com")));
    let expect: Vec<(String, String)> = vec![
        ("NESS_API_TOKEN", "token"),
        ("NESS_SERVER_ID", "2"),
        ("NESS_SERVER_URL", "http://custom.com"),
        ("NESS_DEVICES_FILE", "/etc/ness/devices.config"),
        ("NESS_OUTPUT_DIR", "/var/ness/output"),
        ("NESS_LOG_DIR", "/var/ness/logs"),
    ]
    .into_iter()
    .map(|(a, b)| (a.to_string(), b.to_string()))
    .collect();
    assert_eq!(vars, expect);
}

#[test]
fn config_env_vars_skip_absent_urls() {
    let vars = config_env_vars(&sample(None));
    let names: Vec<&str> = vars.iter().map(|(n, _)| n.as_str()).collect();
    assert_eq!(
        names,
        vec!["NESS_API_TOKEN", "NESS_SERVER_ID", "NESS_DEVICES_FILE", "NESS_OUTPUT_DIR", "NESS_LOG_DIR"]
    );
}

//! The agent settings that survive an update, and how they are handed to the
//! new binary.

use vstd::prelude::*;
use crate::text::to_owned_string;

verus! {

/// Settings of the agent kept across an update.
#[derive(Debug, Clone)]
pub struct PreservedConfig {
    /// API token.
    pub api_token: String,
    /// Server identifier.
    pub server_id: String,
    /// Custom server URL, if any.
    pub server_url: Option<String>,
    /// Custom URL for version checks, if any.
    pub version_check_url: Option<String>,
    /// Custom URL for update reports, if any.
    pub update_report_url: Option<String>,
    /// Collection interval in minutes.
    pub collection_interval_minutes: u64,
    /// Path of the device configuration.
    pub devices_config_path: String,
    /// Output directory.
    pub output_dir: String,
    /// Log directory.
    pub log_dir: String,
    /// When the settings were saved.
    pub saved_at: String,
}

/// Where the settings are saved unless told otherwise.
pub fn default_backup_path() -> (r: String)
    ensures
        r@ == "/tmp/ness_relay_config_backup.json"@,
{
    to_owned_string("/tmp/ness_relay_config_backup.json")
}

/// A flag followed by its value, when there is a value.
pub open spec fn optional_flag(flag: Seq<char>, value: Option<String>) -> Seq<Seq<char>> {
    match value {
        Some(v) => seq![flag, v@],
        None => Seq::empty(),
    }
}

/// The command-line arguments that carry the settings, flags before values:
/// token and server id always, the URLs present, then the three paths.
pub open spec fn config_args_spec(c: PreservedConfig) -> Seq<Seq<char>> {
    seq!["--api-token"@, c.api_token@, "--server-id"@, c.server_id@]
        + optional_flag("--server-url"@, c.server_url)
        + optional_flag("--version-check-url"@, c.version_check_url)
        + optional_flag("--update-report-url"@, c.update_report_url)
        + seq!["--devices-file"@, c.devices_config_path@, "--output-dir"@, c.output_dir@, "--log-dir"@, c.log_dir@]
}

/// Text of a list of strings.
pub open spec fn strings_view(v: Seq<String>) -> Seq<Seq<char>> {
    v.map_values(|s: String| s@)
}

fn push_flag(args: &mut Vec<String>, flag: &str, value: &Option<String>)
    ensures
        strings_view(final(args)@) == strings_view(old(args)@) + optional_flag(flag@, *value),
{
    match value {
        Some(v) => {
            args.push(to_owned_string(flag));
            args.push(v.clone());
            assert(strings_view(final(args)@) =~= strings_view(old(args)@) + optional_flag(flag@, *value));
        },
        None => {
            assert(strings_view(args@) =~= strings_view(args@) + optional_flag(flag@, *value));
        },
    }
}

/// Command-line arguments (`["--key", "value", ...]`) that pass the settings
/// to the new process.
pub fn config_as_args(config: &PreservedConfig) -> (r: Vec<String>)
    ensures
        strings_view(r@) == config_args_spec(*config),
{
    let mut args: Vec<String> = Vec::new();
    args.push(to_owned_string("--api-token"));
    args.push(config.api_token.clone());
    args.push(to_owned_string("--server-id"));
    args.push(config.server_id.clone());
    assert(strings_view(args@) =~= seq!["--api-token"@, config.api_token@, "--server-id"@, config.server_id@]);
    push_flag(&mut args, "--server-url", &config.server_url);
    push_flag(&mut args, "--version-check-url", &config.version_check_url);
    push_flag(&mut args, "--update-report-url", &config.update_report_url);
    let ghost before = strings_view(args@);
    args.push(to_owned_string("--devices-file"));
    args.push(config.devices_config_path.clone());
    args.push(to_owned_string("--output-dir"));
    args.push(config.output_dir.clone());
    args.push(to_owned_string("--log-dir"));
    args.push(config.log_dir.clone());
    assert(strings_view(args@) =~= before + seq!["--devices-file"@, config.devices_config_path@,
        "--output-dir"@, config.output_dir@, "--log-dir"@, config.log_dir@]);
    args
}

/// A variable name and its value, when there is a value.
pub open spec fn optional_var(name: Seq<char>, value: Option<String>) -> Seq<(Seq<char>, Seq<char>)> {
    match value {
        Some(v) => seq![(name, v@)],
        None => Seq::empty(),
    }
}

/// The environment variables that carry the settings: token and server id,
/// the URLs present, then the three paths.
pub open spec fn config_env_spec(c: PreservedConfig) -> Seq<(Seq<char>, Seq<char>)> {
    seq![("NESS_API_TOKEN"@, c.api_token@), ("NESS_SERVER_ID"@, c.server_id@)]
        + optional_var("NESS_SERVER_URL"@, c.server_url)
        + optional_var("NESS_VERSION_CHECK_URL"@, c.version_check_url)
        + optional_var("NESS_UPDATE_REPORT_URL"@, c.update_report_url)
        + seq![("NESS_DEVICES_FILE"@, c.devices_config_path@), ("NESS_OUTPUT_DIR"@, c.output_dir@),
            ("NESS_LOG_DIR"@, c.log_dir@)]
}

/// The views of a list of variable assignments.
pub open spec fn pairs_view(v: Seq<(String, String)>) -> Seq<(Seq<char>, Seq<char>)> {
    v.map_values(|p: (String, String)| (p.0@, p.1@))
}

fn push_var(vars: &mut Vec<(String, String)>, name: &str, value: &Option<String>)
    ensures
        pairs_view(final(vars)@) == pairs_view(old(vars)@) + optional_var(name@, *value),
{
    match value {
        Some(v) => {
            vars.push((to_owned_string(name), v.clone()));
            assert(pairs_view(final(vars)@) =~= pairs_view(old(vars)@) + optional_var(name@, *value));
        },
        None => {
            assert(pairs_view(vars@) =~= pairs_view(vars@) + optional_var(name@, *value));
        },
    }
}

/// The environment variables (name, value) that restore the settings in the
/// updated process.
pub fn config_env_vars(config: &PreservedConfig) -> (r: Vec<(String, String)>)
    ensures
        pairs_view(r@) == config_env_spec(*config),
{
    let mut vars: Vec<(String, String)> = Vec::new();
    vars.push((to_owned_string("NESS_API_TOKEN"), config.api_token.clone()));
    vars.push((to_owned_string("NESS_SERVER_ID"), config.server_id.clone()));
    assert(pairs_view(vars@) =~= seq![("NESS_API_TOKEN"@, config.api_token@), ("NESS_SERVER_ID"@, config.server_id@)]);
    push_var(&mut vars, "NESS_SERVER_URL", &config.server_url);
    push_var(&mut vars, "NESS_VERSION_CHECK_URL", &config.version_check_url);
    push_var(&mut vars, "NESS_UPDATE_REPORT_URL", &config.update_report_url);
    let ghost before = pairs_view(vars@);
    vars.push((to_owned_string("NESS_DEVICES_FILE"), config.devices_config_path.clone()));
    vars.push((to_owned_string("NESS_OUTPUT_DIR"), config.output_dir.clone()));
    vars.push((to_owned_string("NESS_LOG_DIR"), config.log_dir.clone()));
    assert(pairs_view(vars@) =~= before + seq![("NESS_DEVICES_FILE"@, config.devices_config_path@),
        ("NESS_OUTPUT_DIR"@, config.output_dir@), ("NESS_LOG_DIR"@, config.log_dir@)]);
    vars
}

} // verus!

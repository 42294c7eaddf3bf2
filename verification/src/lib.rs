//! SNMP relay core: the BER codec and SNMPv3 user-based security, the device
//! profiles and their registry, the records built from walked SNMP tables,
//! the security alerts, the setup tester's decisions and the update life
//! cycle, with machine-checked contracts.

pub mod text;
pub mod snmp;
pub mod profiles;
pub mod engine;
pub mod interfaces;
pub mod mikrotik;
pub mod channels;
pub mod bgp;
pub mod vendor_data;
pub mod security;
pub mod payload;
pub mod conversions;
pub mod geoip;
pub mod server;
pub mod diagnostics;
pub mod tester;
pub mod setup_check;
pub mod config_backup;
pub mod update;

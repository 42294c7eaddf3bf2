//! SNMP: value types, the BER wire codec and the SNMPv3 user-based security model.

pub mod types;
pub mod ber;
pub mod v3;

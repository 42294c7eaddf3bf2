//! The vendor-specific sections of the collected data, put together from the
//! values and tables the collectors read from each kind of device.

pub mod fortinet;
pub mod pfsense;
pub mod cambium;
pub mod tables;
pub mod sophos;
pub mod switches;

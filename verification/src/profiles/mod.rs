//! Device profiles: what identifies each vendor's devices, and the registry
//! that picks the profile for a device.

pub mod base;
pub mod firewalls;
pub mod switches;
pub mod routers;
pub mod access_points;
pub mod generic;
pub mod loader;
pub mod oids;

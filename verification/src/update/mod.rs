//! The update life cycle: when to look for a release, which release applies,
//! what to report, and the state kept between runs.

pub mod tracker;
pub mod updater;
pub mod reporter;
pub mod backups;
pub mod cycle;
pub mod apply;

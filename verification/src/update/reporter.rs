//! Reports on the update life cycle sent to the server.

use vstd::prelude::*;
use crate::text::{concat, to_owned_string};

verus! {

/// Stage of an update that a report describes.
#[derive(Debug, Clone, Copy, PartialEq, Eq, Structural)]
pub enum UpdateStatus {
    /// A newer version was found.
    Available,
    /// The download started.
    Started,
    /// The update completed.
    Completed,
    /// The update failed.
    Failed,
    /// An update waits for the next restart.
    Pending,
}

impl UpdateStatus {
    pub open spec fn wire_name_spec(self) -> Seq<char> {
        match self {
            UpdateStatus::Available => "AVAILABLE"@,
            UpdateStatus::Started => "STARTED"@,
            UpdateStatus::Completed => "COMPLETED"@,
            UpdateStatus::Failed => "FAILED"@,
            UpdateStatus::Pending => "PENDING"@,
        }
    }

    /// The name that the server expects for the status.
    pub fn wire_name(&self) -> (r: String)
        ensures
            r@ == self.wire_name_spec(),
    {
        match self {
            UpdateStatus::Available => to_owned_string("AVAILABLE"),
            UpdateStatus::Started => to_owned_string("STARTED"),
            UpdateStatus::Completed => to_owned_string("COMPLETED"),
            UpdateStatus::Failed => to_owned_string("FAILED"),
            UpdateStatus::Pending => to_owned_string("PENDING"),
        }
    }
}

/// A report on the update life cycle.
#[derive(Debug, Clone)]
pub struct UpdateStatusReport {
    /// Seconds since the Unix epoch.
    pub timestamp: u64,
    /// Version of the agent.
    pub current_version: String,
    /// Version being installed, where there is one.
    pub new_version: Option<String>,
    pub status: UpdateStatus,
    /// Human-readable message.
    pub message: String,
    /// Technical details of a failure.
    pub details: Option<String>,
}

/// Report that a new version is available.
pub fn update_available_report(current_version: &str, new_version: &str, timestamp: u64) -> (r: UpdateStatusReport)
    ensures
        r.timestamp == timestamp,
        r.current_version@ == current_version@,
        r.new_version matches Some(v) && v@ == new_version@,
        r.status == UpdateStatus::Available,
        r.message@ == "Nueva versión disponible: "@ + current_version@ + " → "@ + new_version@,
        r.details.is_none(),
{
    let m1 = concat("Nueva versión disponible: ", current_version);
    let m2 = concat(m1.as_str(), " → ");
    let message = concat(m2.as_str(), new_version);
    UpdateStatusReport {
        timestamp,
        current_version: to_owned_string(current_version),
        new_version: Some(to_owned_string(new_version)),
        status: UpdateStatus::Available,
        message,
        details: None,
    }
}

/// Report that the download of an update started.
pub fn update_started_report(current_version: &str, new_version: &str, timestamp: u64) -> (r: UpdateStatusReport)
    ensures
        r.timestamp == timestamp,
        r.current_version@ == current_version@,
        r.new_version matches Some(v) && v@ == new_version@,
        r.status == UpdateStatus::Started,
        r.message@ == "Iniciando actualización a v"@ + new_version@,
        r.details.is_none(),
{
    UpdateStatusReport {
        timestamp,
        current_version: to_owned_string(current_version),
        new_version: Some(to_owned_string(new_version)),
        status: UpdateStatus::Started,
        message: concat("Iniciando actualización a v", new_version),
        details: None,
    }
}

/// Report that an update completed; the new version is now the current one.
pub fn update_completed_report(previous_version: &str, new_version: &str, timestamp: u64) -> (r: UpdateStatusReport)
    ensures
        r.timestamp == timestamp,
        r.current_version@ == new_version@,
        r.new_version matches Some(v) && v@ == new_version@,
        r.status == UpdateStatus::Completed,
        r.message@ == "Actualización completada: "@ + previous_version@ + " → "@ + new_version@
            + " (reinicio pendiente)"@,
        r.details.is_none(),
{
    let m1 = concat("Actualización completada: ", previous_version);
    let m2 = concat(m1.as_str(), " → ");
    let m3 = concat(m2.as_str(), new_version);
    let message = concat(m3.as_str(), " (reinicio pendiente)");
    UpdateStatusReport {
        timestamp,
        current_version: to_owned_string(new_version),
        new_version: Some(to_owned_string(new_version)),
        status: UpdateStatus::Completed,
        message,
        details: None,
    }
}

/// Report that an update failed, with the error as details.
pub fn update_failed_report(current_version: &str, error_message: &str, timestamp: u64) -> (r: UpdateStatusReport)
    ensures
        r.timestamp == timestamp,
        r.current_version@ == current_version@,
        r.new_version.is_none(),
        r.status == UpdateStatus::Failed,
        r.message@ == "Error durante la actualización"@,
        r.details matches Some(d) && d@ == error_message@,
{
    UpdateStatusReport {
        timestamp,
        current_version: to_owned_string(current_version),
        new_version: None,
        status: UpdateStatus::Failed,
        message: to_owned_string("Error durante la actualización"),
        details: Some(to_owned_string(error_message)),
    }
}

/// Report that an update waits for the next restart.
pub fn update_pending_report(current_version: &str, new_version: &str, timestamp: u64) -> (r: UpdateStatusReport)
    ensures
        r.timestamp == timestamp,
        r.current_version@ == current_version@,
        r.new_version matches Some(v) && v@ == new_version@,
        r.status == UpdateStatus::Pending,
        r.message@ == "Actualización pendiente: "@ + current_version@ + " → "@ + new_version@
            + " (se aplicará en siguiente reinicio)"@,
        r.details.is_none(),
{
    let m1 = concat("Actualización pendiente: ", current_version);
    let m2 = concat(m1.as_str(), " → ");
    let m3 = concat(m2.as_str(), new_version);
    let message = concat(m3.as_str(), " (se aplicará en siguiente reinicio)");
    UpdateStatusReport {
        timestamp,
        current_version: to_owned_string(current_version),
        new_version: Some(to_owned_string(new_version)),
        status: UpdateStatus::Pending,
        message,
        details: None,
    }
}

} // verus!

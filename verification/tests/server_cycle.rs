use ness_relay::server::{https_reachable, ping_url, send_outcome, SendError};
use ness_relay::update::cycle::{next_update_action, UpdateAction};

#[test]
fn send_outcome_accepts_2xx() {
    assert_eq!(send_outcome(200), Ok(()));
    assert_eq!(send_outcome(201), Ok(()));
    assert_eq!(send_outcome(299), Ok(()));
}

#[test]
fn send_outcome_classifies_errors() {
    assert_eq!(send_outcome(401), Err(SendError::AuthRejected(401)));
    assert_eq!(send_outcome(403), Err(SendError::AuthRejected(403)));
    assert_eq!(send_outcome(500), Err(SendError::ServerError(500)));
    assert_eq!(send_outcome(503), Err(SendError::ServerError(503)));
    assert_eq!(send_outcome(404), Err(SendError::Unexpected(404)));
    assert_eq!(send_outcome(302), Err(SendError::Unexpected(302)));
    assert_eq!(send_outcome(600), Err(SendError::Unexpected(600)));
}

#[test]
fn send_error_messages() {
    assert_eq!(
        SendError::AuthRejected(401).message(),
        "Autenticación rechazada por el servidor (HTTP 401)"
    );
    assert_eq!(SendError::ServerError(502).message(), "Error del servidor: HTTP 502");
    assert_eq!(SendError::Unexpected(404).message(), "Respuesta inesperada: HTTP 404");
}

#[test]
fn https_reachable_statuses() {
    assert!(https_reachable(200));
    assert!(https_reachable(204));
    assert!(https_reachable(401));
    assert!(https_reachable(403));
    assert!(https_reachable(405));
    assert!(!https_reachable(404));
    assert!(!https_reachable(500));
    assert!(!https_reachable(301));
}

#[test]
fn ping_url_strips_trailing_slashes() {
    assert_eq!(ping_url("https://ness.example.com"), "https://ness.example.com/api/relay/ping/");
    assert_eq!(ping_url("https://ness.example.com/"), "https://ness.example.com/api/relay/ping/");
    assert_eq!(ping_url("https://ness.example.com///"), "https://ness.example.com/api/relay/ping/");
    assert_eq!(ping_url(""), "/api/relay/ping/");
}

fn run_cycle(has_token: bool, fail_at: Option<UpdateAction>) -> Vec<UpdateAction> {
    let mut steps = vec![UpdateAction::Found];
    let mut last = UpdateAction::Found;
    for _ in 0..20 {
        let outcome: Result<(), String> = if Some(last.clone()) == fail_at {
            Err("disk full".to_string())
        } else {
            Ok(())
        };
        let next = next_update_action(&last, &outcome, has_token);
        steps.push(next.clone());
        if let UpdateAction::Finish { .. } = next {
            break;
        }
        last = next;
    }
    steps
}

#[test]
fn update_cycle_with_token_reports_every_step() {
    let steps = run_cycle(true, None);
    assert_eq!(
        steps,
        vec![
            UpdateAction::Found,
            UpdateAction::ReportAvailable,
            UpdateAction::SaveConfig,
            UpdateAction::ReportStarted,
            UpdateAction::ApplyUpdate,
            UpdateAction::RestoreConfig,
            UpdateAction::ReportCompleted,
            UpdateAction::MarkPending,
            UpdateAction::ReportPending,
            UpdateAction::TriggerRestart,
            UpdateAction::MarkCompleted,
            UpdateAction::Finish { exit: true },
        ]
    );
}

#[test]
fn update_cycle_without_token_sends_no_report() {
    let steps = run_cycle(false, None);
    assert_eq!(
        steps,
        vec![
            UpdateAction::Found,
            UpdateAction::SaveConfig,
            UpdateAction::ApplyUpdate,
            UpdateAction::RestoreConfig,
            UpdateAction::MarkPending,
            UpdateAction::TriggerRestart,
            UpdateAction::MarkCompleted,
            UpdateAction::Finish { exit: true },
        ]
    );
}

#[test]
fn update_cycle_failed_apply_is_recorded_and_reported() {
    let steps = run_cycle(true, Some(UpdateAction::ApplyUpdate));
    let msg = "Error aplicando actualización: disk full".to_string();
    assert_eq!(
        &steps[4..],
        &[
            UpdateAction::ApplyUpdate,
            UpdateAction::MarkFailed(msg.clone()),
            UpdateAction::ReportFailed(msg),
            UpdateAction::Finish { exit: false },
        ]
    );
}

#[test]
fn update_cycle_failed_restart_without_token() {
    let steps = run_cycle(false, Some(UpdateAction::TriggerRestart));
    assert_eq!(
        &steps[5..],
        &[
            UpdateAction::TriggerRestart,
            UpdateAction::MarkFailed("No se pudo marcar restart graceful: disk full".to_string()),
            UpdateAction::Finish { exit: false },
        ]
    );
}

//! The steps of an update found during the continuous cycle: reports to the
//! server (only with an API token), saving and restoring the settings,
//! applying the update, marking it pending, and the controlled restart.
//! The cycle performs each step and hands back how it went; this module
//! decides the next one.

use vstd::prelude::*;
use crate::text::{concat, to_owned_string};

verus! {

/// A step of the update: the one just performed, or the next to perform.
#[derive(Debug, Clone, PartialEq, Eq)]
pub enum UpdateAction {
    /// A newer, compatible version was found (nothing performed yet).
    Found,
    ReportAvailable,
    SaveConfig,
    ReportStarted,
    ApplyUpdate,
    RestoreConfig,
    ReportCompleted,
    MarkPending,
    ReportPending,
    TriggerRestart,
    MarkCompleted,
    /// Record the failure with this message.
    MarkFailed(String),
    /// Report the failure with this message.
    ReportFailed(String),
    /// Stop; with `exit`, the process ends so that it is restarted.
    Finish { exit: bool },
}

/// A step with its message as a character sequence.
pub ghost enum ActionView {
    Found,
    ReportAvailable,
    SaveConfig,
    ReportStarted,
    ApplyUpdate,
    RestoreConfig,
    ReportCompleted,
    MarkPending,
    ReportPending,
    TriggerRestart,
    MarkCompleted,
    MarkFailed(Seq<char>),
    ReportFailed(Seq<char>),
    Finish { exit: bool },
}

impl View for UpdateAction {
    type V = ActionView;

    open spec fn view(&self) -> ActionView {
        match self {
            UpdateAction::Found => ActionView::Found,
            UpdateAction::ReportAvailable => ActionView::ReportAvailable,
            UpdateAction::SaveConfig => ActionView::SaveConfig,
            UpdateAction::ReportStarted => ActionView::ReportStarted,
            UpdateAction::ApplyUpdate => ActionView::ApplyUpdate,
            UpdateAction::RestoreConfig => ActionView::RestoreConfig,
            UpdateAction::ReportCompleted => ActionView::ReportCompleted,
            UpdateAction::MarkPending => ActionView::MarkPending,
            UpdateAction::ReportPending => ActionView::ReportPending,
            UpdateAction::TriggerRestart => ActionView::TriggerRestart,
            UpdateAction::MarkCompleted => ActionView::MarkCompleted,
            UpdateAction::MarkFailed(m) => ActionView::MarkFailed(m@),
            UpdateAction::ReportFailed(m) => ActionView::ReportFailed(m@),
            UpdateAction::Finish { exit } => ActionView::Finish { exit: *exit },
        }
    }
}

/// What the cycle hands back after a step: success, or the error's text.
pub type StepOutcome = Result<(), String>;

/// The view of a step outcome.
pub open spec fn outcome_view(o: StepOutcome) -> Result<(), Seq<char>> {
    match o {
        Ok(_) => Ok(()),
        Err(e) => Err(e@),
    }
}

/// The step after `last`, given how it went and whether reports can be sent.
pub open spec fn next_update_spec(last: ActionView, outcome: Result<(), Seq<char>>, has_token: bool) -> ActionView {
    match last {
        ActionView::Found => if has_token { ActionView::ReportAvailable } else { ActionView::SaveConfig },
        ActionView::ReportAvailable => ActionView::SaveConfig,
        ActionView::SaveConfig => if has_token { ActionView::ReportStarted } else { ActionView::ApplyUpdate },
        ActionView::ReportStarted => ActionView::ApplyUpdate,
        ActionView::ApplyUpdate => match outcome {
            Ok(_) => ActionView::RestoreConfig,
            Err(e) => ActionView::MarkFailed("Error aplicando actualización: "@ + e),
        },
        ActionView::RestoreConfig => if has_token { ActionView::ReportCompleted } else { ActionView::MarkPending },
        ActionView::ReportCompleted => ActionView::MarkPending,
        ActionView::MarkPending => if has_token { ActionView::ReportPending } else { ActionView::TriggerRestart },
        ActionView::ReportPending => ActionView::TriggerRestart,
        ActionView::TriggerRestart => match outcome {
            Ok(_) => ActionView::MarkCompleted,
            Err(e) => ActionView::MarkFailed("No se pudo marcar restart graceful: "@ + e),
        },
        ActionView::MarkCompleted => ActionView::Finish { exit: true },
        ActionView::MarkFailed(m) => if has_token { ActionView::ReportFailed(m) } else { ActionView::Finish { exit: false } },
        ActionView::ReportFailed(_) => ActionView::Finish { exit: false },
        ActionView::Finish { exit } => ActionView::Finish { exit },
    }
}

/// The step after `last`.
pub fn next_update_action(last: &UpdateAction, outcome: &StepOutcome, has_token: bool) -> (r: UpdateAction)
    ensures
        r@ == next_update_spec(last@, outcome_view(*outcome), has_token),
{
    match last {
        UpdateAction::Found => if has_token { UpdateAction::ReportAvailable } else { UpdateAction::SaveConfig },
        UpdateAction::ReportAvailable => UpdateAction::SaveConfig,
        UpdateAction::SaveConfig => if has_token { UpdateAction::ReportStarted } else { UpdateAction::ApplyUpdate },
        UpdateAction::ReportStarted => UpdateAction::ApplyUpdate,
        UpdateAction::ApplyUpdate => match outcome {
            Ok(_) => UpdateAction::RestoreConfig,
            Err(e) => UpdateAction::MarkFailed(concat("Error aplicando actualización: ", e.as_str())),
        },
        UpdateAction::RestoreConfig => if has_token { UpdateAction::ReportCompleted } else { UpdateAction::MarkPending },
        UpdateAction::ReportCompleted => UpdateAction::MarkPending,
        UpdateAction::MarkPending => if has_token { UpdateAction::ReportPending } else { UpdateAction::TriggerRestart },
        UpdateAction::ReportPending => UpdateAction::TriggerRestart,
        UpdateAction::TriggerRestart => match outcome {
            Ok(_) => UpdateAction::MarkCompleted,
            Err(e) => UpdateAction::MarkFailed(concat("No se pudo marcar restart graceful: ", e.as_str())),
        },
        UpdateAction::MarkCompleted => UpdateAction::Finish { exit: true },
        UpdateAction::MarkFailed(m) => if has_token {
            UpdateAction::ReportFailed(to_owned_string(m.as_str()))
        } else {
            UpdateAction::Finish { exit: false }
        },
        UpdateAction::ReportFailed(_) => UpdateAction::Finish { exit: false },
        UpdateAction::Finish { exit } => UpdateAction::Finish { exit: *exit },
    }
}

/// A step that sends a report to the server.
pub open spec fn is_report(a: ActionView) -> bool {
    match a {
        ActionView::ReportAvailable | ActionView::ReportStarted | ActionView::ReportCompleted
        | ActionView::ReportPending | ActionView::ReportFailed(_) => true,
        _ => false,
    }
}

/// Without an API token no report is ever sent.
pub proof fn lemma_no_report_without_token(last: ActionView, outcome: Result<(), Seq<char>>)
    ensures
        !is_report(next_update_spec(last, outcome, false)),
{
}

/// At most how many steps are left before the update finishes.
pub open spec fn steps_left(a: ActionView) -> nat {
    match a {
        ActionView::Found => 13,
        ActionView::ReportAvailable => 12,
        ActionView::SaveConfig => 11,
        ActionView::ReportStarted => 10,
        ActionView::ApplyUpdate => 9,
        ActionView::RestoreConfig => 8,
        ActionView::ReportCompleted => 7,
        ActionView::MarkPending => 6,
        ActionView::ReportPending => 5,
        ActionView::TriggerRestart => 4,
        ActionView::MarkFailed(_) => 3,
        ActionView::MarkCompleted => 2,
        ActionView::ReportFailed(_) => 1,
        ActionView::Finish { .. } => 0,
    }
}

/// Every step brings the update closer to its end, whatever the outcome: an
/// update finishes, and the process exits only after its completion was marked.
pub proof fn lemma_update_progress(last: ActionView, outcome: Result<(), Seq<char>>, has_token: bool)
    ensures
        !(last is Finish) ==> steps_left(next_update_spec(last, outcome, has_token)) < steps_left(last),
        next_update_spec(last, outcome, has_token) matches ActionView::Finish { exit } && exit
            ==> (last == ActionView::MarkCompleted || last == (ActionView::Finish { exit: true })),
{
}

/// A failed application or restart is always recorded as a failure, with
/// the error's text.
pub proof fn lemma_failures_recorded(last: ActionView, e: Seq<char>, has_token: bool)
    requires
        last == ActionView::ApplyUpdate || last == ActionView::TriggerRestart,
    ensures
        next_update_spec(last, Err(e), has_token) is MarkFailed,
        next_update_spec(last, Err(e), has_token)->MarkFailed_0.subrange(
            next_update_spec(last, Err(e), has_token)->MarkFailed_0.len() - e.len(),
            next_update_spec(last, Err(e), has_token)->MarkFailed_0.len() as int,
        ) == e,
{
    let m = next_update_spec(last, Err(e), has_token)->MarkFailed_0;
    if last == ActionView::ApplyUpdate {
        assert(m.subrange(m.len() - e.len(), m.len() as int) =~= e);
    } else {
        assert(m.subrange(m.len() - e.len(), m.len() as int) =~= e);
    }
}

} // verus!

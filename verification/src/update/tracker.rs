//! Bookkeeping of update checks and pending updates.

use vstd::prelude::*;
use crate::text::to_owned_string;

verus! {

/// State of the update machinery, kept between runs.
#[derive(Debug, Clone)]
pub struct UpdateState {
    /// Seconds since the epoch of the last successful check (0: never).
    pub last_check_timestamp: u64,
    /// Seconds since the epoch of the last completed update.
    pub last_successful_update: Option<u64>,
    /// An update is waiting to be applied.
    pub pending_update: bool,
    /// Version that the pending update installs.
    pub pending_version: Option<String>,
    /// When the update was marked pending.
    pub pending_marked_at: Option<u64>,
    /// Consecutive failed attempts.
    pub failed_attempts: u32,
    /// Last error recorded while updating.
    pub last_error: Option<String>,
}

/// Attempts after which a pending update is given up.
pub const MAX_FAILED_ATTEMPTS: u32 = 3;

/// Hours between checks when none is configured.
pub const DEFAULT_CHECK_INTERVAL_HOURS: u64 = 24;

impl Default for UpdateState {
    fn default() -> (r: Self)
        ensures
            r.last_check_timestamp == 0,
            r.last_successful_update.is_none(),
            !r.pending_update,
            r.pending_version.is_none(),
            r.pending_marked_at.is_none(),
            r.failed_attempts == 0,
            r.last_error.is_none(),
    {
        UpdateState {
            last_check_timestamp: 0,
            last_successful_update: None,
            pending_update: false,
            pending_version: None,
            pending_marked_at: None,
            failed_attempts: 0,
            last_error: None,
        }
    }
}

/// Where the state is stored unless told otherwise.
pub fn default_state_path() -> (r: String)
    ensures
        r@ == "/tmp/ness_relay_update_state.json"@,
{
    to_owned_string("/tmp/ness_relay_update_state.json")
}

/// Seconds since the Unix epoch from `SystemTime::now` (0 before the epoch);
/// nothing is known of the value.
#[verifier::external_body]
pub fn get_current_timestamp() -> (r: u64) {
    std::time::SystemTime::now()
        .duration_since(std::time::UNIX_EPOCH)
        .unwrap_or_default()
        .as_secs()
}

/// Seconds between checks for an optional number of hours (24 by default).
pub open spec fn check_interval_secs(check_interval_hours: Option<u64>) -> int {
    match check_interval_hours {
        Some(h) => h * 3600,
        None => DEFAULT_CHECK_INTERVAL_HOURS * 3600,
    }
}

/// A check is due: none was ever made, or at least the interval has passed
/// since the last one (a clock behind the last check counts as no time passed).
pub open spec fn check_due(state: UpdateState, check_interval_hours: Option<u64>, now: u64) -> bool {
    state.last_check_timestamp == 0 || (if now >= state.last_check_timestamp {
        now - state.last_check_timestamp
    } else {
        0
    }) >= check_interval_secs(check_interval_hours)
}

/// Whether a check is due at time `now`.
pub fn should_check_at(state: &UpdateState, check_interval_hours: Option<u64>, now: u64) -> (r: bool)
    requires
        check_interval_secs(check_interval_hours) <= u64::MAX,
    ensures
        r == check_due(*state, check_interval_hours, now),
{
    let hours = match check_interval_hours {
        Some(h) => h,
        None => DEFAULT_CHECK_INTERVAL_HOURS,
    };
    let interval_secs = hours * 3600;
    if state.last_check_timestamp == 0 {
        return true;
    }
    let since = now.saturating_sub(state.last_check_timestamp);
    since >= interval_secs
}

/// Whether a check is due now; a state that was never checked always is.
pub fn should_check_now(state: &UpdateState, check_interval_hours: Option<u64>) -> (r: bool)
    requires
        check_interval_secs(check_interval_hours) <= u64::MAX,
    ensures
        exists|now: u64| r == check_due(*state, check_interval_hours, now),
        state.last_check_timestamp == 0 ==> r,
{
    let now = get_current_timestamp();
    should_check_at(state, check_interval_hours, now)
}

/// Records a successful check made at `now`.
pub fn mark_check_completed_at(state: &mut UpdateState, now: u64)
    ensures
        final(state).last_check_timestamp == now,
        final(state).failed_attempts == 0,
        final(state).last_successful_update == old(state).last_successful_update,
        final(state).pending_update == old(state).pending_update,
        final(state).pending_version == old(state).pending_version,
        final(state).pending_marked_at == old(state).pending_marked_at,
        final(state).last_error == old(state).last_error,
{
    state.last_check_timestamp = now;
    state.failed_attempts = 0;
}

/// Records a successful check made now.
pub fn mark_check_completed(state: &mut UpdateState)
    ensures
        final(state).failed_attempts == 0,
        final(state).last_successful_update == old(state).last_successful_update,
        final(state).pending_update == old(state).pending_update,
        final(state).pending_version == old(state).pending_version,
        final(state).pending_marked_at == old(state).pending_marked_at,
        final(state).last_error == old(state).last_error,
{
    let now = get_current_timestamp();
    mark_check_completed_at(state, now);
}

/// Marks `version` as pending at time `now`; it is applied on the next cycle.
pub fn mark_update_pending_at(state: &mut UpdateState, version: String, now: u64)
    ensures
        final(state).pending_update,
        final(state).pending_version == Some(version),
        final(state).pending_marked_at == Some(now),
        final(state).last_check_timestamp == old(state).last_check_timestamp,
        final(state).last_successful_update == old(state).last_successful_update,
        final(state).failed_attempts == old(state).failed_attempts,
        final(state).last_error == old(state).last_error,
{
    state.pending_update = true;
    state.pending_version = Some(version);
    state.pending_marked_at = Some(now);
}

/// Marks `version` as pending now.
pub fn mark_update_pending(state: &mut UpdateState, version: String)
    ensures
        final(state).pending_update,
        final(state).pending_version == Some(version),
        final(state).pending_marked_at.is_some(),
        final(state).last_check_timestamp == old(state).last_check_timestamp,
        final(state).last_successful_update == old(state).last_successful_update,
        final(state).failed_attempts == old(state).failed_attempts,
        final(state).last_error == old(state).last_error,
{
    let now = get_current_timestamp();
    mark_update_pending_at(state, version, now);
}

/// Records an update completed at `now`: nothing pending, no failures.
pub fn mark_update_completed_at(state: &mut UpdateState, now: u64)
    ensures
        final(state).last_successful_update == Some(now),
        !final(state).pending_update,
        final(state).pending_version.is_none(),
        final(state).pending_marked_at.is_none(),
        final(state).failed_attempts == 0,
        final(state).last_error.is_none(),
        final(state).last_check_timestamp == old(state).last_check_timestamp,
{
    state.last_successful_update = Some(now);
    state.pending_update = false;
    state.pending_version = None;
    state.pending_marked_at = None;
    state.failed_attempts = 0;
    state.last_error = None;
}

/// Records an update completed now.
pub fn mark_update_completed(state: &mut UpdateState)
    ensures
        final(state).last_successful_update.is_some(),
        !final(state).pending_update,
        final(state).pending_version.is_none(),
        final(state).pending_marked_at.is_none(),
        final(state).failed_attempts == 0,
        final(state).last_error.is_none(),
        final(state).last_check_timestamp == old(state).last_check_timestamp,
{
    let now = get_current_timestamp();
    mark_update_completed_at(state, now);
}

/// Records a failed attempt; after the third consecutive failure the pending
/// update is given up.
pub fn mark_update_failed(state: &mut UpdateState, error_message: String)
    requires
        old(state).failed_attempts < u32::MAX,
    ensures
        final(state).failed_attempts == old(state).failed_attempts + 1,
        final(state).last_error == Some(error_message),
        final(state).pending_update == (old(state).pending_update
            && final(state).failed_attempts < MAX_FAILED_ATTEMPTS),
        final(state).pending_version == (if final(state).failed_attempts >= MAX_FAILED_ATTEMPTS {
            None
        } else {
            old(state).pending_version
        }),
        final(state).pending_marked_at == old(state).pending_marked_at,
        final(state).last_check_timestamp == old(state).last_check_timestamp,
        final(state).last_successful_update == old(state).last_successful_update,
{
    state.failed_attempts = state.failed_attempts + 1;
    state.last_error = Some(error_message);
    if state.failed_attempts >= MAX_FAILED_ATTEMPTS {
        state.pending_update = false;
        state.pending_version = None;
    }
}

/// Clears the pending update after it was applied.
pub fn clear_pending_update(state: &mut UpdateState)
    ensures
        !final(state).pending_update,
        final(state).pending_version.is_none(),
        final(state).pending_marked_at.is_none(),
        final(state).failed_attempts == 0,
        final(state).last_error.is_none(),
        final(state).last_check_timestamp == old(state).last_check_timestamp,
        final(state).last_successful_update == old(state).last_successful_update,
{
    state.pending_update = false;
    state.pending_version = None;
    state.pending_marked_at = None;
    state.failed_attempts = 0;
    state.last_error = None;
}

/// After a check completed at `t`, the next one is due exactly from
/// `t + interval` on (for a positive interval and a clock that does not go back).
pub proof fn lemma_check_schedule(state: UpdateState, hours: Option<u64>, t: u64, later: u64)
    requires
        t > 0,
        later >= t,
        state.last_check_timestamp == t,
    ensures
        check_due(state, hours, later) <==> later - t >= check_interval_secs(hours),
{
}

} // verus!

//! The liveness check: has any sensor logged anything lately?
//!
//! Once a period the embedding program counts the rows that were logged
//! during the period and asks here what to do about it.

use vstd::prelude::*;

verus! {

/// Seconds between two checks, and the span of time that each of them looks
/// back on.
pub const ALIVE_CHECK_PERIOD_SECS: u64 = 60;

/// What to do after a check.
#[derive(Clone, Copy, Debug, PartialEq, Eq, Structural)]
pub enum AliveCheckAction {
    /// Rows were logged: nothing to do.
    Nothing,
    /// No row was logged and no webhook is configured: warn in the log.
    Warn,
    /// No row was logged: warn in the log and call the webhook.
    WarnAndNotify,
}

/// Decides what to do when `count` rows were logged during the last period
/// and `webhook_url` is the configured webhook, empty where there is none.
pub fn alive_check(count: i64, webhook_url: &str) -> (action: AliveCheckAction)
    ensures
        action == if count != 0 {
            AliveCheckAction::Nothing
        } else if webhook_url@.len() == 0 {
            AliveCheckAction::Warn
        } else {
            AliveCheckAction::WarnAndNotify
        },
{
    if count != 0 {
        AliveCheckAction::Nothing
    } else if webhook_url.is_empty() {
        AliveCheckAction::Warn
    } else {
        AliveCheckAction::WarnAndNotify
    }
}

} // verus!

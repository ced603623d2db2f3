//! The regular removal of what has expired.
use crate::text;
use crate::types::{self, Timestamp};
use vstd::prelude::*;

verus! {

/// How long a related action waits for the one that vouches for it, in seconds.
pub const ORPHAN_AGE_SECS: i64 = 604_800;

/// One part of the removal of what has expired.
#[derive(Debug, Clone, Copy, PartialEq, Eq, Structural)]
pub enum CleanupStep {
    ApiKeys,
    VerificationCodes,
    /// Related actions that have waited since before a time.
    OrphanedActions(Timestamp),
    /// Sessions that wait for another device, by
    /// [`crate::auth::qr_login::QrLoginStore::cleanup_expired`].
    QrSessions,
}

/// The task that removes what has expired. It carries nothing.
#[derive(Debug, Clone, Copy)]
pub struct AuthCleanupTask;

impl AuthCleanupTask {
    pub fn kind() -> (r: &'static str)
        ensures
            r@ == "auth.cleanup"@,
    {
        "auth.cleanup"
    }

    pub fn build() -> (r: AuthCleanupTask)
        ensures
            r == AuthCleanupTask,
    {
        AuthCleanupTask
    }

    pub fn serialize(&self) -> (r: String)
        ensures
            r@ == ""@,
    {
        text::owned("")
    }

    /// The parts of the removal, in order. What fails is left for the next time, and the others go
    /// on.
    pub fn steps(now: Timestamp) -> (r: Vec<CleanupStep>)
        ensures
            r@ == seq![
                CleanupStep::ApiKeys,
                CleanupStep::VerificationCodes,
                CleanupStep::OrphanedActions(
                    Timestamp(types::saturating_sum(now.0 as int, -ORPHAN_AGE_SECS) as i64),
                ),
                CleanupStep::QrSessions,
            ],
    {
        let mut steps: Vec<CleanupStep> = Vec::new();
        steps.push(CleanupStep::ApiKeys);
        steps.push(CleanupStep::VerificationCodes);
        steps.push(CleanupStep::OrphanedActions(AuthCleanupTask::orphan_cutoff(now)));
        steps.push(CleanupStep::QrSessions);
        steps
    }

    /// The time before which related actions that still wait are given up.
    pub fn orphan_cutoff(now: Timestamp) -> (r: Timestamp)
        ensures
            r.0 == types::saturating_sum(now.0 as int, -ORPHAN_AGE_SECS),
    {
        now.add_seconds(-ORPHAN_AGE_SECS)
    }
}

} // verus!

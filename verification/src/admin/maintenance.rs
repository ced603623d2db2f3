//! Database maintenance on demand.
use vstd::prelude::*;

verus! {

#[derive(Debug, Clone, Copy)]
pub struct DbMaintenanceResponse {
    pub task_id: u64,
}

/// The key of a run on demand, one for all tenants, and not that of the nightly run.
pub fn manual_run_key() -> (r: &'static str)
    ensures
        r@ == "core.db_maintenance:manual"@,
{
    "core.db_maintenance:manual"
}

/// The answer to a request for maintenance: the number of the task that does it.
pub fn post_db_maintenance(task_id: u64) -> (r: DbMaintenanceResponse)
    ensures
        r.task_id == task_id,
{
    DbMaintenanceResponse { task_id }
}

} // verus!

//! `PRINVT`: an invitation to create a profile.
use crate::action::native_hooks::plan::{self, resting, HookPlan};
use vstd::prelude::*;

verus! {

/// An invitation that arrived waits for the user's confirmation.
pub fn on_receive() -> (r: HookPlan)
    ensures
        r@ == resting(Some('C')),
{
    plan::rest(Some('C'))
}

} // verus!

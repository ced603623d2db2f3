//! Who may administer the node.
use crate::action::helpers;
use crate::types::{AuthCtx, Error};
use vstd::prelude::*;

verus! {

/// Admits site administrators only.
pub fn require_admin(auth: &AuthCtx) -> (r: Result<(), Error>)
    ensures
        r is Ok <==> auth.roles.deep_view().contains("SADM"@),
        r matches Err(e) ==> e is PermissionDenied,
{
    if helpers::contains_tag(&auth.roles, "SADM") {
        Ok(())
    } else {
        Err(Error::PermissionDenied)
    }
}

} // verus!

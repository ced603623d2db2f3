//! Who owns an action, and who may answer one.
//!
//! For every action there is one authoritative tenant: its audience where it has one, else its
//! issuer. Reactions and comments change the counters of an action on that tenant only, and
//! statistics that arrive from elsewhere change them on every other tenant only, so that the two
//! never write to the same counters on one tenant.
use crate::text;
use crate::types::ActionView;
use vstd::prelude::*;

verus! {

/// The authoritative tenant of an action.
pub open spec fn owner_of(subject: ActionView) -> Seq<char> {
    match subject.audience {
        Some(a) => a.id_tag@,
        None => subject.issuer.id_tag@,
    }
}

/// The authoritative tenant of an action.
pub fn authoritative_owner<'a>(subject: &'a ActionView) -> (r: &'a str)
    ensures
        r@ == owner_of(*subject),
{
    match &subject.audience {
        Some(a) => a.id_tag.as_str(),
        None => subject.issuer.id_tag.as_str(),
    }
}

/// Whether a tenant is the authoritative one.
pub fn owns_subject(subject: &ActionView, tenant_tag: &str) -> (r: bool)
    ensures
        r == (owner_of(*subject) == tenant_tag@),
{
    text::same(authoritative_owner(subject), tenant_tag)
}

/// Whether an action can be answered in a tenant's inbox: it is addressed to the tenant, or the
/// caller is the tenant.
pub fn accept_applicable(subject: &ActionView, tenant_tag: &str, caller_id_tag: &str) -> (r: bool)
    ensures
        r == (owner_of(*subject) == tenant_tag@ || caller_id_tag@ == tenant_tag@),
{
    owns_subject(subject, tenant_tag) || text::same(caller_id_tag, tenant_tag)
}

/// Whether a caller may answer an action that can be answered here: a moderator of the tenant
/// may, and so may the profile that the action is addressed to.
pub fn accept_authority(subject: &ActionView, caller_id_tag: &str, moderator: bool) -> (r: bool)
    ensures
        r == (moderator || (subject.audience is Some && subject.audience->0.id_tag@
            == caller_id_tag@)),
{
    moderator || match &subject.audience {
        Some(a) => text::same(a.id_tag.as_str(), caller_id_tag),
        None => false,
    }
}

} // verus!

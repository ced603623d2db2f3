//! `IDP:REG`: registration with an identity provider.
use crate::action::hooks::{HookContext, HookResult};
use crate::json::Json;
use crate::str_map::StrMap;
use crate::text;
use crate::types::{Error, ErrorView};
use vstd::prelude::*;

verus! {

/// Whether an action is a registration.
pub open spec fn is_registration(ctx: HookContext) -> bool {
    ctx.typ@ == "IDP"@ && ctx.subtype.deep_view() == Some("REG"@)
}

/// Admits a registration that arrived: it has to be one, carry content that can be read and name
/// the provider. `fault` is what the registration rules find wrong with the content, if anything.
pub fn idp_reg_on_receive(ctx: &HookContext, fault: Option<&str>) -> (r: Result<(), Error>)
    ensures
        r is Ok <==> is_registration(*ctx) && ctx.content is Some && fault is None
            && ctx.audience is Some,
        r matches Err(e) ==> e.deep_view() == (if !is_registration(*ctx) {
            ErrorView::Internal("idp hook called with wrong action type"@)
        } else if ctx.content is None {
            ErrorView::ValidationError("IDP:REG action missing content field"@)
        } else if fault is Some {
            ErrorView::Internal("IDP:REG content parsing failed: "@ + fault->0@)
        } else {
            ErrorView::ValidationError("IDP:REG action missing audience (target IdP)"@)
        }),
{
    let reg = text::same(ctx.typ.as_str(), "IDP") && text::is_text(
        text::as_opt(&ctx.subtype),
        "REG",
    );
    if !reg {
        return Err(Error::Internal(text::owned("idp hook called with wrong action type")));
    }
    if ctx.content.is_none() {
        return Err(
            Error::ValidationError(text::owned("IDP:REG action missing content field")),
        );
    }
    if let Some(why) = fault {
        let mut m = text::owned("IDP:REG content parsing failed: ");
        m.append(why);
        return Err(Error::Internal(m));
    }
    if ctx.audience.is_none() {
        return Err(
            Error::ValidationError(text::owned("IDP:REG action missing audience (target IdP)")),
        );
    }
    Ok(())
}

/// What a registration reports: the response, and, where an identity was created, its number,
/// the reference that activates it and the prefix of its key.
pub fn registration_result(
    identity_id: &str,
    activation_ref: Json,
    api_key_prefix: Json,
    response: Json,
) -> (r: HookResult)
    ensures
        r.continue_processing,
        r.status is None,
        r.return_value == Some(response),
        identity_id@.len() == 0 ==> r.vars@ == Map::<Seq<char>, Json>::empty(),
        identity_id@.len() > 0 ==> {
            &&& r.vars@.dom() == set!["identity_id"@, "activation_ref"@, "api_key_prefix"@]
            &&& r.vars@["identity_id"@]@ == crate::json::JsonView::Text(identity_id@)
            &&& r.vars@["activation_ref"@] == activation_ref
            &&& r.vars@["api_key_prefix"@] == api_key_prefix
        },
{
    let mut vars: StrMap<Json> = StrMap::new();
    if !identity_id.is_empty() {
        proof {
            reveal_strlit("identity_id");
            reveal_strlit("activation_ref");
            reveal_strlit("api_key_prefix");
            assert("identity_id"@.len() == 11);
            assert("activation_ref"@.len() == 14 && "activation_ref"@[1] == 'c');
            assert("api_key_prefix"@.len() == 14 && "api_key_prefix"@[1] == 'p');
        }
        vars.insert(text::owned("identity_id"), Json::Text(text::owned(identity_id)));
        vars.insert(text::owned("activation_ref"), activation_ref);
        vars.insert(text::owned("api_key_prefix"), api_key_prefix);
        proof {
            assert(vars@.dom() =~= set!["identity_id"@, "activation_ref"@, "api_key_prefix"@]);
        }
    }
    HookResult { vars, continue_processing: true, status: None, return_value: Some(response) }
}

} // verus!

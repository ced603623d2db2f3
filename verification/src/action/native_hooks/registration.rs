//! Which native hook belongs to which action type.
//!
//! Hooks are numbered; the program keeps the function for each number.
use crate::action::hooks::{ActionTypeHooks, HookFunction, HookRegistry};
use vstd::prelude::*;

verus! {

pub const CONN_ON_CREATE: u32 = 1;

pub const CONN_ON_RECEIVE: u32 = 2;

pub const CONN_ON_ACCEPT: u32 = 3;

pub const CONN_ON_REJECT: u32 = 4;

pub const FLLW_ON_CREATE: u32 = 5;

pub const FLLW_ON_RECEIVE: u32 = 6;

pub const IDP_REG_ON_RECEIVE: u32 = 7;

pub const FSHR_ON_RECEIVE: u32 = 8;

pub const FSHR_ON_ACCEPT: u32 = 9;

pub const REACT_ON_CREATE: u32 = 10;

pub const REACT_ON_RECEIVE: u32 = 11;

pub const CMNT_ON_CREATE: u32 = 12;

pub const CMNT_ON_RECEIVE: u32 = 13;

pub const APRV_ON_RECEIVE: u32 = 14;

pub const SUBS_ON_CREATE: u32 = 15;

pub const SUBS_ON_RECEIVE: u32 = 16;

pub const CONV_ON_CREATE: u32 = 17;

pub const CONV_ON_RECEIVE: u32 = 18;

pub const INVT_ON_CREATE: u32 = 19;

pub const INVT_ON_RECEIVE: u32 = 20;

pub const INVT_ON_ACCEPT: u32 = 21;

pub const PRINVT_ON_RECEIVE: u32 = 22;

pub const FSHR_ON_CREATE: u32 = 23;

pub const MSG_ON_CREATE: u32 = 24;

pub const MSG_ON_RECEIVE: u32 = 25;

pub const REPOST_ON_CREATE: u32 = 26;

pub const REPOST_ON_RECEIVE: u32 = 27;

pub const STAT_ON_RECEIVE: u32 = 28;

pub open spec fn hooks_of(
    on_create: Option<u32>,
    on_receive: Option<u32>,
    on_accept: Option<u32>,
    on_reject: Option<u32>,
) -> ActionTypeHooks {
    ActionTypeHooks {
        on_create: numbered(on_create),
        on_receive: numbered(on_receive),
        on_accept: numbered(on_accept),
        on_reject: numbered(on_reject),
    }
}

pub open spec fn numbered(n: Option<u32>) -> Option<HookFunction> {
    match n {
        Some(k) => Some(HookFunction(k)),
        None => None,
    }
}

fn number(n: Option<u32>) -> (r: Option<HookFunction>)
    ensures
        r == numbered(n),
{
    match n {
        Some(k) => Some(HookFunction(k)),
        None => None,
    }
}

fn hooks(
    on_create: Option<u32>,
    on_receive: Option<u32>,
    on_accept: Option<u32>,
    on_reject: Option<u32>,
) -> (r: ActionTypeHooks)
    ensures
        r == hooks_of(on_create, on_receive, on_accept, on_reject),
{
    ActionTypeHooks {
        on_create: number(on_create),
        on_receive: number(on_receive),
        on_accept: number(on_accept),
        on_reject: number(on_reject),
    }
}

/// A registry with the hooks of the built-in types added.
pub open spec fn with_native_hooks(m: Map<Seq<char>, ActionTypeHooks>) -> Map<
    Seq<char>,
    ActionTypeHooks,
> {
    m
    .insert(
        "CONN"@,
        hooks_of(
            Some(CONN_ON_CREATE),
            Some(CONN_ON_RECEIVE),
            Some(CONN_ON_ACCEPT),
            Some(CONN_ON_REJECT),
        ),
    )
    .insert("FLLW"@, hooks_of(Some(FLLW_ON_CREATE), Some(FLLW_ON_RECEIVE), None, None))
    .insert("IDP:REG"@, hooks_of(None, Some(IDP_REG_ON_RECEIVE), None, None))
    .insert("FSHR"@, hooks_of(None, Some(FSHR_ON_RECEIVE), Some(FSHR_ON_ACCEPT), None))
    .insert("REACT"@, hooks_of(Some(REACT_ON_CREATE), Some(REACT_ON_RECEIVE), None, None))
    .insert("CMNT"@, hooks_of(Some(CMNT_ON_CREATE), Some(CMNT_ON_RECEIVE), None, None))
    .insert("APRV"@, hooks_of(None, Some(APRV_ON_RECEIVE), None, None))
    .insert("SUBS"@, hooks_of(Some(SUBS_ON_CREATE), Some(SUBS_ON_RECEIVE), None, None))
    .insert("CONV"@, hooks_of(Some(CONV_ON_CREATE), Some(CONV_ON_RECEIVE), None, None))
    .insert(
        "INVT"@,
        hooks_of(Some(INVT_ON_CREATE), Some(INVT_ON_RECEIVE), Some(INVT_ON_ACCEPT), None),
    )
    .insert("PRINVT"@, hooks_of(None, Some(PRINVT_ON_RECEIVE), None, None))
}

/// Registers the hooks of the built-in types.
pub fn register_native_hooks(registry: &mut HookRegistry)
    ensures
        final(registry)@ == with_native_hooks(old(registry)@),
{
    registry.register_type(
        "CONN",
        hooks(
            Some(CONN_ON_CREATE),
            Some(CONN_ON_RECEIVE),
            Some(CONN_ON_ACCEPT),
            Some(CONN_ON_REJECT),
        ),
    );
    registry.register_type("FLLW", hooks(Some(FLLW_ON_CREATE), Some(FLLW_ON_RECEIVE), None, None));
    registry.register_type("IDP:REG", hooks(None, Some(IDP_REG_ON_RECEIVE), None, None));
    registry.register_type("FSHR", hooks(None, Some(FSHR_ON_RECEIVE), Some(FSHR_ON_ACCEPT), None));
    registry.register_type(
        "REACT",
        hooks(Some(REACT_ON_CREATE), Some(REACT_ON_RECEIVE), None, None),
    );
    registry.register_type("CMNT", hooks(Some(CMNT_ON_CREATE), Some(CMNT_ON_RECEIVE), None, None));
    registry.register_type("APRV", hooks(None, Some(APRV_ON_RECEIVE), None, None));
    registry.register_type("SUBS", hooks(Some(SUBS_ON_CREATE), Some(SUBS_ON_RECEIVE), None, None));
    registry.register_type("CONV", hooks(Some(CONV_ON_CREATE), Some(CONV_ON_RECEIVE), None, None));
    registry.register_type(
        "INVT",
        hooks(Some(INVT_ON_CREATE), Some(INVT_ON_RECEIVE), Some(INVT_ON_ACCEPT), None),
    );
    registry.register_type("PRINVT", hooks(None, Some(PRINVT_ON_RECEIVE), None, None));
}

/// A registry with the hooks added that keep books: on messages, on reposts, on the statistics of
/// others, and on shares that are granted here.
pub open spec fn with_bookkeeping_hooks(m: Map<Seq<char>, ActionTypeHooks>) -> Map<
    Seq<char>,
    ActionTypeHooks,
> {
    m
    .insert("MSG"@, hooks_of(Some(MSG_ON_CREATE), Some(MSG_ON_RECEIVE), None, None))
    .insert("REPOST"@, hooks_of(Some(REPOST_ON_CREATE), Some(REPOST_ON_RECEIVE), None, None))
    .insert("STAT"@, hooks_of(None, Some(STAT_ON_RECEIVE), None, None))
    .insert(
        "FSHR"@,
        hooks_of(Some(FSHR_ON_CREATE), Some(FSHR_ON_RECEIVE), Some(FSHR_ON_ACCEPT), None),
    )
}

/// Registers the hooks that keep books.
pub fn register_bookkeeping_hooks(registry: &mut HookRegistry)
    ensures
        final(registry)@ == with_bookkeeping_hooks(old(registry)@),
{
    registry.register_type("MSG", hooks(Some(MSG_ON_CREATE), Some(MSG_ON_RECEIVE), None, None));
    registry.register_type(
        "REPOST",
        hooks(Some(REPOST_ON_CREATE), Some(REPOST_ON_RECEIVE), None, None),
    );
    registry.register_type("STAT", hooks(None, Some(STAT_ON_RECEIVE), None, None));
    registry.register_type(
        "FSHR",
        hooks(Some(FSHR_ON_CREATE), Some(FSHR_ON_RECEIVE), Some(FSHR_ON_ACCEPT), None),
    );
}

} // verus!

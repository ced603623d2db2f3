//! The settings of the action system.
use crate::text;
use vstd::prelude::*;

verus! {

#[derive(Debug, Clone, Copy, PartialEq, Eq, Structural)]
pub enum SettingValue {
    Bool(bool),
    Int(i64),
}

/// Whom a setting is for.
#[derive(Debug, Clone, Copy, PartialEq, Eq, Structural)]
pub enum SettingScope {
    Global,
    Tenant,
}

/// Who may change a setting.
#[derive(Debug, Clone, Copy, PartialEq, Eq, Structural)]
pub enum PermissionLevel {
    Admin,
}

#[derive(Debug)]
pub struct SettingDefinition {
    pub key: String,
    pub description: String,
    pub default: SettingValue,
    pub scope: SettingScope,
    pub permission: PermissionLevel,
}

/// A setting: its key, its description, its default, and whom it is for.
pub struct SettingView {
    pub key: Seq<char>,
    pub description: Seq<char>,
    pub default: SettingValue,
    pub scope: SettingScope,
    pub permission: PermissionLevel,
}

impl View for SettingDefinition {
    type V = SettingView;

    open spec fn view(&self) -> SettingView {
        SettingView {
            key: self.key@,
            description: self.description@,
            default: self.default,
            scope: self.scope,
            permission: self.permission,
        }
    }
}

pub open spec fn setting_view(
    key: Seq<char>,
    description: Seq<char>,
    default: SettingValue,
    scope: SettingScope,
) -> SettingView {
    SettingView { key, description, default, scope, permission: PermissionLevel::Admin }
}

fn setting(key: &str, description: &str, default: SettingValue, scope: SettingScope) -> (r:
    SettingDefinition)
    ensures
        r@ == setting_view(key@, description@, default, scope),
{
    SettingDefinition {
        key: text::owned(key),
        description: text::owned(description),
        default,
        scope,
        permission: PermissionLevel::Admin,
    }
}

/// The settings of the action system, all of them for administrators.
pub open spec fn action_settings() -> Seq<SettingView> {
    seq![
        setting_view(
            "federation.auto_accept_followers"@,
            "Automatically accept follow requests"@,
            SettingValue::Bool(false),
            SettingScope::Tenant,
        ),
        setting_view(
            "federation.key_failure_cache_size"@,
            "Maximum entries in the key fetch failure cache (in-memory LRU)"@,
            SettingValue::Int(100),
            SettingScope::Global,
        ),
        setting_view(
            "federation.history_sync.since_days"@,
            "Default age window in days for history sync on new connection"@,
            SettingValue::Int(30),
            SettingScope::Tenant,
        ),
        setting_view(
            "federation.history_sync.limit"@,
            "Default maximum number of actions to fetch per history sync"@,
            SettingValue::Int(10),
            SettingScope::Tenant,
        ),
        setting_view(
            "federation.stat_coalesce_window_secs"@,
            "Quiet-period (seconds) before a pending STAT broadcast is emitted"@,
            SettingValue::Int(10),
            SettingScope::Tenant,
        ),
        setting_view(
            "federation.stat_coalesce_max_window_secs"@,
            "Hard upper bound on how far a STAT broadcast may be deferred by repeated reactions"@,
            SettingValue::Int(60),
            SettingScope::Tenant,
        ),
    ]
}

/// Adds the settings of the action system to a registry.
pub fn register_settings(registry: &mut Vec<SettingDefinition>)
    ensures
        Seq::new(final(registry)@.len(), |i: int| final(registry)@[i]@) == Seq::new(
            old(registry)@.len(),
            |i: int| old(registry)@[i]@,
        ) + action_settings(),
{
    registry.push(
        setting(
            "federation.auto_accept_followers",
            "Automatically accept follow requests",
            SettingValue::Bool(false),
            SettingScope::Tenant,
        ),
    );
    registry.push(
        setting(
            "federation.key_failure_cache_size",
            "Maximum entries in the key fetch failure cache (in-memory LRU)",
            SettingValue::Int(100),
            SettingScope::Global,
        ),
    );
    registry.push(
        setting(
            "federation.history_sync.since_days",
            "Default age window in days for history sync on new connection",
            SettingValue::Int(30),
            SettingScope::Tenant,
        ),
    );
    registry.push(
        setting(
            "federation.history_sync.limit",
            "Default maximum number of actions to fetch per history sync",
            SettingValue::Int(10),
            SettingScope::Tenant,
        ),
    );
    registry.push(
        setting(
            "federation.stat_coalesce_window_secs",
            "Quiet-period (seconds) before a pending STAT broadcast is emitted",
            SettingValue::Int(10),
            SettingScope::Tenant,
        ),
    );
    registry.push(
        setting(
            "federation.stat_coalesce_max_window_secs",
            "Hard upper bound on how far a STAT broadcast may be deferred by repeated reactions",
            SettingValue::Int(60),
            SettingScope::Tenant,
        ),
    );
}

} // verus!

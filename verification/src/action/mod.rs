//! Actions: their types, lifecycle hooks, delivery and visibility.
pub mod delivery;
pub mod dsl;
pub mod fanout;
pub mod filter;
pub mod forward;
pub mod handler;
pub mod helpers;
pub mod history_sync;
pub mod hooks;
pub mod key_cache;
pub mod laws;
pub mod native_hooks;
pub mod post_store;
pub mod reach_laws;
pub mod request_laws;
pub mod settings;
pub mod subject_ref;
pub mod task;

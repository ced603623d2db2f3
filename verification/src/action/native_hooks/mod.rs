//! The hooks of the built-in action types.
pub mod cmnt;
pub mod conn;
pub mod fllw;
pub mod fshr;
pub mod idp;
pub mod invt;
pub mod laws;
pub mod msg;
pub mod ownership;
pub mod plan;
pub mod prinvt;
pub mod react;
pub mod registration;
pub mod repost;
pub mod stat;
pub mod stat_emit;
pub mod stat_emit_task;
pub mod subs;

//! The administration of a node.
pub mod cert;
pub mod email;
pub mod invite;
pub mod laws;
pub mod maintenance;
pub mod perm;
pub mod tenant;

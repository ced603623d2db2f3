//! The decision core of a federated social platform: the action language and its lifecycle
//! rules, delivery and visibility decisions, calendar objects and their synchronisation,
//! sign-in and session rules, and tenant administration.
//!
//! Every function here works on plain values. Storage, transport and clocks belong to the
//! program around the library, which hands in what it read and carries out what it is told.
pub mod action;
pub mod admin;
pub mod auth;
pub mod calendar;
pub mod decimal;
pub mod json;
pub mod mail;
pub mod str_map;
pub mod text;
pub mod text_laws;
pub mod types;

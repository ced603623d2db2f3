//! Signing in, and what a credential is good for.
pub mod access;
pub mod cleanup;
pub mod handler;
pub mod laws;
pub mod passkey_laws;
pub mod qr_login;
pub mod secrets;
pub mod signin_laws;
pub mod webauthn;

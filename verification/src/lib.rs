//! Core of a small authentication gateway: request dispatch, one-shot response
//! bodies, session tokens and credential checks, with machine-checked contracts.
//!
//! The library takes every decision and does no I/O: the caller reads the
//! clock, the socket and the credential store, and hands in what it found.

pub mod error;
pub mod text;
pub mod body;
pub mod response;
pub mod token;
pub mod credentials;
pub mod buffer;
pub mod request;
pub mod login;
pub mod store;
pub mod laws;

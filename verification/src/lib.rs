//! Sentinel: a verified request-processing core for a desktop-application
//! framework.
//!
//! The heart of the library is a composable policy pipeline that enforces
//! rate limits, session validity, role authorization and input safety before
//! an operation runs, together with an extension registry that lets named
//! interceptors wrap, modify, block or chain around operations through an
//! explicit continuation.

pub mod auth;
pub mod checker;
pub mod crypto;
pub mod data;
pub mod extensions;
pub mod gui;
pub mod middleware;
pub mod roles;
pub mod runtime;
pub mod security;
pub mod structure;
pub mod strutil;
pub mod template;
pub mod work;

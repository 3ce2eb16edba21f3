//! Verified core of a bridge that exposes a local HTTP service through an
//! onion-service endpoint: hidden-service lifecycle, local reverse-proxy
//! rewriting rules, readiness polling, and data-directory resolution.

pub mod bootstrap;
pub mod errors;
pub mod hidden_service;
pub mod numfmt;
pub mod proxy;
pub mod readiness;
pub mod setup;
pub mod strutil;

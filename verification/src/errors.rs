//! Failure taxonomy of the bridge core.
//!
//! Configuration, bootstrap, launch and bind failures are fatal to their
//! subsystem and surfaced whole; a forward failure is contained in the
//! affected connection; a readiness timeout is surfaced once, naming the
//! attempt budget that was exhausted.

use vstd::prelude::*;
use crate::numfmt::{spec_udec, u64_to_dec};

verus! {

#[derive(Clone, Copy, Debug, PartialEq, Eq, Structural)]
pub enum CoreError {
    /// An invalid service identifier or forward-rule construction.
    Config,
    /// Tor client initialization or network bootstrap failed.
    Bootstrap,
    /// The onion service could not be published.
    Launch,
    /// The published onion address could not be obtained.
    AddressResolution,
    /// The local proxy listener could not bind.
    ProxyBind,
    /// A single proxied request failed; contained, becomes an HTTP 502.
    Forward,
    /// The upstream never qualified within the attempt budget.
    ReadinessTimeout { attempts: u32 },
}

/// The diagnostic line for each error.
pub open spec fn spec_message(e: CoreError) -> Seq<char> {
    match e {
        CoreError::Config => "invalid hidden-service configuration"@,
        CoreError::Bootstrap => "failed to bootstrap the Tor client"@,
        CoreError::Launch => "failed to launch the onion service"@,
        CoreError::AddressResolution => "failed to resolve the onion address"@,
        CoreError::ProxyBind => "failed to bind the local proxy listener"@,
        CoreError::Forward => "failed to forward the request upstream"@,
        CoreError::ReadinessTimeout { attempts } => "upstream failed to start after "@
            + spec_udec(attempts as nat) + " attempts"@,
    }
}

impl CoreError {
    /// A short human-readable description; for a readiness timeout it names
    /// the attempt count.
    pub fn message(&self) -> (s: String)
        ensures
            s@ == spec_message(*self),
    {
        match self {
            CoreError::Config => String::from_str("invalid hidden-service configuration"),
            CoreError::Bootstrap => String::from_str("failed to bootstrap the Tor client"),
            CoreError::Launch => String::from_str("failed to launch the onion service"),
            CoreError::AddressResolution => String::from_str(
                "failed to resolve the onion address",
            ),
            CoreError::ProxyBind => String::from_str("failed to bind the local proxy listener"),
            CoreError::Forward => String::from_str("failed to forward the request upstream"),
            CoreError::ReadinessTimeout { attempts } => {
                let mut s = String::from_str("upstream failed to start after ");
                let n = u64_to_dec(*attempts as u64);
                s.append(n.as_str());
                s.append(" attempts");
                s
            },
        }
    }
}

} // verus!

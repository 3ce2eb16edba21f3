//! Orchestration of the whole pipeline, as a state machine.
//!
//! Publishing a working endpoint needs a strict order: prepare the data
//! directories, bind the local proxy and learn its port, bootstrap the Tor
//! client, and only then launch the onion service with a forward rule naming
//! the port that was bound. The flow here owns that order: it hands out the
//! next piece of outside work (`next_action`), folds its result back in
//! (`advance`), and a launch action can only ever carry a port that an
//! earlier bind reported — an onion service launched before the proxy is
//! bound would route early rendezvous connections into refusals.
//!
//! A finished flow yields at most one notice (`notice`): ready with the
//! address, or failed with one error message.

use vstd::prelude::*;
use crate::bootstrap::DataDirs;
use crate::errors::{CoreError, spec_message};

verus! {

/// Where the pipeline stands.
#[derive(Clone, Copy, Debug, PartialEq, Eq, Structural)]
pub enum SetupPhase {
    /// Nothing done yet.
    Init,
    /// Directories exist with owner-only access.
    DirsReady,
    /// The local proxy is bound and its port known.
    ProxyBound,
    /// The Tor client is bootstrapped.
    ClientReady,
    /// The onion service is published; terminal.
    Done,
    /// A step failed; terminal.
    Failed,
}

/// One piece of outside work the orchestrator must do next.
#[derive(Clone, Debug)]
pub enum SetupAction {
    /// Create both directories and restrict them to their owner.
    PrepareDirs { app_dir: String, tor_dir: String },
    /// Bind the local reverse proxy for this upstream port; report the bound
    /// port.
    BindProxy { upstream_port: u16 },
    /// Bootstrap the Tor client over this state directory.
    BootstrapClient { tor_data_dir: String },
    /// Launch the onion service, forwarding the exposed port to the local
    /// proxy port. Issued only after that port was reported by a bind.
    LaunchService { local_proxy_port: u16, onion_port: u16 },
}

/// What one piece of outside work came back with.
#[derive(Debug)]
pub enum SetupEvent {
    /// Directories created and restricted, or not.
    DirsPrepared { ok: bool },
    /// The local proxy bound this port, or could not bind.
    PortBound { port: Option<u16> },
    /// The Tor client bootstrapped, or not.
    ClientBootstrapped { ok: bool },
    /// The onion service launched and reports this URL, or failed.
    ServiceStarted { onion_url: Option<String> },
}

/// The single notice a finished pipeline emits.
#[derive(Debug)]
pub enum SetupNotice {
    /// The endpoint is published at this URL.
    Ready { onion_url: String },
    /// The pipeline failed; `message` says why.
    Failed { message: String },
}

/// The pipeline state.
pub struct SetupFlow {
    /// Where the flow stands.
    pub phase: SetupPhase,
    /// The resolved directory layout.
    pub dirs: DataDirs,
    /// The upstream service's local port.
    pub upstream_port: u16,
    /// The port exposed on the onion address.
    pub onion_port: u16,
    /// The proxy port reported by the bind step, once it happened.
    pub proxy_port: Option<u16>,
    /// The published URL, once the launch step reported it.
    pub onion_url: Option<String>,
    /// The error that ended the flow, if one did.
    pub failure: Option<CoreError>,
}

/// What every reachable flow state satisfies; in particular, from
/// `ClientReady` on, the proxy port is known — the launch step can never run
/// ahead of the bind step.
pub open spec fn flow_wf(f: SetupFlow) -> bool {
    &&& f.phase is ProxyBound || f.phase is ClientReady || f.phase is Done ==> f.proxy_port
        is Some
    &&& f.phase is Done ==> f.onion_url is Some
    &&& f.phase is Failed ==> f.failure is Some
}

/// Which event answers which phase.
pub open spec fn event_fits(phase: SetupPhase, e: SetupEvent) -> bool {
    match phase {
        SetupPhase::Init => e is DirsPrepared,
        SetupPhase::DirsReady => e is PortBound,
        SetupPhase::ProxyBound => e is ClientBootstrapped,
        SetupPhase::ClientReady => e is ServiceStarted,
        SetupPhase::Done => false,
        SetupPhase::Failed => false,
    }
}

impl SetupFlow {
    /// A fresh flow over a resolved directory layout.
    pub fn new(dirs: DataDirs, upstream_port: u16, onion_port: u16) -> (r: SetupFlow)
        ensures
            r.phase is Init,
            r.dirs == dirs,
            r.upstream_port == upstream_port,
            r.onion_port == onion_port,
            r.proxy_port is None,
            r.onion_url is None,
            r.failure is None,
            flow_wf(r),
    {
        SetupFlow {
            phase: SetupPhase::Init,
            dirs,
            upstream_port,
            onion_port,
            proxy_port: None,
            onion_url: None,
            failure: None,
        }
    }

    /// The next piece of outside work, or nothing when the flow ended. A
    /// launch action carries exactly the port the bind step reported.
    pub fn next_action(&self) -> (r: Option<SetupAction>)
        requires
            flow_wf(*self),
        ensures
            self.phase is Init ==> (r matches Some(a) && a matches SetupAction::PrepareDirs {
                app_dir,
                tor_dir,
            } && app_dir@ == self.dirs.app_dir@ && tor_dir@ == self.dirs.tor_dir@),
            self.phase is DirsReady ==> (r matches Some(a) && a matches SetupAction::BindProxy {
                upstream_port,
            } && upstream_port == self.upstream_port),
            self.phase is ProxyBound ==> (r matches Some(a) && a
                matches SetupAction::BootstrapClient { tor_data_dir } && tor_data_dir@
                == self.dirs.tor_dir@),
            self.phase is ClientReady ==> (r matches Some(a) && a
                matches SetupAction::LaunchService { local_proxy_port, onion_port }
                && self.proxy_port == Some(local_proxy_port) && onion_port == self.onion_port),
            self.phase is Done || self.phase is Failed ==> r is None,
    {
        match self.phase {
            SetupPhase::Init => Some(
                SetupAction::PrepareDirs {
                    app_dir: self.dirs.app_dir.clone(),
                    tor_dir: self.dirs.tor_dir.clone(),
                },
            ),
            SetupPhase::DirsReady => Some(
                SetupAction::BindProxy { upstream_port: self.upstream_port },
            ),
            SetupPhase::ProxyBound => Some(
                SetupAction::BootstrapClient { tor_data_dir: self.dirs.tor_dir.clone() },
            ),
            SetupPhase::ClientReady => {
                match self.proxy_port {
                    Some(p) => Some(
                        SetupAction::LaunchService {
                            local_proxy_port: p,
                            onion_port: self.onion_port,
                        },
                    ),
                    None => None,  // unreachable: flow_wf pins the port here
                }
            },
            SetupPhase::Done => None,
            SetupPhase::Failed => None,
        }
    }

    /// Folds the result of the current step back in. A successful step moves
    /// the flow forward; a failed step ends it with the error of the step
    /// that failed: directory or client trouble is a bootstrap failure, a
    /// bind failure is fatal with no fallback port, and a launch failure
    /// ends the pipeline whole.
    pub fn advance(&mut self, event: SetupEvent) -> (r: Result<(), CoreError>)
        requires
            flow_wf(*old(self)),
            event_fits(old(self).phase, event),
        ensures
            flow_wf(*final(self)),
            final(self).dirs == old(self).dirs,
            final(self).upstream_port == old(self).upstream_port,
            final(self).onion_port == old(self).onion_port,
            event matches SetupEvent::DirsPrepared { ok: true } ==> (r is Ok && final(self).phase
                is DirsReady && *final(self) == (SetupFlow {
                phase: SetupPhase::DirsReady,
                ..*old(self)
            })),
            event matches SetupEvent::DirsPrepared { ok: false } ==> (r matches Err(e) && e
                == CoreError::Bootstrap && final(self).phase is Failed && final(self).failure
                == Some(CoreError::Bootstrap)),
            event matches SetupEvent::PortBound { port: Some(p) } ==> (r is Ok && final(self).phase
                is ProxyBound && final(self).proxy_port == Some(p)),
            event matches SetupEvent::PortBound { port: None } ==> (r matches Err(e) && e
                == CoreError::ProxyBind && final(self).phase is Failed && final(self).failure
                == Some(CoreError::ProxyBind)),
            event matches SetupEvent::ClientBootstrapped { ok: true } ==> (r is Ok
                && final(self).phase is ClientReady
                && final(self).proxy_port == old(self).proxy_port),
            event matches SetupEvent::ClientBootstrapped { ok: false } ==> (r matches Err(e) && e
                == CoreError::Bootstrap && final(self).phase is Failed && final(self).failure
                == Some(CoreError::Bootstrap)),
            event matches SetupEvent::ServiceStarted { onion_url: Some(u) } ==> (r is Ok
                && final(self).phase is Done && final(self).onion_url == Some(u)),
            event matches SetupEvent::ServiceStarted { onion_url: None } ==> (r matches Err(e) && e
                == CoreError::Launch && final(self).phase is Failed && final(self).failure
                == Some(CoreError::Launch)),
    {
        match event {
            SetupEvent::DirsPrepared { ok } => {
                if ok {
                    self.phase = SetupPhase::DirsReady;
                    Ok(())
                } else {
                    self.phase = SetupPhase::Failed;
                    self.failure = Some(CoreError::Bootstrap);
                    Err(CoreError::Bootstrap)
                }
            },
            SetupEvent::PortBound { port } => {
                match port {
                    Some(p) => {
                        self.phase = SetupPhase::ProxyBound;
                        self.proxy_port = Some(p);
                        Ok(())
                    },
                    None => {
                        self.phase = SetupPhase::Failed;
                        self.failure = Some(CoreError::ProxyBind);
                        Err(CoreError::ProxyBind)
                    },
                }
            },
            SetupEvent::ClientBootstrapped { ok } => {
                if ok {
                    self.phase = SetupPhase::ClientReady;
                    Ok(())
                } else {
                    self.phase = SetupPhase::Failed;
                    self.failure = Some(CoreError::Bootstrap);
                    Err(CoreError::Bootstrap)
                }
            },
            SetupEvent::ServiceStarted { onion_url } => {
                match onion_url {
                    Some(u) => {
                        self.phase = SetupPhase::Done;
                        self.onion_url = Some(u);
                        Ok(())
                    },
                    None => {
                        self.phase = SetupPhase::Failed;
                        self.failure = Some(CoreError::Launch);
                        Err(CoreError::Launch)
                    },
                }
            },
        }
    }

    /// The single notice a finished flow emits: the published URL, or the
    /// message of the error that ended it. A flow still under way emits
    /// nothing.
    pub fn notice(&self) -> (r: Option<SetupNotice>)
        requires
            flow_wf(*self),
        ensures
            self.phase is Done ==> (r matches Some(n) && n matches SetupNotice::Ready { onion_url }
                && self.onion_url matches Some(u) && onion_url@ == u@),
            self.phase is Failed ==> (r matches Some(n) && n matches SetupNotice::Failed { message }
                && self.failure matches Some(e) && message@ == spec_message(e)),
            !(self.phase is Done) && !(self.phase is Failed) ==> r is None,
    {
        match self.phase {
            SetupPhase::Done => {
                match &self.onion_url {
                    Some(u) => Some(SetupNotice::Ready { onion_url: u.clone() }),
                    None => None,  // unreachable: flow_wf pins the URL here
                }
            },
            SetupPhase::Failed => {
                match &self.failure {
                    Some(e) => Some(SetupNotice::Failed { message: e.message() }),
                    None => None,  // unreachable: flow_wf pins the failure here
                }
            },
            _ => None,
        }
    }
}

/// The ordering guarantee of the pipeline: in every reachable flow state
/// that is allowed to launch the onion service, the local proxy's port is
/// already known — the forward rule can only ever name a bound listener.
pub proof fn lemma_bind_before_publish(f: SetupFlow)
    requires
        flow_wf(f),
        f.phase is ClientReady,
    ensures
        f.proxy_port is Some,
{
}

} // verus!

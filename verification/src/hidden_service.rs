//! Lifecycle of one published onion service.
//!
//! The manager owns the only mutable record of "which service, if any, is
//! active". Launching and bridging run outside this core (they are network
//! work); the manager states which launches are acceptable (`start_plan`),
//! folds the launch outcome into its state (`finish_start`), and answers the
//! read-only queries (`onion_address`, `onion_url`, `is_running`). A stopped
//! manager is terminal: it never runs again.

use vstd::prelude::*;
use crate::errors::CoreError;
use crate::numfmt::{spec_udec, u16_to_dec};
use crate::strutil::{has_prefix, str_starts_with};

verus! {

/// Immutable description of one hidden-service deployment: where the Tor
/// state lives on disk, which local port receives the forwarded traffic, and
/// which port the onion address exposes.
#[derive(Clone, Debug)]
pub struct HiddenServiceConfig {
    /// Directory holding Tor client state and onion-service key material.
    pub tor_data_dir: String,
    /// Local port to forward inbound rendezvous traffic to.
    pub local_port: u16,
    /// Port exposed on the onion address.
    pub onion_port: u16,
}

/// The manager's position in its one-way lifecycle.
#[derive(Clone, Copy, Debug, PartialEq, Eq, Structural)]
pub enum HiddenServicePhase {
    /// No launch has been attempted (or every attempt failed cleanly).
    NotStarted,
    /// A service is published and a bridge task was spawned.
    Running,
    /// The service was torn down; terminal.
    Stopped,
}

/// What the onion-service launch came back with. The launch itself happens
/// outside this core; its outcome is folded into the manager's state here.
#[derive(Debug)]
pub enum LaunchOutcome {
    /// The service was published and its name resolved.
    Launched { onion_name: String },
    /// The client refused to publish the service.
    LaunchFailed,
    /// The service was published but no address could be obtained.
    NameUnavailable,
}

/// Everything the outside launch needs, validated: the fixed service
/// identifier, the local socket the forward rule targets, and the exposed
/// onion port.
#[derive(Clone, Debug)]
pub struct LaunchPlan {
    /// Deterministic service identifier; never regenerated per run.
    pub nickname: String,
    /// Target of the single forward rule, `127.0.0.1:<local port>`.
    pub local_target: String,
    /// Port the forward rule matches on the onion side.
    pub onion_port: u16,
}

/// The fixed, deterministic service identifier. Together with the key
/// material persisted under the data directory it keeps the onion address
/// stable across restarts.
pub open spec fn spec_service_identifier() -> Seq<char> {
    "ghost_freedom_hs"@
}

/// A service identifier: nonempty, all lowercase ASCII letters, digits,
/// underscore or hyphen.
pub open spec fn is_ident_char(c: char) -> bool {
    ('a' <= c && c <= 'z') || ('0' <= c && c <= '9') || c == '_' || c == '-'
}

/// Validity of a service identifier.
pub open spec fn valid_identifier(s: Seq<char>) -> bool {
    s.len() > 0 && (forall|i: int| 0 <= i < s.len() ==> is_ident_char(s[i]))
}

/// The target of the forward rule for a local port.
pub open spec fn spec_local_target(port: u16) -> Seq<char> {
    "127.0.0.1:"@ + spec_udec(port as nat)
}

/// The textual onion address: `<name>:<port>`.
pub open spec fn spec_onion_address(name: Seq<char>, port: u16) -> Seq<char> {
    name + ":"@ + spec_udec(port as nat)
}

/// Whether a textual address already carries a scheme.
pub open spec fn spec_schemed(s: Seq<char>) -> bool {
    has_prefix(s, "http://"@) || has_prefix(s, "https://"@)
}

/// The URL form of an address: unchanged when already schemed, else with
/// `http://` in front.
pub open spec fn spec_url_of(s: Seq<char>) -> Seq<char> {
    if spec_schemed(s) {
        s
    } else {
        "http://"@ + s
    }
}

/// Manages one onion service: holds the only record of the active instance.
pub struct HiddenServiceManager {
    /// The deployment this manager was created for.
    pub config: HiddenServiceConfig,
    /// Lifecycle position.
    pub phase: HiddenServicePhase,
    /// The published address, present exactly while `Running`.
    pub onion_address: Option<String>,
    /// Whether the background bridge task is still alive.
    pub bridge_alive: bool,
}

/// A manager is running iff the service handle is present (phase `Running`)
/// and the bridge task has not ended.
pub open spec fn spec_running(m: HiddenServiceManager) -> bool {
    m.phase is Running && m.bridge_alive
}

/// The state every `stop` leaves behind: service released, address cleared,
/// bridge gone; only the configuration remains.
pub open spec fn spec_stopped(m: HiddenServiceManager) -> HiddenServiceManager {
    HiddenServiceManager {
        config: m.config,
        phase: HiddenServicePhase::Stopped,
        onion_address: None,
        bridge_alive: false,
    }
}

/// Checks the identifier grammar.
pub fn is_valid_identifier(s: &str) -> (r: bool)
    ensures
        r == valid_identifier(s@),
{
    let n = s.unicode_len();
    if n == 0 {
        return false;
    }
    let mut i: usize = 0;
    while i < n
        invariant
            n == s@.len(),
            i <= n,
            forall|j: int| 0 <= j < i ==> is_ident_char(s@[j]),
        decreases n - i,
    {
        let c = s.get_char(i);
        let ok = ('a' <= c && c <= 'z') || ('0' <= c && c <= '9') || c == '_' || c == '-';
        if !ok {
            return false;
        }
        i += 1;
    }
    true
}

/// The fixed service identifier, as a value.
pub fn service_identifier() -> (r: String)
    ensures
        r@ == spec_service_identifier(),
        valid_identifier(r@),
{
    proof {
        lemma_service_identifier_valid();
    }
    String::from_str("ghost_freedom_hs")
}

/// The fixed identifier obeys the identifier grammar.
pub proof fn lemma_service_identifier_valid()
    ensures
        valid_identifier(spec_service_identifier()),
{
    reveal_strlit("ghost_freedom_hs");
    assert forall|i: int| 0 <= i < spec_service_identifier().len() implies is_ident_char(
        spec_service_identifier()[i],
    ) by {
        let s = spec_service_identifier();
        assert(s.len() == 16);
    }
}

/// Every URL this core reports carries a scheme: the address is returned
/// unchanged only when it already starts with `http://` or `https://`, and
/// gets `http://` in front otherwise.
pub proof fn lemma_url_always_schemed(s: Seq<char>)
    ensures
        has_prefix(spec_url_of(s), "http://"@) || has_prefix(spec_url_of(s), "https://"@),
{
    if !spec_schemed(s) {
        reveal_strlit("http://");
        assert(("http://"@ + s).subrange(0, 7) =~= "http://"@);
    }
}

impl HiddenServiceManager {
    /// A fresh manager: nothing launched, no address, no bridge.
    pub fn new(config: HiddenServiceConfig) -> (r: Result<HiddenServiceManager, CoreError>)
        ensures
            r matches Ok(m) && m.config == config && m.phase is NotStarted
                && m.onion_address is None && !m.bridge_alive,
    {
        Ok(HiddenServiceManager {
            config,
            phase: HiddenServicePhase::NotStarted,
            onion_address: None,
            bridge_alive: false,
        })
    }

    /// Validates a launch before any outside work: a launch is acceptable
    /// only once, from `NotStarted`, and its single forward rule must name
    /// real ports (zero is not a port a rule can match or target). The plan
    /// carries the fixed identifier and the forward target
    /// `127.0.0.1:<local_proxy_port>`.
    pub fn start_plan(&self, local_proxy_port: u16, onion_port: u16) -> (r: Result<
        LaunchPlan,
        CoreError,
    >)
        requires
            self.phase is NotStarted,
        ensures
            local_proxy_port != 0 && onion_port != 0 ==> (r matches Ok(p)
                && p.nickname@ == spec_service_identifier() && p.local_target@
                == spec_local_target(local_proxy_port) && p.onion_port == onion_port),
            local_proxy_port == 0 || onion_port == 0 ==> (r matches Err(e) && e
                == CoreError::Config),
    {
        if local_proxy_port == 0 || onion_port == 0 {
            return Err(CoreError::Config);
        }
        let nickname = service_identifier();
        if !is_valid_identifier(nickname.as_str()) {
            // Unreachable: the fixed identifier obeys the grammar.
            return Err(CoreError::Config);
        }
        let mut target = String::from_str("127.0.0.1:");
        let port_dec = u16_to_dec(local_proxy_port);
        target.append(port_dec.as_str());
        Ok(LaunchPlan { nickname, local_target: target, onion_port })
    }

    /// Folds the launch outcome in. On success the manager is `Running`,
    /// remembers `<name>:<port>` and considers the bridge alive; on either
    /// failure nothing is left partially running and the error names the
    /// failed step.
    pub fn finish_start(&mut self, outcome: LaunchOutcome, onion_port: u16) -> (r: Result<
        (),
        CoreError,
    >)
        requires
            old(self).phase is NotStarted,
        ensures
            final(self).config == old(self).config,
            outcome matches LaunchOutcome::Launched { onion_name } ==> ({
                &&& r is Ok
                &&& final(self).phase is Running
                &&& final(self).bridge_alive
                &&& final(self).onion_address matches Some(a) && a@ == spec_onion_address(
                    onion_name@,
                    onion_port,
                )
                &&& spec_running(*final(self))
            }),
            outcome is LaunchFailed ==> (r matches Err(e) && e == CoreError::Launch && *final(self)
                == *old(self)),
            outcome is NameUnavailable ==> (r matches Err(e) && e == CoreError::AddressResolution
                && *final(self) == *old(self)),
    {
        match outcome {
            LaunchOutcome::Launched { onion_name } => {
                let mut address = onion_name;
                address.append(":");
                let port_dec = u16_to_dec(onion_port);
                address.append(port_dec.as_str());
                self.phase = HiddenServicePhase::Running;
                self.onion_address = Some(address);
                self.bridge_alive = true;
                Ok(())
            },
            LaunchOutcome::LaunchFailed => Err(CoreError::Launch),
            LaunchOutcome::NameUnavailable => Err(CoreError::AddressResolution),
        }
    }

    /// The published address, `<name>:<port>`, without any scheme.
    pub fn onion_address(&self) -> (r: Option<&str>)
        ensures
            self.onion_address matches Some(a) ==> r matches Some(s) && s@ == a@,
            self.onion_address is None ==> r is None,
    {
        match &self.onion_address {
            Some(a) => Some(a.as_str()),
            None => None,
        }
    }

    /// The published address as a URL: present exactly when an address is,
    /// prefixed with `http://` unless already schemed.
    pub fn onion_url(&self) -> (r: Option<String>)
        ensures
            self.onion_address is None ==> r is None,
            self.onion_address matches Some(a) ==> r matches Some(u) && u@ == spec_url_of(a@),
    {
        match &self.onion_address {
            None => None,
            Some(a) => {
                let http = str_starts_with(a.as_str(), "http://");
                let https = str_starts_with(a.as_str(), "https://");
                if http || https {
                    Some(a.clone())
                } else {
                    let mut u = String::from_str("http://");
                    u.append(a.as_str());
                    Some(u)
                }
            },
        }
    }

    /// True iff the service handle is present and the bridge task is alive.
    pub fn is_running(&self) -> (r: bool)
        ensures
            r == spec_running(*self),
    {
        match self.phase {
            HiddenServicePhase::Running => self.bridge_alive,
            _ => false,
        }
    }

    /// Records that the bridge task ended on its own (unrecoverable
    /// transport failure). From then on `is_running` reports false even
    /// though `stop` was never called.
    pub fn note_bridge_exit(&mut self)
        ensures
            final(self).config == old(self).config,
            final(self).phase == old(self).phase,
            final(self).onion_address == old(self).onion_address,
            !final(self).bridge_alive,
            !spec_running(*final(self)),
    {
        self.bridge_alive = false;
    }

    /// Tears the service down: the bridge is cancelled, the service handle
    /// released, the address cleared. Idempotent; never errors; terminal.
    pub fn stop(&mut self) -> (r: Result<(), CoreError>)
        ensures
            r is Ok,
            *final(self) == spec_stopped(*old(self)),
            !spec_running(*final(self)),
    {
        self.phase = HiddenServicePhase::Stopped;
        self.onion_address = None;
        self.bridge_alive = false;
        Ok(())
    }
}

/// Stopping is idempotent: stopping an already-stopped manager changes
/// nothing, so a second `stop` leaves the state of the first.
pub proof fn lemma_stop_idempotent(m: HiddenServiceManager)
    ensures
        spec_stopped(spec_stopped(m)) == spec_stopped(m),
{
}

/// The reported address is a function of the resolved onion name and the
/// exposed port alone: any two managers that folded in the same name and
/// port (whatever their data directory histories) report the same address
/// and the same URL. Address stability across restarts then rests on the
/// persisted key material reproducing the same name.
pub proof fn lemma_address_stable(
    m1: HiddenServiceManager,
    m2: HiddenServiceManager,
    name: Seq<char>,
    port: u16,
)
    requires
        m1.onion_address matches Some(a1) && a1@ == spec_onion_address(name, port),
        m2.onion_address matches Some(a2) && a2@ == spec_onion_address(name, port),
    ensures
        m1.onion_address matches Some(a1) && m2.onion_address matches Some(a2) && a1@ == a2@
            && spec_url_of(a1@) == spec_url_of(a2@),
{
}

} // verus!

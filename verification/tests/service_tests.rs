use onion_bridge::errors::CoreError;
use onion_bridge::hidden_service::{
    HiddenServiceConfig, HiddenServiceManager, HiddenServicePhase, LaunchOutcome,
    is_valid_identifier, service_identifier,
};
use onion_bridge::numfmt::{u16_to_dec, u64_to_dec};

fn test_config() -> HiddenServiceConfig {
    HiddenServiceConfig {
        tor_data_dir: String::from("/tmp/tor-data"),
        local_port: 49152,
        onion_port: 80,
    }
}

fn fresh_manager() -> HiddenServiceManager {
    HiddenServiceManager::new(test_config()).expect("new never fails")
}

#[test]
fn decimal_rendering_is_exact() {
    assert_eq!(u64_to_dec(0).as_str(), "0");
    assert_eq!(u64_to_dec(7).as_str(), "7");
    assert_eq!(u64_to_dec(80).as_str(), "80");
    assert_eq!(u64_to_dec(2368).as_str(), "2368");
    assert_eq!(u16_to_dec(65535).as_str(), "65535");
    assert_eq!(u64_to_dec(18446744073709551615).as_str(), "18446744073709551615");
}

#[test]
fn onion_url_none_before_start() {
    let m = fresh_manager();
    assert!(m.onion_url().is_none());
    assert!(m.onion_address().is_none());
}

#[test]
fn onion_url_some_immediately_after_start() {
    let mut m = fresh_manager();
    let outcome = LaunchOutcome::Launched {
        onion_name: String::from("abcdefghijklmnop.onion"),
    };
    m.finish_start(outcome, 80).expect("launch outcome was a success");
    assert_eq!(m.onion_address(), Some("abcdefghijklmnop.onion:80"));
    assert_eq!(m.onion_url().as_deref(), Some("http://abcdefghijklmnop.onion:80"));
}

#[test]
fn onion_url_keeps_an_existing_scheme() {
    let mut m = fresh_manager();
    m.onion_address = Some(String::from("http://x.onion:80"));
    assert_eq!(m.onion_url().as_deref(), Some("http://x.onion:80"));
    m.onion_address = Some(String::from("https://x.onion:80"));
    assert_eq!(m.onion_url().as_deref(), Some("https://x.onion:80"));
}

#[test]
fn is_running_over_the_whole_lifecycle() {
    let mut m = fresh_manager();
    assert!(!m.is_running());
    let outcome = LaunchOutcome::Launched { onion_name: String::from("svc.onion") };
    m.finish_start(outcome, 80).expect("launch outcome was a success");
    assert!(m.is_running());
    m.stop().expect("stop never errors");
    assert!(!m.is_running());
}

#[test]
fn is_running_false_after_unexpected_bridge_exit() {
    let mut m = fresh_manager();
    let outcome = LaunchOutcome::Launched { onion_name: String::from("svc.onion") };
    m.finish_start(outcome, 80).expect("launch outcome was a success");
    assert!(m.is_running());
    m.note_bridge_exit();
    assert!(!m.is_running());
}

#[test]
fn stop_is_idempotent() {
    let mut m = fresh_manager();
    let outcome = LaunchOutcome::Launched { onion_name: String::from("svc.onion") };
    m.finish_start(outcome, 80).expect("launch outcome was a success");
    m.stop().expect("first stop succeeds");
    let phase_after_first = m.phase;
    let addr_after_first = m.onion_address.clone();
    let alive_after_first = m.bridge_alive;
    m.stop().expect("second stop succeeds too");
    assert_eq!(m.phase, phase_after_first);
    assert_eq!(m.onion_address, addr_after_first);
    assert_eq!(m.bridge_alive, alive_after_first);
    assert_eq!(m.phase, HiddenServicePhase::Stopped);
    assert!(m.onion_address.is_none());
}

#[test]
fn failed_launch_leaves_nothing_partially_running() {
    let mut m = fresh_manager();
    let r = m.finish_start(LaunchOutcome::LaunchFailed, 80);
    assert_eq!(r, Err(CoreError::Launch));
    assert_eq!(m.phase, HiddenServicePhase::NotStarted);
    assert!(m.onion_url().is_none());
    assert!(!m.is_running());
}

#[test]
fn unresolved_address_leaves_nothing_partially_running() {
    let mut m = fresh_manager();
    let r = m.finish_start(LaunchOutcome::NameUnavailable, 80);
    assert_eq!(r, Err(CoreError::AddressResolution));
    assert_eq!(m.phase, HiddenServicePhase::NotStarted);
    assert!(!m.is_running());
}

#[test]
fn start_plan_carries_the_fixed_identifier_and_target() {
    let m = fresh_manager();
    let plan = m.start_plan(49152, 80).expect("both ports are real");
    assert_eq!(plan.nickname.as_str(), "ghost_freedom_hs");
    assert_eq!(plan.local_target.as_str(), "127.0.0.1:49152");
    assert_eq!(plan.onion_port, 80);
}

#[test]
fn start_plan_rejects_port_zero() {
    let m = fresh_manager();
    assert_eq!(m.start_plan(0, 80).unwrap_err(), CoreError::Config);
    assert_eq!(m.start_plan(49152, 0).unwrap_err(), CoreError::Config);
}

#[test]
fn address_is_stable_across_managers() {
    let mut m1 = fresh_manager();
    let mut m2 = fresh_manager();
    let name = "stableaddress.onion";
    m1.finish_start(LaunchOutcome::Launched { onion_name: String::from(name) }, 80)
        .expect("launch outcome was a success");
    m2.finish_start(LaunchOutcome::Launched { onion_name: String::from(name) }, 80)
        .expect("launch outcome was a success");
    assert_eq!(m1.onion_url(), m2.onion_url());
    assert_eq!(m1.onion_address(), m2.onion_address());
}

#[test]
fn identifier_grammar() {
    assert!(is_valid_identifier("ghost_freedom_hs"));
    assert!(is_valid_identifier("a-b_c9"));
    assert!(!is_valid_identifier(""));
    assert!(!is_valid_identifier("Bad"));
    assert!(!is_valid_identifier("with space"));
    assert!(is_valid_identifier(service_identifier().as_str()));
}

#[test]
fn error_messages_name_the_attempt_count() {
    let e = CoreError::ReadinessTimeout { attempts: 40 };
    assert_eq!(e.message().as_str(), "upstream failed to start after 40 attempts");
    assert_eq!(CoreError::ProxyBind.message().as_str(), "failed to bind the local proxy listener");
}

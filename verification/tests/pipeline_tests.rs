use onion_bridge::bootstrap::{DataDirs, OWNER_ONLY_MODE, default_data_dirs, join_path, resolve_data_dirs};
use onion_bridge::errors::CoreError;
use onion_bridge::setup::{
    SetupAction, SetupEvent, SetupFlow, SetupNotice, SetupPhase,
};

fn test_dirs() -> DataDirs {
    resolve_data_dirs(Some(String::from("/home/user/.local/share")))
}

#[test]
fn data_dir_layout_under_a_platform_base() {
    let dirs = test_dirs();
    assert_eq!(dirs.app_dir.as_str(), "/home/user/.local/share/ghost-freedom-kit");
    assert_eq!(dirs.tor_dir.as_str(), "/home/user/.local/share/ghost-freedom-kit/tor");
}

#[test]
fn data_dir_layout_without_a_platform_base() {
    let dirs = resolve_data_dirs(None);
    assert_eq!(dirs.app_dir.as_str(), "./ghost-freedom-kit");
    assert_eq!(dirs.tor_dir.as_str(), "./ghost-freedom-kit/tor");
}

#[test]
fn join_path_uses_a_single_separator() {
    assert_eq!(join_path("/a/b", "c").as_str(), "/a/b/c");
}

#[test]
fn default_layout_is_a_resolved_layout() {
    // Whatever the platform answered, the tor directory sits under the
    // application directory of the same base.
    let dirs = default_data_dirs();
    assert!(dirs.app_dir.ends_with("/ghost-freedom-kit"));
    assert_eq!(dirs.tor_dir, format!("{}/tor", dirs.app_dir));
}

#[test]
fn directories_demand_owner_only_access() {
    assert_eq!(OWNER_ONLY_MODE, 0o700);
}

#[test]
fn pipeline_happy_path_binds_before_publishing() {
    let mut flow = SetupFlow::new(test_dirs(), 2368, 80);
    assert_eq!(flow.phase, SetupPhase::Init);
    assert!(flow.notice().is_none());

    match flow.next_action().expect("init has work") {
        SetupAction::PrepareDirs { app_dir, tor_dir } => {
            assert_eq!(app_dir.as_str(), "/home/user/.local/share/ghost-freedom-kit");
            assert_eq!(tor_dir.as_str(), "/home/user/.local/share/ghost-freedom-kit/tor");
        }
        other => panic!("expected PrepareDirs, got {:?}", other),
    }
    flow.advance(SetupEvent::DirsPrepared { ok: true }).expect("dirs prepared");

    match flow.next_action().expect("dirs ready has work") {
        SetupAction::BindProxy { upstream_port } => assert_eq!(upstream_port, 2368),
        other => panic!("expected BindProxy, got {:?}", other),
    }
    flow.advance(SetupEvent::PortBound { port: Some(49731) }).expect("proxy bound");

    match flow.next_action().expect("proxy bound has work") {
        SetupAction::BootstrapClient { tor_data_dir } => {
            assert_eq!(tor_data_dir.as_str(), "/home/user/.local/share/ghost-freedom-kit/tor");
        }
        other => panic!("expected BootstrapClient, got {:?}", other),
    }
    flow.advance(SetupEvent::ClientBootstrapped { ok: true }).expect("client ready");

    // The launch action carries exactly the port the bind step reported:
    // the forward rule can never name an unbound listener.
    match flow.next_action().expect("client ready has work") {
        SetupAction::LaunchService { local_proxy_port, onion_port } => {
            assert_eq!(local_proxy_port, 49731);
            assert_eq!(onion_port, 80);
        }
        other => panic!("expected LaunchService, got {:?}", other),
    }
    flow.advance(SetupEvent::ServiceStarted {
        onion_url: Some(String::from("http://svc.onion:80")),
    })
    .expect("service started");

    assert_eq!(flow.phase, SetupPhase::Done);
    assert!(flow.next_action().is_none());
    match flow.notice().expect("a finished flow notifies once") {
        SetupNotice::Ready { onion_url } => assert_eq!(onion_url.as_str(), "http://svc.onion:80"),
        other => panic!("expected Ready, got {:?}", other),
    }
}

#[test]
fn failed_bind_is_fatal_with_no_fallback_port() {
    let mut flow = SetupFlow::new(test_dirs(), 2368, 80);
    flow.advance(SetupEvent::DirsPrepared { ok: true }).expect("dirs prepared");
    let r = flow.advance(SetupEvent::PortBound { port: None });
    assert_eq!(r, Err(CoreError::ProxyBind));
    assert_eq!(flow.phase, SetupPhase::Failed);
    assert!(flow.next_action().is_none());
    match flow.notice().expect("a failed flow notifies once") {
        SetupNotice::Failed { message } => {
            assert_eq!(message.as_str(), "failed to bind the local proxy listener");
        }
        other => panic!("expected Failed, got {:?}", other),
    }
}

#[test]
fn failed_directory_preparation_is_a_bootstrap_failure() {
    let mut flow = SetupFlow::new(test_dirs(), 2368, 80);
    let r = flow.advance(SetupEvent::DirsPrepared { ok: false });
    assert_eq!(r, Err(CoreError::Bootstrap));
    assert_eq!(flow.phase, SetupPhase::Failed);
}

#[test]
fn failed_client_bootstrap_is_a_bootstrap_failure() {
    let mut flow = SetupFlow::new(test_dirs(), 2368, 80);
    flow.advance(SetupEvent::DirsPrepared { ok: true }).expect("dirs prepared");
    flow.advance(SetupEvent::PortBound { port: Some(50000) }).expect("proxy bound");
    let r = flow.advance(SetupEvent::ClientBootstrapped { ok: false });
    assert_eq!(r, Err(CoreError::Bootstrap));
    assert_eq!(flow.phase, SetupPhase::Failed);
}

#[test]
fn failed_launch_ends_the_pipeline_whole() {
    let mut flow = SetupFlow::new(test_dirs(), 2368, 80);
    flow.advance(SetupEvent::DirsPrepared { ok: true }).expect("dirs prepared");
    flow.advance(SetupEvent::PortBound { port: Some(50000) }).expect("proxy bound");
    flow.advance(SetupEvent::ClientBootstrapped { ok: true }).expect("client ready");
    let r = flow.advance(SetupEvent::ServiceStarted { onion_url: None });
    assert_eq!(r, Err(CoreError::Launch));
    assert_eq!(flow.phase, SetupPhase::Failed);
    match flow.notice().expect("a failed flow notifies once") {
        SetupNotice::Failed { message } => {
            assert_eq!(message.as_str(), "failed to launch the onion service");
        }
        other => panic!("expected Failed, got {:?}", other),
    }
}

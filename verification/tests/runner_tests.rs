use arun::config::{AppType, ArunConfig, PortBindingInfo};
use arun::ctl::ArunCtrlCmd;
use arun::runner::{LoopAction, Runner};
use arun::state::RunnerState;
use arun::transition::Operation;

fn plain_config() -> ArunConfig {
    ArunConfig::new(
        String::from("demo"),
        AppType::User,
        String::from("alpine"),
        String::from("3.19"),
        false,
        String::from("none"),
        None,
        String::from("sleep 10"),
        vec![String::from("/data:/data:rw")],
        Vec::new(),
        vec![String::from("MODE=prod")],
        None,
        None,
    )
}

fn config_with_features(features: Vec<String>) -> ArunConfig {
    ArunConfig::new(
        String::from("demo"),
        AppType::Sys,
        String::from("alpine"),
        String::from("3.19"),
        false,
        String::from("host"),
        None,
        String::from("run"),
        Vec::new(),
        features,
        Vec::new(),
        Some(7),
        None,
    )
}

#[test]
fn new_runner_starts_blank() {
    let r = Runner::new(plain_config());
    assert_eq!(r.state(), RunnerState::NonExist);
    assert_eq!(r.target_state(), RunnerState::NonExist);
}

#[test]
fn stop_command_targets_exited_and_enqueues() {
    let mut r = Runner::new(plain_config());
    let first = r.handle_command(ArunCtrlCmd::Start);
    assert_eq!(first, LoopAction::Reconcile);
    assert_eq!(r.target_state(), RunnerState::Running);

    // The workload is up; the operator asks for a stop.
    r.set_observed_state(RunnerState::Running);
    let action = r.handle_command(ArunCtrlCmd::Stop);
    assert_eq!(action, LoopAction::Reconcile);
    assert_eq!(r.target_state(), RunnerState::Exited);

    let ops = r.plan();
    assert_eq!(ops, vec![Operation::Stop]);
    r.state_transition(RunnerState::Exited);
    assert_eq!(r.state(), RunnerState::Exited);
}

#[test]
fn quit_command_stops_without_enqueuing() {
    let mut r = Runner::new(plain_config());
    r.handle_command(ArunCtrlCmd::Start);
    r.set_observed_state(RunnerState::Exited);
    // Current and target disagree, but Quit must neither enqueue work nor
    // touch the target.
    let action = r.handle_command(ArunCtrlCmd::Quit);
    assert_eq!(action, LoopAction::Quit);
    assert_eq!(r.target_state(), RunnerState::Running);
    assert_eq!(r.state(), RunnerState::Exited);
}

#[test]
fn remove_command_targets_nonexist() {
    let mut r = Runner::new(plain_config());
    let action = r.handle_command(ArunCtrlCmd::Remove);
    assert_eq!(action, LoopAction::Reconcile);
    assert_eq!(r.target_state(), RunnerState::NonExist);
}

#[test]
fn invalid_command_changes_nothing() {
    let mut r = Runner::new(plain_config());
    r.handle_command(ArunCtrlCmd::Start);
    let action = r.handle_command(ArunCtrlCmd::Invalid);
    assert_eq!(action, LoopAction::Ignore);
    assert_eq!(r.target_state(), RunnerState::Running);
}

#[test]
fn drift_enqueues_once_and_reconciliation_converges() {
    let mut r = Runner::new(plain_config());
    r.handle_command(ArunCtrlCmd::Start);
    r.set_observed_state(RunnerState::Running);

    // The container crashed out-of-band: the timer observes Exited.
    let enqueue = r.on_timer_observation(RunnerState::Exited);
    assert!(enqueue);
    assert_eq!(r.state(), RunnerState::Exited);

    // Servicing the single queued request converges to the target.
    r.state_transition(RunnerState::Running);
    assert_eq!(r.state(), RunnerState::Running);

    // Without drift the timer enqueues nothing.
    let enqueue_again = r.on_timer_observation(RunnerState::Running);
    assert!(!enqueue_again);
}

#[test]
fn apply_operation_tracks_direct_effects() {
    let mut r = Runner::new(plain_config());
    r.apply_operation(Operation::Create);
    assert_eq!(r.state(), RunnerState::Created);
    r.apply_operation(Operation::Start);
    assert_eq!(r.state(), RunnerState::Running);
    r.apply_operation(Operation::Pause);
    assert_eq!(r.state(), RunnerState::Paused);
    r.apply_operation(Operation::Unpause);
    assert_eq!(r.state(), RunnerState::Running);
    r.apply_operation(Operation::Stop);
    assert_eq!(r.state(), RunnerState::Exited);
    r.apply_operation(Operation::Remove);
    assert_eq!(r.state(), RunnerState::NonExist);
}

#[test]
fn host_config_plain() {
    let cfg = plain_config();
    let h = Runner::host_config(&cfg).unwrap();
    assert_eq!(h.binds, vec![String::from("/data:/data:rw")]);
    assert!(!h.privileged);
    assert!(h.devices.is_empty());
    assert!(h.cgroup_rules.is_empty());
    assert_eq!(h.network_mode, "none");
    assert!(h.port_bindings.is_empty());
}

#[test]
fn host_config_gui_maps_graphics_devices() {
    let cfg = config_with_features(vec![String::from("gui")]);
    let h = Runner::host_config(&cfg).unwrap();
    assert_eq!(h.devices.len(), 2);
    assert_eq!(h.devices[0].path_on_host, "/dev/dri/card0");
    assert_eq!(h.devices[0].path_in_container, "/dev/dri/card0");
    assert_eq!(h.devices[0].cgroup_permissions, "rwm");
    assert_eq!(h.devices[1].path_on_host, "/dev/dri/card1");
    assert_eq!(h.cgroup_rules, vec![String::from("c 226:* rmw")]);
}

#[test]
fn host_config_privileged_gui_needs_no_devices() {
    let mut cfg = config_with_features(vec![String::from("gui")]);
    cfg.privilege = true;
    let h = Runner::host_config(&cfg).unwrap();
    assert!(h.devices.is_empty());
    assert!(h.cgroup_rules.is_empty());
    assert!(h.privileged);
}

#[test]
fn host_config_wayland_appends_runtime_dir_bind() {
    let cfg = config_with_features(vec![String::from("wayland")]);
    let h = Runner::host_config(&cfg).unwrap();
    assert_eq!(h.binds, vec![String::from("/run/user/0:/run/user/0:rw")]);
}

#[test]
fn host_config_parses_port_bindings() {
    let mut cfg = plain_config();
    cfg.port_bindings = Some(vec![PortBindingInfo {
        port: String::from("80/tcp"),
        host: vec![String::from("127.0.0.1:8080"), String::from("0.0.0.0:9090")],
    }]);
    let h = Runner::host_config(&cfg).unwrap();
    assert_eq!(h.port_bindings.len(), 1);
    assert_eq!(h.port_bindings[0].port, "80/tcp");
    assert_eq!(h.port_bindings[0].hosts.len(), 2);
    assert_eq!(h.port_bindings[0].hosts[0].ip, "127.0.0.1");
    assert_eq!(h.port_bindings[0].hosts[0].port, "8080");
    assert_eq!(h.port_bindings[0].hosts[1].ip, "0.0.0.0");
    assert_eq!(h.port_bindings[0].hosts[1].port, "9090");
}

#[test]
fn host_config_rejects_malformed_port_binding() {
    let mut cfg = plain_config();
    cfg.port_bindings = Some(vec![PortBindingInfo {
        port: String::from("80/tcp"),
        host: vec![String::from("localhost")],
    }]);
    let err = Runner::host_config(&cfg).unwrap_err();
    assert_eq!(err, arun::errors::ArunError::InvalidValue);
}

#[test]
fn create_request_assembles_plain_values() {
    let cfg = plain_config();
    let runner = Runner::new(cfg);
    let host = Runner::host_config(&runner.config).unwrap();
    let req = runner.create_request(host, &String::from("net-1234"));
    assert_eq!(req.name, "user.demo");
    assert_eq!(req.image, "alpine:3.19");
    assert_eq!(req.cmd, vec![String::from("sleep"), String::from("10")]);
    assert_eq!(
        req.env,
        vec![
            String::from("MODE=prod"),
            String::from("SYSTEM_REDIS_SERVER_IP=192.168.10.10"),
        ]
    );
    assert!(req.network_disabled);
    assert_eq!(req.static_ipv4, None);
    assert_eq!(req.network_id, "net-1234");
    assert_eq!(req.network_name, "virt-network0");
}

#[test]
fn create_request_with_redis_and_wayland() {
    let cfg = config_with_features(vec![
        String::from("redis-server"),
        String::from("wayland"),
    ]);
    let runner = Runner::new(cfg);
    let host = Runner::host_config(&runner.config).unwrap();
    let req = runner.create_request(host, &String::from("net-1"));
    assert_eq!(req.name, "sys.demo");
    assert_eq!(req.static_ipv4, Some(String::from("192.168.10.10")));
    assert_eq!(
        req.env.last().unwrap(),
        &String::from("XDG_RUNTIME_DIR=/run/user/0")
    );
    assert!(!req.network_disabled);
}

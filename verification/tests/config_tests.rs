use arun::config::{AppType, ArunConfig, NetworkType};
use arun::ctl::ArunCtrlCmd;
use arun::errors::ArunError;
use arun::state::RunnerState;
use arun::text::parse_host_port;

fn sample() -> ArunConfig {
    ArunConfig::new(
        String::from("camera"),
        AppType::Sys,
        String::from("registry.local/cam"),
        String::from("1.2.0"),
        true,
        String::from("host"),
        None,
        String::from("/bin/camd -v --fps 30"),
        vec![String::from("/dev:/dev:rw"), String::from("/var:/var:ro")],
        vec![String::from("gui"), String::from("wayland")],
        vec![String::from("A=1"), String::from("B=2")],
        Some(5),
        None,
    )
}

#[test]
fn image_joins_name_and_version() {
    assert_eq!(sample().image(), "registry.local/cam:1.2.0");
    assert_eq!(sample().image_name(), "registry.local/cam");
    assert_eq!(sample().image_version(), "1.2.0");
}

#[test]
fn appid_joins_namespace_and_name() {
    assert_eq!(sample().appid(), "sys.camera");
    let mut user = sample();
    user.app_type = AppType::User;
    assert_eq!(user.appid(), "user.camera");
}

#[test]
fn cmd_splits_on_spaces() {
    assert_eq!(
        sample().cmd(),
        vec![
            String::from("/bin/camd"),
            String::from("-v"),
            String::from("--fps"),
            String::from("30"),
        ]
    );
}

#[test]
fn cmd_keeps_empty_words_between_double_spaces() {
    let mut cfg = sample();
    cfg.cmd = String::from("a  b");
    assert_eq!(
        cfg.cmd(),
        vec![String::from("a"), String::from(""), String::from("b")]
    );
}

#[test]
fn feature_flags_are_detected() {
    let cfg = sample();
    assert!(cfg.gui());
    assert!(cfg.wayland());
    assert!(!cfg.redis_server());
    let mut redis = sample();
    redis.features = vec![String::from("redis-server")];
    assert!(redis.redis_server());
    assert!(!redis.gui());
}

#[test]
fn getters_hand_fields_back() {
    let cfg = sample();
    assert!(cfg.privilege());
    assert_eq!(cfg.network(), "host");
    assert_eq!(cfg.binds(), vec!["/dev:/dev:rw", "/var:/var:ro"]);
    assert_eq!(
        cfg.environment(),
        vec![String::from("A=1"), String::from("B=2")]
    );
    assert!(cfg.port_bindings().is_none());
    assert_eq!(cfg.monitor_interval(), 5);
}

#[test]
fn monitor_interval_override_wins() {
    let mut args = sample();
    args = ArunConfig::new(
        args.name,
        args.app_type,
        args.image,
        args.version,
        args.privilege,
        args.network,
        None,
        args.cmd,
        args.binds,
        args.features,
        args.environments,
        Some(5),
        Some(9),
    );
    assert_eq!(args.monitor_interval(), 9);
}

#[test]
fn monitor_interval_defaults_to_one() {
    let cfg = ArunConfig::new(
        String::from("x"),
        AppType::User,
        String::from("img"),
        String::from("latest"),
        false,
        String::from("none"),
        None,
        String::from("run"),
        Vec::new(),
        Vec::new(),
        Vec::new(),
        None,
        None,
    );
    assert_eq!(cfg.monitor_interval(), 1);
}

#[test]
fn default_config_is_the_documented_placeholder() {
    let cfg = ArunConfig::default();
    assert_eq!(cfg.name, "Invalid");
    assert_eq!(cfg.app_type, AppType::User);
    assert_eq!(cfg.image(), "Invalid:latest");
    assert!(!cfg.privilege());
    assert_eq!(cfg.network(), "none");
    assert!(cfg.port_bindings().is_none());
    assert_eq!(cfg.cmd, "Invalid");
    assert!(cfg.binds().is_empty());
    assert!(cfg.environment().is_empty());
    assert_eq!(cfg.monitor_interval(), 1);
}

#[test]
fn network_type_round_trips_its_names() {
    for n in [NetworkType::none, NetworkType::host, NetworkType::container] {
        assert_eq!(NetworkType::from_name(&n.name()), Some(n));
    }
    assert_eq!(NetworkType::from_name("bridge"), None);
}

#[test]
fn parse_host_port_accepts_plain_bindings() {
    assert_eq!(
        parse_host_port("127.0.0.1:8080"),
        Some((String::from("127.0.0.1"), String::from("8080")))
    );
    assert_eq!(
        parse_host_port("0.0.0.0:80"),
        Some((String::from("0.0.0.0"), String::from("80")))
    );
}

#[test]
fn parse_host_port_finds_first_embedded_match() {
    assert_eq!(
        parse_host_port("ab1.2:3x"),
        Some((String::from("1.2"), String::from("3")))
    );
}

#[test]
fn parse_host_port_rejects_shapes_without_a_match() {
    assert_eq!(parse_host_port("localhost"), None);
    assert_eq!(parse_host_port("1.2.3.4:"), None);
    assert_eq!(parse_host_port(":8080"), None);
    assert_eq!(parse_host_port(""), None);
}

#[test]
fn runner_state_from_status_maps_every_known_string() {
    assert_eq!(RunnerState::from_status("created"), Ok(RunnerState::Created));
    assert_eq!(RunnerState::from_status("running"), Ok(RunnerState::Running));
    assert_eq!(
        RunnerState::from_status("restarting"),
        Ok(RunnerState::Restarting)
    );
    assert_eq!(RunnerState::from_status("exited"), Ok(RunnerState::Exited));
    assert_eq!(RunnerState::from_status("paused"), Ok(RunnerState::Paused));
    assert_eq!(RunnerState::from_status("dead"), Ok(RunnerState::Dead));
    assert_eq!(
        RunnerState::from_status("nonExist"),
        Ok(RunnerState::NonExist)
    );
    assert_eq!(RunnerState::from_status("Running"), Err(ArunError::Unknown));
    assert_eq!(RunnerState::from_status(""), Err(ArunError::Unknown));
}

#[test]
fn runner_state_names() {
    assert_eq!(RunnerState::NonExist.name(), "NonExist");
    assert_eq!(RunnerState::Created.name(), "Created");
    assert_eq!(RunnerState::Running.name(), "Running");
    assert_eq!(RunnerState::Restarting.name(), "Restarting");
    assert_eq!(RunnerState::Exited.name(), "Exited");
    assert_eq!(RunnerState::Paused.name(), "Paused");
    assert_eq!(RunnerState::Dead.name(), "Dead");
}

#[test]
fn control_command_tags_map_totally() {
    assert_eq!(ArunCtrlCmd::from_tag("Start"), ArunCtrlCmd::Start);
    assert_eq!(ArunCtrlCmd::from_tag("Stop"), ArunCtrlCmd::Stop);
    assert_eq!(ArunCtrlCmd::from_tag("Remove"), ArunCtrlCmd::Remove);
    assert_eq!(ArunCtrlCmd::from_tag("Quit"), ArunCtrlCmd::Quit);
    assert_eq!(ArunCtrlCmd::from_tag("Restart"), ArunCtrlCmd::Invalid);
    assert_eq!(ArunCtrlCmd::from_tag(""), ArunCtrlCmd::Invalid);
}

#[test]
fn control_command_names() {
    assert_eq!(ArunCtrlCmd::Start.name(), "ArunCtrlCmd::Start");
    assert_eq!(ArunCtrlCmd::Invalid.name(), "ArunCtrlCmd::Invalid");
}

#[test]
fn error_descriptions() {
    assert_eq!(ArunError::InvalidValue.desc(), "Invalid Parameter");
    assert_eq!(ArunError::DockerErr.desc(), "Docker error");
    assert_eq!(
        ArunError::ConflictedWithOther.desc(),
        "Another app with same name exists"
    );
    assert_eq!(ArunError::IOError.desc(), "IO error");
    assert_eq!(ArunError::Unknown.desc(), "Unknown error");
}

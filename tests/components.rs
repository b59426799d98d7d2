use ajime_agent::auth::{signed_claims_part, should_refresh, DeviceToken, DeviceTokenClaims, SECRET_LIFETIME_SECS};
use ajime_agent::deploy::{
    config_or, container_name, deployment_target_dir, full_image, in_progress_update,
    needs_registry_login, outcome_log, outcome_update, parse_deployment_kind, start_log,
    DeploymentKind,
};
use ajime_agent::error::AgentError;
use ajime_agent::hardware::{camera_candidates, CameraDevice, GpioController, GpioPin, I2cBus, PinMode, PinState};
use ajime_agent::nodes::{GpioReadNodeRunner, HttpRequestNodeRunner, NodeKind, NodeRunnerFactory};
use ajime_agent::storage::{Dir, LogLevel, Settings, StorageLayout};

#[test]
fn test_token_expiry_check() {}

fn claims(sub: &str, exp: i64) -> DeviceTokenClaims {
    DeviceTokenClaims {
        sub: sub.to_string(),
        owner_id: "owner".to_string(),
        capabilities: vec![],
        iat: 0,
        exp,
        iss: None,
    }
}

#[test]
fn token_expiry_policy() {
    let t = DeviceToken::from_claims("raw".to_string(), claims("dev-1", 1000)).unwrap();
    assert_eq!(t.device_id(), "dev-1");
    assert_eq!(t.owner_id(), "owner");
    assert!(!t.is_expired(1000));
    assert!(t.is_expired(1001));
    assert!(t.expires_within(900, 101));
    assert!(!t.expires_within(900, 100));
    assert_eq!(t.time_until_expiry(400), 600);
    assert!(should_refresh(&t, 0, 86400));
    assert!(!should_refresh(&t, 0, 1000));
    assert!(matches!(DeviceToken::from_claims(String::new(), claims("d", 1)), Err(AgentError::TokenError(_))));
    assert!(matches!(DeviceToken::from_claims("r".to_string(), claims("", 1)), Err(AgentError::TokenError(_))));
}

#[test]
fn secret_token_lasts_a_year() {
    let t = DeviceToken::from_secret("dev".to_string(), "s3cret".to_string(), 100);
    assert_eq!(t.raw, "s3cret");
    assert_eq!(t.claims.exp, 100 + SECRET_LIFETIME_SECS);
    assert_eq!(t.claims.iss.as_deref(), Some("device-secret"));
    assert_eq!(DeviceToken::from_secret("d".to_string(), "s".to_string(), i64::MAX).claims.exp, i64::MAX);
}

#[test]
fn storage_paths() {
    let l = StorageLayout::new("/etc/ajime");
    assert_eq!(l.device_file().path(), "/etc/ajime/device.json");
    assert_eq!(l.settings_file().path(), "/etc/ajime/settings.json");
    assert_eq!(l.workflows_cache_dir().path(), "/etc/ajime/cache/workflows");
    assert_eq!(l.configs_cache_dir().path(), "/etc/ajime/cache/configs");
    assert_eq!(l.deployment_dir().path(), "/etc/ajime/deployments");
    assert_eq!(l.logs_dir().path(), "/etc/ajime/logs");
    assert_eq!(l.tokens_dir().path(), "/etc/ajime/tokens");
    assert_eq!(l.cache_dir().path(), "/etc/ajime/cache");
    assert_eq!(StorageLayout::new("/base/").device_file().path(), "/base/device.json");
    let d = Dir::new("rel");
    assert_eq!(d.file("x.txt").path(), "rel/x.txt");
    assert_eq!(d.subdir("/abs").path(), "/abs");
    assert_eq!(Dir::new("").file("f").path(), "f");
    assert_eq!(StorageLayout::default().base_dir, "/etc/ajime");
}

#[test]
fn settings_defaults_and_levels() {
    let s = Settings::default();
    assert_eq!(s.backend.base_url, "http://localhost:8000/api/v1");
    assert_eq!(s.mqtt_broker.port, 8883);
    assert_eq!(s.polling_interval_secs, 30);
    let lo = ajime_agent::storage::LogOptions::default();
    assert_eq!(lo.log_dir, "/var/log/ajime");
    assert!(lo.stdout && !lo.json_format);
    assert_eq!(s.hardware.camera_device, "/dev/video0");
    assert_eq!(LogLevel::Warn.to_filter_string(), "warn");
    assert_eq!(LogLevel::Trace.to_level(), 0);
    assert_eq!(LogLevel::default(), LogLevel::Info);
}

#[test]
fn gpio_modes() {
    let mut out = GpioPin::new(4, PinMode::Output).unwrap();
    assert!(out.read().is_err());
    assert!(out.set_high().is_ok());
    assert!(out.toggle().is_err());
    let mut inp = GpioPin::new(5, PinMode::Input).unwrap();
    assert_eq!(inp.read().unwrap(), PinState::Low);
    assert!(matches!(inp.write(PinState::High), Err(AgentError::HardwareError(_))));
    assert_eq!(inp.pin(), 5);
    assert_eq!(PinState::from(true), PinState::High);
    assert_eq!(PinState::from(false), PinState::Low);

    let mut c = GpioController::new();
    c.setup_pin(17, PinMode::Output).unwrap();
    assert_eq!(c.get_pin(17).unwrap().mode(), PinMode::Output);
    assert!(c.get_pin(18).is_none());
    assert!(c.get_pin_mut(17).unwrap().set_low().is_ok());
    c.release_pin(17);
    assert!(c.get_pin(17).is_none());
    c.setup_pin(1, PinMode::Input).unwrap();
    c.release_all();
    assert!(c.get_pin(1).is_none());
}

#[test]
fn i2c_and_camera_stand_ins() {
    let bus = I2cBus::new(1).unwrap();
    assert_eq!(bus.bus_number(), 1);
    assert!(bus.scan().unwrap().is_empty());
    assert_eq!(bus.read(0x76, 0, 3).unwrap(), vec![0, 0, 0]);
    assert_eq!(bus.read_byte(0x76, 0).unwrap(), 0);
    assert!(bus.write_byte(0x76, 0, 9).is_ok());
    let mut cam = CameraDevice::new("/dev/video0", 640, 480);
    assert!(!cam.is_open());
    cam.open().unwrap();
    assert!(cam.is_open());
    assert_eq!(cam.resolution(), (640, 480));
    assert_eq!(cam.device_path(), "/dev/video0");
    let c = camera_candidates();
    assert_eq!(c.len(), 10);
    assert_eq!(c[0], "/dev/video0");
    assert_eq!(c[9], "/dev/video9");
}

#[test]
fn deployment_decisions() {
    assert_eq!(parse_deployment_kind("docker").unwrap(), DeploymentKind::Docker);
    assert_eq!(parse_deployment_kind("docker_compose").unwrap(), DeploymentKind::DockerCompose);
    match parse_deployment_kind("helm") {
        Err(AgentError::DeployError(m)) => assert_eq!(m, "Unsupported deployment type: helm"),
        _ => panic!("expected a deploy error"),
    }
    assert_eq!(full_image("nginx", "1.25"), "nginx:1.25");
    assert_eq!(full_image("nginx:latest", "1.25"), "nginx:latest");
    assert_eq!(full_image("nginx", ""), "nginx");
    assert_eq!(container_name("ghcr.io/org/app:v2"), "app");
    assert_eq!(container_name("nginx"), "nginx");
    assert!(needs_registry_login("ghcr.io/org/app:v2"));
    assert!(!needs_registry_login("docker.io/nginx"));
    assert_eq!(deployment_target_dir("d1"), "/etc/ajime/deployments/d1");
    assert_eq!(config_or(None, "latest"), "latest");
    assert_eq!(in_progress_update().status, "in_progress");
    assert_eq!(start_log("git").message, "Starting git deployment...");
    let failed: Result<(), AgentError> = Err(AgentError::DeployError("pull".to_string()));
    let u = outcome_update(&failed);
    assert_eq!(u.status, "failed");
    assert_eq!(u.error_message.as_deref(), Some("Deployment error: pull"));
    assert_eq!(outcome_log(&failed).message, "Deployment failed: Deployment error: pull");
    assert_eq!(outcome_update(&Ok(())).status, "success");
}

#[test]
fn node_runner_selection() {
    assert_eq!(NodeRunnerFactory::kind("camera_capture"), NodeKind::Camera);
    assert_eq!(NodeRunnerFactory::kind("timer"), NodeKind::Delay);
    assert_eq!(NodeRunnerFactory::kind("whatever"), NodeKind::Passthrough);
    assert!(matches!(GpioReadNodeRunner::new("n", None), Err(AgentError::ConfigError(_))));
    assert_eq!(GpioReadNodeRunner::new("n", Some(260)).unwrap().pin, 4);
    assert_eq!(HttpRequestNodeRunner::new("n", Some("http://x"), None).unwrap().method, "GET");
}

#[test]
fn log_level_words() {
    assert_eq!(LogLevel::parse("WARNING").unwrap(), LogLevel::Warn);
    assert_eq!(LogLevel::parse("Debug").unwrap(), LogLevel::Debug);
    assert_eq!(LogLevel::from_lowercase("info").unwrap(), LogLevel::Info);
    assert_eq!(LogLevel::from_lowercase("loud").unwrap_err(), "Invalid log level: loud");
    assert!(LogLevel::parse("loud").is_err());
}

#[test]
fn credential_shapes() {
    assert_eq!(signed_claims_part("aaa.bbb.ccc"), Some("bbb".to_string()));
    assert_eq!(signed_claims_part("aaa..ccc"), Some(String::new()));
    assert_eq!(signed_claims_part("plain-secret"), None);
    assert_eq!(signed_claims_part("a.b"), None);
    assert_eq!(signed_claims_part("a.b.c.d"), None);
}

use live_server::lifecycle::{coordinator_verdict, FatalError, ServerConfig, WriteOnce};
use live_server::ports::AcquireError;
use live_server::script::{build_reload_script, u16_to_decimal};

#[test]
fn ports_render_in_decimal() {
    assert_eq!(u16_to_decimal(0), "0");
    assert_eq!(u16_to_decimal(7), "7");
    assert_eq!(u16_to_decimal(80), "80");
    assert_eq!(u16_to_decimal(8080), "8080");
    assert_eq!(u16_to_decimal(65535), "65535");
}

#[test]
fn the_reload_script_targets_the_effective_endpoint() {
    let script = build_reload_script("192.168.1.7", 8081);
    assert!(script.contains("new WebSocket(\"ws://192.168.1.7:8081/live-server-ws\")"));
    assert!(script.contains("ws.onmessage = () => location.reload();"));
    assert!(script.contains("ws.onopen"));
    assert!(script.contains("ws.onclose"));
}

#[test]
fn the_script_is_a_pure_function_of_host_and_port() {
    assert_eq!(build_reload_script("127.0.0.1", 8080), build_reload_script("127.0.0.1", 8080));
    assert_ne!(build_reload_script("127.0.0.1", 8080), build_reload_script("127.0.0.1", 8081));
}

#[test]
fn a_write_once_slot_takes_exactly_one_value() {
    let mut slot: WriteOnce<u16> = WriteOnce::new();
    assert!(!slot.is_set());
    assert!(slot.get().is_none());
    assert_eq!(slot.set(8080), Ok(()));
    assert!(slot.is_set());
    assert_eq!(slot.get(), Some(&8080));
    assert_eq!(slot.set(9090), Err(9090));
    assert_eq!(slot.get(), Some(&8080));
}

#[test]
fn the_process_lives_only_while_both_tasks_live() {
    assert_eq!(coordinator_verdict(true, Ok(())), Ok(()));
    assert_eq!(coordinator_verdict(false, Ok(())), Err(FatalError::Watch));
    assert_eq!(
        coordinator_verdict(true, Err(AcquireError::AddrInUse)),
        Err(FatalError::Acquire(AcquireError::AddrInUse))
    );
    assert_eq!(coordinator_verdict(false, Err(AcquireError::BindFailed)), Err(FatalError::Watch));
}

#[test]
fn the_configuration_carries_the_startup_parameters() {
    let config = ServerConfig {
        host: String::from("127.0.0.1"),
        requested_port: 8080,
        root: String::from("./public"),
        allow_port_fallback: true,
    };
    assert_eq!(config.host, "127.0.0.1");
    assert_eq!(config.requested_port, 8080);
    assert_eq!(config.root, "./public");
    assert!(config.allow_port_fallback);
}

use live_server::ports::{port_step, select_port, AcquireError, BindOutcome, PortAction};

#[test]
fn fallback_takes_smallest_free_port() {
    let occupied = vec![8080u16, 8081, 8083];
    assert_eq!(select_port(8080, true, &occupied), Ok(8082));
}

#[test]
fn free_requested_port_is_kept() {
    let occupied = vec![8080u16];
    assert_eq!(select_port(9000, true, &occupied), Ok(9000));
    assert_eq!(select_port(9000, false, &occupied), Ok(9000));
}

#[test]
fn occupied_port_without_fallback_fails_at_once() {
    let occupied = vec![8080u16];
    assert_eq!(select_port(8080, false, &occupied), Err(AcquireError::AddrInUse));
}

#[test]
fn no_occupied_ports_at_all() {
    let occupied: Vec<u16> = Vec::new();
    assert_eq!(select_port(0, true, &occupied), Ok(0));
}

#[test]
fn exhausted_when_every_port_from_requested_is_taken() {
    let occupied = vec![65533u16, 65534, 65535];
    assert_eq!(select_port(65533, true, &occupied), Err(AcquireError::Exhausted));
    assert_eq!(select_port(65533, false, &occupied), Err(AcquireError::AddrInUse));
}

#[test]
fn step_accepts_a_bound_port() {
    assert_eq!(port_step(8080, true, BindOutcome::Bound), PortAction::Accept(8080));
    assert_eq!(port_step(8080, false, BindOutcome::Bound), PortAction::Accept(8080));
}

#[test]
fn step_retries_next_port_only_with_fallback() {
    assert_eq!(port_step(8080, true, BindOutcome::AddrInUse), PortAction::Retry(8081));
    assert_eq!(
        port_step(8080, false, BindOutcome::AddrInUse),
        PortAction::Fail(AcquireError::AddrInUse)
    );
}

#[test]
fn step_gives_up_at_the_last_port() {
    assert_eq!(
        port_step(65535, true, BindOutcome::AddrInUse),
        PortAction::Fail(AcquireError::Exhausted)
    );
}

#[test]
fn step_fails_fast_on_other_bind_errors() {
    assert_eq!(
        port_step(8080, true, BindOutcome::OtherError),
        PortAction::Fail(AcquireError::BindFailed)
    );
    assert_eq!(
        port_step(8080, false, BindOutcome::OtherError),
        PortAction::Fail(AcquireError::BindFailed)
    );
}

use ipc_tracking::utils::error::ModbusError;
use ipc_tracking::utils::state_handlers::{
    handle_error_state, handle_initialization, handle_operational_ready, handle_read_devices, handle_read_gps,
    handle_send_data, handle_shutdown, handle_test_connection, HandlerStep,
};
use ipc_tracking::utils::state_machine::{
    GuardCondition, StateContext, StateEvent, SystemState, SystemStateMachine, TransitionGuard,
};

#[test]
fn test_state_machine_initialization() {
    let fsm = SystemStateMachine::new(3);
    assert_eq!(fsm.current_state(), SystemState::Initializing);
}

#[test]
fn test_basic_transition() {
    let mut fsm = SystemStateMachine::new(3);
    let result = fsm.transition(StateEvent::InitComplete);
    assert!(result.is_ok());
    assert_eq!(fsm.current_state(), SystemState::ReadingDevices);
}

#[test]
fn test_invalid_transition() {
    let mut fsm = SystemStateMachine::new(3);
    let result = fsm.transition(StateEvent::DataSentSuccess);
    assert!(result.is_err());
    assert_eq!(fsm.current_state(), SystemState::Initializing);
}

#[test]
fn test_guard_condition() {
    let mut fsm = SystemStateMachine::new(1);
    fsm.transition(StateEvent::InitComplete).unwrap();
    fsm.context_mut().increment_retry();
    let result = fsm.transition(StateEvent::DevicesReadFailure);
    assert!(result.is_err() || result.unwrap() == SystemState::Error);
}

#[test]
fn test_full_happy_path() {
    let mut fsm = SystemStateMachine::new(3);
    fsm.transition(StateEvent::InitComplete).unwrap();
    assert_eq!(fsm.current_state(), SystemState::ReadingDevices);
    fsm.transition(StateEvent::DevicesReadSuccess).unwrap();
    assert_eq!(fsm.current_state(), SystemState::ReadingGPS);
    fsm.transition(StateEvent::GPSReadSuccess).unwrap();
    assert_eq!(fsm.current_state(), SystemState::TestingConnection);
    {
        let ctx = fsm.context_mut();
        ctx.devices_ready = true;
        ctx.connection_ready = true;
    }
    fsm.transition(StateEvent::ConnectionTestSuccess).unwrap();
    assert_eq!(fsm.current_state(), SystemState::OperationalReady);
    fsm.transition(StateEvent::ReadyToSend).unwrap();
    assert_eq!(fsm.current_state(), SystemState::SendingData);
}

#[test]
fn refused_transition_names_state_and_event() {
    let mut fsm = SystemStateMachine::new(3);
    let r = fsm.transition(StateEvent::DataSentSuccess);
    assert_eq!(
        r,
        Err(ModbusError::InvalidState("No valid transition from Initializing for event Data Sent Success".to_string()))
    );
}

#[test]
fn ready_to_send_needs_devices_and_connection() {
    let mut fsm = SystemStateMachine::new(3);
    fsm.force_state(SystemState::OperationalReady);
    assert!(fsm.transition(StateEvent::ReadyToSend).is_err());
    assert_eq!(fsm.current_state(), SystemState::OperationalReady);
}

#[test]
fn shutdown_is_terminal() {
    let mut fsm = SystemStateMachine::new(3);
    fsm.transition(StateEvent::InitComplete).unwrap();
    fsm.transition(StateEvent::ShutdownRequested).unwrap();
    assert!(fsm.is_shutdown());
    for e in [
        StateEvent::InitComplete,
        StateEvent::RecoverableError,
        StateEvent::FatalError,
        StateEvent::ShutdownRequested,
        StateEvent::DevicesReadSuccess,
    ] {
        assert!(fsm.transition(e).is_err());
        assert_eq!(fsm.current_state(), SystemState::Shutdown);
    }
}

#[test]
fn success_resets_retries_and_records_previous_state() {
    let mut fsm = SystemStateMachine::new(3);
    fsm.transition(StateEvent::InitComplete).unwrap();
    fsm.context_mut().increment_retry();
    fsm.transition(StateEvent::DevicesReadSuccess).unwrap();
    let ctx = fsm.get_context();
    assert_eq!(ctx.retry_count, 0);
    assert_eq!(ctx.previous_state, Some(SystemState::ReadingDevices));
}

#[test]
fn recoverable_error_retries_while_retries_remain() {
    let mut fsm = SystemStateMachine::new(2);
    fsm.transition(StateEvent::InitComplete).unwrap();
    assert_eq!(fsm.transition(StateEvent::RecoverableError), Ok(SystemState::ReadingDevices));
    fsm.context_mut().increment_retry();
    fsm.context_mut().increment_retry();
    assert!(fsm.transition(StateEvent::RecoverableError).is_err());
    assert_eq!(fsm.transition(StateEvent::DevicesReadFailure), Ok(SystemState::Error));
    assert!(fsm.is_error());
}

#[test]
fn context_helpers() {
    let mut ctx = StateContext::new(2);
    assert!(!ctx.is_max_retries_exceeded());
    ctx.increment_retry();
    ctx.increment_retry();
    assert!(ctx.is_max_retries_exceeded());
    ctx.reset_retries();
    assert_eq!(ctx.retry_count, 0);
    ctx.set_error("boom".to_string());
    assert_eq!(ctx.last_error, Some("boom".to_string()));
    ctx.clear_error();
    assert_eq!(ctx.last_error, None);
    let t = ctx.last_transition;
    assert_eq!(ctx.time_in_state_at(t + 1500), 1500);
}

#[test]
fn guards_check_the_context() {
    let mut ctx = StateContext::new(1);
    let exceeded = TransitionGuard::new(GuardCondition::MaxRetriesExceeded, "max retries");
    let remaining = TransitionGuard::new(GuardCondition::RetriesRemaining, "retries left");
    assert!(!exceeded.check(&ctx));
    assert!(remaining.check(&ctx));
    ctx.increment_retry();
    assert!(exceeded.check(&ctx));
    assert!(!remaining.check(&ctx));
    let ready = TransitionGuard::new(GuardCondition::DevicesAndConnectionReady, "ready");
    assert!(!ready.check(&ctx));
    ctx.devices_ready = true;
    ctx.connection_ready = true;
    assert!(ready.check(&ctx));
    assert_eq!(ready.description, "ready");
}

#[test]
fn state_names() {
    assert_eq!(SystemState::ReadingGPS.to_string(), "Reading GPS");
    assert_eq!(SystemState::OperationalReady.debug_name(), "OperationalReady");
    assert_eq!(StateEvent::ReadyToSend.to_string(), "Ready to Send");
}

#[test]
fn summary_line() {
    let mut fsm = SystemStateMachine::new(3);
    fsm.transition(StateEvent::InitComplete).unwrap();
    let t = fsm.get_context().last_transition;
    assert_eq!(
        fsm.state_summary_at(t + 1500),
        "State: Reading Devices | Previous: Some(Initializing) | Time in state: TimeDelta { secs: 1, nanos: 500000000 } | Retries: 0/3 | Ready: D:false G:false C:false"
    );
}

#[test]
fn handlers_walk_the_happy_path() {
    let mut fsm = SystemStateMachine::new(3);
    assert_eq!(handle_initialization(&mut fsm), Ok(()));
    assert_eq!(fsm.current_state(), SystemState::ReadingDevices);
    assert_eq!(handle_read_devices(&mut fsm, Ok(())), Ok(HandlerStep::Done));
    assert_eq!(fsm.current_state(), SystemState::ReadingGPS);
    assert!(fsm.get_context().devices_ready);
    assert_eq!(handle_read_gps(&mut fsm, Ok(())), Ok(()));
    assert_eq!(fsm.current_state(), SystemState::TestingConnection);
    assert_eq!(handle_test_connection(&mut fsm, Ok(())), Ok(HandlerStep::Done));
    assert_eq!(fsm.current_state(), SystemState::OperationalReady);
    assert_eq!(handle_operational_ready(&mut fsm, false), Ok(()));
    assert_eq!(fsm.current_state(), SystemState::OperationalReady);
    assert_eq!(handle_operational_ready(&mut fsm, true), Ok(()));
    assert_eq!(fsm.current_state(), SystemState::SendingData);
    assert_eq!(handle_send_data(&mut fsm, Err(ModbusError::Timeout)), Ok(()));
    assert_eq!(fsm.current_state(), SystemState::OperationalReady);
    assert_eq!(fsm.get_context().last_error, Some("Data send error: Timeout occurred".to_string()));
    handle_shutdown(&mut fsm);
    assert_eq!(fsm.current_state(), SystemState::OperationalReady);
    assert!(fsm.get_context().metadata.get("shutdown_at").is_some());
    fsm.transition(StateEvent::ShutdownRequested).unwrap();
    assert!(fsm.is_shutdown());
}

#[test]
fn device_read_failures_retry_then_give_up() {
    let mut fsm = SystemStateMachine::new(2);
    handle_initialization(&mut fsm).unwrap();
    assert_eq!(handle_read_devices(&mut fsm, Err(ModbusError::Timeout)), Ok(HandlerStep::Retry));
    assert_eq!(fsm.current_state(), SystemState::ReadingDevices);
    assert_eq!(fsm.get_context().retry_count, 1);
    assert_eq!(handle_read_devices(&mut fsm, Err(ModbusError::Timeout)), Err(ModbusError::Timeout));
    assert_eq!(fsm.current_state(), SystemState::Error);
    assert_eq!(fsm.get_context().last_error, Some("Device read error: Timeout occurred".to_string()));
    assert_eq!(handle_error_state(&mut fsm), Ok(()));
    assert_eq!(fsm.current_state(), SystemState::ReadingDevices);
    assert_eq!(fsm.get_context().retry_count, 0);
}

#[test]
fn gps_failure_is_not_fatal() {
    let mut fsm = SystemStateMachine::new(3);
    fsm.force_state(SystemState::ReadingGPS);
    assert_eq!(handle_read_gps(&mut fsm, Err(ModbusError::Timeout)), Ok(()));
    assert_eq!(fsm.current_state(), SystemState::TestingConnection);
}

#[test]
fn error_state_with_devices_ready_is_fatal() {
    let mut fsm = SystemStateMachine::new(3);
    fsm.context_mut().devices_ready = true;
    fsm.force_state(SystemState::Error);
    assert_eq!(
        handle_error_state(&mut fsm),
        Err(ModbusError::FatalError("System in unrecoverable error state".to_string()))
    );
    assert!(fsm.is_shutdown());
}

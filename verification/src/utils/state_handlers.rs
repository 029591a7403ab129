//! What the system does in each state once the outside work of that state
//! (reading devices, testing connections, sending data) has answered: how the
//! context changes and which event drives the state machine on.

use vstd::prelude::*;

use crate::config::metadata::Metadata;
use crate::text::{concat, owned};
use crate::utils::clock::now_rfc3339;
use crate::utils::error::{error_message, ModbusError};
use crate::utils::state_machine::{
    answered, lemma_next_state_depends_on, moved, next_state, refused, retries_exhausted, StateContext, StateEvent,
    SystemState, SystemStateMachine,
};

verus! {

/// What a handler asks its caller to do next.
#[derive(Debug, Clone, Copy, PartialEq, Eq, Structural)]
pub enum HandlerStep {
    /// The state's work is over.
    Done,
    /// Do the state's outside work again.
    Retry,
}

/// `after` holds a note under `key`, and every other note of `before`.
pub open spec fn noted(before: Metadata, after: Metadata, key: Seq<char>) -> bool {
    &&& after.spec_get(key) is Some
    &&& forall|k: Seq<char>| k != key ==> #[trigger] after.spec_get(k) == before.spec_get(k)
}

/// Stores the present time under `key`.
fn note_time(m: &mut Metadata, key: &str)
    ensures
        noted(*old(m), *final(m), key@),
{
    m.insert(owned(key), now_rfc3339());
}

/// Drives the machine with `event`, answering `value` when it moves.
fn drive<T>(fsm: &mut SystemStateMachine, event: StateEvent, value: T) -> (r: Result<T, ModbusError>)
    requires
        old(fsm).wf(),
    ensures
        final(fsm).wf(),
        moved(old(fsm).ctx(), final(fsm).ctx(), event),
        final(fsm).ctx().max_retries == old(fsm).ctx().max_retries,
        final(fsm).ctx().devices_ready == old(fsm).ctx().devices_ready,
        final(fsm).ctx().gps_ready == old(fsm).ctx().gps_ready,
        final(fsm).ctx().connection_ready == old(fsm).ctx().connection_ready,
        final(fsm).ctx().last_error == old(fsm).ctx().last_error,
        final(fsm).ctx().metadata == old(fsm).ctx().metadata,
        answered(old(fsm).ctx(), event, r, value),
{
    match fsm.transition(event) {
        Ok(_) => Ok(value),
        Err(e) => Err(e),
    }
}

/// Initialization: notes when it started and moves on to reading devices.
pub fn handle_initialization(fsm: &mut SystemStateMachine) -> (r: Result<(), ModbusError>)
    requires
        old(fsm).wf(),
    ensures
        final(fsm).wf(),
        moved(old(fsm).ctx(), final(fsm).ctx(), StateEvent::InitComplete),
        noted(old(fsm).ctx().metadata, final(fsm).ctx().metadata, "init_start"@),
        final(fsm).ctx().devices_ready == old(fsm).ctx().devices_ready,
        final(fsm).ctx().gps_ready == old(fsm).ctx().gps_ready,
        final(fsm).ctx().connection_ready == old(fsm).ctx().connection_ready,
        final(fsm).ctx().last_error == old(fsm).ctx().last_error,
        answered(old(fsm).ctx(), StateEvent::InitComplete, r, ()),
{
    let ghost before = fsm.ctx();
    let c = fsm.context_mut();
    note_time(&mut c.metadata, "init_start");
    proof {
        lemma_next_state_depends_on(before, fsm.ctx(), StateEvent::InitComplete);
    }
    drive(fsm, StateEvent::InitComplete, ())
}

/// After reading the devices: on success, marks them ready and moves on to
/// GPS; on failure, records the error and counts a retry, then gives up to
/// `Error` once the retries are used up or asks for another read.
pub fn handle_read_devices(fsm: &mut SystemStateMachine, outcome: Result<(), ModbusError>) -> (r: Result<
    HandlerStep,
    ModbusError,
>)
    requires
        old(fsm).wf(),
        old(fsm).ctx().retry_count < u32::MAX,
    ensures
        final(fsm).wf(),
        final(fsm).ctx().max_retries == old(fsm).ctx().max_retries,
        final(fsm).ctx().gps_ready == old(fsm).ctx().gps_ready,
        final(fsm).ctx().connection_ready == old(fsm).ctx().connection_ready,
        match outcome {
            Ok(_) => {
                let mid = StateContext { devices_ready: true, last_error: None, ..old(fsm).ctx() };
                &&& moved(mid, final(fsm).ctx(), StateEvent::DevicesReadSuccess)
                &&& final(fsm).ctx().devices_ready
                &&& final(fsm).ctx().last_error is None
                &&& noted(old(fsm).ctx().metadata, final(fsm).ctx().metadata, "devices_read_at"@)
                &&& answered(mid, StateEvent::DevicesReadSuccess, r, HandlerStep::Done)
            },
            Err(e) => {
                let mid = StateContext { retry_count: (old(fsm).ctx().retry_count + 1) as u32, ..old(fsm).ctx() };
                &&& final(fsm).ctx().devices_ready == old(fsm).ctx().devices_ready
                &&& final(fsm).ctx().last_error matches Some(m) && m@ == "Device read error: "@ + error_message(e)
                &&& final(fsm).ctx().metadata == old(fsm).ctx().metadata
                &&& if retries_exhausted(mid) {
                    &&& moved(mid, final(fsm).ctx(), StateEvent::DevicesReadFailure)
                    &&& match next_state(mid, StateEvent::DevicesReadFailure) {
                        Some(_) => r == Err::<HandlerStep, ModbusError>(e),
                        None => refused(r, mid.current_state, StateEvent::DevicesReadFailure),
                    }
                } else {
                    &&& moved(mid, final(fsm).ctx(), StateEvent::RecoverableError)
                    &&& answered(mid, StateEvent::RecoverableError, r, HandlerStep::Retry)
                }
            },
        },
{
    let ghost before = fsm.ctx();
    match outcome {
        Ok(()) => {
            let c = fsm.context_mut();
            c.devices_ready = true;
            c.clear_error();
            note_time(&mut c.metadata, "devices_read_at");
            proof {
                lemma_next_state_depends_on(
                    StateContext { devices_ready: true, last_error: None, ..before },
                    fsm.ctx(),
                    StateEvent::DevicesReadSuccess,
                );
            }
            drive(fsm, StateEvent::DevicesReadSuccess, HandlerStep::Done)
        },
        Err(e) => {
            let detail = e.message();
            let text = concat("Device read error: ", detail.as_str());
            let c = fsm.context_mut();
            c.increment_retry();
            c.set_error(text);
            let exhausted = c.is_max_retries_exceeded();
            let ghost mid = StateContext { retry_count: (before.retry_count + 1) as u32, ..before };
            if exhausted {
                proof {
                    lemma_next_state_depends_on(mid, fsm.ctx(), StateEvent::DevicesReadFailure);
                }
                match drive(fsm, StateEvent::DevicesReadFailure, ()) {
                    Ok(()) => Err(e),
                    Err(t) => Err(t),
                }
            } else {
                proof {
                    lemma_next_state_depends_on(mid, fsm.ctx(), StateEvent::RecoverableError);
                }
                drive(fsm, StateEvent::RecoverableError, HandlerStep::Retry)
            }
        },
    }
}

/// After reading the GPS: the readiness flag follows the outcome, a failure
/// is noted under `gps_error`, and either way the system moves on to testing
/// connections.
pub fn handle_read_gps(fsm: &mut SystemStateMachine, outcome: Result<(), ModbusError>) -> (r: Result<(), ModbusError>)
    requires
        old(fsm).wf(),
    ensures
        final(fsm).wf(),
        final(fsm).ctx().max_retries == old(fsm).ctx().max_retries,
        final(fsm).ctx().devices_ready == old(fsm).ctx().devices_ready,
        final(fsm).ctx().connection_ready == old(fsm).ctx().connection_ready,
        final(fsm).ctx().last_error == old(fsm).ctx().last_error,
        match outcome {
            Ok(_) => {
                let mid = StateContext { gps_ready: true, ..old(fsm).ctx() };
                &&& moved(mid, final(fsm).ctx(), StateEvent::GPSReadSuccess)
                &&& final(fsm).ctx().gps_ready
                &&& noted(old(fsm).ctx().metadata, final(fsm).ctx().metadata, "gps_read_at"@)
                &&& answered(mid, StateEvent::GPSReadSuccess, r, ())
            },
            Err(e) => {
                let mid = StateContext { gps_ready: false, ..old(fsm).ctx() };
                &&& moved(mid, final(fsm).ctx(), StateEvent::GPSReadFailure)
                &&& !final(fsm).ctx().gps_ready
                &&& final(fsm).ctx().metadata.spec_get("gps_error"@) == Some(error_message(e))
                &&& noted(old(fsm).ctx().metadata, final(fsm).ctx().metadata, "gps_error"@)
                &&& answered(mid, StateEvent::GPSReadFailure, r, ())
            },
        },
{
    let ghost before = fsm.ctx();
    match outcome {
        Ok(()) => {
            let c = fsm.context_mut();
            c.gps_ready = true;
            note_time(&mut c.metadata, "gps_read_at");
            proof {
                lemma_next_state_depends_on(StateContext { gps_ready: true, ..before }, fsm.ctx(), StateEvent::GPSReadSuccess);
            }
            drive(fsm, StateEvent::GPSReadSuccess, ())
        },
        Err(e) => {
            let c = fsm.context_mut();
            c.gps_ready = false;
            c.metadata.insert(owned("gps_error"), e.message());
            proof {
                lemma_next_state_depends_on(StateContext { gps_ready: false, ..before }, fsm.ctx(), StateEvent::GPSReadFailure);
            }
            drive(fsm, StateEvent::GPSReadFailure, ())
        },
    }
}

/// After testing connections (`database` is the database check's outcome):
/// on success, marks the connection ready, clears the error and the retries
/// and moves on to `OperationalReady`; on failure, records the error and
/// counts a retry, then gives up to `Error` once the retries are used up or
/// asks for another test.
pub fn handle_test_connection(fsm: &mut SystemStateMachine, database: Result<(), ModbusError>) -> (r: Result<
    HandlerStep,
    ModbusError,
>)
    requires
        old(fsm).wf(),
        old(fsm).ctx().retry_count < u32::MAX,
    ensures
        final(fsm).wf(),
        final(fsm).ctx().max_retries == old(fsm).ctx().max_retries,
        final(fsm).ctx().devices_ready == old(fsm).ctx().devices_ready,
        final(fsm).ctx().gps_ready == old(fsm).ctx().gps_ready,
        match database {
            Ok(_) => {
                let mid = StateContext {
                    connection_ready: true,
                    last_error: None,
                    retry_count: 0,
                    ..old(fsm).ctx()
                };
                &&& moved(mid, final(fsm).ctx(), StateEvent::ConnectionTestSuccess)
                &&& final(fsm).ctx().connection_ready
                &&& final(fsm).ctx().last_error is None
                &&& noted(old(fsm).ctx().metadata, final(fsm).ctx().metadata, "connection_tested_at"@)
                &&& answered(mid, StateEvent::ConnectionTestSuccess, r, HandlerStep::Done)
            },
            Err(e) => {
                let mid = StateContext { retry_count: (old(fsm).ctx().retry_count + 1) as u32, ..old(fsm).ctx() };
                &&& final(fsm).ctx().connection_ready == old(fsm).ctx().connection_ready
                &&& final(fsm).ctx().last_error matches Some(m) && m@ == "Database: "@ + error_message(e)
                &&& final(fsm).ctx().metadata == old(fsm).ctx().metadata
                &&& if retries_exhausted(mid) {
                    &&& moved(mid, final(fsm).ctx(), StateEvent::ConnectionTestFailure)
                    &&& match next_state(mid, StateEvent::ConnectionTestFailure) {
                        Some(_) => r matches Err(ModbusError::ServiceNotAvailable(m)) && m@
                            == "Connection test failed"@,
                        None => refused(r, mid.current_state, StateEvent::ConnectionTestFailure),
                    }
                } else {
                    &&& moved(mid, final(fsm).ctx(), StateEvent::RecoverableError)
                    &&& answered(mid, StateEvent::RecoverableError, r, HandlerStep::Retry)
                }
            },
        },
{
    let ghost before = fsm.ctx();
    match database {
        Ok(()) => {
            let c = fsm.context_mut();
            c.connection_ready = true;
            c.clear_error();
            c.reset_retries();
            note_time(&mut c.metadata, "connection_tested_at");
            proof {
                lemma_next_state_depends_on(
                    StateContext { connection_ready: true, last_error: None, retry_count: 0, ..before },
                    fsm.ctx(),
                    StateEvent::ConnectionTestSuccess,
                );
            }
            drive(fsm, StateEvent::ConnectionTestSuccess, HandlerStep::Done)
        },
        Err(e) => {
            let detail = e.message();
            let text = concat("Database: ", detail.as_str());
            let c = fsm.context_mut();
            c.increment_retry();
            c.set_error(text);
            let exhausted = c.is_max_retries_exceeded();
            let ghost mid = StateContext { retry_count: (before.retry_count + 1) as u32, ..before };
            if exhausted {
                proof {
                    lemma_next_state_depends_on(mid, fsm.ctx(), StateEvent::ConnectionTestFailure);
                }
                match drive(fsm, StateEvent::ConnectionTestFailure, ()) {
                    Ok(()) => Err(ModbusError::ServiceNotAvailable(owned("Connection test failed"))),
                    Err(t) => Err(t),
                }
            } else {
                proof {
                    lemma_next_state_depends_on(mid, fsm.ctx(), StateEvent::RecoverableError);
                }
                drive(fsm, StateEvent::RecoverableError, HandlerStep::Retry)
            }
        },
    }
}

/// In `OperationalReady`: notes the time and moves on to sending when data is
/// pending.
pub fn handle_operational_ready(fsm: &mut SystemStateMachine, has_data: bool) -> (r: Result<(), ModbusError>)
    requires
        old(fsm).wf(),
    ensures
        final(fsm).wf(),
        noted(old(fsm).ctx().metadata, final(fsm).ctx().metadata, "operational_since"@),
        final(fsm).ctx().max_retries == old(fsm).ctx().max_retries,
        final(fsm).ctx().devices_ready == old(fsm).ctx().devices_ready,
        final(fsm).ctx().gps_ready == old(fsm).ctx().gps_ready,
        final(fsm).ctx().connection_ready == old(fsm).ctx().connection_ready,
        final(fsm).ctx().last_error == old(fsm).ctx().last_error,
        if has_data {
            &&& moved(old(fsm).ctx(), final(fsm).ctx(), StateEvent::ReadyToSend)
            &&& answered(old(fsm).ctx(), StateEvent::ReadyToSend, r, ())
        } else {
            &&& r == Ok::<(), ModbusError>(())
            &&& final(fsm).ctx().current_state == old(fsm).ctx().current_state
            &&& final(fsm).ctx().previous_state == old(fsm).ctx().previous_state
            &&& final(fsm).ctx().retry_count == old(fsm).ctx().retry_count
            &&& final(fsm).ctx().last_transition == old(fsm).ctx().last_transition
        },
{
    let ghost before = fsm.ctx();
    let c = fsm.context_mut();
    note_time(&mut c.metadata, "operational_since");
    if has_data {
        proof {
            lemma_next_state_depends_on(before, fsm.ctx(), StateEvent::ReadyToSend);
        }
        drive(fsm, StateEvent::ReadyToSend, ())
    } else {
        Ok(())
    }
}

/// After sending data: a success is noted, a failure recorded as the last
/// error and noted under `last_send_error`; either way the system goes back
/// to `OperationalReady`.
pub fn handle_send_data(fsm: &mut SystemStateMachine, outcome: Result<(), ModbusError>) -> (r: Result<(), ModbusError>)
    requires
        old(fsm).wf(),
    ensures
        final(fsm).wf(),
        final(fsm).ctx().max_retries == old(fsm).ctx().max_retries,
        final(fsm).ctx().devices_ready == old(fsm).ctx().devices_ready,
        final(fsm).ctx().gps_ready == old(fsm).ctx().gps_ready,
        final(fsm).ctx().connection_ready == old(fsm).ctx().connection_ready,
        match outcome {
            Ok(_) => {
                &&& moved(old(fsm).ctx(), final(fsm).ctx(), StateEvent::DataSentSuccess)
                &&& final(fsm).ctx().last_error == old(fsm).ctx().last_error
                &&& noted(old(fsm).ctx().metadata, final(fsm).ctx().metadata, "last_send_at"@)
                &&& answered(old(fsm).ctx(), StateEvent::DataSentSuccess, r, ())
            },
            Err(e) => {
                &&& moved(old(fsm).ctx(), final(fsm).ctx(), StateEvent::DataSendFailure)
                &&& final(fsm).ctx().last_error matches Some(m) && m@ == "Data send error: "@ + error_message(e)
                &&& final(fsm).ctx().metadata.spec_get("last_send_error"@) == Some(error_message(e))
                &&& noted(old(fsm).ctx().metadata, final(fsm).ctx().metadata, "last_send_error"@)
                &&& answered(old(fsm).ctx(), StateEvent::DataSendFailure, r, ())
            },
        },
{
    let ghost before = fsm.ctx();
    match outcome {
        Ok(()) => {
            let c = fsm.context_mut();
            note_time(&mut c.metadata, "last_send_at");
            proof {
                lemma_next_state_depends_on(before, fsm.ctx(), StateEvent::DataSentSuccess);
            }
            drive(fsm, StateEvent::DataSentSuccess, ())
        },
        Err(e) => {
            let detail = e.message();
            let text = concat("Data send error: ", detail.as_str());
            let c = fsm.context_mut();
            c.set_error(text);
            c.metadata.insert(owned("last_send_error"), detail);
            proof {
                lemma_next_state_depends_on(before, fsm.ctx(), StateEvent::DataSendFailure);
            }
            drive(fsm, StateEvent::DataSendFailure, ())
        },
    }
}

/// In `Error`: while the devices have not been read, resets the retries and
/// goes back to reading them; otherwise shuts the system down and reports the
/// error as fatal.
pub fn handle_error_state(fsm: &mut SystemStateMachine) -> (r: Result<(), ModbusError>)
    requires
        old(fsm).wf(),
    ensures
        final(fsm).wf(),
        final(fsm).ctx().max_retries == old(fsm).ctx().max_retries,
        final(fsm).ctx().devices_ready == old(fsm).ctx().devices_ready,
        final(fsm).ctx().gps_ready == old(fsm).ctx().gps_ready,
        final(fsm).ctx().connection_ready == old(fsm).ctx().connection_ready,
        final(fsm).ctx().last_error == old(fsm).ctx().last_error,
        final(fsm).ctx().metadata == old(fsm).ctx().metadata,
        if !old(fsm).ctx().devices_ready {
            let mid = StateContext { retry_count: 0, ..old(fsm).ctx() };
            &&& moved(mid, final(fsm).ctx(), StateEvent::RecoverableError)
            &&& answered(mid, StateEvent::RecoverableError, r, ())
        } else {
            &&& moved(old(fsm).ctx(), final(fsm).ctx(), StateEvent::FatalError)
            &&& match next_state(old(fsm).ctx(), StateEvent::FatalError) {
                Some(_) => r matches Err(ModbusError::FatalError(m)) && m@ == "System in unrecoverable error state"@,
                None => refused(r, old(fsm).ctx().current_state, StateEvent::FatalError),
            }
        },
{
    let can_recover = !fsm.get_context().devices_ready;
    if can_recover {
        let c = fsm.context_mut();
        c.reset_retries();
        drive(fsm, StateEvent::RecoverableError, ())
    } else {
        match drive(fsm, StateEvent::FatalError, ()) {
            Ok(()) => Err(ModbusError::FatalError(owned("System in unrecoverable error state"))),
            Err(t) => Err(t),
        }
    }
}

/// After the shutdown work: notes when it finished.
pub fn handle_shutdown(fsm: &mut SystemStateMachine)
    requires
        old(fsm).wf(),
    ensures
        final(fsm).wf(),
        noted(old(fsm).ctx().metadata, final(fsm).ctx().metadata, "shutdown_at"@),
        same_state(old(fsm).ctx(), final(fsm).ctx()),
{
    let c = fsm.context_mut();
    note_time(&mut c.metadata, "shutdown_at");
}

/// All fields but the notes are unchanged.
pub open spec fn same_state(a: StateContext, b: StateContext) -> bool {
    &&& a.current_state == b.current_state
    &&& a.previous_state == b.previous_state
    &&& a.last_transition == b.last_transition
    &&& a.retry_count == b.retry_count
    &&& a.max_retries == b.max_retries
    &&& a.devices_ready == b.devices_ready
    &&& a.gps_ready == b.gps_ready
    &&& a.connection_ready == b.connection_ready
    &&& a.last_error == b.last_error
}

/// After a handler of state `state` failed with `e`: outside `Error`, records
/// the error and moves to `Error`, on `FatalError` when the error is fatal
/// (whose refusal is passed on) and on `RecoverableError` otherwise (whose
/// refusal is ignored).
pub fn record_handler_error(fsm: &mut SystemStateMachine, state: SystemState, e: &ModbusError) -> (r: Result<
    (),
    ModbusError,
>)
    requires
        old(fsm).wf(),
    ensures
        final(fsm).wf(),
        final(fsm).ctx().max_retries == old(fsm).ctx().max_retries,
        final(fsm).ctx().devices_ready == old(fsm).ctx().devices_ready,
        final(fsm).ctx().gps_ready == old(fsm).ctx().gps_ready,
        final(fsm).ctx().connection_ready == old(fsm).ctx().connection_ready,
        final(fsm).ctx().metadata == old(fsm).ctx().metadata,
        if state == SystemState::Error {
            &&& r == Ok::<(), ModbusError>(())
            &&& *final(fsm) == *old(fsm)
        } else {
            let mid = StateContext { last_error: final(fsm).ctx().last_error, ..old(fsm).ctx() };
            &&& final(fsm).ctx().last_error matches Some(m) && m@ == error_message(*e)
            &&& if e is FatalError {
                &&& moved(mid, final(fsm).ctx(), StateEvent::FatalError)
                &&& answered(mid, StateEvent::FatalError, r, ())
            } else {
                &&& moved(mid, final(fsm).ctx(), StateEvent::RecoverableError)
                &&& r == Ok::<(), ModbusError>(())
            }
        },
{
    if state == SystemState::Error {
        return Ok(());
    }
    let ghost before = fsm.ctx();
    let c = fsm.context_mut();
    c.set_error(e.message());
    let ghost mid = StateContext { last_error: fsm.ctx().last_error, ..before };
    match e {
        ModbusError::FatalError(_) => {
            proof {
                lemma_next_state_depends_on(mid, fsm.ctx(), StateEvent::FatalError);
            }
            drive(fsm, StateEvent::FatalError, ())
        },
        _ => {
            proof {
                lemma_next_state_depends_on(mid, fsm.ctx(), StateEvent::RecoverableError);
            }
            let _ = drive(fsm, StateEvent::RecoverableError, ());
            Ok(())
        },
    }
}

} // verus!

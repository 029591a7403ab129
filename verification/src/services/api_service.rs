//! The request and answer types of the HTTP interface, and the decisions its
//! handlers make about the telemetry service.
use vstd::prelude::*;

use crate::services::mtws::MtwsService;
use crate::text::owned;
use crate::utils::error::ModbusError;

verus! {

/// The direction of a flow measurement.
#[derive(Debug, Clone, Copy, PartialEq, Eq, Structural)]
pub enum FlowType {
    FlowIn,
    FlowOut,
}

/// A configuration request for the telemetry service.
#[derive(Debug)]
pub struct MtwsConfig {
    pub interval_seconds: u64,
    pub endpoint_url: String,
}

/// A request to send one report, optionally to another endpoint.
#[derive(Debug)]
pub struct SendMtwsPayloadRequest {
    pub endpoint_url: Option<String>,
}

/// The state of the telemetry service as the interface reports it.
#[derive(Debug, Clone)]
pub struct MtwsStatus {
    pub is_running: bool,
    pub interval_seconds: u64,
    pub endpoint_url: String,
    pub enabled: bool,
}

impl SendMtwsPayloadRequest {
    /// The endpoint a report goes to: the one requested, else the service's own.
    pub fn endpoint_for(&self, service: &MtwsService) -> (r: String)
        ensures
            r@ == (match self.endpoint_url {
                Some(u) => u@,
                None => service.spec_config().mtws.base_endpoint_url@ + "/"@
                    + service.spec_config().mtws.imei@,
            }),
    {
        match &self.endpoint_url {
            Some(u) => u.clone(),
            None => service.get_endpoint_url(),
        }
    }
}

/// The status of the telemetry service, or an error when the interface runs
/// without one.
pub fn get_mtws_status(service: Option<&MtwsService>) -> (r: Result<MtwsStatus, ModbusError>)
    ensures
        service is None ==> (r matches Err(ModbusError::ServiceNotAvailable(m)) && m@
            == "MTWS service not available"@),
        service matches Some(s) ==> (r matches Ok(st) && st.is_running == s.spec_running()
            && st.interval_seconds == s.spec_interval() && st.endpoint_url@
            == s.spec_config().mtws.base_endpoint_url@ + "/"@ + s.spec_config().mtws.imei@
            && st.enabled == s.spec_config().mtws.enabled),
{
    match service {
        Some(s) => {
            let (is_running, interval_seconds, endpoint_url, enabled) = s.get_status();
            Ok(MtwsStatus { is_running, interval_seconds, endpoint_url, enabled })
        },
        None => Err(ModbusError::ServiceNotAvailable(owned("MTWS service not available"))),
    }
}

} // verus!

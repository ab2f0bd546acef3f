//! The names under which requests, transitions and target states are
//! counted, and the port on which the counts are served.

use vstd::prelude::*;

verus! {

/// Counter of availability transitions.
pub const KEY_EVENTS: &'static str = "runner_events";

/// Counter of probes.
pub const KEY_REQUESTS: &'static str = "runner_requests";

/// Histogram of the time a probe took, in nanoseconds.
pub const KEY_REQUESTS_RESPONSE_TIME_NS: &'static str = "runner_requests_response_time_ns";

/// Gauge of a target's state.
pub const KEY_TARGET_STATUS: &'static str = "runner_target_status";

pub const LABEL_EVENTS_STATUS: &'static str = "status";

pub const LABEL_EVENTS_TARGET_NAME: &'static str = "target_name";

pub const LABEL_EVENTS_TARGET_URL: &'static str = "url";

pub const LABEL_TARGET_URLS: &'static str = "urls";

pub const VALUE_EVENT_STATUS_AVAILABLE: &'static str = "available";

pub const VALUE_EVENT_STATUS_UNAVAILABLE: &'static str = "unavailable";

pub const VALUE_EVENT_STATUS_AVAILABLE_TO_UNAVAILABLE: &'static str = "available_to_unavailable";

pub const VALUE_EVENT_STATUS_UNAVAILABLE_TO_AVAILABLE: &'static str = "unavailable_to_available";

pub const VALUE_EVENT_STATUS_SUCCESS: &'static str = "success";

pub const VALUE_EVENT_STATUS_FAILURE: &'static str = "failure";

/// The port on which metrics are served where none is asked for.
pub const DEFAULT_PORT: u16 = 8080;

/// The port on which to serve metrics: the one asked for, or
/// [`DEFAULT_PORT`].
pub fn listen_port(port: Option<u16>) -> (chosen: u16)
    ensures
        chosen == (match port {
            Some(asked) => asked,
            None => DEFAULT_PORT,
        }),
{
    match port {
        Some(asked) => asked,
        None => DEFAULT_PORT,
    }
}

} // verus!

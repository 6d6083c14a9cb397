//! Relay status that the Networking Utils plugin observed.

use crate::networking_types::{
    SteamworksNetworkingAvailability, SteamworksNetworkingAvailabilityError,
    SteamworksNetworkingAvailabilityResult,
};
use super::messages::{SteamworksNetworkingUtilsError, SteamworksNetworkingUtilsOperation};
use super::types::{
    availability_is_current, availability_is_pending, is_availability_current,
    is_availability_pending, SteamworksRelayNetworkStatus, SteamworksRelayNetworkStatusView,
};
use vstd::prelude::*;

verus! {

/// Runtime state of the Networking Utils plugin.
pub struct SteamworksNetworkingUtilsState {
    last_error: Option<SteamworksNetworkingUtilsError>,
    last_relay_network_availability: Option<SteamworksNetworkingAvailabilityResult>,
    last_relay_network_status: Option<SteamworksRelayNetworkStatus>,
    last_relay_ping_measurement_in_progress: Option<bool>,
    last_relay_network_config_availability: Option<SteamworksNetworkingAvailabilityResult>,
    last_any_relay_availability: Option<SteamworksNetworkingAvailabilityResult>,
    last_relay_debugging_message: Option<String>,
    relay_network_access_initialized: bool,
    relay_network_status_callback_count: u64,
}

/// Abstract value of the Networking Utils state.
pub struct SteamworksNetworkingUtilsStateView {
    pub last_error: Option<SteamworksNetworkingUtilsError>,
    pub last_relay_network_availability: Option<SteamworksNetworkingAvailabilityResult>,
    pub last_relay_network_status: Option<SteamworksRelayNetworkStatusView>,
    pub last_relay_ping_measurement_in_progress: Option<bool>,
    pub last_relay_network_config_availability: Option<SteamworksNetworkingAvailabilityResult>,
    pub last_any_relay_availability: Option<SteamworksNetworkingAvailabilityResult>,
    pub last_relay_debugging_message: Option<Seq<char>>,
    pub relay_network_access_initialized: bool,
    pub relay_network_status_callback_count: u64,
}

impl View for SteamworksNetworkingUtilsState {
    type V = SteamworksNetworkingUtilsStateView;

    closed spec fn view(&self) -> SteamworksNetworkingUtilsStateView {
        SteamworksNetworkingUtilsStateView {
            last_error: self.last_error,
            last_relay_network_availability: self.last_relay_network_availability,
            last_relay_network_status: match self.last_relay_network_status {
                Some(status) => Some(status@),
                None => None,
            },
            last_relay_ping_measurement_in_progress: self.last_relay_ping_measurement_in_progress,
            last_relay_network_config_availability: self.last_relay_network_config_availability,
            last_any_relay_availability: self.last_any_relay_availability,
            last_relay_debugging_message: match self.last_relay_debugging_message {
                Some(message) => Some(message@),
                None => None,
            },
            relay_network_access_initialized: self.relay_network_access_initialized,
            relay_network_status_callback_count: self.relay_network_status_callback_count,
        }
    }
}

/// `s` after recording a detailed relay status snapshot.
pub open spec fn relay_status_recorded(
    s: SteamworksNetworkingUtilsStateView,
    status: SteamworksRelayNetworkStatusView,
) -> SteamworksNetworkingUtilsStateView {
    SteamworksNetworkingUtilsStateView {
        last_relay_network_availability: Some(status.availability),
        last_relay_ping_measurement_in_progress: Some(status.ping_measurement_in_progress),
        last_relay_network_config_availability: Some(status.network_config),
        last_any_relay_availability: Some(status.any_relay),
        last_relay_debugging_message: Some(status.debugging_message),
        last_relay_network_status: Some(status),
        ..s
    }
}

/// The state after recording one successful operation.
pub open spec fn next_utils_state(
    s: SteamworksNetworkingUtilsStateView,
    op: SteamworksNetworkingUtilsOperation,
) -> SteamworksNetworkingUtilsStateView {
    match op {
        SteamworksNetworkingUtilsOperation::RelayNetworkAccessInitialized => {
            SteamworksNetworkingUtilsStateView { relay_network_access_initialized: true, ..s }
        },
        SteamworksNetworkingUtilsOperation::RelayNetworkStatusRead { availability } => {
            SteamworksNetworkingUtilsStateView {
                last_relay_network_availability: Some(availability),
                ..s
            }
        },
        SteamworksNetworkingUtilsOperation::DetailedRelayNetworkStatusRead { status } => {
            relay_status_recorded(s, status@)
        },
        SteamworksNetworkingUtilsOperation::RelayPingMeasurementStateRead { in_progress } => {
            SteamworksNetworkingUtilsStateView {
                last_relay_ping_measurement_in_progress: Some(in_progress),
                ..s
            }
        },
        SteamworksNetworkingUtilsOperation::RelayNetworkConfigStatusRead { availability } => {
            SteamworksNetworkingUtilsStateView {
                last_relay_network_config_availability: Some(availability),
                ..s
            }
        },
        SteamworksNetworkingUtilsOperation::AnyRelayStatusRead { availability } => {
            SteamworksNetworkingUtilsStateView { last_any_relay_availability: Some(availability), ..s }
        },
        SteamworksNetworkingUtilsOperation::RelayDebugMessageRead { message } => {
            SteamworksNetworkingUtilsStateView { last_relay_debugging_message: Some(message@), ..s }
        },
        SteamworksNetworkingUtilsOperation::RelayNetworkStatusChanged { status } => {
            SteamworksNetworkingUtilsStateView {
                relay_network_status_callback_count: if s.relay_network_status_callback_count
                    == u64::MAX {
                    u64::MAX
                } else {
                    (s.relay_network_status_callback_count + 1) as u64
                },
                ..relay_status_recorded(s, status@)
            }
        },
    }
}

/// The value of a recorded availability when it is `Ok`.
pub open spec fn availability_value(
    availability: Option<SteamworksNetworkingAvailabilityResult>,
) -> Option<SteamworksNetworkingAvailability> {
    match availability {
        Some(Ok(value)) => Some(value),
        _ => None,
    }
}

/// The error of a recorded availability when it is `Err`.
pub open spec fn availability_error(
    availability: Option<SteamworksNetworkingAvailabilityResult>,
) -> Option<SteamworksNetworkingAvailabilityError> {
    match availability {
        Some(Err(error)) => Some(error),
        _ => None,
    }
}

fn recorded_value(availability: &Option<SteamworksNetworkingAvailabilityResult>) -> (value: Option<
    SteamworksNetworkingAvailability,
>)
    ensures
        value == availability_value(*availability),
{
    match availability {
        Some(Ok(value)) => Some(*value),
        _ => None,
    }
}

fn recorded_error(availability: &Option<SteamworksNetworkingAvailabilityResult>) -> (error: Option<
    SteamworksNetworkingAvailabilityError,
>)
    ensures
        error == availability_error(*availability),
{
    match availability {
        Some(Err(error)) => Some(*error),
        _ => None,
    }
}

fn recorded_current(availability: &Option<SteamworksNetworkingAvailabilityResult>) -> (current: Option<
    bool,
>)
    ensures
        current == match *availability {
            Some(a) => Some(availability_is_current(a)),
            None => None,
        },
{
    match availability {
        Some(a) => Some(is_availability_current(a)),
        None => None,
    }
}

fn recorded_pending(availability: &Option<SteamworksNetworkingAvailabilityResult>) -> (pending: Option<
    bool,
>)
    ensures
        pending == match *availability {
            Some(a) => Some(availability_is_pending(a)),
            None => None,
        },
{
    match availability {
        Some(a) => Some(is_availability_pending(a)),
        None => None,
    }
}

fn recorded_unavailable(availability: &Option<SteamworksNetworkingAvailabilityResult>) -> (unavailable:
    Option<bool>)
    ensures
        unavailable == match *availability {
            Some(a) => Some(a is Err),
            None => None,
        },
{
    match availability {
        Some(a) => Some(a.is_err()),
        None => None,
    }
}

impl Default for SteamworksNetworkingUtilsState {
    /// An empty state: nothing observed.
    fn default() -> (state: Self)
        ensures
            state@ == (SteamworksNetworkingUtilsStateView {
                last_error: None,
                last_relay_network_availability: None,
                last_relay_network_status: None,
                last_relay_ping_measurement_in_progress: None,
                last_relay_network_config_availability: None,
                last_any_relay_availability: None,
                last_relay_debugging_message: None,
                relay_network_access_initialized: false,
                relay_network_status_callback_count: 0,
            }),
    {
        SteamworksNetworkingUtilsState {
            last_error: None,
            last_relay_network_availability: None,
            last_relay_network_status: None,
            last_relay_ping_measurement_in_progress: None,
            last_relay_network_config_availability: None,
            last_any_relay_availability: None,
            last_relay_debugging_message: None,
            relay_network_access_initialized: false,
            relay_network_status_callback_count: 0,
        }
    }
}

impl SteamworksNetworkingUtilsState {
    /// Records the error of a failed command.
    pub fn record_error(&mut self, error: SteamworksNetworkingUtilsError)
        ensures
            final(self)@ == (SteamworksNetworkingUtilsStateView { last_error: Some(error), ..old(self)@ }),
    {
        self.last_error = Some(error);
    }

    fn record_relay_status(&mut self, status: &SteamworksRelayNetworkStatus)
        ensures
            final(self)@ == relay_status_recorded(old(self)@, status@),
    {
        self.last_relay_network_availability = Some(status.availability);
        self.last_relay_ping_measurement_in_progress = Some(status.ping_measurement_in_progress);
        self.last_relay_network_config_availability = Some(status.network_config);
        self.last_any_relay_availability = Some(status.any_relay);
        self.last_relay_debugging_message = Some(status.debugging_message.clone());
        self.last_relay_network_status = Some(status.snapshot());
    }

    /// Records one successful operation.
    pub fn record_operation(&mut self, operation: &SteamworksNetworkingUtilsOperation)
        ensures
            final(self)@ == next_utils_state(old(self)@, *operation),
    {
        match operation {
            SteamworksNetworkingUtilsOperation::RelayNetworkAccessInitialized => {
                self.relay_network_access_initialized = true;
            },
            SteamworksNetworkingUtilsOperation::RelayNetworkStatusRead { availability } => {
                self.last_relay_network_availability = Some(*availability);
            },
            SteamworksNetworkingUtilsOperation::DetailedRelayNetworkStatusRead { status } => {
                self.record_relay_status(status);
            },
            SteamworksNetworkingUtilsOperation::RelayPingMeasurementStateRead { in_progress } => {
                self.last_relay_ping_measurement_in_progress = Some(*in_progress);
            },
            SteamworksNetworkingUtilsOperation::RelayNetworkConfigStatusRead { availability } => {
                self.last_relay_network_config_availability = Some(*availability);
            },
            SteamworksNetworkingUtilsOperation::AnyRelayStatusRead { availability } => {
                self.last_any_relay_availability = Some(*availability);
            },
            SteamworksNetworkingUtilsOperation::RelayDebugMessageRead { message } => {
                self.last_relay_debugging_message = Some(message.clone());
            },
            SteamworksNetworkingUtilsOperation::RelayNetworkStatusChanged { status } => {
                self.record_relay_status(status);
                self.relay_network_status_callback_count = self.relay_network_status_callback_count.saturating_add(1);
            },
        }
    }

    /// Returns the most recent synchronous command error.
    pub fn last_error(&self) -> (error: Option<&SteamworksNetworkingUtilsError>)
        ensures
            match error {
                Some(e) => self@.last_error == Some(*e),
                None => self@.last_error is None,
            },
    {
        self.last_error.as_ref()
    }

    /// Returns the most recent relay network availability.
    pub fn last_relay_network_availability(&self) -> (availability: Option<&SteamworksNetworkingAvailabilityResult>)
        ensures
            match availability {
                Some(a) => self@.last_relay_network_availability == Some(*a),
                None => self@.last_relay_network_availability is None,
            },
    {
        self.last_relay_network_availability.as_ref()
    }

    /// Returns the most recent successful summary relay availability value.
    pub fn relay_network_availability(&self) -> (value: Option<SteamworksNetworkingAvailability>)
        ensures
            value == availability_value(self@.last_relay_network_availability),
    {
        recorded_value(&self.last_relay_network_availability)
    }

    /// Returns the most recent summary relay availability error.
    pub fn relay_network_availability_error(&self) -> (error: Option<SteamworksNetworkingAvailabilityError>)
        ensures
            error == availability_error(self@.last_relay_network_availability),
    {
        recorded_error(&self.last_relay_network_availability)
    }

    /// Returns whether the most recent summary relay availability is current.
    pub fn relay_network_available(&self) -> (available: Option<bool>)
        ensures
            available == match self@.last_relay_network_availability {
                Some(a) => Some(availability_is_current(a)),
                None => None,
            },
    {
        recorded_current(&self.last_relay_network_availability)
    }

    /// Returns whether the most recent summary relay availability is still pending.
    pub fn relay_network_pending(&self) -> (pending: Option<bool>)
        ensures
            pending == match self@.last_relay_network_availability {
                Some(a) => Some(availability_is_pending(a)),
                None => None,
            },
    {
        recorded_pending(&self.last_relay_network_availability)
    }

    /// Returns whether the most recent summary relay availability reported an error.
    pub fn relay_network_unavailable(&self) -> (unavailable: Option<bool>)
        ensures
            unavailable == match self@.last_relay_network_availability {
                Some(a) => Some(a is Err),
                None => None,
            },
    {
        recorded_unavailable(&self.last_relay_network_availability)
    }

    /// Returns the most recent detailed relay network status snapshot.
    pub fn last_relay_network_status(&self) -> (status: Option<&SteamworksRelayNetworkStatus>)
        ensures
            match status {
                Some(s) => self@.last_relay_network_status == Some(s@),
                None => self@.last_relay_network_status is None,
            },
    {
        self.last_relay_network_status.as_ref()
    }

    /// Returns the most recent relay ping-measurement state.
    pub fn relay_ping_measurement_in_progress(&self) -> (in_progress: Option<bool>)
        ensures
            in_progress == self@.last_relay_ping_measurement_in_progress,
    {
        self.last_relay_ping_measurement_in_progress
    }

    /// Returns the most recent relay network-config prerequisite availability.
    pub fn last_relay_network_config_availability(&self) -> (availability: Option<&SteamworksNetworkingAvailabilityResult>)
        ensures
            match availability {
                Some(a) => self@.last_relay_network_config_availability == Some(*a),
                None => self@.last_relay_network_config_availability is None,
            },
    {
        self.last_relay_network_config_availability.as_ref()
    }

    /// Returns the most recent successful network-config availability value.
    pub fn relay_network_config_availability(&self) -> (value: Option<SteamworksNetworkingAvailability>)
        ensures
            value == availability_value(self@.last_relay_network_config_availability),
    {
        recorded_value(&self.last_relay_network_config_availability)
    }

    /// Returns the most recent network-config availability error.
    pub fn relay_network_config_availability_error(&self) -> (error: Option<SteamworksNetworkingAvailabilityError>)
        ensures
            error == availability_error(self@.last_relay_network_config_availability),
    {
        recorded_error(&self.last_relay_network_config_availability)
    }

    /// Returns whether the most recent network-config availability is current.
    pub fn relay_network_config_available(&self) -> (available: Option<bool>)
        ensures
            available == match self@.last_relay_network_config_availability {
                Some(a) => Some(availability_is_current(a)),
                None => None,
            },
    {
        recorded_current(&self.last_relay_network_config_availability)
    }

    /// Returns whether the most recent network-config availability is still pending.
    pub fn relay_network_config_pending(&self) -> (pending: Option<bool>)
        ensures
            pending == match self@.last_relay_network_config_availability {
                Some(a) => Some(availability_is_pending(a)),
                None => None,
            },
    {
        recorded_pending(&self.last_relay_network_config_availability)
    }

    /// Returns whether the most recent network-config availability reported an error.
    pub fn relay_network_config_unavailable(&self) -> (unavailable: Option<bool>)
        ensures
            unavailable == match self@.last_relay_network_config_availability {
                Some(a) => Some(a is Err),
                None => None,
            },
    {
        recorded_unavailable(&self.last_relay_network_config_availability)
    }

    /// Returns the most recent any-relay availability.
    pub fn last_any_relay_availability(&self) -> (availability: Option<&SteamworksNetworkingAvailabilityResult>)
        ensures
            match availability {
                Some(a) => self@.last_any_relay_availability == Some(*a),
                None => self@.last_any_relay_availability is None,
            },
    {
        self.last_any_relay_availability.as_ref()
    }

    /// Returns the most recent successful any-relay availability value.
    pub fn any_relay_availability(&self) -> (value: Option<SteamworksNetworkingAvailability>)
        ensures
            value == availability_value(self@.last_any_relay_availability),
    {
        recorded_value(&self.last_any_relay_availability)
    }

    /// Returns the most recent any-relay availability error.
    pub fn any_relay_availability_error(&self) -> (error: Option<SteamworksNetworkingAvailabilityError>)
        ensures
            error == availability_error(self@.last_any_relay_availability),
    {
        recorded_error(&self.last_any_relay_availability)
    }

    /// Returns whether the most recent any-relay availability is current.
    pub fn any_relay_available(&self) -> (available: Option<bool>)
        ensures
            available == match self@.last_any_relay_availability {
                Some(a) => Some(availability_is_current(a)),
                None => None,
            },
    {
        recorded_current(&self.last_any_relay_availability)
    }

    /// Returns whether the most recent any-relay availability is still pending.
    pub fn any_relay_pending(&self) -> (pending: Option<bool>)
        ensures
            pending == match self@.last_any_relay_availability {
                Some(a) => Some(availability_is_pending(a)),
                None => None,
            },
    {
        recorded_pending(&self.last_any_relay_availability)
    }

    /// Returns whether the most recent any-relay availability reported an error.
    pub fn any_relay_unavailable(&self) -> (unavailable: Option<bool>)
        ensures
            unavailable == match self@.last_any_relay_availability {
                Some(a) => Some(a is Err),
                None => None,
            },
    {
        recorded_unavailable(&self.last_any_relay_availability)
    }

    /// Returns the most recent relay diagnostic debug message.
    pub fn last_relay_debugging_message(&self) -> (message: Option<&str>)
        ensures
            match message {
                Some(m) => self@.last_relay_debugging_message == Some(m@),
                None => self@.last_relay_debugging_message is None,
            },
    {
        match &self.last_relay_debugging_message {
            Some(message) => Some(message.as_str()),
            None => None,
        }
    }

    /// Returns whether relay network access was initialized through this plugin.
    pub fn relay_network_access_initialized(&self) -> (initialized: bool)
        ensures
            initialized == self@.relay_network_access_initialized,
    {
        self.relay_network_access_initialized
    }

    /// Returns how many relay network status callbacks this plugin has observed.
    pub fn relay_network_status_callback_count(&self) -> (count: u64)
        ensures
            count == self@.relay_network_status_callback_count,
    {
        self.relay_network_status_callback_count
    }
}

/// Recording a detailed relay status read refreshes every per-field reading
/// from the snapshot read, keeps the snapshot itself, and leaves the rest of
/// the state as it was: the same as a status-change callback, apart from
/// the callback count.
pub proof fn lemma_detailed_status_read_refreshes_every_reading(
    s: SteamworksNetworkingUtilsStateView,
    status: SteamworksRelayNetworkStatus,
)
    ensures
        ({
            let after = next_utils_state(s, SteamworksNetworkingUtilsOperation::DetailedRelayNetworkStatusRead { status });
            &&& after.last_relay_network_availability == Some(status.availability)
            &&& after.last_relay_ping_measurement_in_progress == Some(status.ping_measurement_in_progress)
            &&& after.last_relay_network_config_availability == Some(status.network_config)
            &&& after.last_any_relay_availability == Some(status.any_relay)
            &&& after.last_relay_debugging_message == Some(status.debugging_message@)
            &&& after.last_relay_network_status == Some(status@)
            &&& after.last_error == s.last_error
            &&& after.relay_network_access_initialized == s.relay_network_access_initialized
            &&& after.relay_network_status_callback_count == s.relay_network_status_callback_count
            &&& after == (SteamworksNetworkingUtilsStateView {
                relay_network_status_callback_count: s.relay_network_status_callback_count,
                ..next_utils_state(s, SteamworksNetworkingUtilsOperation::RelayNetworkStatusChanged { status })
            })
        }),
{
}

} // verus!

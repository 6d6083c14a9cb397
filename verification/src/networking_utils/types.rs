//! Owned relay network status snapshots.

use crate::networking_types::{
    SteamworksNetworkingAvailability, SteamworksNetworkingAvailabilityError,
    SteamworksNetworkingAvailabilityResult,
};
use vstd::prelude::*;

verus! {

/// Whether an availability is `Ok(Current)`.
pub open spec fn availability_is_current(availability: SteamworksNetworkingAvailabilityResult) -> bool {
    availability == Ok::<SteamworksNetworkingAvailability, SteamworksNetworkingAvailabilityError>(
        SteamworksNetworkingAvailability::Current,
    )
}

/// Whether an availability is still being acquired: waiting, attempting or
/// retrying.
pub open spec fn availability_is_pending(availability: SteamworksNetworkingAvailabilityResult) -> bool {
    match availability {
        Ok(SteamworksNetworkingAvailability::Waiting) => true,
        Ok(SteamworksNetworkingAvailability::Attempting) => true,
        Err(SteamworksNetworkingAvailabilityError::Retrying) => true,
        _ => false,
    }
}

/// Checks whether an availability is `Ok(Current)`.
pub fn is_availability_current(availability: &SteamworksNetworkingAvailabilityResult) -> (current: bool)
    ensures
        current == availability_is_current(*availability),
{
    match availability {
        Ok(SteamworksNetworkingAvailability::Current) => true,
        _ => false,
    }
}

/// Checks whether an availability is still being acquired.
pub fn is_availability_pending(availability: &SteamworksNetworkingAvailabilityResult) -> (pending: bool)
    ensures
        pending == availability_is_pending(*availability),
{
    match availability {
        Ok(SteamworksNetworkingAvailability::Waiting) => true,
        Ok(SteamworksNetworkingAvailability::Attempting) => true,
        Err(SteamworksNetworkingAvailabilityError::Retrying) => true,
        _ => false,
    }
}

/// Owned snapshot of Steam relay network status.
#[derive(Clone, Debug, PartialEq, Eq)]
pub struct SteamworksRelayNetworkStatus {
    /// Summary status. `Ok(Current)` means relay initialization is complete.
    pub availability: SteamworksNetworkingAvailabilityResult,
    /// Whether Steam is currently measuring relay latency.
    pub ping_measurement_in_progress: bool,
    /// Availability of the network config prerequisite.
    pub network_config: SteamworksNetworkingAvailabilityResult,
    /// Availability of at least one Steam Datagram Relay.
    pub any_relay: SteamworksNetworkingAvailabilityResult,
    /// Non-localized diagnostic text from Steam.
    pub debugging_message: String,
}

/// Abstract value of a relay network status snapshot.
pub struct SteamworksRelayNetworkStatusView {
    /// Summary status.
    pub availability: SteamworksNetworkingAvailabilityResult,
    /// Whether Steam is currently measuring relay latency.
    pub ping_measurement_in_progress: bool,
    /// Availability of the network config prerequisite.
    pub network_config: SteamworksNetworkingAvailabilityResult,
    /// Availability of at least one Steam Datagram Relay.
    pub any_relay: SteamworksNetworkingAvailabilityResult,
    /// Non-localized diagnostic text from Steam.
    pub debugging_message: Seq<char>,
}

impl View for SteamworksRelayNetworkStatus {
    type V = SteamworksRelayNetworkStatusView;

    open spec fn view(&self) -> SteamworksRelayNetworkStatusView {
        SteamworksRelayNetworkStatusView {
            availability: self.availability,
            ping_measurement_in_progress: self.ping_measurement_in_progress,
            network_config: self.network_config,
            any_relay: self.any_relay,
            debugging_message: self.debugging_message@,
        }
    }
}

impl SteamworksRelayNetworkStatus {
    /// Returns an identical copy of this snapshot.
    pub fn snapshot(&self) -> (copy: Self)
        ensures
            copy@ == self@,
    {
        SteamworksRelayNetworkStatus {
            availability: self.availability,
            ping_measurement_in_progress: self.ping_measurement_in_progress,
            network_config: self.network_config,
            any_relay: self.any_relay,
            debugging_message: self.debugging_message.clone(),
        }
    }

    /// Returns whether the summary relay status is current and usable.
    pub fn relay_network_available(&self) -> (available: bool)
        ensures
            available == availability_is_current(self.availability),
    {
        is_availability_current(&self.availability)
    }

    /// Returns whether the summary relay status is still being acquired.
    pub fn relay_network_pending(&self) -> (pending: bool)
        ensures
            pending == availability_is_pending(self.availability),
    {
        is_availability_pending(&self.availability)
    }

    /// Returns whether the summary relay status currently reports an error.
    pub fn relay_network_unavailable(&self) -> (unavailable: bool)
        ensures
            unavailable == self.availability is Err,
    {
        self.availability.is_err()
    }

    /// Returns whether the relay network-config prerequisite is current.
    pub fn network_config_available(&self) -> (available: bool)
        ensures
            available == availability_is_current(self.network_config),
    {
        is_availability_current(&self.network_config)
    }

    /// Returns whether at least one Steam Datagram Relay is current.
    pub fn any_relay_available(&self) -> (available: bool)
        ensures
            available == availability_is_current(self.any_relay),
    {
        is_availability_current(&self.any_relay)
    }
}

} // verus!

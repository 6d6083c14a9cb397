//! Commands, errors, operations and results of the Networking Utils plugin.

use super::types::SteamworksRelayNetworkStatus;
use crate::networking_types::SteamworksNetworkingAvailabilityResult;
use vstd::prelude::*;

verus! {

/// A high-level command for Steam Networking Utils relay diagnostics.
#[derive(Clone, Copy, Debug, PartialEq, Eq, Structural)]
pub enum SteamworksNetworkingUtilsCommand {
    /// Initialize Steam Datagram Relay network access early.
    InitRelayNetworkAccess,
    /// Read the summary relay network availability.
    GetRelayNetworkStatus,
    /// Read the detailed relay network status snapshot.
    GetDetailedRelayNetworkStatus,
    /// Read whether Steam is currently measuring relay latency.
    IsRelayPingMeasurementInProgress,
    /// Read the relay network-config prerequisite availability.
    GetRelayNetworkConfigStatus,
    /// Read whether any Steam Datagram Relay can be reached.
    GetAnyRelayStatus,
    /// Read Steam's non-localized relay diagnostic message.
    GetRelayDebugMessage,
}

impl SteamworksNetworkingUtilsCommand {
    /// Creates an `InitRelayNetworkAccess` command.
    pub fn init_relay_network_access() -> (command: Self)
        ensures
            command == SteamworksNetworkingUtilsCommand::InitRelayNetworkAccess,
    {
        SteamworksNetworkingUtilsCommand::InitRelayNetworkAccess
    }

    /// Creates a `GetRelayNetworkStatus` command.
    pub fn get_relay_network_status() -> (command: Self)
        ensures
            command == SteamworksNetworkingUtilsCommand::GetRelayNetworkStatus,
    {
        SteamworksNetworkingUtilsCommand::GetRelayNetworkStatus
    }

    /// Creates a `GetDetailedRelayNetworkStatus` command.
    pub fn get_detailed_relay_network_status() -> (command: Self)
        ensures
            command == SteamworksNetworkingUtilsCommand::GetDetailedRelayNetworkStatus,
    {
        SteamworksNetworkingUtilsCommand::GetDetailedRelayNetworkStatus
    }

    /// Creates an `IsRelayPingMeasurementInProgress` command.
    pub fn is_relay_ping_measurement_in_progress() -> (command: Self)
        ensures
            command == SteamworksNetworkingUtilsCommand::IsRelayPingMeasurementInProgress,
    {
        SteamworksNetworkingUtilsCommand::IsRelayPingMeasurementInProgress
    }

    /// Creates a `GetRelayNetworkConfigStatus` command.
    pub fn get_relay_network_config_status() -> (command: Self)
        ensures
            command == SteamworksNetworkingUtilsCommand::GetRelayNetworkConfigStatus,
    {
        SteamworksNetworkingUtilsCommand::GetRelayNetworkConfigStatus
    }

    /// Creates a `GetAnyRelayStatus` command.
    pub fn get_any_relay_status() -> (command: Self)
        ensures
            command == SteamworksNetworkingUtilsCommand::GetAnyRelayStatus,
    {
        SteamworksNetworkingUtilsCommand::GetAnyRelayStatus
    }

    /// Creates a `GetRelayDebugMessage` command.
    pub fn get_relay_debug_message() -> (command: Self)
        ensures
            command == SteamworksNetworkingUtilsCommand::GetRelayDebugMessage,
    {
        SteamworksNetworkingUtilsCommand::GetRelayDebugMessage
    }
}

/// Synchronous errors from the Networking Utils plugin.
#[derive(Clone, Copy, Debug, PartialEq, Eq, Structural)]
pub enum SteamworksNetworkingUtilsError {
    /// No Steam client resource exists.
    ClientUnavailable,
}

impl SteamworksNetworkingUtilsError {
    /// Human-readable description of the error.
    pub fn message(&self) -> (text: &'static str)
        ensures
            text@ == "SteamworksClient resource is not available"@,
    {
        proof {
            reveal_strlit("SteamworksClient resource is not available");
        }
        match self {
            SteamworksNetworkingUtilsError::ClientUnavailable => "SteamworksClient resource is not available",
        }
    }
}

/// Checks a Networking Utils command; every current command is valid.
pub fn validate_command(command: &SteamworksNetworkingUtilsCommand) -> (result: Result<(), SteamworksNetworkingUtilsError>)
    ensures
        result == Ok::<(), SteamworksNetworkingUtilsError>(()),
{
    Ok(())
}

/// Whether a Networking Utils command can be carried out: it needs the Steam
/// client.
pub open spec fn networking_utils_command_check(client_available: bool) -> Result<(), SteamworksNetworkingUtilsError> {
    if client_available {
        Ok(())
    } else {
        Err(SteamworksNetworkingUtilsError::ClientUnavailable)
    }
}

impl SteamworksNetworkingUtilsCommand {
    /// Decides whether this command can be carried out now.
    pub fn check_ready(&self, client_available: bool) -> (result: Result<(), SteamworksNetworkingUtilsError>)
        ensures
            result == networking_utils_command_check(client_available),
    {
        match validate_command(self) {
            Err(e) => Err(e),
            Ok(()) => if client_available {
                Ok(())
            } else {
                Err(SteamworksNetworkingUtilsError::ClientUnavailable)
            },
        }
    }
}

/// A successfully submitted Steam Networking Utils operation or synchronous read.
#[derive(Clone, Debug, PartialEq, Eq)]
pub enum SteamworksNetworkingUtilsOperation {
    /// Relay network access initialization was submitted to Steam.
    RelayNetworkAccessInitialized,
    /// Summary relay network availability was read.
    RelayNetworkStatusRead {
        /// Current relay network availability.
        availability: SteamworksNetworkingAvailabilityResult,
    },
    /// Detailed relay network status was read.
    DetailedRelayNetworkStatusRead {
        /// Owned relay network status snapshot.
        status: SteamworksRelayNetworkStatus,
    },
    /// Relay ping measurement state was read.
    RelayPingMeasurementStateRead {
        /// Whether Steam is currently measuring relay latency.
        in_progress: bool,
    },
    /// Relay network-config prerequisite availability was read.
    RelayNetworkConfigStatusRead {
        /// Network-config prerequisite availability.
        availability: SteamworksNetworkingAvailabilityResult,
    },
    /// Any-relay availability was read.
    AnyRelayStatusRead {
        /// Availability of at least one Steam Datagram Relay.
        availability: SteamworksNetworkingAvailabilityResult,
    },
    /// Relay diagnostic debug message was read.
    RelayDebugMessageRead {
        /// Non-localized diagnostic text from Steam.
        message: String,
    },
    /// A relay network status callback was observed after Steam callbacks were pumped.
    RelayNetworkStatusChanged {
        /// Owned relay network status snapshot read when the callback was observed.
        status: SteamworksRelayNetworkStatus,
    },
}

/// Result message emitted by the Networking Utils plugin.
#[derive(Clone, Debug, PartialEq, Eq)]
pub enum SteamworksNetworkingUtilsResult {
    /// The command was submitted to Steamworks or a value was read.
    Succeeded(SteamworksNetworkingUtilsOperation),
    /// The command failed synchronously.
    Failed {
        /// Command that failed.
        command: SteamworksNetworkingUtilsCommand,
        /// Failure reason.
        error: SteamworksNetworkingUtilsError,
    },
}

} // verus!

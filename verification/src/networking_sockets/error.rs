//! Synchronous command errors of the Networking Sockets plugin.

use crate::networking_types::{SteamworksNetworkingConfigDataType, SteamworksSteamError};
use super::identifiers::{
    SteamworksListenSocketId, SteamworksNetworkingSocketsConnectionId,
    SteamworksNetworkingSocketsPollGroupId,
};
use vstd::prelude::*;

verus! {

/// Synchronous command errors from the Networking Sockets plugin.
#[derive(Clone, Debug, PartialEq, Eq)]
pub enum SteamworksNetworkingSocketsError {
    /// No compatible client or server resource exists.
    ///
    /// Batch sends still require a client because Steam's safe message
    /// allocator is client-only.
    ClientUnavailable,
    /// A command requires a game server resource and none exists.
    ServerUnavailable,
    /// A listen socket ID is not owned by this plugin.
    ListenSocketNotFound {
        /// Missing listen socket ID.
        id: SteamworksListenSocketId,
    },
    /// A connection ID is not owned by this plugin.
    ConnectionNotFound {
        /// Missing connection ID.
        id: SteamworksNetworkingSocketsConnectionId,
    },
    /// A poll group ID is not owned by this plugin.
    PollGroupNotFound {
        /// Missing poll group ID.
        id: SteamworksNetworkingSocketsPollGroupId,
    },
    /// A connection and a poll group belong to different Steam interfaces.
    HandleOwnerMismatch {
        /// Connection to assign.
        connection: SteamworksNetworkingSocketsConnectionId,
        /// Poll group it was to be assigned to.
        poll_group: SteamworksNetworkingSocketsPollGroupId,
    },
    /// A max-events value was zero.
    InvalidEventLimit,
    /// A max-events value exceeded the per-command cap.
    TooManyEvents {
        /// Requested event count.
        requested: usize,
        /// Maximum accepted event count.
        max_supported: usize,
    },
    /// A message receive batch size was zero.
    InvalidBatchSize,
    /// A message receive batch size exceeded the per-command cap.
    BatchSizeTooLarge {
        /// Requested batch size.
        requested: usize,
        /// Maximum accepted batch size.
        max_supported: usize,
    },
    /// A send-message batch was empty.
    EmptyMessageBatch,
    /// A send-message batch exceeded the per-command cap.
    SendBatchTooLarge {
        /// Requested batch size.
        requested: usize,
        /// Maximum accepted batch size.
        max_supported: usize,
    },
    /// A message payload exceeded the per-message cap.
    MessageTooLarge {
        /// Requested payload size.
        bytes: usize,
        /// Maximum accepted payload size.
        max_supported: usize,
    },
    /// A message lane/channel was negative.
    InvalidMessageChannel {
        /// Invalid message channel.
        channel: i32,
    },
    /// A realtime lane count exceeded the per-command cap.
    InvalidLaneCount {
        /// Invalid lane count.
        lanes: u32,
        /// Maximum accepted lane count.
        max_supported: u32,
    },
    /// A lane configuration has mismatched priority and weight lengths or no lanes.
    InvalidLaneConfiguration {
        /// Number of priority entries.
        priorities: usize,
        /// Number of weight entries.
        weights: usize,
    },
    /// A lane configuration exceeded the per-command cap.
    TooManyConfiguredLanes {
        /// Requested lane count.
        requested: usize,
        /// Maximum accepted lane count.
        max_supported: usize,
    },
    /// Too many initial config entries were supplied.
    TooManyConfigEntries {
        /// Requested entry count.
        requested: usize,
        /// Maximum accepted entry count.
        max_supported: usize,
    },
    /// A config entry's data type does not match its key.
    InvalidConfigEntryType {
        /// Position of the entry.
        index: usize,
        /// Data type the key expects.
        expected: SteamworksNetworkingConfigDataType,
        /// Data type the entry holds.
        actual: SteamworksNetworkingConfigDataType,
    },
    /// A floating-point config entry is not finite.
    InvalidConfigFloat {
        /// Position of the entry.
        index: usize,
    },
    /// A string config entry contains an interior NUL byte.
    InvalidConfigString {
        /// Position of the entry.
        index: usize,
    },
    /// A virtual port was negative.
    InvalidVirtualPort {
        /// Invalid virtual port.
        port: i32,
    },
    /// A string passed to Steam contains an interior NUL byte.
    InvalidString {
        /// Field that contained the invalid string.
        field: &'static str,
    },
    /// Steam returned an invalid handle.
    InvalidHandle {
        /// Operation that failed.
        operation: &'static str,
    },
    /// Steam returned an operation error.
    SteamError {
        /// Operation that failed.
        operation: &'static str,
        /// Error returned by Steam.
        source: SteamworksSteamError,
    },
    /// Steam's message allocation wrapper rejected a payload buffer.
    MessageError {
        /// Operation that failed.
        operation: &'static str,
        /// Error text returned by the message wrapper.
        message: String,
    },
    /// Steam returned `false` for a boolean operation.
    OperationFailed {
        /// Operation that failed.
        operation: &'static str,
    },
}

} // verus!

//! Successful outcomes of Networking Sockets commands and polls, and the
//! result message that carries them.

use crate::networking_types::SteamworksNetworkingAvailabilityResult;
use super::command::SteamworksNetworkingSocketsCommand;
use super::error::SteamworksNetworkingSocketsError;
use super::identifiers::{
    SteamworksListenSocketId, SteamworksNetworkingSocketsConnectionId,
    SteamworksNetworkingSocketsPollGroupId,
};
use super::snapshots::{
    SteamworksNetworkingSocketsConnectionClosed, SteamworksNetworkingSocketsConnectionInfo,
    SteamworksNetworkingSocketsConnectionMessages, SteamworksNetworkingSocketsListenSocketClosed,
    SteamworksNetworkingSocketsMessage, SteamworksNetworkingSocketsMessageSendResult,
    SteamworksNetworkingSocketsPollGroupMessage, SteamworksNetworkingSocketsPollGroupMessages,
    SteamworksNetworkingSocketsRealtimeStatus,
};
use super::types::{
    SteamworksListenSocketEventInfo, SteamworksNetworkingSocketsConnectionEventInfo,
    SteamworksNetworkingSocketsConnectionEvents, SteamworksNetworkingSocketsConnectionTarget,
    SteamworksNetworkingSocketsListenEndpoint, SteamworksNetworkingSocketsListenSocketEvents,
};
use vstd::prelude::*;

verus! {

/// A successfully submitted Networking Sockets operation, read, or event.
#[derive(Clone, PartialEq, Eq)]
pub enum SteamworksNetworkingSocketsOperation {
    /// Authentication initialization was submitted.
    AuthenticationInitialized {
        /// Current authentication availability.
        availability: SteamworksNetworkingAvailabilityResult,
    },
    /// Authentication status was read.
    AuthenticationStatusRead {
        /// Current authentication availability.
        availability: SteamworksNetworkingAvailabilityResult,
    },
    /// A listen socket was created.
    ListenSocketCreated {
        /// New plugin-owned listen socket ID.
        listen_socket: SteamworksListenSocketId,
        /// Bound local address or virtual-port descriptor.
        endpoint: SteamworksNetworkingSocketsListenEndpoint,
    },
    /// A connection was created.
    ConnectionCreated {
        /// New plugin-owned connection ID.
        connection: SteamworksNetworkingSocketsConnectionId,
        /// Connection target.
        target: SteamworksNetworkingSocketsConnectionTarget,
    },
    /// A poll group was created.
    PollGroupCreated {
        /// New plugin-owned poll group ID.
        poll_group: SteamworksNetworkingSocketsPollGroupId,
    },
    /// Listen socket events were processed.
    ListenSocketEventsPolled {
        /// Listen socket that was polled.
        listen_socket: SteamworksListenSocketId,
        /// Events observed.
        events: Vec<SteamworksListenSocketEventInfo>,
    },
    /// Every plugin-owned listen socket was polled.
    AllListenSocketEventsPolled {
        /// One event batch per listen socket, in ID order.
        listen_sockets: Vec<SteamworksNetworkingSocketsListenSocketEvents>,
    },
    /// Connection events were processed.
    ConnectionEventsPolled {
        /// Connection that was polled.
        connection: SteamworksNetworkingSocketsConnectionId,
        /// Events observed.
        events: Vec<SteamworksNetworkingSocketsConnectionEventInfo>,
        /// Whether a terminal event caused the plugin to remove this connection.
        connection_removed: bool,
    },
    /// Every plugin-owned connection was polled.
    AllConnectionEventsPolled {
        /// One event batch per connection, in ID order.
        connections: Vec<SteamworksNetworkingSocketsConnectionEvents>,
    },
    /// Connection info was read.
    ConnectionInfoRead {
        /// Connection info snapshot.
        info: SteamworksNetworkingSocketsConnectionInfo,
    },
    /// Connection user data was read from Steam.
    ConnectionUserDataRead {
        /// Connection inspected.
        connection: SteamworksNetworkingSocketsConnectionId,
        /// User data value.
        user_data: i64,
    },
    /// Realtime connection status was read.
    RealtimeConnectionStatusRead {
        /// Realtime status snapshot.
        status: SteamworksNetworkingSocketsRealtimeStatus,
    },
    /// One message was sent.
    MessageSent {
        /// Connection sent on.
        connection: SteamworksNetworkingSocketsConnectionId,
        /// Assigned message number.
        message_number: u64,
        /// Payload size in bytes.
        bytes: usize,
    },
    /// Multiple allocated messages were submitted.
    MessagesSent {
        /// Per-message send outcomes in command order.
        messages: Vec<SteamworksNetworkingSocketsMessageSendResult>,
    },
    /// Messages were received.
    MessagesReceived {
        /// Connection received from.
        connection: SteamworksNetworkingSocketsConnectionId,
        /// Owned message snapshots.
        messages: Vec<SteamworksNetworkingSocketsMessage>,
    },
    /// Messages were received from every plugin-owned connection.
    AllMessagesReceived {
        /// One message batch per connection, in ID order.
        connections: Vec<SteamworksNetworkingSocketsConnectionMessages>,
    },
    /// Messages were received from a poll group.
    PollGroupMessagesReceived {
        /// Poll group received from.
        poll_group: SteamworksNetworkingSocketsPollGroupId,
        /// Owned message snapshots.
        messages: Vec<SteamworksNetworkingSocketsPollGroupMessage>,
    },
    /// Messages were received from every plugin-owned poll group.
    AllPollGroupMessagesReceived {
        /// One message batch per poll group, in ID order.
        poll_groups: Vec<SteamworksNetworkingSocketsPollGroupMessages>,
    },
    /// Pending messages were flushed.
    MessagesFlushed {
        /// Connection flushed.
        connection: SteamworksNetworkingSocketsConnectionId,
    },
    /// Pending messages were flushed on every plugin-owned connection.
    AllMessagesFlushed {
        /// Connections flushed, in ID order.
        connections: Vec<SteamworksNetworkingSocketsConnectionId>,
    },
    /// A connection was assigned to a poll group.
    ConnectionPollGroupSet {
        /// Connection assigned.
        connection: SteamworksNetworkingSocketsConnectionId,
        /// Poll group assigned.
        poll_group: SteamworksNetworkingSocketsPollGroupId,
    },
    /// A connection was removed from its current poll group.
    ConnectionPollGroupCleared {
        /// Connection updated.
        connection: SteamworksNetworkingSocketsConnectionId,
    },
    /// Outbound message lanes were configured for a connection.
    ConnectionLanesConfigured {
        /// Connection configured.
        connection: SteamworksNetworkingSocketsConnectionId,
        /// Number of lanes configured.
        lanes: usize,
    },
    /// Connection user data was set.
    ConnectionUserDataSet {
        /// Connection updated.
        connection: SteamworksNetworkingSocketsConnectionId,
        /// User data value.
        user_data: i64,
    },
    /// Connection debug name was set.
    ConnectionNameSet {
        /// Connection updated.
        connection: SteamworksNetworkingSocketsConnectionId,
        /// Debug name submitted to Steam.
        name: String,
    },
    /// A connection was closed and removed.
    ConnectionClosed {
        /// Connection removed.
        connection: SteamworksNetworkingSocketsConnectionId,
        /// Return value from Steam's close call.
        close_succeeded: bool,
    },
    /// Every plugin-owned connection was closed and removed.
    AllConnectionsClosed {
        /// One close snapshot per connection, in ID order.
        connections: Vec<SteamworksNetworkingSocketsConnectionClosed>,
    },
    /// A listen socket was closed and removed.
    ListenSocketClosed {
        /// Listen socket removed.
        listen_socket: SteamworksListenSocketId,
        /// Accepted child connections removed with the listen socket.
        closed_connections: Vec<SteamworksNetworkingSocketsConnectionId>,
    },
    /// Every plugin-owned listen socket was closed and removed.
    AllListenSocketsClosed {
        /// One close snapshot per listen socket, in ID order.
        listen_sockets: Vec<SteamworksNetworkingSocketsListenSocketClosed>,
    },
    /// A poll group was closed and removed.
    PollGroupClosed {
        /// Poll group removed.
        poll_group: SteamworksNetworkingSocketsPollGroupId,
    },
    /// Every plugin-owned poll group was closed and removed.
    AllPollGroupsClosed {
        /// Poll groups removed, in ID order.
        poll_groups: Vec<SteamworksNetworkingSocketsPollGroupId>,
    },
}

/// Result message emitted by the Networking Sockets plugin.
#[derive(Clone, PartialEq, Eq)]
pub enum SteamworksNetworkingSocketsResult {
    /// The command or event succeeded.
    Succeeded(SteamworksNetworkingSocketsOperation),
    /// The command failed synchronously.
    Failed {
        /// Command that failed.
        command: SteamworksNetworkingSocketsCommand,
        /// Failure reason.
        error: SteamworksNetworkingSocketsError,
    },
}

} // verus!

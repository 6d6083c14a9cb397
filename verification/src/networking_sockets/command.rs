//! Commands accepted by the Networking Sockets plugin.

use crate::networking_types::{
    SteamworksNetConnectionEnd, SteamworksNetworkingIdentity, SteamworksSendFlags,
    SteamworksSocketAddr, STEAMWORKS_APP_GENERIC_END_CODE,
};
use super::identifiers::{
    SteamworksListenSocketId, SteamworksNetworkingSocketsConnectionId,
    SteamworksNetworkingSocketsPollGroupId,
};
use super::snapshots::SteamworksNetworkingSocketsOutboundMessage;
use super::types::{SteamworksConnectionRequestPolicy, SteamworksNetworkingSocketsConfigEntry};
use vstd::prelude::*;

verus! {

/// A high-level command for Steam Networking Sockets workflows.
#[derive(Clone, PartialEq, Eq)]
pub enum SteamworksNetworkingSocketsCommand {
    /// Initialize Steam Networking Sockets authentication resources.
    InitAuthentication,
    /// Read Steam Networking Sockets authentication status.
    GetAuthenticationStatus,
    /// Create an IP listen socket.
    CreateListenSocketIp {
        /// Local socket address to bind.
        local_address: SteamworksSocketAddr,
        /// Initial Steam Networking Sockets config entries.
        options: Vec<SteamworksNetworkingSocketsConfigEntry>,
    },
    /// Create a P2P listen socket.
    CreateListenSocketP2p {
        /// Local virtual port.
        local_virtual_port: i32,
        /// Initial Steam Networking Sockets config entries.
        options: Vec<SteamworksNetworkingSocketsConfigEntry>,
    },
    /// Create a hosted dedicated-server listen socket. Requires a game server.
    CreateHostedDedicatedServerListenSocket {
        /// Local virtual port.
        local_virtual_port: u32,
        /// Initial Steam Networking Sockets config entries.
        options: Vec<SteamworksNetworkingSocketsConfigEntry>,
    },
    /// Connect to an IP endpoint.
    ConnectByIpAddress {
        /// Remote socket address.
        address: SteamworksSocketAddr,
        /// Initial Steam Networking Sockets config entries.
        options: Vec<SteamworksNetworkingSocketsConfigEntry>,
    },
    /// Connect to a Steam networking identity using P2P.
    ConnectP2p {
        /// Remote identity.
        identity: SteamworksNetworkingIdentity,
        /// Remote virtual port.
        remote_virtual_port: i32,
        /// Initial Steam Networking Sockets config entries.
        options: Vec<SteamworksNetworkingSocketsConfigEntry>,
    },
    /// Create a poll group for receiving messages from many connections.
    CreatePollGroup,
    /// Create a server-owned poll group. Requires a game server.
    CreateServerPollGroup,
    /// Poll events from one listen socket.
    PollListenSocketEvents {
        /// Listen socket to poll.
        listen_socket: SteamworksListenSocketId,
        /// Maximum events to process.
        max_events: usize,
        /// Policy for incoming connection requests.
        request_policy: SteamworksConnectionRequestPolicy,
    },
    /// Poll events from every listen socket.
    PollAllListenSocketEvents {
        /// Maximum events to process per listen socket.
        max_events_per_socket: usize,
        /// Policy for incoming connection requests.
        request_policy: SteamworksConnectionRequestPolicy,
    },
    /// Poll events from one connection.
    PollConnectionEvents {
        /// Connection to poll.
        connection: SteamworksNetworkingSocketsConnectionId,
        /// Maximum events to process.
        max_events: usize,
    },
    /// Poll events from every connection.
    PollAllConnectionEvents {
        /// Maximum events to process per connection.
        max_events_per_connection: usize,
    },
    /// Read connection info.
    GetConnectionInfo {
        /// Connection to inspect.
        connection: SteamworksNetworkingSocketsConnectionId,
    },
    /// Read connection user data.
    GetConnectionUserData {
        /// Connection to inspect.
        connection: SteamworksNetworkingSocketsConnectionId,
    },
    /// Read realtime connection status.
    GetRealtimeConnectionStatus {
        /// Connection to inspect.
        connection: SteamworksNetworkingSocketsConnectionId,
        /// Number of lane statuses to request.
        lanes: u32,
    },
    /// Send one message on a connection.
    SendMessage {
        /// Connection to send on.
        connection: SteamworksNetworkingSocketsConnectionId,
        /// Delivery flags.
        send_flags: SteamworksSendFlags,
        /// Payload.
        data: Vec<u8>,
    },
    /// Send multiple allocated messages with per-message lane/channel support.
    SendMessages {
        /// Outbound messages to submit.
        messages: Vec<SteamworksNetworkingSocketsOutboundMessage>,
    },
    /// Receive messages from one connection.
    ReceiveMessages {
        /// Connection to receive from.
        connection: SteamworksNetworkingSocketsConnectionId,
        /// Maximum number of messages to receive.
        batch_size: usize,
    },
    /// Receive messages from every connection.
    ReceiveAllMessages {
        /// Maximum number of messages to receive per connection.
        batch_size_per_connection: usize,
    },
    /// Receive messages from one poll group.
    ReceivePollGroupMessages {
        /// Poll group to receive from.
        poll_group: SteamworksNetworkingSocketsPollGroupId,
        /// Maximum number of messages to receive.
        batch_size: usize,
    },
    /// Receive messages from every poll group.
    ReceiveAllPollGroupMessages {
        /// Maximum number of messages to receive per poll group.
        batch_size_per_poll_group: usize,
    },
    /// Flush pending messages on one connection.
    FlushMessages {
        /// Connection to flush.
        connection: SteamworksNetworkingSocketsConnectionId,
    },
    /// Flush pending messages on every connection.
    FlushAllMessages,
    /// Assign a connection to a poll group.
    SetConnectionPollGroup {
        /// Connection to assign.
        connection: SteamworksNetworkingSocketsConnectionId,
        /// Poll group that should receive messages for the connection.
        poll_group: SteamworksNetworkingSocketsPollGroupId,
    },
    /// Remove a connection from its current poll group.
    ClearConnectionPollGroup {
        /// Connection to update.
        connection: SteamworksNetworkingSocketsConnectionId,
    },
    /// Configure outbound message lanes for one connection.
    ConfigureConnectionLanes {
        /// Connection to configure.
        connection: SteamworksNetworkingSocketsConnectionId,
        /// Lane priorities in Steam order.
        lane_priorities: Vec<i32>,
        /// Lane weights in Steam order.
        lane_weights: Vec<u16>,
    },
    /// Set connection user data.
    SetConnectionUserData {
        /// Connection to update.
        connection: SteamworksNetworkingSocketsConnectionId,
        /// User data value.
        user_data: i64,
    },
    /// Set a connection debug name.
    SetConnectionName {
        /// Connection to update.
        connection: SteamworksNetworkingSocketsConnectionId,
        /// Debug name submitted to Steam.
        name: String,
    },
    /// Close and drop one connection.
    CloseConnection {
        /// Connection to close.
        connection: SteamworksNetworkingSocketsConnectionId,
        /// End reason sent to Steam.
        reason: SteamworksNetConnectionEnd,
        /// Optional debug string.
        debug: Option<String>,
        /// Whether Steam should try to flush remaining reliable data.
        enable_linger: bool,
    },
    /// Close and drop every connection.
    CloseAllConnections {
        /// End reason sent to Steam.
        reason: SteamworksNetConnectionEnd,
        /// Optional debug string.
        debug: Option<String>,
        /// Whether Steam should try to flush remaining reliable data.
        enable_linger: bool,
    },
    /// Drop one listen socket.
    CloseListenSocket {
        /// Listen socket to drop.
        listen_socket: SteamworksListenSocketId,
    },
    /// Drop every listen socket.
    CloseAllListenSockets,
    /// Drop one poll group.
    ClosePollGroup {
        /// Poll group to drop.
        poll_group: SteamworksNetworkingSocketsPollGroupId,
    },
    /// Drop every poll group.
    CloseAllPollGroups,
}


impl SteamworksNetworkingSocketsCommand {
    /// Creates an `InitAuthentication` command.
    pub fn init_authentication() -> (command: Self)
        ensures
            command == SteamworksNetworkingSocketsCommand::InitAuthentication,
    {
        SteamworksNetworkingSocketsCommand::InitAuthentication
    }

    /// Creates a `GetAuthenticationStatus` command.
    pub fn get_authentication_status() -> (command: Self)
        ensures
            command == SteamworksNetworkingSocketsCommand::GetAuthenticationStatus,
    {
        SteamworksNetworkingSocketsCommand::GetAuthenticationStatus
    }

    /// Creates a `CreateListenSocketIp` command without config entries.
    pub fn create_listen_socket_ip(local_address: SteamworksSocketAddr) -> (command: Self)
        ensures
            command matches SteamworksNetworkingSocketsCommand::CreateListenSocketIp {
                local_address: a,
                options,
            } && a == local_address && options@.len() == 0,
    {
        Self::create_listen_socket_ip_with_options(local_address, Vec::new())
    }

    /// Creates a `CreateListenSocketIp` command with config entries.
    pub fn create_listen_socket_ip_with_options(
        local_address: SteamworksSocketAddr,
        options: Vec<SteamworksNetworkingSocketsConfigEntry>,
    ) -> (command: Self)
        ensures
            command == (SteamworksNetworkingSocketsCommand::CreateListenSocketIp {
                local_address,
                options,
            }),
    {
        SteamworksNetworkingSocketsCommand::CreateListenSocketIp { local_address, options }
    }

    /// Creates a `CreateListenSocketP2p` command without config entries.
    pub fn create_listen_socket_p2p(local_virtual_port: i32) -> (command: Self)
        ensures
            command matches SteamworksNetworkingSocketsCommand::CreateListenSocketP2p {
                local_virtual_port: p,
                options,
            } && p == local_virtual_port && options@.len() == 0,
    {
        Self::create_listen_socket_p2p_with_options(local_virtual_port, Vec::new())
    }

    /// Creates a `CreateListenSocketP2p` command with config entries.
    pub fn create_listen_socket_p2p_with_options(
        local_virtual_port: i32,
        options: Vec<SteamworksNetworkingSocketsConfigEntry>,
    ) -> (command: Self)
        ensures
            command == (SteamworksNetworkingSocketsCommand::CreateListenSocketP2p {
                local_virtual_port,
                options,
            }),
    {
        SteamworksNetworkingSocketsCommand::CreateListenSocketP2p { local_virtual_port, options }
    }

    /// Creates a `CreateHostedDedicatedServerListenSocket` command without
    /// config entries. The command requires a game server.
    pub fn create_hosted_dedicated_server_listen_socket(local_virtual_port: u32) -> (command: Self)
        ensures
            command matches SteamworksNetworkingSocketsCommand::CreateHostedDedicatedServerListenSocket {
                local_virtual_port: p,
                options,
            } && p == local_virtual_port && options@.len() == 0,
    {
        Self::create_hosted_dedicated_server_listen_socket_with_options(local_virtual_port, Vec::new())
    }

    /// Creates a `CreateHostedDedicatedServerListenSocket` command with config
    /// entries. The command requires a game server.
    pub fn create_hosted_dedicated_server_listen_socket_with_options(
        local_virtual_port: u32,
        options: Vec<SteamworksNetworkingSocketsConfigEntry>,
    ) -> (command: Self)
        ensures
            command == (SteamworksNetworkingSocketsCommand::CreateHostedDedicatedServerListenSocket {
                local_virtual_port,
                options,
            }),
    {
        SteamworksNetworkingSocketsCommand::CreateHostedDedicatedServerListenSocket {
            local_virtual_port,
            options,
        }
    }

    /// Creates a `ConnectByIpAddress` command without config entries.
    pub fn connect_by_ip_address(address: SteamworksSocketAddr) -> (command: Self)
        ensures
            command matches SteamworksNetworkingSocketsCommand::ConnectByIpAddress {
                address: a,
                options,
            } && a == address && options@.len() == 0,
    {
        Self::connect_by_ip_address_with_options(address, Vec::new())
    }

    /// Creates a `ConnectByIpAddress` command with config entries.
    pub fn connect_by_ip_address_with_options(
        address: SteamworksSocketAddr,
        options: Vec<SteamworksNetworkingSocketsConfigEntry>,
    ) -> (command: Self)
        ensures
            command == (SteamworksNetworkingSocketsCommand::ConnectByIpAddress { address, options }),
    {
        SteamworksNetworkingSocketsCommand::ConnectByIpAddress { address, options }
    }

    /// Creates a `ConnectP2p` command without config entries.
    pub fn connect_p2p(identity: SteamworksNetworkingIdentity, remote_virtual_port: i32) -> (command: Self)
        ensures
            command matches SteamworksNetworkingSocketsCommand::ConnectP2p {
                identity: i,
                remote_virtual_port: p,
                options,
            } && i == identity && p == remote_virtual_port && options@.len() == 0,
    {
        Self::connect_p2p_with_options(identity, remote_virtual_port, Vec::new())
    }

    /// Creates a `ConnectP2p` command with config entries.
    pub fn connect_p2p_with_options(
        identity: SteamworksNetworkingIdentity,
        remote_virtual_port: i32,
        options: Vec<SteamworksNetworkingSocketsConfigEntry>,
    ) -> (command: Self)
        ensures
            command == (SteamworksNetworkingSocketsCommand::ConnectP2p {
                identity,
                remote_virtual_port,
                options,
            }),
    {
        SteamworksNetworkingSocketsCommand::ConnectP2p { identity, remote_virtual_port, options }
    }

    /// Creates a P2P connect command for a Steam user.
    pub fn connect_p2p_steam_id(steam_id: u64, remote_virtual_port: i32) -> (command:
        Self)
        ensures
            command matches SteamworksNetworkingSocketsCommand::ConnectP2p {
                identity,
                remote_virtual_port: p,
                options,
            } && identity == SteamworksNetworkingIdentity::SteamId(steam_id) && p == remote_virtual_port
                && options@.len() == 0,
    {
        Self::connect_p2p_steam_id_with_options(steam_id, remote_virtual_port, Vec::new())
    }

    /// Creates a P2P connect command for a Steam user with config entries.
    pub fn connect_p2p_steam_id_with_options(
        steam_id: u64,
        remote_virtual_port: i32,
        options: Vec<SteamworksNetworkingSocketsConfigEntry>,
    ) -> (command: Self)
        ensures
            command == (SteamworksNetworkingSocketsCommand::ConnectP2p {
                identity: SteamworksNetworkingIdentity::SteamId(steam_id),
                remote_virtual_port,
                options,
            }),
    {
        Self::connect_p2p_with_options(
            SteamworksNetworkingIdentity::new_steam_id(steam_id),
            remote_virtual_port,
            options,
        )
    }

    /// Creates a `CreatePollGroup` command.
    pub fn create_poll_group() -> (command: Self)
        ensures
            command == SteamworksNetworkingSocketsCommand::CreatePollGroup,
    {
        SteamworksNetworkingSocketsCommand::CreatePollGroup
    }

    /// Creates a `CreateServerPollGroup` command. The command requires a game
    /// server.
    pub fn create_server_poll_group() -> (command: Self)
        ensures
            command == SteamworksNetworkingSocketsCommand::CreateServerPollGroup,
    {
        SteamworksNetworkingSocketsCommand::CreateServerPollGroup
    }

    /// Creates a `PollListenSocketEvents` command.
    pub fn poll_listen_socket_events(
        listen_socket: SteamworksListenSocketId,
        max_events: usize,
        request_policy: SteamworksConnectionRequestPolicy,
    ) -> (command: Self)
        ensures
            command == (SteamworksNetworkingSocketsCommand::PollListenSocketEvents {
                listen_socket,
                max_events,
                request_policy,
            }),
    {
        SteamworksNetworkingSocketsCommand::PollListenSocketEvents {
            listen_socket,
            max_events,
            request_policy,
        }
    }

    /// Creates a `PollAllListenSocketEvents` command.
    pub fn poll_all_listen_socket_events(
        max_events_per_socket: usize,
        request_policy: SteamworksConnectionRequestPolicy,
    ) -> (command: Self)
        ensures
            command == (SteamworksNetworkingSocketsCommand::PollAllListenSocketEvents {
                max_events_per_socket,
                request_policy,
            }),
    {
        SteamworksNetworkingSocketsCommand::PollAllListenSocketEvents {
            max_events_per_socket,
            request_policy,
        }
    }

    /// Creates a `PollConnectionEvents` command.
    pub fn poll_connection_events(
        connection: SteamworksNetworkingSocketsConnectionId,
        max_events: usize,
    ) -> (command: Self)
        ensures
            command == (SteamworksNetworkingSocketsCommand::PollConnectionEvents {
                connection,
                max_events,
            }),
    {
        SteamworksNetworkingSocketsCommand::PollConnectionEvents { connection, max_events }
    }

    /// Creates a `PollAllConnectionEvents` command.
    pub fn poll_all_connection_events(max_events_per_connection: usize) -> (command: Self)
        ensures
            command == (SteamworksNetworkingSocketsCommand::PollAllConnectionEvents {
                max_events_per_connection,
            }),
    {
        SteamworksNetworkingSocketsCommand::PollAllConnectionEvents { max_events_per_connection }
    }

    /// Creates a `GetConnectionInfo` command.
    pub fn get_connection_info(connection: SteamworksNetworkingSocketsConnectionId) -> (command: Self)
        ensures
            command == (SteamworksNetworkingSocketsCommand::GetConnectionInfo { connection }),
    {
        SteamworksNetworkingSocketsCommand::GetConnectionInfo { connection }
    }

    /// Creates a `GetConnectionUserData` command.
    pub fn get_connection_user_data(connection: SteamworksNetworkingSocketsConnectionId) -> (command:
        Self)
        ensures
            command == (SteamworksNetworkingSocketsCommand::GetConnectionUserData { connection }),
    {
        SteamworksNetworkingSocketsCommand::GetConnectionUserData { connection }
    }

    /// Creates a `GetRealtimeConnectionStatus` command.
    pub fn get_realtime_connection_status(
        connection: SteamworksNetworkingSocketsConnectionId,
        lanes: u32,
    ) -> (command: Self)
        ensures
            command == (SteamworksNetworkingSocketsCommand::GetRealtimeConnectionStatus {
                connection,
                lanes,
            }),
    {
        SteamworksNetworkingSocketsCommand::GetRealtimeConnectionStatus { connection, lanes }
    }

    /// Creates a `SendMessage` command.
    pub fn send_message(
        connection: SteamworksNetworkingSocketsConnectionId,
        send_flags: SteamworksSendFlags,
        data: Vec<u8>,
    ) -> (command: Self)
        ensures
            command == (SteamworksNetworkingSocketsCommand::SendMessage {
                connection,
                send_flags,
                data,
            }),
    {
        SteamworksNetworkingSocketsCommand::SendMessage { connection, send_flags, data }
    }

    /// Creates a `SendMessages` command.
    pub fn send_messages(messages: Vec<SteamworksNetworkingSocketsOutboundMessage>) -> (command: Self)
        ensures
            command == (SteamworksNetworkingSocketsCommand::SendMessages { messages }),
    {
        SteamworksNetworkingSocketsCommand::SendMessages { messages }
    }

    /// Creates a `ReceiveMessages` command.
    pub fn receive_messages(
        connection: SteamworksNetworkingSocketsConnectionId,
        batch_size: usize,
    ) -> (command: Self)
        ensures
            command == (SteamworksNetworkingSocketsCommand::ReceiveMessages {
                connection,
                batch_size,
            }),
    {
        SteamworksNetworkingSocketsCommand::ReceiveMessages { connection, batch_size }
    }

    /// Creates a `ReceiveAllMessages` command.
    pub fn receive_all_messages(batch_size_per_connection: usize) -> (command: Self)
        ensures
            command == (SteamworksNetworkingSocketsCommand::ReceiveAllMessages {
                batch_size_per_connection,
            }),
    {
        SteamworksNetworkingSocketsCommand::ReceiveAllMessages { batch_size_per_connection }
    }

    /// Creates a `ReceivePollGroupMessages` command.
    pub fn receive_poll_group_messages(
        poll_group: SteamworksNetworkingSocketsPollGroupId,
        batch_size: usize,
    ) -> (command: Self)
        ensures
            command == (SteamworksNetworkingSocketsCommand::ReceivePollGroupMessages {
                poll_group,
                batch_size,
            }),
    {
        SteamworksNetworkingSocketsCommand::ReceivePollGroupMessages { poll_group, batch_size }
    }

    /// Creates a `ReceiveAllPollGroupMessages` command.
    pub fn receive_all_poll_group_messages(batch_size_per_poll_group: usize) -> (command: Self)
        ensures
            command == (SteamworksNetworkingSocketsCommand::ReceiveAllPollGroupMessages {
                batch_size_per_poll_group,
            }),
    {
        SteamworksNetworkingSocketsCommand::ReceiveAllPollGroupMessages { batch_size_per_poll_group }
    }

    /// Creates a `FlushMessages` command.
    pub fn flush_messages(connection: SteamworksNetworkingSocketsConnectionId) -> (command: Self)
        ensures
            command == (SteamworksNetworkingSocketsCommand::FlushMessages { connection }),
    {
        SteamworksNetworkingSocketsCommand::FlushMessages { connection }
    }

    /// Creates a `FlushAllMessages` command.
    pub fn flush_all_messages() -> (command: Self)
        ensures
            command == SteamworksNetworkingSocketsCommand::FlushAllMessages,
    {
        SteamworksNetworkingSocketsCommand::FlushAllMessages
    }

    /// Creates a `SetConnectionPollGroup` command.
    pub fn set_connection_poll_group(
        connection: SteamworksNetworkingSocketsConnectionId,
        poll_group: SteamworksNetworkingSocketsPollGroupId,
    ) -> (command: Self)
        ensures
            command == (SteamworksNetworkingSocketsCommand::SetConnectionPollGroup {
                connection,
                poll_group,
            }),
    {
        SteamworksNetworkingSocketsCommand::SetConnectionPollGroup { connection, poll_group }
    }

    /// Creates a `ClearConnectionPollGroup` command.
    pub fn clear_connection_poll_group(connection: SteamworksNetworkingSocketsConnectionId) -> (command:
        Self)
        ensures
            command == (SteamworksNetworkingSocketsCommand::ClearConnectionPollGroup { connection }),
    {
        SteamworksNetworkingSocketsCommand::ClearConnectionPollGroup { connection }
    }

    /// Creates a `ConfigureConnectionLanes` command.
    pub fn configure_connection_lanes(
        connection: SteamworksNetworkingSocketsConnectionId,
        lane_priorities: Vec<i32>,
        lane_weights: Vec<u16>,
    ) -> (command: Self)
        ensures
            command == (SteamworksNetworkingSocketsCommand::ConfigureConnectionLanes {
                connection,
                lane_priorities,
                lane_weights,
            }),
    {
        SteamworksNetworkingSocketsCommand::ConfigureConnectionLanes {
            connection,
            lane_priorities,
            lane_weights,
        }
    }

    /// Creates a `SetConnectionUserData` command.
    pub fn set_connection_user_data(
        connection: SteamworksNetworkingSocketsConnectionId,
        user_data: i64,
    ) -> (command: Self)
        ensures
            command == (SteamworksNetworkingSocketsCommand::SetConnectionUserData {
                connection,
                user_data,
            }),
    {
        SteamworksNetworkingSocketsCommand::SetConnectionUserData { connection, user_data }
    }

    /// Creates a `SetConnectionName` command.
    pub fn set_connection_name(connection: SteamworksNetworkingSocketsConnectionId, name: String) -> (command:
        Self)
        ensures
            command == (SteamworksNetworkingSocketsCommand::SetConnectionName { connection, name }),
    {
        SteamworksNetworkingSocketsCommand::SetConnectionName { connection, name }
    }

    /// Creates a `CloseConnection` command with Steam's generic application
    /// end reason, no debug text and no linger.
    pub fn close_connection(connection: SteamworksNetworkingSocketsConnectionId) -> (command: Self)
        ensures
            command == (SteamworksNetworkingSocketsCommand::CloseConnection {
                connection,
                reason: SteamworksNetConnectionEnd { code: STEAMWORKS_APP_GENERIC_END_CODE },
                debug: None,
                enable_linger: false,
            }),
    {
        Self::close_connection_with_reason(
            connection,
            SteamworksNetConnectionEnd::app_generic_normal(),
            None,
            false,
        )
    }

    /// Creates a `CloseConnection` command with options.
    pub fn close_connection_with_reason(
        connection: SteamworksNetworkingSocketsConnectionId,
        reason: SteamworksNetConnectionEnd,
        debug: Option<String>,
        enable_linger: bool,
    ) -> (command: Self)
        ensures
            command == (SteamworksNetworkingSocketsCommand::CloseConnection {
                connection,
                reason,
                debug,
                enable_linger,
            }),
    {
        SteamworksNetworkingSocketsCommand::CloseConnection {
            connection,
            reason,
            debug,
            enable_linger,
        }
    }

    /// Creates a `CloseAllConnections` command with Steam's generic application
    /// end reason, no debug text and no linger.
    pub fn close_all_connections() -> (command: Self)
        ensures
            command == (SteamworksNetworkingSocketsCommand::CloseAllConnections {
                reason: SteamworksNetConnectionEnd { code: STEAMWORKS_APP_GENERIC_END_CODE },
                debug: None,
                enable_linger: false,
            }),
    {
        Self::close_all_connections_with_reason(
            SteamworksNetConnectionEnd::app_generic_normal(),
            None,
            false,
        )
    }

    /// Creates a `CloseAllConnections` command with options.
    pub fn close_all_connections_with_reason(
        reason: SteamworksNetConnectionEnd,
        debug: Option<String>,
        enable_linger: bool,
    ) -> (command: Self)
        ensures
            command == (SteamworksNetworkingSocketsCommand::CloseAllConnections {
                reason,
                debug,
                enable_linger,
            }),
    {
        SteamworksNetworkingSocketsCommand::CloseAllConnections { reason, debug, enable_linger }
    }

    /// Creates a `CloseListenSocket` command.
    pub fn close_listen_socket(listen_socket: SteamworksListenSocketId) -> (command: Self)
        ensures
            command == (SteamworksNetworkingSocketsCommand::CloseListenSocket { listen_socket }),
    {
        SteamworksNetworkingSocketsCommand::CloseListenSocket { listen_socket }
    }

    /// Creates a `CloseAllListenSockets` command.
    pub fn close_all_listen_sockets() -> (command: Self)
        ensures
            command == SteamworksNetworkingSocketsCommand::CloseAllListenSockets,
    {
        SteamworksNetworkingSocketsCommand::CloseAllListenSockets
    }

    /// Creates a `ClosePollGroup` command.
    pub fn close_poll_group(poll_group: SteamworksNetworkingSocketsPollGroupId) -> (command: Self)
        ensures
            command == (SteamworksNetworkingSocketsCommand::ClosePollGroup { poll_group }),
    {
        SteamworksNetworkingSocketsCommand::ClosePollGroup { poll_group }
    }

    /// Creates a `CloseAllPollGroups` command.
    pub fn close_all_poll_groups() -> (command: Self)
        ensures
            command == SteamworksNetworkingSocketsCommand::CloseAllPollGroups,
    {
        SteamworksNetworkingSocketsCommand::CloseAllPollGroups
    }
}

} // verus!

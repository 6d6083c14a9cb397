//! Owned snapshots and descriptors used by Networking Sockets commands,
//! operations and state.

use crate::cache::{snapshot_all, snapshot_views, SteamworksKeyedSnapshot, SteamworksSnapshot};
use crate::networking_types::{
    SteamworksNetConnectionEnd, SteamworksNetworkingConfigKey, SteamworksNetworkingConnectionState,
    SteamworksNetworkingIdentity, SteamworksSocketAddr, STEAMWORKS_APP_GENERIC_END_CODE,
};
use super::identifiers::{
    SteamworksListenSocketId, SteamworksNetworkingSocketsConnectionId,
    SteamworksNetworkingSocketsPollGroupId,
};
use vstd::prelude::*;

verus! {

/// Policy used when a listen socket receives a connection request.
#[derive(Clone, PartialEq, Eq)]
pub enum SteamworksConnectionRequestPolicy {
    /// Accept incoming connection requests immediately.
    Accept,
    /// Reject incoming connection requests immediately.
    Reject {
        /// End reason sent to the remote peer.
        reason: SteamworksNetConnectionEnd,
        /// Optional debug string sent to Steam.
        debug: Option<String>,
    },
}

impl Default for SteamworksConnectionRequestPolicy {
    /// Rejects requests with Steam's generic application end reason and a
    /// debug note naming this library's policy.
    fn default() -> (policy: Self)
        ensures
            policy matches SteamworksConnectionRequestPolicy::Reject { reason, debug: Some(text) }
                && reason.code == STEAMWORKS_APP_GENERIC_END_CODE
                && text@ == "connection rejected by bevy_steamworks policy"@,
    {
        SteamworksConnectionRequestPolicy::Reject {
            reason: SteamworksNetConnectionEnd::app_generic_normal(),
            debug: Some("connection rejected by bevy_steamworks policy".to_owned()),
        }
    }
}

/// Initial Steam Networking Sockets configuration entry for listen and connect
/// commands.
#[derive(Clone, PartialEq, Eq)]
pub enum SteamworksNetworkingSocketsConfigEntry {
    /// Signed 32-bit integer config value.
    Int32 {
        /// Steam config key.
        value: SteamworksNetworkingConfigKey,
        /// Config value.
        data: i32,
    },
    /// Signed 64-bit integer config value.
    Int64 {
        /// Steam config key.
        value: SteamworksNetworkingConfigKey,
        /// Config value.
        data: i64,
    },
    /// Floating-point config value, held as its IEEE-754 bit pattern.
    Float {
        /// Steam config key.
        value: SteamworksNetworkingConfigKey,
        /// IEEE-754 binary32 bit pattern of the config value.
        data_bits: u32,
    },
    /// String config value.
    String {
        /// Steam config key.
        value: SteamworksNetworkingConfigKey,
        /// Config value.
        data: String,
    },
}

impl SteamworksNetworkingSocketsConfigEntry {
    /// Creates a 32-bit integer config entry.
    pub fn int32(value: SteamworksNetworkingConfigKey, data: i32) -> (entry: Self)
        ensures
            entry == (SteamworksNetworkingSocketsConfigEntry::Int32 { value, data }),
    {
        SteamworksNetworkingSocketsConfigEntry::Int32 { value, data }
    }

    /// Creates a 64-bit integer config entry.
    pub fn int64(value: SteamworksNetworkingConfigKey, data: i64) -> (entry: Self)
        ensures
            entry == (SteamworksNetworkingSocketsConfigEntry::Int64 { value, data }),
    {
        SteamworksNetworkingSocketsConfigEntry::Int64 { value, data }
    }

    /// Creates a floating-point config entry from the value's IEEE-754 bits.
    pub fn float_bits(value: SteamworksNetworkingConfigKey, data_bits: u32) -> (entry: Self)
        ensures
            entry == (SteamworksNetworkingSocketsConfigEntry::Float { value, data_bits }),
    {
        SteamworksNetworkingSocketsConfigEntry::Float { value, data_bits }
    }

    /// Creates a string config entry.
    pub fn string(value: SteamworksNetworkingConfigKey, data: String) -> (entry: Self)
        ensures
            entry == (SteamworksNetworkingSocketsConfigEntry::String { value, data }),
    {
        SteamworksNetworkingSocketsConfigEntry::String { value, data }
    }
}

/// Listen socket endpoint created by a command.
#[derive(Clone, Copy, Debug, PartialEq, Eq)]
pub enum SteamworksNetworkingSocketsListenEndpoint {
    /// IP listen endpoint.
    Ip(SteamworksSocketAddr),
    /// P2P virtual port.
    P2p {
        /// Local virtual port.
        local_virtual_port: i32,
    },
    /// Hosted dedicated-server virtual port.
    HostedDedicatedServer {
        /// Local virtual port.
        local_virtual_port: u32,
    },
}

/// Connection target created by a command.
#[derive(Clone, Debug, PartialEq, Eq)]
pub enum SteamworksNetworkingSocketsConnectionTarget {
    /// IP target.
    Ip(SteamworksSocketAddr),
    /// P2P identity target.
    P2p {
        /// Remote identity.
        identity: SteamworksNetworkingIdentity,
        /// Remote virtual port.
        remote_virtual_port: i32,
    },
}

impl SteamworksNetworkingSocketsConnectionTarget {
    /// Returns an identical copy of this target.
    pub fn snapshot(&self) -> (copy: Self)
        ensures
            copy == *self,
    {
        match self {
            SteamworksNetworkingSocketsConnectionTarget::Ip(addr) => {
                SteamworksNetworkingSocketsConnectionTarget::Ip(*addr)
            },
            SteamworksNetworkingSocketsConnectionTarget::P2p { identity, remote_virtual_port } => {
                SteamworksNetworkingSocketsConnectionTarget::P2p {
                    identity: *identity,
                    remote_virtual_port: *remote_virtual_port,
                }
            },
        }
    }
}

/// Listen socket creation snapshot.
#[derive(Clone, Copy, Debug, PartialEq, Eq)]
pub struct SteamworksNetworkingSocketsListenSocketCreated {
    /// New plugin-owned listen socket ID.
    pub listen_socket: SteamworksListenSocketId,
    /// Bound local address or virtual-port descriptor.
    pub endpoint: SteamworksNetworkingSocketsListenEndpoint,
}

/// Connection creation snapshot.
#[derive(Clone, Debug, PartialEq, Eq)]
pub struct SteamworksNetworkingSocketsConnectionCreated {
    /// New plugin-owned connection ID.
    pub connection: SteamworksNetworkingSocketsConnectionId,
    /// Connection target.
    pub target: SteamworksNetworkingSocketsConnectionTarget,
}

/// Snapshot of one listen socket event.
#[derive(Clone, Debug, PartialEq, Eq)]
pub enum SteamworksListenSocketEventInfo {
    /// An incoming connection request was accepted.
    ConnectionAccepted {
        /// Listen socket that received the request.
        listen_socket: SteamworksListenSocketId,
        /// Remote peer identity.
        remote: SteamworksNetworkingIdentity,
        /// Connection user data reported by Steam.
        user_data: i64,
    },
    /// An incoming connection request was rejected.
    ConnectionRejected {
        /// Listen socket that received the request.
        listen_socket: SteamworksListenSocketId,
        /// Remote peer identity.
        remote: SteamworksNetworkingIdentity,
        /// Connection user data reported by Steam.
        user_data: i64,
    },
    /// A connection on a listen socket reached the connected state.
    Connected {
        /// Listen socket that owns the connection.
        listen_socket: SteamworksListenSocketId,
        /// New plugin-owned connection ID.
        connection: SteamworksNetworkingSocketsConnectionId,
        /// Remote peer identity.
        remote: SteamworksNetworkingIdentity,
        /// Connection user data reported by Steam.
        user_data: i64,
    },
    /// A connection on a listen socket disconnected.
    Disconnected {
        /// Listen socket that observed the disconnect.
        listen_socket: SteamworksListenSocketId,
        /// Plugin-owned connection ID that was removed, if it could be matched unambiguously.
        connection: Option<SteamworksNetworkingSocketsConnectionId>,
        /// Remote peer identity.
        remote: SteamworksNetworkingIdentity,
        /// Connection user data reported by Steam.
        user_data: i64,
        /// End reason reported by Steam.
        end_reason: SteamworksNetConnectionEnd,
    },
}

impl View for SteamworksListenSocketEventInfo {
    type V = SteamworksListenSocketEventInfo;

    open spec fn view(&self) -> SteamworksListenSocketEventInfo {
        *self
    }
}

impl SteamworksSnapshot for SteamworksListenSocketEventInfo {
    fn snapshot(&self) -> (copy: Self) {
        match self {
            SteamworksListenSocketEventInfo::ConnectionAccepted { listen_socket, remote, user_data } => {
                SteamworksListenSocketEventInfo::ConnectionAccepted {
                    listen_socket: *listen_socket,
                    remote: *remote,
                    user_data: *user_data,
                }
            },
            SteamworksListenSocketEventInfo::ConnectionRejected { listen_socket, remote, user_data } => {
                SteamworksListenSocketEventInfo::ConnectionRejected {
                    listen_socket: *listen_socket,
                    remote: *remote,
                    user_data: *user_data,
                }
            },
            SteamworksListenSocketEventInfo::Connected {
                listen_socket,
                connection,
                remote,
                user_data,
            } => SteamworksListenSocketEventInfo::Connected {
                listen_socket: *listen_socket,
                connection: *connection,
                remote: *remote,
                user_data: *user_data,
            },
            SteamworksListenSocketEventInfo::Disconnected {
                listen_socket,
                connection,
                remote,
                user_data,
                end_reason,
            } => SteamworksListenSocketEventInfo::Disconnected {
                listen_socket: *listen_socket,
                connection: *connection,
                remote: *remote,
                user_data: *user_data,
                end_reason: *end_reason,
            },
        }
    }
}

/// Snapshot of one connection event.
#[derive(Clone, Copy, Debug, PartialEq, Eq)]
pub struct SteamworksNetworkingSocketsConnectionEventInfo {
    /// Connection that observed the event.
    pub connection: SteamworksNetworkingSocketsConnectionId,
    /// New connection state.
    pub new_state: SteamworksNetworkingConnectionState,
    /// Previous connection state.
    pub old_state: SteamworksNetworkingConnectionState,
}

impl View for SteamworksNetworkingSocketsConnectionEventInfo {
    type V = SteamworksNetworkingSocketsConnectionEventInfo;

    open spec fn view(&self) -> SteamworksNetworkingSocketsConnectionEventInfo {
        *self
    }
}

impl SteamworksSnapshot for SteamworksNetworkingSocketsConnectionEventInfo {
    fn snapshot(&self) -> (copy: Self) {
        *self
    }
}

/// Listen socket event batch snapshot.
#[derive(Clone, Debug, PartialEq, Eq)]
pub struct SteamworksNetworkingSocketsListenSocketEvents {
    /// Listen socket that was polled.
    pub listen_socket: SteamworksListenSocketId,
    /// Events observed.
    pub events: Vec<SteamworksListenSocketEventInfo>,
}

/// Abstract value of a listen socket event batch.
pub struct SteamworksListenSocketEventsView {
    /// Listen socket that was polled.
    pub listen_socket: SteamworksListenSocketId,
    /// Events observed.
    pub events: Seq<SteamworksListenSocketEventInfo>,
}

impl View for SteamworksNetworkingSocketsListenSocketEvents {
    type V = SteamworksListenSocketEventsView;

    open spec fn view(&self) -> SteamworksListenSocketEventsView {
        SteamworksListenSocketEventsView {
            listen_socket: self.listen_socket,
            events: snapshot_views(self.events@),
        }
    }
}

impl SteamworksSnapshot for SteamworksNetworkingSocketsListenSocketEvents {
    fn snapshot(&self) -> (copy: Self) {
        SteamworksNetworkingSocketsListenSocketEvents {
            listen_socket: self.listen_socket,
            events: snapshot_all(&self.events),
        }
    }
}

impl SteamworksKeyedSnapshot for SteamworksNetworkingSocketsListenSocketEvents {
    open spec fn key_of(view: SteamworksListenSocketEventsView) -> u64 {
        view.listen_socket@
    }

    fn snapshot_key(&self) -> (key: u64) {
        self.listen_socket.raw()
    }
}

/// Connection event batch snapshot.
#[derive(Clone, Debug, PartialEq, Eq)]
pub struct SteamworksNetworkingSocketsConnectionEvents {
    /// Connection that was polled.
    pub connection: SteamworksNetworkingSocketsConnectionId,
    /// Events observed.
    pub events: Vec<SteamworksNetworkingSocketsConnectionEventInfo>,
    /// Whether a terminal event caused the plugin to remove this connection.
    pub connection_removed: bool,
}

/// Abstract value of a connection event batch.
pub struct SteamworksConnectionEventsView {
    /// Connection that was polled.
    pub connection: SteamworksNetworkingSocketsConnectionId,
    /// Events observed.
    pub events: Seq<SteamworksNetworkingSocketsConnectionEventInfo>,
    /// Whether a terminal event caused the plugin to remove this connection.
    pub connection_removed: bool,
}

impl View for SteamworksNetworkingSocketsConnectionEvents {
    type V = SteamworksConnectionEventsView;

    open spec fn view(&self) -> SteamworksConnectionEventsView {
        SteamworksConnectionEventsView {
            connection: self.connection,
            events: self.events@,
            connection_removed: self.connection_removed,
        }
    }
}

impl SteamworksSnapshot for SteamworksNetworkingSocketsConnectionEvents {
    fn snapshot(&self) -> (copy: Self) {
        let events = snapshot_all(&self.events);
        proof {
            assert(snapshot_views(events@).len() == events@.len());
            assert(snapshot_views(self.events@).len() == self.events@.len());
            assert forall|i: int| 0 <= i < events@.len() implies events@[i] == self.events@[i] by {
                assert(snapshot_views(events@)[i] == snapshot_views(self.events@)[i]);
            }
            assert(events@ =~= self.events@);
        }
        SteamworksNetworkingSocketsConnectionEvents {
            connection: self.connection,
            events,
            connection_removed: self.connection_removed,
        }
    }
}

impl SteamworksKeyedSnapshot for SteamworksNetworkingSocketsConnectionEvents {
    open spec fn key_of(view: SteamworksConnectionEventsView) -> u64 {
        view.connection@
    }

    fn snapshot_key(&self) -> (key: u64) {
        self.connection.raw()
    }
}

} // verus!

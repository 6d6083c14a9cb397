//! Plain-value descriptions of the Steam networking facts that the plugins
//! read and record.

use vstd::prelude::*;

verus! {

/// Availability of a Steam networking resource.
#[derive(Clone, Copy, Debug, PartialEq, Eq, Hash, Structural)]
pub enum SteamworksNetworkingAvailability {
    /// Steam has never checked or tried.
    NeverTried,
    /// Steam is waiting on a dependent resource.
    Waiting,
    /// Steam is actively trying, but is not yet successful.
    Attempting,
    /// The resource is online and available.
    Current,
}

/// Failure state of a Steam networking resource.
#[derive(Clone, Copy, Debug, PartialEq, Eq, Hash, Structural)]
pub enum SteamworksNetworkingAvailabilityError {
    /// Internal sentinel; the resource is probably not initialized yet.
    Unknown,
    /// A dependent resource is missing.
    CannotTry,
    /// Steam tried long enough and never succeeded.
    Failed,
    /// Steam succeeded once but now reports a problem.
    Previously,
    /// Steam previously failed and is retrying.
    Retrying,
}

/// Availability of a Steam networking resource, or why it is unavailable.
pub type SteamworksNetworkingAvailabilityResult = Result<
    SteamworksNetworkingAvailability,
    SteamworksNetworkingAvailabilityError,
>;

/// `Clone` of `Result`, which std implements by matching on the value: it
/// clones whichever side is present. vstd gives `Option`'s clone this contract but not `Result`'s.
pub assume_specification<T: Clone, E: Clone>[ <Result<T, E> as Clone>::clone ](result: &Result<T, E>) -> (copy: Result<T, E>)
    ensures
        match *result {
            Ok(value) => copy matches Ok(c) && cloned::<T>(value, c),
            Err(error) => copy matches Err(c) && cloned::<E>(error, c),
        },
;

/// High-level Steam connection state.
#[derive(Clone, Copy, Debug, PartialEq, Eq, Hash, Structural)]
pub enum SteamworksNetworkingConnectionState {
    /// No connection, or an error value from Steam.
    NoState,
    /// The peers are establishing whether they can and want to talk.
    Connecting,
    /// Steam is finding a route to the peer.
    FindingRoute,
    /// The connection is established.
    Connected,
    /// The remote peer closed the connection.
    ClosedByPeer,
    /// A local problem ended the connection.
    ProblemDetectedLocally,
}

/// Data type that a Steam networking configuration key expects.
#[derive(Clone, Copy, Debug, PartialEq, Eq, Hash, Structural)]
pub enum SteamworksNetworkingConfigDataType {
    /// 32-bit signed integer.
    Int32,
    /// 64-bit signed integer.
    Int64,
    /// 32-bit floating point value.
    Float,
    /// Text.
    String,
    /// Callback pointer.
    Callback,
}

/// Socket address used by IP listen sockets and IP connections.
#[derive(Clone, Copy, Debug, PartialEq, Eq, Hash, Structural)]
pub enum SteamworksSocketAddr {
    /// IPv4 address, most significant octet first, and port.
    V4 {
        /// Address octets packed big-endian.
        ip: u32,
        /// Port.
        port: u16,
    },
    /// IPv6 address, most significant segment first, and port.
    V6 {
        /// Address segments packed big-endian.
        ip: u128,
        /// Port.
        port: u16,
        /// IPv6 flow information.
        flowinfo: u32,
        /// IPv6 scope identifier.
        scope_id: u32,
    },
}

impl SteamworksSocketAddr {
    /// IPv4 socket address from packed octets and a port.
    pub fn v4(ip: u32, port: u16) -> (addr: Self)
        ensures
            addr == (SteamworksSocketAddr::V4 { ip, port }),
    {
        SteamworksSocketAddr::V4 { ip, port }
    }

    /// Port of this address.
    pub fn port(&self) -> (port: u16)
        ensures
            port == match *self {
                SteamworksSocketAddr::V4 { port, .. } => port,
                SteamworksSocketAddr::V6 { port, .. } => port,
            },
    {
        match self {
            SteamworksSocketAddr::V4 { port, .. } => *port,
            SteamworksSocketAddr::V6 { port, .. } => *port,
        }
    }
}

/// Identity of a networking peer as Steam reports it.
#[derive(Clone, Copy, Debug, PartialEq, Eq, Hash, Structural)]
pub enum SteamworksNetworkingIdentity {
    /// No identity, or an identity type that Steam does not describe.
    Invalid,
    /// A Steam user, by 64-bit Steam id.
    SteamId(u64),
    /// A peer known only by its IP address and port.
    IpAddress(SteamworksSocketAddr),
}

impl SteamworksNetworkingIdentity {
    /// Identity of the Steam user with the 64-bit id `steam_id`.
    pub fn new_steam_id(steam_id: u64) -> (identity: Self)
        ensures
            identity == SteamworksNetworkingIdentity::SteamId(steam_id),
    {
        SteamworksNetworkingIdentity::SteamId(steam_id)
    }

    /// Identity of the peer at `addr`.
    pub fn new_ip(addr: SteamworksSocketAddr) -> (identity: Self)
        ensures
            identity == SteamworksNetworkingIdentity::IpAddress(addr),
    {
        SteamworksNetworkingIdentity::IpAddress(addr)
    }

    /// The Steam id of this identity, if it names a Steam user.
    pub fn steam_id(&self) -> (steam_id: Option<u64>)
        ensures
            steam_id == match *self {
                SteamworksNetworkingIdentity::SteamId(id) => Some(id),
                _ => None,
            },
    {
        match self {
            SteamworksNetworkingIdentity::SteamId(id) => Some(*id),
            _ => None,
        }
    }
}

/// Delivery flags of an outgoing message, as Steam's bit set.
#[derive(Clone, Copy, Debug, PartialEq, Eq, Hash, Structural)]
pub struct SteamworksSendFlags {
    /// Raw flag bits.
    pub bits: i32,
}

/// Bit that asks Steam for reliable, in-order delivery.
pub const STEAMWORKS_SEND_RELIABLE_BIT: i32 = 8;

impl SteamworksSendFlags {
    /// Flags with the raw bits `bits`.
    pub fn from_bits(bits: i32) -> (flags: Self)
        ensures
            flags.bits == bits,
    {
        SteamworksSendFlags { bits }
    }

    /// Unreliable delivery with Nagle batching: no bit set.
    pub fn unreliable() -> (flags: Self)
        ensures
            flags.bits == 0,
    {
        SteamworksSendFlags { bits: 0 }
    }

    /// Reliable delivery with Nagle batching.
    pub fn reliable() -> (flags: Self)
        ensures
            flags.bits == STEAMWORKS_SEND_RELIABLE_BIT,
    {
        SteamworksSendFlags { bits: STEAMWORKS_SEND_RELIABLE_BIT }
    }

    /// Raw flag bits.
    pub fn bits(&self) -> (bits: i32)
        ensures
            bits == self.bits,
    {
        self.bits
    }
}

/// Reason a connection ended, as Steam's numeric end code.
#[derive(Clone, Copy, Debug, PartialEq, Eq, Hash, Structural)]
pub struct SteamworksNetConnectionEnd {
    /// Steam's end code.
    pub code: i32,
}

/// End code of the generic, normal application close.
pub const STEAMWORKS_APP_GENERIC_END_CODE: i32 = 1000;

impl SteamworksNetConnectionEnd {
    /// End reason with Steam's end code `code`.
    pub fn from_code(code: i32) -> (reason: Self)
        ensures
            reason.code == code,
    {
        SteamworksNetConnectionEnd { code }
    }

    /// The generic, normal application end reason.
    pub fn app_generic_normal() -> (reason: Self)
        ensures
            reason.code == STEAMWORKS_APP_GENERIC_END_CODE,
    {
        SteamworksNetConnectionEnd { code: STEAMWORKS_APP_GENERIC_END_CODE }
    }

    /// Steam's end code.
    pub fn code(&self) -> (code: i32)
        ensures
            code == self.code,
    {
        self.code
    }
}

/// Steam networking configuration key: Steam's numeric key and the data type
/// Steam assigns to it.
#[derive(Clone, Copy, Debug, PartialEq, Eq, Hash, Structural)]
pub struct SteamworksNetworkingConfigKey {
    /// Steam's numeric configuration key.
    pub key: i32,
    /// Data type Steam expects for the key.
    pub data_type: SteamworksNetworkingConfigDataType,
}

impl SteamworksNetworkingConfigKey {
    /// Key `key`, whose values have type `data_type`.
    pub fn new(key: i32, data_type: SteamworksNetworkingConfigDataType) -> (config_key: Self)
        ensures
            config_key == (SteamworksNetworkingConfigKey { key, data_type }),
    {
        SteamworksNetworkingConfigKey { key, data_type }
    }

    /// Data type Steam expects for this key.
    pub fn data_type(&self) -> (data_type: SteamworksNetworkingConfigDataType)
        ensures
            data_type == self.data_type,
    {
        self.data_type
    }
}

/// Error that a Steam API call returned, as Steam's numeric result code.
#[derive(Clone, Copy, Debug, PartialEq, Eq, Hash, Structural)]
pub struct SteamworksSteamError {
    /// Steam's result code.
    pub code: i32,
}

impl SteamworksSteamError {
    /// Error with Steam's result code `code`.
    pub fn from_code(code: i32) -> (error: Self)
        ensures
            error.code == code,
    {
        SteamworksSteamError { code }
    }

    /// Steam's result code.
    pub fn code(&self) -> (code: i32)
        ensures
            code == self.code,
    {
        self.code
    }
}

/// Steam's answer that a connection handle is no longer valid.
#[derive(Clone, Copy, Debug, PartialEq, Eq, Hash, Structural)]
pub struct SteamworksInvalidHandle;

/// Whether a connection state means that the connection has ended.
pub open spec fn connection_state_is_terminal(state: SteamworksNetworkingConnectionState) -> bool {
    state == SteamworksNetworkingConnectionState::ClosedByPeer
        || state == SteamworksNetworkingConnectionState::ProblemDetectedLocally
}

/// Returns whether `state` is a terminal connection state.
pub fn is_terminal_connection_state(state: SteamworksNetworkingConnectionState) -> (terminal: bool)
    ensures
        terminal == connection_state_is_terminal(state),
{
    match state {
        SteamworksNetworkingConnectionState::ClosedByPeer
        | SteamworksNetworkingConnectionState::ProblemDetectedLocally => true,
        _ => false,
    }
}

} // verus!

//! Verified core of a Bevy integration for the Steamworks SDK.

pub mod cache;
pub mod networking_types;

pub use networking_types::{
    SteamworksNetworkingAvailability, SteamworksNetworkingAvailabilityError,
    SteamworksNetworkingAvailabilityResult, SteamworksNetworkingConfigDataType,
    SteamworksNetworkingConfigKey, SteamworksNetworkingConnectionState,
    SteamworksNetworkingIdentity, SteamworksNetConnectionEnd, SteamworksInvalidHandle,
    SteamworksSendFlags, SteamworksSocketAddr, SteamworksSteamError,
    STEAMWORKS_APP_GENERIC_END_CODE, STEAMWORKS_SEND_RELIABLE_BIT,
};
pub mod networking_sockets;
pub mod networking_utils;
pub mod plugin;
pub mod plugin_groups;
pub mod registry;
pub mod remote_play;

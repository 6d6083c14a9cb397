use bevy_steamworks::networking_types::is_terminal_connection_state;
use bevy_steamworks::{
    SteamworksNetConnectionEnd, SteamworksNetworkingConfigDataType, SteamworksNetworkingConfigKey,
    SteamworksNetworkingConnectionState, SteamworksNetworkingIdentity, SteamworksSendFlags, SteamworksSocketAddr,
    SteamworksSteamError, STEAMWORKS_APP_GENERIC_END_CODE, STEAMWORKS_SEND_RELIABLE_BIT,
};

#[test]
fn send_flags_keep_their_bits() {
    assert_eq!(SteamworksSendFlags::unreliable().bits(), 0);
    assert_eq!(SteamworksSendFlags::reliable().bits(), 8);
    assert_eq!(STEAMWORKS_SEND_RELIABLE_BIT, 8);
    assert_eq!(SteamworksSendFlags::from_bits(9).bits(), 9);
    assert_ne!(SteamworksSendFlags::reliable(), SteamworksSendFlags::unreliable());
}

#[test]
fn end_reasons_keep_their_codes() {
    assert_eq!(SteamworksNetConnectionEnd::app_generic_normal().code(), 1000);
    assert_eq!(STEAMWORKS_APP_GENERIC_END_CODE, 1000);
    assert_eq!(SteamworksNetConnectionEnd::from_code(5003).code(), 5003);
}

#[test]
fn config_keys_keep_key_and_type() {
    let key = SteamworksNetworkingConfigKey::new(103, SteamworksNetworkingConfigDataType::String);
    assert_eq!(key.key, 103);
    assert_eq!(key.data_type(), SteamworksNetworkingConfigDataType::String);
    assert_eq!(SteamworksSteamError::from_code(11).code(), 11);
}

#[test]
fn identities_name_their_peer() {
    let user = SteamworksNetworkingIdentity::new_steam_id(76561197960265729);
    assert_eq!(user.steam_id(), Some(76561197960265729));
    let address = SteamworksSocketAddr::v4(0x7f00_0001, 27015);
    assert_eq!(address.port(), 27015);
    let peer = SteamworksNetworkingIdentity::new_ip(address);
    assert_eq!(peer.steam_id(), None);
    assert_eq!(peer, SteamworksNetworkingIdentity::IpAddress(address));
    assert_eq!(SteamworksNetworkingIdentity::Invalid.steam_id(), None);
}

#[test]
fn only_closed_and_failed_states_are_terminal() {
    assert!(is_terminal_connection_state(SteamworksNetworkingConnectionState::ClosedByPeer));
    assert!(is_terminal_connection_state(SteamworksNetworkingConnectionState::ProblemDetectedLocally));
    assert!(!is_terminal_connection_state(SteamworksNetworkingConnectionState::Connected));
    assert!(!is_terminal_connection_state(SteamworksNetworkingConnectionState::Connecting));
    assert!(!is_terminal_connection_state(SteamworksNetworkingConnectionState::FindingRoute));
    assert!(!is_terminal_connection_state(SteamworksNetworkingConnectionState::NoState));
}

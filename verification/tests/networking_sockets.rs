use bevy_steamworks::networking_sockets::{
    close_all_connections, close_all_listen_sockets, close_all_poll_groups, flush_all_messages,
    collect_connection_events, poll_all_connection_events, poll_all_listen_socket_events, poll_listen_socket_events,
    prepare_send_messages, SteamworksListenSocketIncoming, record_listen_socket_event, SteamworksListenSocketReport, receive_all_messages, receive_all_poll_group_messages, close_listen_socket, close_poll_group, connection_events_polled,
    connection_user_data_from_info_result, merge_send_outcomes, networking_sockets_owner,
    networking_sockets_owner_for, plan_networking_sockets_command,
    server_networking_sockets_owner, validate_command, SteamworksConnectionRequestPolicy,
    SteamworksListenSocketEventInfo, SteamworksListenSocketId,
    SteamworksNetworkingSocketsCommand, SteamworksNetworkingSocketsCommandPlan,
    SteamworksNetworkingSocketsConfigEntry, SteamworksNetworkingSocketsConnectionClosed,
    SteamworksNetworkingSocketsConnectionCreated, SteamworksNetworkingSocketsConnectionEventInfo,
    SteamworksNetworkingSocketsConnectionEvents, SteamworksNetworkingSocketsConnectionId,
    SteamworksNetworkingSocketsConnectionInfo, SteamworksNetworkingSocketsConnectionMessages,
    SteamworksNetworkingSocketsConnectionMetadata, SteamworksNetworkingSocketsConnectionName,
    SteamworksNetworkingSocketsConnectionTarget, SteamworksNetworkingSocketsConnectionUserData,
    SteamworksNetworkingSocketsError, SteamworksNetworkingSocketsHandleOwner,
    SteamworksNetworkingSocketsHandleStorage, SteamworksNetworkingSocketsLaneConfiguration,
    SteamworksNetworkingSocketsListenEndpoint, SteamworksNetworkingSocketsListenSocketClosed,
    SteamworksNetworkingSocketsListenSocketCreated, SteamworksNetworkingSocketsListenSocketEvents,
    SteamworksNetworkingSocketsMessage, SteamworksNetworkingSocketsMessageSendResult,
    SteamworksNetworkingSocketsOperation, SteamworksNetworkingSocketsOutboundMessage,
    SteamworksNetworkingSocketsPlugin, SteamworksNetworkingSocketsPollGroupAssignment,
    SteamworksNetworkingSocketsPollGroupId, SteamworksNetworkingSocketsPollGroupMessage,
    SteamworksNetworkingSocketsPollGroupMessages, SteamworksNetworkingSocketsRealtimeLaneStatus,
    SteamworksNetworkingSocketsRealtimeStatus, SteamworksNetworkingSocketsResult,
    SteamworksNetworkingSocketsSentMessage, SteamworksNetworkingSocketsState,
    STEAMWORKS_NETWORKING_SOCKETS_MAX_CONFIGURED_LANES, STEAMWORKS_NETWORKING_SOCKETS_MAX_CONFIG_ENTRIES,
    STEAMWORKS_NETWORKING_SOCKETS_MAX_EVENTS_PER_COMMAND, STEAMWORKS_NETWORKING_SOCKETS_MAX_MESSAGES_PER_COMMAND,
    STEAMWORKS_NETWORKING_SOCKETS_MAX_MESSAGE_BYTES, STEAMWORKS_NETWORKING_SOCKETS_MAX_REALTIME_LANES,
    STEAMWORKS_NETWORKING_SOCKETS_STATE_CACHE_LIMIT,
};
use bevy_steamworks::{
    SteamworksInvalidHandle, SteamworksNetConnectionEnd, SteamworksNetworkingAvailability,
    SteamworksNetworkingConfigDataType, SteamworksNetworkingConfigKey,
    SteamworksNetworkingConnectionState, SteamworksNetworkingIdentity, SteamworksSendFlags,
    SteamworksSocketAddr, SteamworksSteamError,
};

// Steam's numeric keys and result codes used below.
const IP_ALLOW_WITHOUT_AUTH: i32 = 23;
const FAKE_PACKET_LOSS_SEND: i32 = 2;
const P2P_STUN_SERVER_LIST: i32 = 103;
const RESULT_FAIL: i32 = 2;
const RESULT_INVALID_STATE: i32 = 11;

fn ip_allow_without_auth() -> SteamworksNetworkingConfigKey {
    SteamworksNetworkingConfigKey::new(IP_ALLOW_WITHOUT_AUTH, SteamworksNetworkingConfigDataType::Int32)
}

fn p2p_stun_server_list() -> SteamworksNetworkingConfigKey {
    SteamworksNetworkingConfigKey::new(P2P_STUN_SERVER_LIST, SteamworksNetworkingConfigDataType::String)
}

fn fake_packet_loss_send() -> SteamworksNetworkingConfigKey {
    SteamworksNetworkingConfigKey::new(FAKE_PACKET_LOSS_SEND, SteamworksNetworkingConfigDataType::Float)
}

type Storage = SteamworksNetworkingSocketsHandleStorage<(), (), ()>;

fn connection_id() -> SteamworksNetworkingSocketsConnectionId {
    SteamworksNetworkingSocketsConnectionId::from_raw(42)
}

fn listen_socket_id() -> SteamworksListenSocketId {
    SteamworksListenSocketId::from_raw(7)
}

fn poll_group_id() -> SteamworksNetworkingSocketsPollGroupId {
    SteamworksNetworkingSocketsPollGroupId::from_raw(9)
}

fn localhost() -> SteamworksSocketAddr {
    SteamworksSocketAddr::v4(0x7f00_0001, 27015)
}

fn peer() -> SteamworksNetworkingIdentity {
    SteamworksNetworkingIdentity::new_steam_id(76561197960265729)
}

fn no_auth_config() -> SteamworksNetworkingSocketsConfigEntry {
    SteamworksNetworkingSocketsConfigEntry::int32(ip_allow_without_auth(), 1)
}

fn generic_normal() -> SteamworksNetConnectionEnd {
    SteamworksNetConnectionEnd::app_generic_normal()
}

fn realtime(connection: SteamworksNetworkingSocketsConnectionId, ping: i32) -> SteamworksNetworkingSocketsRealtimeStatus {
    SteamworksNetworkingSocketsRealtimeStatus {
        connection,
        connection_state: SteamworksNetworkingConnectionState::Connected,
        ping,
        connection_quality_local_bits: 0.9f32.to_bits(),
        connection_quality_remote_bits: 0.8f32.to_bits(),
        out_packets_per_sec_bits: 1.0f32.to_bits(),
        out_bytes_per_sec_bits: 2.0f32.to_bits(),
        in_packets_per_sec_bits: 3.0f32.to_bits(),
        in_bytes_per_sec_bits: 4.0f32.to_bits(),
        send_rate_bytes_per_sec: 5,
        pending_unreliable: 6,
        pending_reliable: 7,
        sent_unacked_reliable: 8,
        queued_send_bytes: 9,
        lanes: Vec::new(),
    }
}

#[test]
fn plugin_name_matches_networking_sockets_type_path_for_bevy_tracking() {
    let plugin = SteamworksNetworkingSocketsPlugin::new();

    assert_eq!(plugin, SteamworksNetworkingSocketsPlugin);
    assert_eq!(format!("{plugin:?}"), "SteamworksNetworkingSocketsPlugin");
}

#[test]
fn commands_fail_when_client_is_unavailable() {
    let storage = Storage::new();
    let command = SteamworksNetworkingSocketsCommand::get_authentication_status();

    let planned = plan_networking_sockets_command(&command, false, false, &storage);
    assert!(matches!(planned, Err(SteamworksNetworkingSocketsError::ClientUnavailable)));

    let mut state = SteamworksNetworkingSocketsState::default();
    state.record_error(SteamworksNetworkingSocketsError::ClientUnavailable);
    assert_eq!(state.last_error(), Some(&SteamworksNetworkingSocketsError::ClientUnavailable));
}

#[test]
fn hosted_dedicated_server_listen_socket_requires_server() {
    let storage = Storage::new();
    let command = SteamworksNetworkingSocketsCommand::create_hosted_dedicated_server_listen_socket(27015);

    let planned = plan_networking_sockets_command(&command, true, false, &storage);
    assert!(matches!(planned, Err(SteamworksNetworkingSocketsError::ServerUnavailable)));
    let planned = plan_networking_sockets_command(&command, false, true, &storage);
    assert!(matches!(
        planned,
        Ok(SteamworksNetworkingSocketsCommandPlan::Interface(SteamworksNetworkingSocketsHandleOwner::Server))
    ));
}

#[test]
fn batch_send_still_requires_client_allocator() {
    let storage = Storage::new();
    let command = SteamworksNetworkingSocketsCommand::send_messages(vec![
        SteamworksNetworkingSocketsOutboundMessage::new(connection_id(), SteamworksSendFlags::reliable(), vec![1, 2, 3]),
    ]);

    let planned = plan_networking_sockets_command(&command, false, true, &storage);
    assert!(matches!(planned, Err(SteamworksNetworkingSocketsError::ClientUnavailable)));
}

#[test]
fn validation_rejects_invalid_inputs() {
    assert_eq!(
        validate_command(&SteamworksNetworkingSocketsCommand::poll_connection_events(connection_id(), 0)),
        Err(SteamworksNetworkingSocketsError::InvalidEventLimit)
    );
    assert_eq!(
        validate_command(&SteamworksNetworkingSocketsCommand::poll_all_listen_socket_events(
            0,
            SteamworksConnectionRequestPolicy::Accept,
        )),
        Err(SteamworksNetworkingSocketsError::InvalidEventLimit)
    );
    assert_eq!(
        validate_command(&SteamworksNetworkingSocketsCommand::poll_all_connection_events(0)),
        Err(SteamworksNetworkingSocketsError::InvalidEventLimit)
    );
    assert_eq!(
        validate_command(&SteamworksNetworkingSocketsCommand::poll_connection_events(
            connection_id(),
            STEAMWORKS_NETWORKING_SOCKETS_MAX_EVENTS_PER_COMMAND + 1,
        )),
        Err(SteamworksNetworkingSocketsError::TooManyEvents {
            requested: STEAMWORKS_NETWORKING_SOCKETS_MAX_EVENTS_PER_COMMAND + 1,
            max_supported: STEAMWORKS_NETWORKING_SOCKETS_MAX_EVENTS_PER_COMMAND,
        })
    );
    assert_eq!(
        validate_command(&SteamworksNetworkingSocketsCommand::poll_all_listen_socket_events(
            STEAMWORKS_NETWORKING_SOCKETS_MAX_EVENTS_PER_COMMAND + 1,
            SteamworksConnectionRequestPolicy::Accept,
        )),
        Err(SteamworksNetworkingSocketsError::TooManyEvents {
            requested: STEAMWORKS_NETWORKING_SOCKETS_MAX_EVENTS_PER_COMMAND + 1,
            max_supported: STEAMWORKS_NETWORKING_SOCKETS_MAX_EVENTS_PER_COMMAND,
        })
    );
    assert_eq!(
        validate_command(&SteamworksNetworkingSocketsCommand::poll_all_connection_events(
            STEAMWORKS_NETWORKING_SOCKETS_MAX_EVENTS_PER_COMMAND + 1,
        )),
        Err(SteamworksNetworkingSocketsError::TooManyEvents {
            requested: STEAMWORKS_NETWORKING_SOCKETS_MAX_EVENTS_PER_COMMAND + 1,
            max_supported: STEAMWORKS_NETWORKING_SOCKETS_MAX_EVENTS_PER_COMMAND,
        })
    );
    assert_eq!(
        validate_command(&SteamworksNetworkingSocketsCommand::receive_messages(connection_id(), 0)),
        Err(SteamworksNetworkingSocketsError::InvalidBatchSize)
    );
    assert_eq!(
        validate_command(&SteamworksNetworkingSocketsCommand::receive_all_messages(0)),
        Err(SteamworksNetworkingSocketsError::InvalidBatchSize)
    );
    assert_eq!(
        validate_command(&SteamworksNetworkingSocketsCommand::receive_messages(
            connection_id(),
            STEAMWORKS_NETWORKING_SOCKETS_MAX_MESSAGES_PER_COMMAND + 1,
        )),
        Err(SteamworksNetworkingSocketsError::BatchSizeTooLarge {
            requested: STEAMWORKS_NETWORKING_SOCKETS_MAX_MESSAGES_PER_COMMAND + 1,
            max_supported: STEAMWORKS_NETWORKING_SOCKETS_MAX_MESSAGES_PER_COMMAND,
        })
    );
    assert_eq!(
        validate_command(&SteamworksNetworkingSocketsCommand::receive_all_messages(
            STEAMWORKS_NETWORKING_SOCKETS_MAX_MESSAGES_PER_COMMAND + 1,
        )),
        Err(SteamworksNetworkingSocketsError::BatchSizeTooLarge {
            requested: STEAMWORKS_NETWORKING_SOCKETS_MAX_MESSAGES_PER_COMMAND + 1,
            max_supported: STEAMWORKS_NETWORKING_SOCKETS_MAX_MESSAGES_PER_COMMAND,
        })
    );
    assert_eq!(
        validate_command(&SteamworksNetworkingSocketsCommand::receive_poll_group_messages(poll_group_id(), 0)),
        Err(SteamworksNetworkingSocketsError::InvalidBatchSize)
    );
    assert_eq!(
        validate_command(&SteamworksNetworkingSocketsCommand::receive_all_poll_group_messages(0)),
        Err(SteamworksNetworkingSocketsError::InvalidBatchSize)
    );
    assert_eq!(
        validate_command(&SteamworksNetworkingSocketsCommand::receive_all_poll_group_messages(
            STEAMWORKS_NETWORKING_SOCKETS_MAX_MESSAGES_PER_COMMAND + 1,
        )),
        Err(SteamworksNetworkingSocketsError::BatchSizeTooLarge {
            requested: STEAMWORKS_NETWORKING_SOCKETS_MAX_MESSAGES_PER_COMMAND + 1,
            max_supported: STEAMWORKS_NETWORKING_SOCKETS_MAX_MESSAGES_PER_COMMAND,
        })
    );
    assert_eq!(
        validate_command(&SteamworksNetworkingSocketsCommand::send_message(
            connection_id(),
            SteamworksSendFlags::reliable(),
            vec![0; STEAMWORKS_NETWORKING_SOCKETS_MAX_MESSAGE_BYTES + 1],
        )),
        Err(SteamworksNetworkingSocketsError::MessageTooLarge {
            bytes: STEAMWORKS_NETWORKING_SOCKETS_MAX_MESSAGE_BYTES + 1,
            max_supported: STEAMWORKS_NETWORKING_SOCKETS_MAX_MESSAGE_BYTES,
        })
    );
    assert_eq!(
        validate_command(&SteamworksNetworkingSocketsCommand::send_messages(Vec::new())),
        Err(SteamworksNetworkingSocketsError::EmptyMessageBatch)
    );
    assert_eq!(
        validate_command(&SteamworksNetworkingSocketsCommand::send_messages(vec![
            SteamworksNetworkingSocketsOutboundMessage::new(
                connection_id(),
                SteamworksSendFlags::reliable(),
                Vec::new(),
            );
            STEAMWORKS_NETWORKING_SOCKETS_MAX_MESSAGES_PER_COMMAND + 1
        ])),
        Err(SteamworksNetworkingSocketsError::SendBatchTooLarge {
            requested: STEAMWORKS_NETWORKING_SOCKETS_MAX_MESSAGES_PER_COMMAND + 1,
            max_supported: STEAMWORKS_NETWORKING_SOCKETS_MAX_MESSAGES_PER_COMMAND,
        })
    );
    assert_eq!(
        validate_command(&SteamworksNetworkingSocketsCommand::send_messages(vec![
            SteamworksNetworkingSocketsOutboundMessage::new(
                connection_id(),
                SteamworksSendFlags::reliable(),
                vec![0; STEAMWORKS_NETWORKING_SOCKETS_MAX_MESSAGE_BYTES + 1],
            )
        ])),
        Err(SteamworksNetworkingSocketsError::MessageTooLarge {
            bytes: STEAMWORKS_NETWORKING_SOCKETS_MAX_MESSAGE_BYTES + 1,
            max_supported: STEAMWORKS_NETWORKING_SOCKETS_MAX_MESSAGE_BYTES,
        })
    );
    assert_eq!(
        validate_command(&SteamworksNetworkingSocketsCommand::send_messages(vec![
            SteamworksNetworkingSocketsOutboundMessage::new(connection_id(), SteamworksSendFlags::reliable(), Vec::new())
                .with_channel(-1)
        ])),
        Err(SteamworksNetworkingSocketsError::InvalidMessageChannel { channel: -1 })
    );
    assert_eq!(
        validate_command(&SteamworksNetworkingSocketsCommand::GetRealtimeConnectionStatus {
            connection: connection_id(),
            lanes: STEAMWORKS_NETWORKING_SOCKETS_MAX_REALTIME_LANES + 1,
        }),
        Err(SteamworksNetworkingSocketsError::InvalidLaneCount {
            lanes: STEAMWORKS_NETWORKING_SOCKETS_MAX_REALTIME_LANES + 1,
            max_supported: STEAMWORKS_NETWORKING_SOCKETS_MAX_REALTIME_LANES,
        })
    );
    assert_eq!(
        validate_command(&SteamworksNetworkingSocketsCommand::configure_connection_lanes(
            connection_id(),
            vec![0, 10],
            vec![100],
        )),
        Err(SteamworksNetworkingSocketsError::InvalidLaneConfiguration { priorities: 2, weights: 1 })
    );
    assert_eq!(
        validate_command(&SteamworksNetworkingSocketsCommand::configure_connection_lanes(
            connection_id(),
            Vec::new(),
            Vec::new(),
        )),
        Err(SteamworksNetworkingSocketsError::InvalidLaneConfiguration { priorities: 0, weights: 0 })
    );
    assert_eq!(
        validate_command(&SteamworksNetworkingSocketsCommand::configure_connection_lanes(
            connection_id(),
            vec![0; STEAMWORKS_NETWORKING_SOCKETS_MAX_CONFIGURED_LANES + 1],
            vec![100; STEAMWORKS_NETWORKING_SOCKETS_MAX_CONFIGURED_LANES + 1],
        )),
        Err(SteamworksNetworkingSocketsError::TooManyConfiguredLanes {
            requested: STEAMWORKS_NETWORKING_SOCKETS_MAX_CONFIGURED_LANES + 1,
            max_supported: STEAMWORKS_NETWORKING_SOCKETS_MAX_CONFIGURED_LANES,
        })
    );
    assert_eq!(
        validate_command(&SteamworksNetworkingSocketsCommand::create_listen_socket_ip_with_options(
            localhost(),
            vec![no_auth_config(); STEAMWORKS_NETWORKING_SOCKETS_MAX_CONFIG_ENTRIES + 1],
        )),
        Err(SteamworksNetworkingSocketsError::TooManyConfigEntries {
            requested: STEAMWORKS_NETWORKING_SOCKETS_MAX_CONFIG_ENTRIES + 1,
            max_supported: STEAMWORKS_NETWORKING_SOCKETS_MAX_CONFIG_ENTRIES,
        })
    );
    assert_eq!(
        validate_command(
            &SteamworksNetworkingSocketsCommand::create_hosted_dedicated_server_listen_socket_with_options(
                27015,
                vec![no_auth_config(); STEAMWORKS_NETWORKING_SOCKETS_MAX_CONFIG_ENTRIES + 1],
            )
        ),
        Err(SteamworksNetworkingSocketsError::TooManyConfigEntries {
            requested: STEAMWORKS_NETWORKING_SOCKETS_MAX_CONFIG_ENTRIES + 1,
            max_supported: STEAMWORKS_NETWORKING_SOCKETS_MAX_CONFIG_ENTRIES,
        })
    );
    assert_eq!(
        validate_command(&SteamworksNetworkingSocketsCommand::connect_by_ip_address_with_options(
            localhost(),
            vec![SteamworksNetworkingSocketsConfigEntry::int32(p2p_stun_server_list(), 1)],
        )),
        Err(SteamworksNetworkingSocketsError::InvalidConfigEntryType {
            index: 0,
            expected: SteamworksNetworkingConfigDataType::String,
            actual: SteamworksNetworkingConfigDataType::Int32,
        })
    );
    assert_eq!(
        validate_command(&SteamworksNetworkingSocketsCommand::connect_by_ip_address_with_options(
            localhost(),
            vec![SteamworksNetworkingSocketsConfigEntry::string(
                p2p_stun_server_list(),
                "bad\0server".to_owned(),
            )],
        )),
        Err(SteamworksNetworkingSocketsError::InvalidConfigString { index: 0 })
    );
    assert_eq!(
        validate_command(&SteamworksNetworkingSocketsCommand::connect_by_ip_address_with_options(
            localhost(),
            vec![SteamworksNetworkingSocketsConfigEntry::float_bits(
                fake_packet_loss_send(),
                f32::NAN.to_bits(),
            )],
        )),
        Err(SteamworksNetworkingSocketsError::InvalidConfigFloat { index: 0 })
    );
    assert_eq!(
        validate_command(&SteamworksNetworkingSocketsCommand::create_listen_socket_p2p(-1)),
        Err(SteamworksNetworkingSocketsError::InvalidVirtualPort { port: -1 })
    );
    assert_eq!(
        validate_command(&SteamworksNetworkingSocketsCommand::CloseConnection {
            connection: connection_id(),
            reason: generic_normal(),
            debug: Some("bad\0debug".to_owned()),
            enable_linger: false,
        }),
        Err(SteamworksNetworkingSocketsError::InvalidString { field: "debug" })
    );
    assert_eq!(
        validate_command(&SteamworksNetworkingSocketsCommand::close_all_connections_with_reason(
            generic_normal(),
            Some("bad\0debug".to_owned()),
            false,
        )),
        Err(SteamworksNetworkingSocketsError::InvalidString { field: "debug" })
    );
    assert_eq!(
        validate_command(&SteamworksNetworkingSocketsCommand::set_connection_name(
            connection_id(),
            "bad\0name".to_owned(),
        )),
        Err(SteamworksNetworkingSocketsError::InvalidString { field: "name" })
    );
}

#[test]
fn constructors_preserve_inputs() {
    let address = localhost();
    assert!(SteamworksNetworkingSocketsCommand::init_authentication() == SteamworksNetworkingSocketsCommand::InitAuthentication);
    assert!(
        SteamworksNetworkingSocketsCommand::get_authentication_status()
            == SteamworksNetworkingSocketsCommand::GetAuthenticationStatus
    );
    assert!(
        SteamworksNetworkingSocketsCommand::create_listen_socket_ip(address)
            == SteamworksNetworkingSocketsCommand::CreateListenSocketIp { local_address: address, options: Vec::new() }
    );
    assert!(
        SteamworksNetworkingSocketsCommand::connect_by_ip_address(address)
            == SteamworksNetworkingSocketsCommand::ConnectByIpAddress { address, options: Vec::new() }
    );
    assert!(
        SteamworksNetworkingSocketsCommand::create_listen_socket_ip_with_options(address, vec![no_auth_config()])
            == SteamworksNetworkingSocketsCommand::CreateListenSocketIp {
                local_address: address,
                options: vec![no_auth_config()],
            }
    );
    assert!(
        SteamworksNetworkingSocketsCommand::create_listen_socket_p2p_with_options(3, vec![no_auth_config()])
            == SteamworksNetworkingSocketsCommand::CreateListenSocketP2p {
                local_virtual_port: 3,
                options: vec![no_auth_config()],
            }
    );
    assert!(
        SteamworksNetworkingSocketsCommand::create_hosted_dedicated_server_listen_socket(27015)
            == SteamworksNetworkingSocketsCommand::CreateHostedDedicatedServerListenSocket {
                local_virtual_port: 27015,
                options: Vec::new(),
            }
    );
    assert!(
        SteamworksNetworkingSocketsCommand::create_hosted_dedicated_server_listen_socket_with_options(
            27015,
            vec![no_auth_config()],
        ) == SteamworksNetworkingSocketsCommand::CreateHostedDedicatedServerListenSocket {
            local_virtual_port: 27015,
            options: vec![no_auth_config()],
        }
    );
    assert!(
        SteamworksNetworkingSocketsCommand::connect_by_ip_address_with_options(address, vec![no_auth_config()])
            == SteamworksNetworkingSocketsCommand::ConnectByIpAddress { address, options: vec![no_auth_config()] }
    );
    assert!(
        SteamworksNetworkingSocketsCommand::poll_listen_socket_events(
            listen_socket_id(),
            8,
            SteamworksConnectionRequestPolicy::Accept,
        ) == SteamworksNetworkingSocketsCommand::PollListenSocketEvents {
            listen_socket: listen_socket_id(),
            max_events: 8,
            request_policy: SteamworksConnectionRequestPolicy::Accept,
        }
    );
    assert!(
        SteamworksNetworkingSocketsCommand::poll_all_listen_socket_events(8, SteamworksConnectionRequestPolicy::Accept)
            == SteamworksNetworkingSocketsCommand::PollAllListenSocketEvents {
                max_events_per_socket: 8,
                request_policy: SteamworksConnectionRequestPolicy::Accept,
            }
    );
    assert!(
        SteamworksNetworkingSocketsCommand::poll_all_connection_events(6)
            == SteamworksNetworkingSocketsCommand::PollAllConnectionEvents { max_events_per_connection: 6 }
    );
    assert!(SteamworksNetworkingSocketsCommand::create_poll_group() == SteamworksNetworkingSocketsCommand::CreatePollGroup);
    assert!(
        SteamworksNetworkingSocketsCommand::create_server_poll_group()
            == SteamworksNetworkingSocketsCommand::CreateServerPollGroup
    );
    assert!(
        SteamworksNetworkingSocketsCommand::get_connection_info(connection_id())
            == SteamworksNetworkingSocketsCommand::GetConnectionInfo { connection: connection_id() }
    );
    assert!(
        SteamworksNetworkingSocketsCommand::get_connection_user_data(connection_id())
            == SteamworksNetworkingSocketsCommand::GetConnectionUserData { connection: connection_id() }
    );
    assert!(
        SteamworksNetworkingSocketsCommand::get_realtime_connection_status(connection_id(), 4)
            == SteamworksNetworkingSocketsCommand::GetRealtimeConnectionStatus { connection: connection_id(), lanes: 4 }
    );
    assert!(
        SteamworksNetworkingSocketsCommand::receive_poll_group_messages(poll_group_id(), 16)
            == SteamworksNetworkingSocketsCommand::ReceivePollGroupMessages { poll_group: poll_group_id(), batch_size: 16 }
    );
    assert!(
        SteamworksNetworkingSocketsCommand::receive_all_messages(24)
            == SteamworksNetworkingSocketsCommand::ReceiveAllMessages { batch_size_per_connection: 24 }
    );
    assert!(
        SteamworksNetworkingSocketsCommand::receive_all_poll_group_messages(12)
            == SteamworksNetworkingSocketsCommand::ReceiveAllPollGroupMessages { batch_size_per_poll_group: 12 }
    );
    let outbound = SteamworksNetworkingSocketsOutboundMessage::new(connection_id(), SteamworksSendFlags::reliable(), vec![1, 2, 3])
        .with_channel(1)
        .with_user_data(99);
    assert!(
        SteamworksNetworkingSocketsCommand::send_messages(vec![outbound.clone()])
            == SteamworksNetworkingSocketsCommand::SendMessages { messages: vec![outbound] }
    );
    assert!(
        SteamworksNetworkingSocketsCommand::flush_messages(connection_id())
            == SteamworksNetworkingSocketsCommand::FlushMessages { connection: connection_id() }
    );
    assert!(SteamworksNetworkingSocketsCommand::flush_all_messages() == SteamworksNetworkingSocketsCommand::FlushAllMessages);
    assert!(
        SteamworksNetworkingSocketsCommand::set_connection_poll_group(connection_id(), poll_group_id())
            == SteamworksNetworkingSocketsCommand::SetConnectionPollGroup {
                connection: connection_id(),
                poll_group: poll_group_id(),
            }
    );
    assert!(
        SteamworksNetworkingSocketsCommand::clear_connection_poll_group(connection_id())
            == SteamworksNetworkingSocketsCommand::ClearConnectionPollGroup { connection: connection_id() }
    );
    assert!(
        SteamworksNetworkingSocketsCommand::configure_connection_lanes(connection_id(), vec![0, 10], vec![100, 20])
            == SteamworksNetworkingSocketsCommand::ConfigureConnectionLanes {
                connection: connection_id(),
                lane_priorities: vec![0, 10],
                lane_weights: vec![100, 20],
            }
    );
    assert!(
        SteamworksNetworkingSocketsCommand::set_connection_user_data(connection_id(), 11)
            == SteamworksNetworkingSocketsCommand::SetConnectionUserData { connection: connection_id(), user_data: 11 }
    );
    assert!(
        SteamworksNetworkingSocketsCommand::set_connection_name(connection_id(), "player-1".to_owned())
            == SteamworksNetworkingSocketsCommand::SetConnectionName {
                connection: connection_id(),
                name: "player-1".to_owned(),
            }
    );
    assert!(
        SteamworksNetworkingSocketsCommand::close_listen_socket(listen_socket_id())
            == SteamworksNetworkingSocketsCommand::CloseListenSocket { listen_socket: listen_socket_id() }
    );
    assert!(
        SteamworksNetworkingSocketsCommand::close_poll_group(poll_group_id())
            == SteamworksNetworkingSocketsCommand::ClosePollGroup { poll_group: poll_group_id() }
    );
    assert!(
        SteamworksNetworkingSocketsCommand::close_connection(connection_id())
            == SteamworksNetworkingSocketsCommand::CloseConnection {
                connection: connection_id(),
                reason: generic_normal(),
                debug: None,
                enable_linger: false,
            }
    );
    assert!(
        SteamworksNetworkingSocketsCommand::close_all_connections()
            == SteamworksNetworkingSocketsCommand::CloseAllConnections {
                reason: generic_normal(),
                debug: None,
                enable_linger: false,
            }
    );
    assert!(
        SteamworksNetworkingSocketsCommand::close_all_connections_with_reason(
            generic_normal(),
            Some("shutdown".to_owned()),
            true,
        ) == SteamworksNetworkingSocketsCommand::CloseAllConnections {
            reason: generic_normal(),
            debug: Some("shutdown".to_owned()),
            enable_linger: true,
        }
    );
    assert!(
        SteamworksNetworkingSocketsCommand::close_all_listen_sockets()
            == SteamworksNetworkingSocketsCommand::CloseAllListenSockets
    );
    assert!(
        SteamworksNetworkingSocketsCommand::close_all_poll_groups()
            == SteamworksNetworkingSocketsCommand::CloseAllPollGroups
    );
}

#[test]
fn bulk_commands_need_no_handles_and_find_none_in_empty_storage() {
    let storage = Storage::new();
    for command in [
        SteamworksNetworkingSocketsCommand::poll_all_listen_socket_events(4, SteamworksConnectionRequestPolicy::Accept),
        SteamworksNetworkingSocketsCommand::poll_all_connection_events(4),
        SteamworksNetworkingSocketsCommand::receive_all_messages(4),
        SteamworksNetworkingSocketsCommand::receive_all_poll_group_messages(4),
        SteamworksNetworkingSocketsCommand::flush_all_messages(),
        SteamworksNetworkingSocketsCommand::close_all_connections(),
        SteamworksNetworkingSocketsCommand::close_all_listen_sockets(),
        SteamworksNetworkingSocketsCommand::close_all_poll_groups(),
    ] {
        assert!(matches!(
            plan_networking_sockets_command(&command, false, false, &storage),
            Ok(SteamworksNetworkingSocketsCommandPlan::Handles)
        ));
    }
    assert!(storage.listen_socket_ids().is_empty());
    assert!(storage.connection_ids().is_empty());
    assert!(storage.poll_group_ids().is_empty());
}

fn no_listen_event(_: &()) -> Option<SteamworksListenSocketIncoming<(), ()>> {
    None
}

fn accept_nothing(_: ()) -> Result<(), SteamworksSteamError> {
    Ok(())
}

fn reject_nothing(_: (), _: SteamworksNetConnectionEnd, _: &Option<String>) -> bool {
    true
}

fn never_ended(_: &(), _: SteamworksNetConnectionEnd) -> bool {
    false
}

#[test]
fn bulk_operations_return_empty_batches_without_handles() {
    let mut storage = Storage::new();
    assert!(
        poll_all_listen_socket_events(
            &mut storage,
            4,
            &SteamworksConnectionRequestPolicy::Accept,
            &no_listen_event,
            &accept_nothing,
            &reject_nothing,
            &never_ended,
        )
        ==
        Ok(SteamworksNetworkingSocketsOperation::AllListenSocketEventsPolled { listen_sockets: Vec::new() })
    );
    assert!(
        poll_all_connection_events(&mut storage, |_, _: &()| Vec::new())
        ==
        SteamworksNetworkingSocketsOperation::AllConnectionEventsPolled { connections: Vec::new() }
    );
    assert!(
        receive_all_messages(&storage, |_, _: &()| Ok(Vec::new()))
        ==
        Ok(SteamworksNetworkingSocketsOperation::AllMessagesReceived { connections: Vec::new() })
    );
    assert!(
        receive_all_poll_group_messages(&storage, |_, _: &()| Vec::new())
        ==
        SteamworksNetworkingSocketsOperation::AllPollGroupMessagesReceived { poll_groups: Vec::new() }
    );
    assert!(
        flush_all_messages(&storage, |_: &()| Ok(()))
        ==
        Ok(SteamworksNetworkingSocketsOperation::AllMessagesFlushed { connections: Vec::new() })
    );
    assert!(
        close_all_connections(&mut storage, |_: ()| true)
        ==
        SteamworksNetworkingSocketsOperation::AllConnectionsClosed { connections: Vec::new() }
    );
    assert!(
        close_all_listen_sockets(&mut storage)
        ==
        SteamworksNetworkingSocketsOperation::AllListenSocketsClosed { listen_sockets: Vec::new() }
    );
    assert!(
        close_all_poll_groups(&mut storage)
        ==
        SteamworksNetworkingSocketsOperation::AllPollGroupsClosed { poll_groups: Vec::new() }
    );
}

#[test]
fn connection_event_collection_stops_after_a_terminal_state() {
    let pending = std::cell::RefCell::new(vec![
        (SteamworksNetworkingConnectionState::Connecting, SteamworksNetworkingConnectionState::Connected),
        (SteamworksNetworkingConnectionState::Connected, SteamworksNetworkingConnectionState::ClosedByPeer),
        (SteamworksNetworkingConnectionState::ClosedByPeer, SteamworksNetworkingConnectionState::NoState),
    ]);
    let next = || {
        let mut pending = pending.borrow_mut();
        if pending.is_empty() { None } else { Some(pending.remove(0)) }
    };
    let events = collect_connection_events(connection_id(), 8, next);
    assert_eq!(events.len(), 2);
    assert_eq!(events[1].new_state, SteamworksNetworkingConnectionState::ClosedByPeer);
    assert_eq!(events[0].connection, connection_id());
    assert_eq!(pending.borrow().len(), 1);

    let capped = collect_connection_events(connection_id(), 0, || {
        Some((SteamworksNetworkingConnectionState::Connecting, SteamworksNetworkingConnectionState::Connected))
    });
    assert!(capped.is_empty());
}

#[test]
fn listen_socket_polling_answers_requests_by_policy_and_takes_at_most_max_events() {
    let mut storage = Storage::new();
    let listen_socket = storage.insert_listen_socket((), SteamworksNetworkingSocketsHandleOwner::Client);
    let remote = peer();
    let requests = |_: &()| {
        Some(SteamworksListenSocketIncoming::<(), ()>::Request { remote: remote.clone(), user_data: 7, request: () })
    };
    let accepted = poll_listen_socket_events(
        &mut storage,
        listen_socket,
        2,
        &SteamworksConnectionRequestPolicy::Accept,
        &requests,
        &accept_nothing,
        &reject_nothing,
        &never_ended,
    )
    .expect("accepted requests");
    assert_eq!(accepted.len(), 2);
    assert!(accepted.iter().all(|event| matches!(event, SteamworksListenSocketEventInfo::ConnectionAccepted { user_data: 7, .. })));

    let policy = SteamworksConnectionRequestPolicy::Reject { reason: SteamworksNetConnectionEnd::app_generic_normal(), debug: None };
    let rejected = poll_listen_socket_events(&mut storage, listen_socket, 1, &policy, &requests, &accept_nothing, &reject_nothing, &never_ended)
        .expect("rejected requests");
    assert!(matches!(rejected.as_slice(), [SteamworksListenSocketEventInfo::ConnectionRejected { .. }]));

    let refused = poll_listen_socket_events(&mut storage, listen_socket, 1, &policy, &requests, &accept_nothing, &|_: (), _: SteamworksNetConnectionEnd, _: &Option<String>| false, &never_ended);
    assert_eq!(
        refused,
        Err(SteamworksNetworkingSocketsError::OperationFailed { operation: "listen_socket_event.connection_request.reject" })
    );

    let missing = SteamworksListenSocketId::from_raw(99);
    assert_eq!(
        poll_listen_socket_events(&mut storage, missing, 1, &policy, &no_listen_event, &accept_nothing, &reject_nothing, &never_ended),
        Err(SteamworksNetworkingSocketsError::ListenSocketNotFound { id: missing })
    );
    assert_eq!(
        poll_listen_socket_events(&mut storage, listen_socket, 3, &policy, &no_listen_event, &accept_nothing, &reject_nothing, &never_ended),
        Ok(Vec::new())
    );
}

#[test]
fn state_records_bulk_poll_operations() {
    let mut state = SteamworksNetworkingSocketsState::default();
    let listen_socket_events = SteamworksNetworkingSocketsListenSocketEvents {
        listen_socket: listen_socket_id(),
        events: Vec::new(),
    };
    let connection_events = SteamworksNetworkingSocketsConnectionEvents {
        connection: connection_id(),
        events: Vec::new(),
        connection_removed: false,
    };

    state.record_operation(&SteamworksNetworkingSocketsOperation::AllListenSocketEventsPolled {
        listen_sockets: vec![listen_socket_events.clone()],
    });
    state.record_operation(&SteamworksNetworkingSocketsOperation::AllConnectionEventsPolled {
        connections: vec![connection_events.clone()],
    });

    assert_eq!(state.last_listen_socket_events(), Some(&listen_socket_events));
    assert_eq!(state.last_connection_events(), Some(&connection_events));
}

#[test]
fn state_records_bulk_receive_operations() {
    let mut state = SteamworksNetworkingSocketsState::default();
    let message = SteamworksNetworkingSocketsMessage {
        connection: connection_id(),
        peer: peer(),
        data: vec![1, 2, 3],
        channel: 0,
        send_flags: SteamworksSendFlags::reliable(),
        message_number: 1,
        connection_user_data: 10,
    };
    let poll_group_message = SteamworksNetworkingSocketsPollGroupMessage {
        poll_group: poll_group_id(),
        peer: peer(),
        data: vec![4, 5],
        channel: 1,
        send_flags: SteamworksSendFlags::unreliable(),
        message_number: 2,
        connection_user_data: 11,
    };

    state.record_operation(&SteamworksNetworkingSocketsOperation::AllMessagesReceived {
        connections: vec![SteamworksNetworkingSocketsConnectionMessages {
            connection: connection_id(),
            messages: vec![message.clone()],
        }],
    });
    state.record_operation(&SteamworksNetworkingSocketsOperation::AllPollGroupMessagesReceived {
        poll_groups: vec![SteamworksNetworkingSocketsPollGroupMessages {
            poll_group: poll_group_id(),
            messages: vec![poll_group_message.clone()],
        }],
    });

    assert_eq!(state.received_count(), 2);
    assert!(state.last_received_messages() == [message].as_slice());
    assert!(state.last_poll_group_messages() == [poll_group_message].as_slice());
}

#[test]
fn state_lookup_caches_are_queryable_by_handle() {
    let mut state = SteamworksNetworkingSocketsState::default();
    let connection = connection_id();
    let listen_socket = listen_socket_id();
    let poll_group = poll_group_id();
    let listen_batch = SteamworksNetworkingSocketsListenSocketEvents {
        listen_socket,
        events: vec![SteamworksListenSocketEventInfo::ConnectionRejected {
            listen_socket,
            remote: peer(),
            user_data: 7,
        }],
    };
    let connection_batch = SteamworksNetworkingSocketsConnectionEvents {
        connection,
        events: vec![SteamworksNetworkingSocketsConnectionEventInfo {
            connection,
            new_state: SteamworksNetworkingConnectionState::Connected,
            old_state: SteamworksNetworkingConnectionState::Connecting,
        }],
        connection_removed: false,
    };
    let info = SteamworksNetworkingSocketsConnectionInfo {
        connection,
        state: SteamworksNetworkingConnectionState::Connected,
        remote: Some(peer()),
        user_data: 11,
        end_reason: None,
    };
    let status = realtime(connection, 12);
    let sent = SteamworksNetworkingSocketsMessageSendResult {
        connection,
        send_flags: SteamworksSendFlags::reliable(),
        channel: 1,
        bytes: 3,
        user_data: 4,
        result: Ok(5),
    };
    let received = SteamworksNetworkingSocketsMessage {
        connection,
        peer: peer(),
        data: vec![1, 2, 3],
        channel: 1,
        send_flags: SteamworksSendFlags::reliable(),
        message_number: 6,
        connection_user_data: 7,
    };
    let poll_group_message = SteamworksNetworkingSocketsPollGroupMessage {
        poll_group,
        peer: peer(),
        data: vec![4, 5],
        channel: 2,
        send_flags: SteamworksSendFlags::unreliable(),
        message_number: 8,
        connection_user_data: 9,
    };

    state.record_operation(&SteamworksNetworkingSocketsOperation::AllListenSocketEventsPolled {
        listen_sockets: vec![listen_batch.clone()],
    });
    state.record_operation(&SteamworksNetworkingSocketsOperation::AllConnectionEventsPolled {
        connections: vec![connection_batch.clone()],
    });
    state.record_operation(&SteamworksNetworkingSocketsOperation::ConnectionInfoRead { info: info.clone() });
    state.record_operation(&SteamworksNetworkingSocketsOperation::RealtimeConnectionStatusRead {
        status: status.clone(),
    });
    state.record_operation(&SteamworksNetworkingSocketsOperation::MessagesSent { messages: vec![sent] });
    state.record_operation(&SteamworksNetworkingSocketsOperation::AllMessagesReceived {
        connections: vec![SteamworksNetworkingSocketsConnectionMessages {
            connection,
            messages: vec![received.clone()],
        }],
    });
    state.record_operation(&SteamworksNetworkingSocketsOperation::AllPollGroupMessagesReceived {
        poll_groups: vec![SteamworksNetworkingSocketsPollGroupMessages {
            poll_group,
            messages: vec![poll_group_message.clone()],
        }],
    });

    assert_eq!(state.listen_socket_events(), &[listen_batch.clone()]);
    assert_eq!(state.listen_socket_event_batch(listen_socket), Some(&listen_batch));
    assert_eq!(state.connection_events(), &[connection_batch.clone()]);
    assert_eq!(state.connection_event_batch(connection), Some(&connection_batch));
    assert_eq!(state.connection_infos(), &[info.clone()]);
    assert_eq!(state.connection_info(connection), Some(&info));
    assert_eq!(state.realtime_statuses(), &[status.clone()]);
    assert_eq!(state.realtime_status(connection), Some(&status));
    assert_eq!(state.recent_sent_messages(), &[sent]);
    assert_eq!(state.sent_messages_for_connection(connection), vec![sent]);
    assert_eq!(state.last_sent_message_for_connection(connection), Some(&sent));
    assert!(state.recent_received_messages() == [received.clone()].as_slice());
    assert!(state.received_messages_for_connection(connection) == vec![received.clone()]);
    assert!(state.last_received_message_for_connection(connection) == Some(&received));
    assert!(state.recent_poll_group_messages() == [poll_group_message.clone()].as_slice());
    assert!(state.poll_group_messages(poll_group) == vec![poll_group_message.clone()]);
    assert!(state.last_poll_group_message(poll_group) == Some(&poll_group_message));

    state.record_operation(&SteamworksNetworkingSocketsOperation::ConnectionClosed {
        connection,
        close_succeeded: true,
    });
    state.record_operation(&SteamworksNetworkingSocketsOperation::ListenSocketClosed {
        listen_socket,
        closed_connections: Vec::new(),
    });
    state.record_operation(&SteamworksNetworkingSocketsOperation::PollGroupClosed { poll_group });

    assert_eq!(state.connection_info(connection), None);
    assert_eq!(state.realtime_status(connection), None);
    assert_eq!(state.connection_event_batch(connection), Some(&connection_batch));
    assert_eq!(state.listen_socket_event_batch(listen_socket), None);
    assert!(state.last_poll_group_message(poll_group).is_none());
}

#[test]
fn state_lookup_caches_are_bounded() {
    let mut state = SteamworksNetworkingSocketsState::default();

    for raw in 1..=(STEAMWORKS_NETWORKING_SOCKETS_STATE_CACHE_LIMIT as u64 + 1) {
        let connection = SteamworksNetworkingSocketsConnectionId::from_raw(raw);
        let listen_socket = SteamworksListenSocketId::from_raw(raw);
        let poll_group = SteamworksNetworkingSocketsPollGroupId::from_raw(raw);
        state.record_operation(&SteamworksNetworkingSocketsOperation::ListenSocketEventsPolled {
            listen_socket,
            events: Vec::new(),
        });
        state.record_operation(&SteamworksNetworkingSocketsOperation::ConnectionEventsPolled {
            connection,
            events: Vec::new(),
            connection_removed: false,
        });
        state.record_operation(&SteamworksNetworkingSocketsOperation::ConnectionInfoRead {
            info: SteamworksNetworkingSocketsConnectionInfo {
                connection,
                state: SteamworksNetworkingConnectionState::Connected,
                remote: Some(peer()),
                user_data: raw as i64,
                end_reason: None,
            },
        });
        state.record_operation(&SteamworksNetworkingSocketsOperation::RealtimeConnectionStatusRead {
            status: realtime(connection, raw as i32),
        });
        state.record_operation(&SteamworksNetworkingSocketsOperation::MessagesSent {
            messages: vec![SteamworksNetworkingSocketsMessageSendResult {
                connection,
                send_flags: SteamworksSendFlags::reliable(),
                channel: 0,
                bytes: raw as usize,
                user_data: 0,
                result: Ok(raw),
            }],
        });
        state.record_operation(&SteamworksNetworkingSocketsOperation::MessagesReceived {
            connection,
            messages: vec![SteamworksNetworkingSocketsMessage {
                connection,
                peer: peer(),
                data: vec![raw as u8],
                channel: 0,
                send_flags: SteamworksSendFlags::reliable(),
                message_number: raw,
                connection_user_data: 0,
            }],
        });
        state.record_operation(&SteamworksNetworkingSocketsOperation::PollGroupMessagesReceived {
            poll_group,
            messages: vec![SteamworksNetworkingSocketsPollGroupMessage {
                poll_group,
                peer: peer(),
                data: vec![raw as u8],
                channel: 0,
                send_flags: SteamworksSendFlags::unreliable(),
                message_number: raw,
                connection_user_data: 0,
            }],
        });
    }

    let first_connection = SteamworksNetworkingSocketsConnectionId::from_raw(1);
    let second_connection = SteamworksNetworkingSocketsConnectionId::from_raw(2);
    let first_listen_socket = SteamworksListenSocketId::from_raw(1);
    let second_listen_socket = SteamworksListenSocketId::from_raw(2);
    let first_poll_group = SteamworksNetworkingSocketsPollGroupId::from_raw(1);
    let second_poll_group = SteamworksNetworkingSocketsPollGroupId::from_raw(2);

    assert_eq!(state.listen_socket_events().len(), STEAMWORKS_NETWORKING_SOCKETS_STATE_CACHE_LIMIT);
    assert_eq!(state.connection_events().len(), STEAMWORKS_NETWORKING_SOCKETS_STATE_CACHE_LIMIT);
    assert_eq!(state.connection_infos().len(), STEAMWORKS_NETWORKING_SOCKETS_STATE_CACHE_LIMIT);
    assert_eq!(state.realtime_statuses().len(), STEAMWORKS_NETWORKING_SOCKETS_STATE_CACHE_LIMIT);
    assert_eq!(state.recent_sent_messages().len(), STEAMWORKS_NETWORKING_SOCKETS_STATE_CACHE_LIMIT);
    assert_eq!(state.recent_received_messages().len(), STEAMWORKS_NETWORKING_SOCKETS_STATE_CACHE_LIMIT);
    assert_eq!(state.recent_poll_group_messages().len(), STEAMWORKS_NETWORKING_SOCKETS_STATE_CACHE_LIMIT);
    assert_eq!(state.listen_socket_event_batch(first_listen_socket), None);
    assert_eq!(state.connection_event_batch(first_connection), None);
    assert_eq!(state.connection_info(first_connection), None);
    assert_eq!(state.realtime_status(first_connection), None);
    assert_eq!(state.last_sent_message_for_connection(first_connection), None);
    assert!(state.last_received_message_for_connection(first_connection).is_none());
    assert!(state.last_poll_group_message(first_poll_group).is_none());
    assert!(state.listen_socket_event_batch(second_listen_socket).is_some());
    assert!(state.connection_event_batch(second_connection).is_some());
    assert!(state.connection_info(second_connection).is_some());
    assert!(state.realtime_status(second_connection).is_some());
    assert!(state.last_sent_message_for_connection(second_connection).is_some());
    assert!(state.last_received_message_for_connection(second_connection).is_some());
    assert!(state.last_poll_group_message(second_poll_group).is_some());
}

#[test]
fn state_records_bulk_flush_operation() {
    let mut state = SteamworksNetworkingSocketsState::default();
    let first = SteamworksNetworkingSocketsConnectionId::from_raw(1);
    let second = SteamworksNetworkingSocketsConnectionId::from_raw(2);

    state.record_operation(&SteamworksNetworkingSocketsOperation::AllMessagesFlushed {
        connections: vec![first, second],
    });

    assert_eq!(state.last_flushed_connection(), Some(second));
}

#[test]
fn state_records_bulk_close_operations() {
    let mut state = SteamworksNetworkingSocketsState::default();
    let first = SteamworksNetworkingSocketsConnectionId::from_raw(1);
    let second = SteamworksNetworkingSocketsConnectionId::from_raw(2);
    let first_listen = SteamworksListenSocketId::from_raw(3);
    let second_listen = SteamworksListenSocketId::from_raw(4);
    let first_poll_group = SteamworksNetworkingSocketsPollGroupId::from_raw(5);
    let second_poll_group = SteamworksNetworkingSocketsPollGroupId::from_raw(6);

    state.record_operation(&SteamworksNetworkingSocketsOperation::AllConnectionsClosed {
        connections: vec![
            SteamworksNetworkingSocketsConnectionClosed { connection: first, close_succeeded: true },
            SteamworksNetworkingSocketsConnectionClosed { connection: second, close_succeeded: false },
        ],
    });
    state.record_operation(&SteamworksNetworkingSocketsOperation::AllListenSocketsClosed {
        listen_sockets: vec![
            SteamworksNetworkingSocketsListenSocketClosed { listen_socket: first_listen, closed_connections: vec![first] },
            SteamworksNetworkingSocketsListenSocketClosed { listen_socket: second_listen, closed_connections: vec![second] },
        ],
    });
    state.record_operation(&SteamworksNetworkingSocketsOperation::AllPollGroupsClosed {
        poll_groups: vec![first_poll_group, second_poll_group],
    });

    assert_eq!(
        state.last_closed_connection(),
        Some(&SteamworksNetworkingSocketsConnectionClosed { connection: second, close_succeeded: false })
    );
    assert_eq!(
        state.last_closed_listen_socket(),
        Some(&SteamworksNetworkingSocketsListenSocketClosed {
            listen_socket: second_listen,
            closed_connections: vec![second],
        })
    );
    assert_eq!(state.last_closed_poll_group(), Some(second_poll_group));
}

#[test]
fn state_records_operations_without_unbounded_message_history() {
    let mut state = SteamworksNetworkingSocketsState::default();
    let endpoint = SteamworksNetworkingSocketsListenEndpoint::Ip(localhost());
    let target = SteamworksNetworkingSocketsConnectionTarget::Ip(localhost());
    let listen_event = SteamworksListenSocketEventInfo::ConnectionRejected {
        listen_socket: listen_socket_id(),
        remote: peer(),
        user_data: 17,
    };
    let connection_event = SteamworksNetworkingSocketsConnectionEventInfo {
        connection: connection_id(),
        new_state: SteamworksNetworkingConnectionState::ClosedByPeer,
        old_state: SteamworksNetworkingConnectionState::Connecting,
    };
    let info = SteamworksNetworkingSocketsConnectionInfo {
        connection: connection_id(),
        state: SteamworksNetworkingConnectionState::Connected,
        remote: Some(peer()),
        user_data: 21,
        end_reason: None,
    };
    let realtime_status = SteamworksNetworkingSocketsRealtimeStatus {
        connection: connection_id(),
        connection_state: SteamworksNetworkingConnectionState::Connected,
        ping: 42,
        connection_quality_local_bits: 0.95f32.to_bits(),
        connection_quality_remote_bits: 0.9f32.to_bits(),
        out_packets_per_sec_bits: 10.0f32.to_bits(),
        out_bytes_per_sec_bits: 1000.0f32.to_bits(),
        in_packets_per_sec_bits: 11.0f32.to_bits(),
        in_bytes_per_sec_bits: 1100.0f32.to_bits(),
        send_rate_bytes_per_sec: 1200,
        pending_unreliable: 1,
        pending_reliable: 2,
        sent_unacked_reliable: 3,
        queued_send_bytes: 4,
        lanes: vec![SteamworksNetworkingSocketsRealtimeLaneStatus {
            pending_unreliable: 5,
            pending_reliable: 6,
            sent_unacked_reliable: 7,
            queued_send_bytes: 8,
        }],
    };

    state.record_operation(&SteamworksNetworkingSocketsOperation::AuthenticationInitialized {
        availability: Ok(SteamworksNetworkingAvailability::Attempting),
    });
    state.record_operation(&SteamworksNetworkingSocketsOperation::AuthenticationStatusRead {
        availability: Ok(SteamworksNetworkingAvailability::Current),
    });
    state.record_operation(&SteamworksNetworkingSocketsOperation::ListenSocketCreated {
        listen_socket: listen_socket_id(),
        endpoint,
    });
    state.record_operation(&SteamworksNetworkingSocketsOperation::ConnectionCreated {
        connection: connection_id(),
        target: target.clone(),
    });
    state.record_operation(&SteamworksNetworkingSocketsOperation::PollGroupCreated { poll_group: poll_group_id() });
    state.record_operation(&SteamworksNetworkingSocketsOperation::ListenSocketEventsPolled {
        listen_socket: listen_socket_id(),
        events: vec![listen_event.clone()],
    });
    state.record_operation(&SteamworksNetworkingSocketsOperation::ConnectionEventsPolled {
        connection: connection_id(),
        events: vec![connection_event],
        connection_removed: true,
    });
    state.record_operation(&SteamworksNetworkingSocketsOperation::ConnectionInfoRead { info: info.clone() });
    state.record_operation(&SteamworksNetworkingSocketsOperation::ConnectionUserDataRead {
        connection: connection_id(),
        user_data: 122,
    });
    state.record_operation(&SteamworksNetworkingSocketsOperation::RealtimeConnectionStatusRead {
        status: realtime_status.clone(),
    });
    let first = SteamworksNetworkingSocketsMessage {
        connection: connection_id(),
        peer: peer(),
        data: vec![1],
        channel: 0,
        send_flags: SteamworksSendFlags::reliable(),
        message_number: 1,
        connection_user_data: 0,
    };
    let second = SteamworksNetworkingSocketsMessage {
        data: vec![2, 3],
        message_number: 2,
        ..first.clone()
    };

    state.record_operation(&SteamworksNetworkingSocketsOperation::MessagesReceived {
        connection: connection_id(),
        messages: vec![first],
    });
    state.record_operation(&SteamworksNetworkingSocketsOperation::MessagesReceived {
        connection: connection_id(),
        messages: vec![second.clone()],
    });
    let poll_group_message = SteamworksNetworkingSocketsPollGroupMessage {
        poll_group: poll_group_id(),
        peer: peer(),
        data: vec![9],
        channel: 1,
        send_flags: SteamworksSendFlags::unreliable(),
        message_number: 4,
        connection_user_data: 99,
    };
    state.record_operation(&SteamworksNetworkingSocketsOperation::PollGroupMessagesReceived {
        poll_group: poll_group_id(),
        messages: vec![poll_group_message.clone()],
    });
    state.record_operation(&SteamworksNetworkingSocketsOperation::MessageSent {
        connection: connection_id(),
        message_number: 3,
        bytes: 2,
    });
    let send_results = vec![
        SteamworksNetworkingSocketsMessageSendResult {
            connection: connection_id(),
            send_flags: SteamworksSendFlags::reliable(),
            channel: 1,
            bytes: 4,
            user_data: 10,
            result: Ok(5),
        },
        SteamworksNetworkingSocketsMessageSendResult {
            connection: connection_id(),
            send_flags: SteamworksSendFlags::unreliable(),
            channel: 2,
            bytes: 6,
            user_data: 11,
            result: Err(SteamworksSteamError::from_code(RESULT_INVALID_STATE)),
        },
    ];
    state.record_operation(&SteamworksNetworkingSocketsOperation::MessagesSent { messages: send_results.clone() });
    state.record_operation(&SteamworksNetworkingSocketsOperation::MessagesFlushed { connection: connection_id() });
    state.record_operation(&SteamworksNetworkingSocketsOperation::ConnectionPollGroupSet {
        connection: connection_id(),
        poll_group: poll_group_id(),
    });
    state.record_operation(&SteamworksNetworkingSocketsOperation::ConnectionPollGroupCleared {
        connection: connection_id(),
    });
    state.record_operation(&SteamworksNetworkingSocketsOperation::ConnectionLanesConfigured {
        connection: connection_id(),
        lanes: 2,
    });
    state.record_operation(&SteamworksNetworkingSocketsOperation::ConnectionUserDataSet {
        connection: connection_id(),
        user_data: 123,
    });
    state.record_operation(&SteamworksNetworkingSocketsOperation::ConnectionNameSet {
        connection: connection_id(),
        name: "player-1".to_owned(),
    });
    state.record_operation(&SteamworksNetworkingSocketsOperation::ConnectionClosed {
        connection: connection_id(),
        close_succeeded: false,
    });
    state.record_operation(&SteamworksNetworkingSocketsOperation::ListenSocketClosed {
        listen_socket: listen_socket_id(),
        closed_connections: vec![connection_id()],
    });
    state.record_operation(&SteamworksNetworkingSocketsOperation::PollGroupClosed { poll_group: poll_group_id() });

    assert_eq!(state.last_authentication_status(), Some(&Ok(SteamworksNetworkingAvailability::Current)));
    assert_eq!(
        state.last_created_listen_socket(),
        Some(&SteamworksNetworkingSocketsListenSocketCreated { listen_socket: listen_socket_id(), endpoint })
    );
    assert_eq!(
        state.last_created_connection(),
        Some(&SteamworksNetworkingSocketsConnectionCreated { connection: connection_id(), target })
    );
    assert_eq!(state.last_created_poll_group(), Some(poll_group_id()));
    assert_eq!(
        state.last_listen_socket_events(),
        Some(&SteamworksNetworkingSocketsListenSocketEvents {
            listen_socket: listen_socket_id(),
            events: vec![listen_event],
        })
    );
    assert_eq!(
        state.last_connection_events(),
        Some(&SteamworksNetworkingSocketsConnectionEvents {
            connection: connection_id(),
            events: vec![connection_event],
            connection_removed: true,
        })
    );
    assert_eq!(state.last_connection_info(), Some(&info));
    assert_eq!(state.last_realtime_status(), Some(&realtime_status));
    assert_eq!(state.received_count(), 3);
    assert_eq!(state.sent_count(), 2);
    assert_eq!(
        state.last_sent_message(),
        Some(&SteamworksNetworkingSocketsSentMessage { connection: connection_id(), message_number: 3, bytes: 2 })
    );
    assert_eq!(state.last_sent_messages(), send_results.as_slice());
    assert!(state.last_received_messages() == [second].as_slice());
    assert!(state.last_poll_group_messages() == [poll_group_message].as_slice());
    assert_eq!(state.last_flushed_connection(), Some(connection_id()));
    assert_eq!(
        state.last_connection_poll_group_set(),
        Some(&SteamworksNetworkingSocketsPollGroupAssignment { connection: connection_id(), poll_group: poll_group_id() })
    );
    assert_eq!(state.last_connection_poll_group_cleared(), Some(connection_id()));
    assert_eq!(
        state.last_connection_lanes_configured(),
        Some(&SteamworksNetworkingSocketsLaneConfiguration { connection: connection_id(), lanes: 2 })
    );
    assert_eq!(
        state.last_connection_user_data(),
        Some(&SteamworksNetworkingSocketsConnectionUserData { connection: connection_id(), user_data: 123 })
    );
    assert!(
        state.last_connection_name()
            == Some(&SteamworksNetworkingSocketsConnectionName {
                connection: connection_id(),
                name: "player-1".to_owned(),
            })
    );
    assert_eq!(
        state.last_closed_connection(),
        Some(&SteamworksNetworkingSocketsConnectionClosed { connection: connection_id(), close_succeeded: false })
    );
    assert_eq!(
        state.last_closed_listen_socket(),
        Some(&SteamworksNetworkingSocketsListenSocketClosed {
            listen_socket: listen_socket_id(),
            closed_connections: vec![connection_id()],
        })
    );
    assert_eq!(state.last_closed_poll_group(), Some(poll_group_id()));
}

#[test]
fn id_round_trips_raw_values() {
    assert_eq!(SteamworksListenSocketId::from_raw(5).raw(), 5);
    assert_eq!(SteamworksNetworkingSocketsConnectionId::from_raw(6).raw(), 6);
    assert_eq!(SteamworksNetworkingSocketsPollGroupId::from_raw(8).raw(), 8);
}

#[test]
fn handle_storage_starts_ids_at_one() {
    let mut storage = Storage::new();

    assert_eq!(storage.insert_listen_socket((), SteamworksNetworkingSocketsHandleOwner::Client).raw(), 1);
    assert_eq!(
        storage
            .insert_connection((), SteamworksNetworkingSocketsConnectionMetadata::independent(), SteamworksNetworkingSocketsHandleOwner::Client)
            .raw(),
        1
    );
    assert_eq!(storage.insert_poll_group((), SteamworksNetworkingSocketsHandleOwner::Client).raw(), 1);
}

#[test]
fn handle_storage_hands_out_ascending_ids() {
    let mut storage = Storage::new();
    let first = storage.insert_connection((), SteamworksNetworkingSocketsConnectionMetadata::independent(), SteamworksNetworkingSocketsHandleOwner::Client);
    let second = storage.insert_connection((), SteamworksNetworkingSocketsConnectionMetadata::independent(), SteamworksNetworkingSocketsHandleOwner::Server);
    let third = storage.insert_connection((), SteamworksNetworkingSocketsConnectionMetadata::independent(), SteamworksNetworkingSocketsHandleOwner::Client);

    assert_eq!((first.raw(), second.raw(), third.raw()), (1, 2, 3));
    assert!(storage.remove_connection(second).is_some());
    assert_eq!(storage.connection_ids(), vec![1, 3]);
    let fourth = storage.insert_connection((), SteamworksNetworkingSocketsConnectionMetadata::independent(), SteamworksNetworkingSocketsHandleOwner::Client);
    assert_eq!(fourth.raw(), 4);
    assert_eq!(storage.connection_ids(), vec![1, 3, 4]);
    assert_eq!(storage.connection_count(), 3);
}

#[test]
fn handle_storage_tracks_and_clears_handle_owners() {
    let mut storage = Storage::new();
    let listen_socket = storage.insert_listen_socket((), SteamworksNetworkingSocketsHandleOwner::Server);
    let connection = storage.insert_connection(
        (),
        SteamworksNetworkingSocketsConnectionMetadata::listen_socket(listen_socket, peer(), 0),
        SteamworksNetworkingSocketsHandleOwner::Server,
    );
    let poll_group = storage.insert_poll_group((), SteamworksNetworkingSocketsHandleOwner::Server);

    assert_eq!(storage.listen_socket_owner(listen_socket), Some(SteamworksNetworkingSocketsHandleOwner::Server));
    assert_eq!(storage.connection_owner(connection), Some(SteamworksNetworkingSocketsHandleOwner::Server));
    assert_eq!(storage.poll_group_owner(poll_group), Some(SteamworksNetworkingSocketsHandleOwner::Server));

    assert!(storage.remove_connection(connection).is_some());
    assert_eq!(storage.connection_owner(connection), None);
    assert!(storage.connection(connection).is_none());
    assert!(storage.remove_connection(connection).is_none());
}

#[test]
fn connection_user_data_read_preserves_unset_sentinel() {
    assert_eq!(connection_user_data_from_info_result(Ok(-1)), Ok(-1));
    assert_eq!(connection_user_data_from_info_result(Ok(123)), Ok(123));
    assert_eq!(
        connection_user_data_from_info_result(Err(SteamworksInvalidHandle)),
        Err(SteamworksNetworkingSocketsError::InvalidHandle { operation: "net_connection.info" })
    );
}

#[test]
fn batch_send_checks_client_allocator_before_server_owned_connections() {
    let mut storage = Storage::new();
    let connection = storage.insert_connection(
        (),
        SteamworksNetworkingSocketsConnectionMetadata::independent(),
        SteamworksNetworkingSocketsHandleOwner::Server,
    );
    let command = SteamworksNetworkingSocketsCommand::send_messages(vec![
        SteamworksNetworkingSocketsOutboundMessage::new(connection, SteamworksSendFlags::reliable(), vec![1, 2, 3]),
    ]);

    assert!(matches!(
        plan_networking_sockets_command(&command, false, false, &storage),
        Err(SteamworksNetworkingSocketsError::ClientUnavailable)
    ));
    assert!(matches!(
        plan_networking_sockets_command(&command, true, false, &storage),
        Ok(SteamworksNetworkingSocketsCommandPlan::SendMessages)
    ));
    let SteamworksNetworkingSocketsCommand::SendMessages { messages } = command else {
        panic!("expected a batch send");
    };
    assert!(matches!(
        prepare_send_messages(false, &storage, &messages, |_: &(), m: &SteamworksNetworkingSocketsOutboundMessage| Ok::<usize, SteamworksNetworkingSocketsError>(m.data.len())),
        Err(SteamworksNetworkingSocketsError::ServerUnavailable)
    ));
    let (owners, allocated) =
        prepare_send_messages(true, &storage, &messages, |_: &(), m: &SteamworksNetworkingSocketsOutboundMessage| Ok::<usize, SteamworksNetworkingSocketsError>(m.data.len()))
            .expect("a prepared batch");
    assert_eq!(owners, vec![SteamworksNetworkingSocketsHandleOwner::Server]);
    assert_eq!(allocated, vec![3]);
}

#[test]
fn batch_send_reports_an_allocation_failure_before_a_later_unknown_connection() {
    let mut storage = Storage::new();
    let connection = storage.insert_connection(
        (),
        SteamworksNetworkingSocketsConnectionMetadata::independent(),
        SteamworksNetworkingSocketsHandleOwner::Client,
    );
    let messages = vec![
        SteamworksNetworkingSocketsOutboundMessage::new(connection, SteamworksSendFlags::reliable(), vec![1]),
        SteamworksNetworkingSocketsOutboundMessage::new(
            SteamworksNetworkingSocketsConnectionId::from_raw(99),
            SteamworksSendFlags::reliable(),
            vec![2],
        ),
    ];
    let refused = prepare_send_messages(true, &storage, &messages, |_: &(), _: &SteamworksNetworkingSocketsOutboundMessage| {
        Err::<(), SteamworksNetworkingSocketsError>(SteamworksNetworkingSocketsError::MessageError {
            operation: "networking_utils.allocate_message.copy_data_into_buffer",
            message: String::from("full"),
        })
    });
    assert!(matches!(refused, Err(SteamworksNetworkingSocketsError::MessageError { .. })));
    let unknown = prepare_send_messages(true, &storage, &messages, |_: &(), _: &SteamworksNetworkingSocketsOutboundMessage| {
        Ok::<(), SteamworksNetworkingSocketsError>(())
    });
    assert!(matches!(
        unknown,
        Err(SteamworksNetworkingSocketsError::ConnectionNotFound { id }) if id == SteamworksNetworkingSocketsConnectionId::from_raw(99)
    ));
}

#[test]
fn poll_group_assignment_rejects_mismatched_handle_owners() {
    let mut storage = Storage::new();
    let connection = storage.insert_connection(
        (),
        SteamworksNetworkingSocketsConnectionMetadata::independent(),
        SteamworksNetworkingSocketsHandleOwner::Server,
    );
    let poll_group = storage.insert_poll_group((), SteamworksNetworkingSocketsHandleOwner::Client);
    let command = SteamworksNetworkingSocketsCommand::set_connection_poll_group(connection, poll_group);

    assert!(matches!(
        plan_networking_sockets_command(&command, false, false, &storage),
        Err(SteamworksNetworkingSocketsError::HandleOwnerMismatch { connection: c, poll_group: p })
            if c == connection && p == poll_group
    ));
}

#[test]
fn connection_metadata_tracks_poll_group_membership() {
    let mut storage = Storage::new();
    let connection = storage.insert_connection(
        (),
        SteamworksNetworkingSocketsConnectionMetadata::independent(),
        SteamworksNetworkingSocketsHandleOwner::Client,
    );

    storage.set_connection_poll_group(connection, poll_group_id());
    assert_eq!(storage.connection(connection).and_then(|e| e.metadata.poll_group), Some(poll_group_id()));

    storage.clear_connection_poll_group(connection);
    assert_eq!(storage.connection(connection).and_then(|e| e.metadata.poll_group), None);
}

#[test]
fn poll_group_metadata_cleanup_clears_all_matching_connections() {
    let mut storage = Storage::new();
    let other_poll_group = SteamworksNetworkingSocketsPollGroupId::from_raw(10);
    let mut ids = Vec::new();
    for _ in 0..3 {
        ids.push(storage.insert_connection(
            (),
            SteamworksNetworkingSocketsConnectionMetadata::independent(),
            SteamworksNetworkingSocketsHandleOwner::Client,
        ));
    }
    let (first, second, other) = (ids[0], ids[1], ids[2]);
    storage.set_connection_poll_group(first, poll_group_id());
    storage.set_connection_poll_group(second, poll_group_id());
    storage.set_connection_poll_group(other, other_poll_group);

    assert_eq!(storage.clear_poll_group_metadata(poll_group_id()), 2);
    assert_eq!(storage.connection(first).and_then(|e| e.metadata.poll_group), None);
    assert_eq!(storage.connection(second).and_then(|e| e.metadata.poll_group), None);
    assert_eq!(storage.connection(other).and_then(|e| e.metadata.poll_group), Some(other_poll_group));
}

#[test]
fn missing_poll_group_remove_does_not_clear_connection_metadata() {
    let mut storage = Storage::new();
    let connection = storage.insert_connection(
        (),
        SteamworksNetworkingSocketsConnectionMetadata::independent(),
        SteamworksNetworkingSocketsHandleOwner::Client,
    );
    storage.set_connection_poll_group(connection, poll_group_id());

    assert!(storage.remove_poll_group(poll_group_id()).is_none());
    assert_eq!(storage.connection(connection).and_then(|e| e.metadata.poll_group), Some(poll_group_id()));
}

#[test]
fn connection_metadata_matches_listen_socket_disconnects() {
    let mut storage = Storage::new();
    let remote = peer();
    let first = storage.insert_connection(
        (),
        SteamworksNetworkingSocketsConnectionMetadata::listen_socket(listen_socket_id(), remote.clone(), 10),
        SteamworksNetworkingSocketsHandleOwner::Client,
    );
    let second = storage.insert_connection(
        (),
        SteamworksNetworkingSocketsConnectionMetadata::listen_socket(listen_socket_id(), remote.clone(), 20),
        SteamworksNetworkingSocketsHandleOwner::Client,
    );

    assert_eq!(storage.remove_listen_connection_by_event(listen_socket_id(), &remote, 20, |_| false), Some(second));
    assert!(storage.contains_connection(first));
    assert!(!storage.contains_connection(second));
}

#[test]
fn duplicate_listen_socket_disconnect_metadata_is_not_removed_without_terminal_info() {
    let mut storage = Storage::new();
    let remote = peer();
    let mut ids = Vec::new();
    for _ in 0..2 {
        ids.push(storage.insert_connection(
            (),
            SteamworksNetworkingSocketsConnectionMetadata::listen_socket(listen_socket_id(), remote.clone(), 10),
            SteamworksNetworkingSocketsHandleOwner::Client,
        ));
    }

    assert_eq!(storage.remove_listen_connection_by_event(listen_socket_id(), &remote, 10, |_| false), None);
    assert!(storage.contains_connection(ids[0]));
    assert!(storage.contains_connection(ids[1]));
}

#[test]
fn duplicate_listen_socket_disconnect_is_resolved_by_terminal_info() {
    let mut storage: SteamworksNetworkingSocketsHandleStorage<(), bool, ()> = SteamworksNetworkingSocketsHandleStorage::new();
    let remote = peer();
    let alive = storage.insert_connection(
        false,
        SteamworksNetworkingSocketsConnectionMetadata::listen_socket(listen_socket_id(), remote.clone(), 10),
        SteamworksNetworkingSocketsHandleOwner::Client,
    );
    let ended = storage.insert_connection(
        true,
        SteamworksNetworkingSocketsConnectionMetadata::listen_socket(listen_socket_id(), remote.clone(), 10),
        SteamworksNetworkingSocketsHandleOwner::Client,
    );

    assert_eq!(storage.remove_listen_connection_by_event(listen_socket_id(), &remote, 10, |ended: &bool| *ended), Some(ended));
    assert!(storage.contains_connection(alive));
    assert!(!storage.contains_connection(ended));
}

#[test]
fn p2p_connect_constructor_accepts_steam_id() {
    let command = SteamworksNetworkingSocketsCommand::connect_p2p_steam_id(123, 0);

    let SteamworksNetworkingSocketsCommand::ConnectP2p { identity, remote_virtual_port, options } = command else {
        panic!("expected ConnectP2p command");
    };

    assert_eq!(identity, SteamworksNetworkingIdentity::new_steam_id(123));
    assert_eq!(identity.steam_id(), Some(123));
    assert_eq!(remote_virtual_port, 0);
    assert!(options.is_empty());
}

#[test]
fn request_policy_default_rejects() {
    assert!(matches!(
        SteamworksConnectionRequestPolicy::default(),
        SteamworksConnectionRequestPolicy::Reject { .. }
    ));
}

#[test]
fn interface_selection_prefers_client_then_server() {
    assert_eq!(networking_sockets_owner(true, true), Ok(SteamworksNetworkingSocketsHandleOwner::Client));
    assert_eq!(networking_sockets_owner(false, true), Ok(SteamworksNetworkingSocketsHandleOwner::Server));
    assert_eq!(networking_sockets_owner(false, false), Err(SteamworksNetworkingSocketsError::ClientUnavailable));
    assert_eq!(server_networking_sockets_owner(true), Ok(SteamworksNetworkingSocketsHandleOwner::Server));
    assert_eq!(server_networking_sockets_owner(false), Err(SteamworksNetworkingSocketsError::ServerUnavailable));
    assert_eq!(
        networking_sockets_owner_for(false, true, SteamworksNetworkingSocketsHandleOwner::Client),
        Err(SteamworksNetworkingSocketsError::ClientUnavailable)
    );
    assert_eq!(
        networking_sockets_owner_for(true, false, SteamworksNetworkingSocketsHandleOwner::Server),
        Err(SteamworksNetworkingSocketsError::ServerUnavailable)
    );
}

#[test]
fn planning_reports_missing_handles() {
    let storage = Storage::new();
    let missing_connection = SteamworksNetworkingSocketsCommand::flush_messages(connection_id());
    let missing_socket = SteamworksNetworkingSocketsCommand::close_listen_socket(listen_socket_id());
    let missing_group = SteamworksNetworkingSocketsCommand::close_poll_group(poll_group_id());

    assert!(matches!(
        plan_networking_sockets_command(&missing_connection, true, true, &storage),
        Err(SteamworksNetworkingSocketsError::ConnectionNotFound { id }) if id == connection_id()
    ));
    assert!(matches!(
        plan_networking_sockets_command(&missing_socket, true, true, &storage),
        Err(SteamworksNetworkingSocketsError::ListenSocketNotFound { id }) if id == listen_socket_id()
    ));
    assert!(matches!(
        plan_networking_sockets_command(&missing_group, true, true, &storage),
        Err(SteamworksNetworkingSocketsError::PollGroupNotFound { id }) if id == poll_group_id()
    ));
    let invalid = SteamworksNetworkingSocketsCommand::poll_connection_events(connection_id(), 0);
    assert!(matches!(
        plan_networking_sockets_command(&invalid, true, true, &storage),
        Err(SteamworksNetworkingSocketsError::InvalidEventLimit)
    ));
}

#[test]
fn closing_a_listen_socket_removes_its_accepted_connections() {
    let mut storage = Storage::new();
    let socket = storage.insert_listen_socket((), SteamworksNetworkingSocketsHandleOwner::Client);
    let own = storage.insert_connection(
        (),
        SteamworksNetworkingSocketsConnectionMetadata::independent(),
        SteamworksNetworkingSocketsHandleOwner::Client,
    );
    let accepted = storage.insert_connection(
        (),
        SteamworksNetworkingSocketsConnectionMetadata::listen_socket(socket, peer(), 5),
        SteamworksNetworkingSocketsHandleOwner::Client,
    );

    match close_listen_socket(&mut storage, socket) {
        Ok(SteamworksNetworkingSocketsOperation::ListenSocketClosed { listen_socket, closed_connections }) => {
            assert_eq!(listen_socket, socket);
            assert_eq!(closed_connections, vec![accepted]);
        }
        _ => panic!("expected the listen socket to close"),
    }
    assert!(!storage.contains_listen_socket(socket));
    assert!(storage.contains_connection(own));
    assert!(!storage.contains_connection(accepted));
    assert!(matches!(
        close_listen_socket(&mut storage, socket),
        Err(SteamworksNetworkingSocketsError::ListenSocketNotFound { .. })
    ));
}

#[test]
fn closing_a_poll_group_releases_its_connections() {
    let mut storage = Storage::new();
    let group = storage.insert_poll_group((), SteamworksNetworkingSocketsHandleOwner::Client);
    let connection = storage.insert_connection(
        (),
        SteamworksNetworkingSocketsConnectionMetadata::independent(),
        SteamworksNetworkingSocketsHandleOwner::Client,
    );
    storage.set_connection_poll_group(connection, group);

    assert!(matches!(
        close_poll_group(&mut storage, group),
        Ok(SteamworksNetworkingSocketsOperation::PollGroupClosed { poll_group }) if poll_group == group
    ));
    assert_eq!(storage.connection(connection).and_then(|e| e.metadata.poll_group), None);
    assert!(matches!(
        close_poll_group(&mut storage, group),
        Err(SteamworksNetworkingSocketsError::PollGroupNotFound { .. })
    ));
}

#[test]
fn terminal_connection_event_removes_the_connection() {
    let mut storage = Storage::new();
    let connection = storage.insert_connection(
        (),
        SteamworksNetworkingSocketsConnectionMetadata::independent(),
        SteamworksNetworkingSocketsHandleOwner::Client,
    );
    let connecting = SteamworksNetworkingSocketsConnectionEventInfo {
        connection,
        new_state: SteamworksNetworkingConnectionState::Connected,
        old_state: SteamworksNetworkingConnectionState::Connecting,
    };
    match connection_events_polled(&mut storage, connection, vec![connecting]) {
        SteamworksNetworkingSocketsOperation::ConnectionEventsPolled { connection_removed, .. } => {
            assert!(!connection_removed)
        }
        _ => panic!("expected a connection event batch"),
    }
    assert!(storage.contains_connection(connection));

    let closed = SteamworksNetworkingSocketsConnectionEventInfo {
        connection,
        new_state: SteamworksNetworkingConnectionState::ClosedByPeer,
        old_state: SteamworksNetworkingConnectionState::Connected,
    };
    match connection_events_polled(&mut storage, connection, vec![closed]) {
        SteamworksNetworkingSocketsOperation::ConnectionEventsPolled { connection_removed, events, .. } => {
            assert!(connection_removed);
            assert_eq!(events, vec![closed]);
        }
        _ => panic!("expected a connection event batch"),
    }
    assert!(!storage.contains_connection(connection));
}

#[test]
fn send_outcomes_return_to_command_order() {
    let a = SteamworksNetworkingSocketsConnectionId::from_raw(1);
    let b = SteamworksNetworkingSocketsConnectionId::from_raw(2);
    let messages = vec![
        SteamworksNetworkingSocketsOutboundMessage::new(a, SteamworksSendFlags::reliable(), vec![1]),
        SteamworksNetworkingSocketsOutboundMessage::new(b, SteamworksSendFlags::unreliable(), vec![2, 2]),
        SteamworksNetworkingSocketsOutboundMessage::new(a, SteamworksSendFlags::reliable(), vec![3, 3, 3]).with_channel(4),
    ];
    let owners = vec![
        SteamworksNetworkingSocketsHandleOwner::Client,
        SteamworksNetworkingSocketsHandleOwner::Server,
        SteamworksNetworkingSocketsHandleOwner::Client,
    ];
    let client = vec![Ok(10), Err(SteamworksSteamError::from_code(RESULT_INVALID_STATE))];
    let server = vec![Ok(20)];

    let merged = merge_send_outcomes(&messages, &owners, &client, &server).expect("outcomes fit");
    assert_eq!(merged.len(), 3);
    assert_eq!((merged[0].connection, merged[0].bytes, merged[0].result), (a, 1, Ok(10)));
    assert_eq!((merged[1].connection, merged[1].bytes, merged[1].result), (b, 2, Ok(20)));
    assert_eq!(
        (merged[2].connection, merged[2].bytes, merged[2].channel, merged[2].result),
        (a, 3, 4, Err(SteamworksSteamError::from_code(RESULT_INVALID_STATE)))
    );

    assert_eq!(
        merge_send_outcomes(&messages, &owners, &client, &Vec::new()),
        Err(SteamworksNetworkingSocketsError::OperationFailed { operation: "networking_sockets.send_messages" })
    );
}

#[test]
fn reading_connection_info_then_closing_forgets_it() {
    let mut state = SteamworksNetworkingSocketsState::default();
    let info = SteamworksNetworkingSocketsConnectionInfo {
        connection: connection_id(),
        state: SteamworksNetworkingConnectionState::Connected,
        remote: None,
        user_data: 3,
        end_reason: None,
    };
    state.record_operation(&SteamworksNetworkingSocketsOperation::ConnectionInfoRead { info: info.clone() });
    let updated = SteamworksNetworkingSocketsConnectionInfo { user_data: 4, ..info.clone() };
    state.record_operation(&SteamworksNetworkingSocketsOperation::ConnectionInfoRead { info: updated.clone() });

    assert_eq!(state.connection_info_count(), 1);
    assert_eq!(state.connection_info(connection_id()), Some(&updated));
    assert_eq!(state.connection_user_data(connection_id()), Some(4));
    assert_eq!(state.connection_state(connection_id()), Some(SteamworksNetworkingConnectionState::Connected));

    state.record_operation(&SteamworksNetworkingSocketsOperation::ConnectionClosed {
        connection: connection_id(),
        close_succeeded: true,
    });
    assert_eq!(state.connection_info(connection_id()), None);
    assert_eq!(state.connection_state(connection_id()), None);
}

#[test]
fn message_counters_saturate_and_count_successes() {
    let mut state = SteamworksNetworkingSocketsState::default();
    let ok = SteamworksNetworkingSocketsMessageSendResult {
        connection: connection_id(),
        send_flags: SteamworksSendFlags::reliable(),
        channel: 0,
        bytes: 1,
        user_data: 0,
        result: Ok(1),
    };
    let failed = SteamworksNetworkingSocketsMessageSendResult { result: Err(SteamworksSteamError::from_code(RESULT_FAIL)), ..ok };
    state.record_operation(&SteamworksNetworkingSocketsOperation::MessagesSent { messages: vec![ok, failed, ok] });

    assert_eq!(state.sent_count(), 2);
    assert_eq!(state.sent_message_count_for_connection(connection_id()), 3);
    assert_eq!(state.last_sent_message_succeeded_for_connection(connection_id()), Some(true));
    assert_eq!(state.last_sent_message_number_for_connection(connection_id()), Some(1));
}

#[test]
fn result_messages_carry_operation_or_failure() {
    let ok = SteamworksNetworkingSocketsResult::Succeeded(SteamworksNetworkingSocketsOperation::PollGroupCreated {
        poll_group: poll_group_id(),
    });
    let failed = SteamworksNetworkingSocketsResult::Failed {
        command: SteamworksNetworkingSocketsCommand::create_poll_group(),
        error: SteamworksNetworkingSocketsError::ClientUnavailable,
    };
    assert!(ok != failed);
    assert!(ok.clone() == ok);
}

type NumberedStorage = SteamworksNetworkingSocketsHandleStorage<u32, u32, u32>;

#[test]
fn closing_all_connections_reports_each_close_in_id_order() {
    let mut storage = NumberedStorage::new();
    for handle in [10, 11, 12] {
        storage.insert_connection(handle, SteamworksNetworkingSocketsConnectionMetadata::independent(), SteamworksNetworkingSocketsHandleOwner::Client);
    }
    let operation = close_all_connections(&mut storage, |handle: u32| handle != 11);
    let SteamworksNetworkingSocketsOperation::AllConnectionsClosed { connections } = operation else {
        panic!("expected AllConnectionsClosed");
    };
    let reported: Vec<(u64, bool)> = connections.iter().map(|c| (c.connection.raw(), c.close_succeeded)).collect();
    assert_eq!(reported, vec![(1, true), (2, false), (3, true)]);
    assert_eq!(storage.connection_count(), 0);
}

#[test]
fn closing_all_listen_sockets_closes_their_connections_only() {
    let mut storage = NumberedStorage::new();
    let first = storage.insert_listen_socket(1, SteamworksNetworkingSocketsHandleOwner::Client);
    let second = storage.insert_listen_socket(2, SteamworksNetworkingSocketsHandleOwner::Client);
    let on_first = storage.insert_connection(
        10,
        SteamworksNetworkingSocketsConnectionMetadata::listen_socket(first, peer(), 0),
        SteamworksNetworkingSocketsHandleOwner::Client,
    );
    let independent = storage.insert_connection(11, SteamworksNetworkingSocketsConnectionMetadata::independent(), SteamworksNetworkingSocketsHandleOwner::Client);
    let on_second = storage.insert_connection(
        12,
        SteamworksNetworkingSocketsConnectionMetadata::listen_socket(second, peer(), 0),
        SteamworksNetworkingSocketsHandleOwner::Client,
    );

    let SteamworksNetworkingSocketsOperation::AllListenSocketsClosed { listen_sockets } = close_all_listen_sockets(&mut storage) else {
        panic!("expected AllListenSocketsClosed");
    };
    assert_eq!(listen_sockets.len(), 2);
    assert_eq!(listen_sockets[0].listen_socket, first);
    assert_eq!(listen_sockets[0].closed_connections, vec![on_first]);
    assert_eq!(listen_sockets[1].listen_socket, second);
    assert_eq!(listen_sockets[1].closed_connections, vec![on_second]);
    assert_eq!(storage.listen_socket_count(), 0);
    assert_eq!(storage.connection_ids(), vec![independent.raw()]);
}

#[test]
fn closing_all_poll_groups_takes_every_connection_out() {
    let mut storage = NumberedStorage::new();
    let group = storage.insert_poll_group(1, SteamworksNetworkingSocketsHandleOwner::Client);
    let other = storage.insert_poll_group(2, SteamworksNetworkingSocketsHandleOwner::Client);
    let connection = storage.insert_connection(10, SteamworksNetworkingSocketsConnectionMetadata::independent(), SteamworksNetworkingSocketsHandleOwner::Client);
    storage.set_connection_poll_group(connection, other);

    let SteamworksNetworkingSocketsOperation::AllPollGroupsClosed { poll_groups } = close_all_poll_groups(&mut storage) else {
        panic!("expected AllPollGroupsClosed");
    };
    assert_eq!(poll_groups, vec![group, other]);
    assert_eq!(storage.poll_group_count(), 0);
    assert_eq!(storage.connection(connection).map(|entry| entry.metadata.poll_group), Some(None));
}

#[test]
fn flushing_all_stops_at_the_first_failure() {
    let mut storage = NumberedStorage::new();
    for handle in [10, 11, 12] {
        storage.insert_connection(handle, SteamworksNetworkingSocketsConnectionMetadata::independent(), SteamworksNetworkingSocketsHandleOwner::Client);
    }
    let flushed = flush_all_messages(&storage, |_: &u32| Ok(()));
    assert!(matches!(
        flushed,
        Ok(SteamworksNetworkingSocketsOperation::AllMessagesFlushed { ref connections }) if connections.len() == 3
    ));

    let counter = std::cell::Cell::new(0u32);
    let failed = flush_all_messages(&storage, |handle: &u32| {
        counter.set(counter.get() + 1);
        if *handle == 11 { Err(SteamworksSteamError::from_code(RESULT_FAIL)) } else { Ok(()) }
    });
    assert_eq!(counter.get(), 2);
    assert!(matches!(
        failed,
        Err(SteamworksNetworkingSocketsError::SteamError { operation: "net_connection.flush_messages", source })
            if source == SteamworksSteamError::from_code(RESULT_FAIL)
    ));
}

#[test]
fn receiving_from_all_collects_batches_in_id_order() {
    let mut storage = NumberedStorage::new();
    let a = storage.insert_connection(10, SteamworksNetworkingSocketsConnectionMetadata::independent(), SteamworksNetworkingSocketsHandleOwner::Client);
    let b = storage.insert_connection(11, SteamworksNetworkingSocketsConnectionMetadata::independent(), SteamworksNetworkingSocketsHandleOwner::Client);
    let message = |connection: SteamworksNetworkingSocketsConnectionId, byte: u8| SteamworksNetworkingSocketsMessage {
        connection,
        peer: peer(),
        data: vec![byte],
        channel: 0,
        send_flags: SteamworksSendFlags::reliable(),
        message_number: 1,
        connection_user_data: 0,
    };
    let received = receive_all_messages(&storage, |connection, handle: &u32| Ok(vec![message(connection, *handle as u8)]));
    let Ok(SteamworksNetworkingSocketsOperation::AllMessagesReceived { connections }) = received else {
        panic!("expected AllMessagesReceived");
    };
    assert_eq!(connections.len(), 2);
    assert_eq!(connections[0].connection, a);
    assert_eq!(connections[0].messages[0].data, vec![10]);
    assert_eq!(connections[1].connection, b);
    assert_eq!(connections[1].messages[0].data, vec![11]);

    let refused = receive_all_messages(&storage, |_, _: &u32| Err(SteamworksInvalidHandle));
    assert!(matches!(
        refused,
        Err(SteamworksNetworkingSocketsError::InvalidHandle { operation: "net_connection.receive_messages" })
    ));

    let group = storage.insert_poll_group(20, SteamworksNetworkingSocketsHandleOwner::Client);
    let SteamworksNetworkingSocketsOperation::AllPollGroupMessagesReceived { poll_groups } =
        receive_all_poll_group_messages(&storage, |_, _: &u32| Vec::new())
    else {
        panic!("expected AllPollGroupMessagesReceived");
    };
    assert_eq!(poll_groups.len(), 1);
    assert_eq!(poll_groups[0].poll_group, group);
    assert!(poll_groups[0].messages.is_empty());
}

#[test]
fn polling_all_connections_removes_the_ones_that_ended() {
    let mut storage = NumberedStorage::new();
    let open = storage.insert_connection(10, SteamworksNetworkingSocketsConnectionMetadata::independent(), SteamworksNetworkingSocketsHandleOwner::Client);
    let ended = storage.insert_connection(11, SteamworksNetworkingSocketsConnectionMetadata::independent(), SteamworksNetworkingSocketsHandleOwner::Client);
    let event = |connection, new_state| SteamworksNetworkingSocketsConnectionEventInfo {
        connection,
        new_state,
        old_state: SteamworksNetworkingConnectionState::Connected,
    };
    let operation = poll_all_connection_events(&mut storage, |connection, handle: &u32| {
        if *handle == 11 {
            vec![event(connection, SteamworksNetworkingConnectionState::ClosedByPeer)]
        } else {
            vec![event(connection, SteamworksNetworkingConnectionState::Connected)]
        }
    });
    let SteamworksNetworkingSocketsOperation::AllConnectionEventsPolled { connections } = operation else {
        panic!("expected AllConnectionEventsPolled");
    };
    assert_eq!(connections.len(), 2);
    assert_eq!((connections[0].connection, connections[0].connection_removed), (open, false));
    assert_eq!((connections[1].connection, connections[1].connection_removed), (ended, true));
    assert_eq!(storage.connection_ids(), vec![open.raw()]);
}

#[test]
fn listen_socket_events_are_recorded_with_their_bookkeeping() {
    let mut storage = NumberedStorage::new();
    let listen_socket = storage.insert_listen_socket(1, SteamworksNetworkingSocketsHandleOwner::Server);
    let ended = |_: &u32| false;

    let accepted = record_listen_socket_event(
        &mut storage,
        listen_socket,
        SteamworksNetworkingSocketsHandleOwner::Server,
        &SteamworksConnectionRequestPolicy::Accept,
        SteamworksListenSocketReport::RequestAnswered { remote: peer(), user_data: 3 },
        ended,
    );
    assert_eq!(accepted, SteamworksListenSocketEventInfo::ConnectionAccepted { listen_socket, remote: peer(), user_data: 3 });
    let rejected = record_listen_socket_event(
        &mut storage,
        listen_socket,
        SteamworksNetworkingSocketsHandleOwner::Server,
        &SteamworksConnectionRequestPolicy::default(),
        SteamworksListenSocketReport::RequestAnswered { remote: peer(), user_data: 3 },
        ended,
    );
    assert_eq!(rejected, SteamworksListenSocketEventInfo::ConnectionRejected { listen_socket, remote: peer(), user_data: 3 });
    assert_eq!(storage.connection_count(), 0);

    let connected = record_listen_socket_event(
        &mut storage,
        listen_socket,
        SteamworksNetworkingSocketsHandleOwner::Server,
        &SteamworksConnectionRequestPolicy::Accept,
        SteamworksListenSocketReport::Connected { remote: peer(), user_data: 3, connection: 10 },
        ended,
    );
    let SteamworksListenSocketEventInfo::Connected { connection, .. } = connected else {
        panic!("expected Connected");
    };
    assert_eq!(connection.raw(), 1);
    assert_eq!(storage.connection_owner(connection), Some(SteamworksNetworkingSocketsHandleOwner::Server));

    let disconnected = record_listen_socket_event(
        &mut storage,
        listen_socket,
        SteamworksNetworkingSocketsHandleOwner::Server,
        &SteamworksConnectionRequestPolicy::Accept,
        SteamworksListenSocketReport::Disconnected { remote: peer(), user_data: 3, end_reason: generic_normal() },
        ended,
    );
    assert_eq!(
        disconnected,
        SteamworksListenSocketEventInfo::Disconnected {
            listen_socket,
            connection: Some(connection),
            remote: peer(),
            user_data: 3,
            end_reason: generic_normal(),
        }
    );
    assert_eq!(storage.connection_count(), 0);
}

#[test]
fn duplicate_listen_socket_disconnect_with_two_ended_removes_nothing() {
    let mut storage: SteamworksNetworkingSocketsHandleStorage<(), bool, ()> = SteamworksNetworkingSocketsHandleStorage::new();
    let remote = peer();
    let first = storage.insert_connection(
        true,
        SteamworksNetworkingSocketsConnectionMetadata::listen_socket(listen_socket_id(), remote.clone(), 10),
        SteamworksNetworkingSocketsHandleOwner::Client,
    );
    let second = storage.insert_connection(
        true,
        SteamworksNetworkingSocketsConnectionMetadata::listen_socket(listen_socket_id(), remote.clone(), 10),
        SteamworksNetworkingSocketsHandleOwner::Client,
    );

    assert_eq!(storage.remove_listen_connection_by_event(listen_socket_id(), &remote, 10, |ended: &bool| *ended), None);
    assert!(storage.contains_connection(first));
    assert!(storage.contains_connection(second));
}

#[test]
fn receiving_from_all_stops_at_first_unknown_handle() {
    let mut storage = NumberedStorage::new();
    storage.insert_connection(10, SteamworksNetworkingSocketsConnectionMetadata::independent(), SteamworksNetworkingSocketsHandleOwner::Client);
    storage.insert_connection(11, SteamworksNetworkingSocketsConnectionMetadata::independent(), SteamworksNetworkingSocketsHandleOwner::Client);
    storage.insert_connection(12, SteamworksNetworkingSocketsConnectionMetadata::independent(), SteamworksNetworkingSocketsHandleOwner::Client);
    let calls = std::cell::Cell::new(0u32);
    let refused = receive_all_messages(&storage, |_, handle: &u32| {
        calls.set(calls.get() + 1);
        if *handle == 11 { Err(SteamworksInvalidHandle) } else { Ok(Vec::new()) }
    });
    assert!(matches!(
        refused,
        Err(SteamworksNetworkingSocketsError::InvalidHandle { operation: "net_connection.receive_messages" })
    ));
    assert_eq!(calls.get(), 2);
}

#[test]
fn closing_one_connection_keeps_other_cached_infos() {
    let mut state = SteamworksNetworkingSocketsState::default();
    let first = SteamworksNetworkingSocketsConnectionInfo {
        connection: SteamworksNetworkingSocketsConnectionId::from_raw(1),
        state: SteamworksNetworkingConnectionState::Connected,
        remote: None,
        user_data: 1,
        end_reason: None,
    };
    let second = SteamworksNetworkingSocketsConnectionInfo {
        connection: SteamworksNetworkingSocketsConnectionId::from_raw(2),
        user_data: 2,
        ..first.clone()
    };
    state.record_operation(&SteamworksNetworkingSocketsOperation::ConnectionInfoRead { info: first.clone() });
    state.record_operation(&SteamworksNetworkingSocketsOperation::ConnectionInfoRead { info: second.clone() });
    assert_eq!(state.connection_info_count(), 2);
    assert_eq!(state.connection_infos()[0], first);
    assert_eq!(state.connection_infos()[1], second);

    state.record_operation(&SteamworksNetworkingSocketsOperation::ConnectionClosed {
        connection: first.connection,
        close_succeeded: true,
    });
    assert_eq!(state.connection_info(first.connection), None);
    assert_eq!(state.connection_info(second.connection), Some(&second));
    assert_eq!(state.connection_info_count(), 1);
}

#[test]
fn summaries_keep_lengths_in_place_of_names_and_values() {
    let entry = SteamworksNetworkingSocketsConfigEntry::string(p2p_stun_server_list(), String::from("secret.stun.example"));
    assert!(matches!(
        bevy_steamworks::networking_sockets::summarize_config_entry(&entry),
        bevy_steamworks::networking_sockets::SteamworksConfigEntrySummary::String { data_len: 19, .. }
    ));
    let name = bevy_steamworks::networking_sockets::summarize_connection_name(connection_id(), &String::from("secret-player"));
    assert_eq!(name.name_len, 13);
    assert_eq!(name.connection, connection_id());
    let outbound = SteamworksNetworkingSocketsOutboundMessage::new(connection_id(), SteamworksSendFlags::reliable(), vec![9, 9, 9, 9]);
    let summary = bevy_steamworks::networking_sockets::summarize_outbound_message(&outbound);
    assert_eq!(summary.data_len, 4);
    assert_eq!(summary.connection, connection_id());
    assert_eq!(summary.channel, outbound.channel);
}

#[test]
fn summaries_redact_config_entry_strings() {
    let entry = SteamworksNetworkingSocketsConfigEntry::string(p2p_stun_server_list(), String::from("secret.stun.example"));
    let summary = format!("{:?}", bevy_steamworks::networking_sockets::summarize_config_entry(&entry));
    assert!(summary.contains("data_len: 19"));
    assert!(!summary.contains("secret.stun.example"));
}

#[test]
fn summaries_redact_connection_names() {
    let name = String::from("secret-player");
    let snapshot = SteamworksNetworkingSocketsConnectionName { connection: connection_id(), name: name.clone() };
    for summary in [
        format!("{:?}", bevy_steamworks::networking_sockets::summarize_connection_name(connection_id(), &name)),
        format!("{:?}", bevy_steamworks::networking_sockets::summarize_connection_name_snapshot(&snapshot)),
    ] {
        assert!(summary.contains("name_len: 13"));
        assert!(!summary.contains("secret-player"));
    }
}

#[test]
fn summaries_redact_message_payload_bytes() {
    let outbound = SteamworksNetworkingSocketsOutboundMessage::new(connection_id(), SteamworksSendFlags::reliable(), vec![10, 11, 12]);
    let message = SteamworksNetworkingSocketsMessage {
        connection: connection_id(),
        peer: peer(),
        data: vec![4, 5, 6],
        channel: 0,
        send_flags: SteamworksSendFlags::reliable(),
        message_number: 1,
        connection_user_data: 0,
    };
    let poll_group_message = SteamworksNetworkingSocketsPollGroupMessage {
        poll_group: SteamworksNetworkingSocketsPollGroupId::from_raw(3),
        peer: peer(),
        data: vec![7, 8, 9],
        channel: 1,
        send_flags: SteamworksSendFlags::unreliable(),
        message_number: 2,
        connection_user_data: 99,
    };
    let outbound_summary = format!("{:?}", bevy_steamworks::networking_sockets::summarize_outbound_message(&outbound));
    let message_summary = format!("{:?}", bevy_steamworks::networking_sockets::summarize_message(&message));
    let poll_group_summary = format!("{:?}", bevy_steamworks::networking_sockets::summarize_poll_group_message(&poll_group_message));
    assert!(outbound_summary.contains("data_len: 3"));
    assert!(!outbound_summary.contains("[10, 11, 12]"));
    assert!(message_summary.contains("data_len: 3"));
    assert!(!message_summary.contains("[4, 5, 6]"));
    assert!(poll_group_summary.contains("data_len: 3"));
    assert!(!poll_group_summary.contains("[7, 8, 9]"));
}

#[test]
fn listen_socket_polling_stores_arrivals_and_removes_departures() {
    let mut storage: SteamworksNetworkingSocketsHandleStorage<(), u32, ()> = SteamworksNetworkingSocketsHandleStorage::new();
    let listen_socket = storage.insert_listen_socket((), SteamworksNetworkingSocketsHandleOwner::Server);
    let remote = peer();
    let pending = std::cell::RefCell::new(vec![
        SteamworksListenSocketIncoming::<u32, ()>::Connected { remote: remote.clone(), user_data: 5, connection: 40 },
        SteamworksListenSocketIncoming::<u32, ()>::Disconnected {
            remote: remote.clone(),
            user_data: 5,
            end_reason: SteamworksNetConnectionEnd::app_generic_normal(),
        },
    ]);
    let receive = |_: &()| {
        let mut pending = pending.borrow_mut();
        if pending.is_empty() { None } else { Some(pending.remove(0)) }
    };
    let events = poll_listen_socket_events(
        &mut storage,
        listen_socket,
        8,
        &SteamworksConnectionRequestPolicy::Accept,
        &receive,
        &accept_nothing,
        &reject_nothing,
        &|_: &u32, _: SteamworksNetConnectionEnd| false,
    )
    .expect("polled events");
    assert_eq!(events.len(), 2);
    let SteamworksListenSocketEventInfo::Connected { connection, user_data: 5, .. } = events[0] else {
        panic!("expected a connected event");
    };
    assert!(matches!(
        &events[1],
        SteamworksListenSocketEventInfo::Disconnected { connection: Some(removed), user_data: 5, .. } if *removed == connection
    ));
    assert!(!storage.contains_connection(connection));
    assert_eq!(storage.connection_count(), 0);
}

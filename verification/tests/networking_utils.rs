use bevy_steamworks::networking_utils::{
    validate_command, SteamworksNetworkingUtilsCommand, SteamworksNetworkingUtilsError,
    SteamworksNetworkingUtilsOperation, SteamworksNetworkingUtilsPlugin, SteamworksNetworkingUtilsState,
    SteamworksRelayNetworkStatus,
};
use bevy_steamworks::{SteamworksNetworkingAvailability, SteamworksNetworkingAvailabilityError};

fn current_status() -> SteamworksRelayNetworkStatus {
    SteamworksRelayNetworkStatus {
        availability: Ok(SteamworksNetworkingAvailability::Current),
        ping_measurement_in_progress: false,
        network_config: Ok(SteamworksNetworkingAvailability::Current),
        any_relay: Ok(SteamworksNetworkingAvailability::Current),
        debugging_message: "ready".to_owned(),
    }
}

#[test]
fn plugin_name_matches_networking_utils_type_path_for_bevy_tracking() {
    let plugin = SteamworksNetworkingUtilsPlugin::new();

    assert_eq!(plugin, SteamworksNetworkingUtilsPlugin);
    assert_eq!(format!("{plugin:?}"), "SteamworksNetworkingUtilsPlugin");
}

#[test]
fn tests_commands_fail_when_client_is_unavailable() {
    let command = SteamworksNetworkingUtilsCommand::get_detailed_relay_network_status();
    assert_eq!(command.check_ready(false), Err(SteamworksNetworkingUtilsError::ClientUnavailable));
    assert_eq!(command.check_ready(true), Ok(()));

    let mut state = SteamworksNetworkingUtilsState::default();
    state.record_error(SteamworksNetworkingUtilsError::ClientUnavailable);
    assert_eq!(state.last_error(), Some(&SteamworksNetworkingUtilsError::ClientUnavailable));
}

#[test]
fn tests_constructors_preserve_inputs() {
    assert_eq!(
        SteamworksNetworkingUtilsCommand::init_relay_network_access(),
        SteamworksNetworkingUtilsCommand::InitRelayNetworkAccess
    );
    assert_eq!(
        SteamworksNetworkingUtilsCommand::get_relay_network_status(),
        SteamworksNetworkingUtilsCommand::GetRelayNetworkStatus
    );
    assert_eq!(
        SteamworksNetworkingUtilsCommand::get_detailed_relay_network_status(),
        SteamworksNetworkingUtilsCommand::GetDetailedRelayNetworkStatus
    );
    assert_eq!(
        SteamworksNetworkingUtilsCommand::is_relay_ping_measurement_in_progress(),
        SteamworksNetworkingUtilsCommand::IsRelayPingMeasurementInProgress
    );
    assert_eq!(
        SteamworksNetworkingUtilsCommand::get_relay_network_config_status(),
        SteamworksNetworkingUtilsCommand::GetRelayNetworkConfigStatus
    );
    assert_eq!(
        SteamworksNetworkingUtilsCommand::get_any_relay_status(),
        SteamworksNetworkingUtilsCommand::GetAnyRelayStatus
    );
    assert_eq!(
        SteamworksNetworkingUtilsCommand::get_relay_debug_message(),
        SteamworksNetworkingUtilsCommand::GetRelayDebugMessage
    );
}

#[test]
fn constructors_and_validation_cover_current_commands() {
    assert_eq!(
        SteamworksNetworkingUtilsCommand::init_relay_network_access(),
        SteamworksNetworkingUtilsCommand::InitRelayNetworkAccess
    );
    assert_eq!(validate_command(&SteamworksNetworkingUtilsCommand::init_relay_network_access()), Ok(()));
    assert_eq!(validate_command(&SteamworksNetworkingUtilsCommand::get_relay_network_status()), Ok(()));
    assert_eq!(validate_command(&SteamworksNetworkingUtilsCommand::get_detailed_relay_network_status()), Ok(()));
    assert_eq!(validate_command(&SteamworksNetworkingUtilsCommand::is_relay_ping_measurement_in_progress()), Ok(()));
    assert_eq!(validate_command(&SteamworksNetworkingUtilsCommand::get_relay_network_config_status()), Ok(()));
    assert_eq!(validate_command(&SteamworksNetworkingUtilsCommand::get_any_relay_status()), Ok(()));
    assert_eq!(validate_command(&SteamworksNetworkingUtilsCommand::get_relay_debug_message()), Ok(()));
}

#[test]
fn state_records_operations_without_unbounded_callback_history() {
    let mut state = SteamworksNetworkingUtilsState::default();
    let status = current_status();

    state.record_operation(&SteamworksNetworkingUtilsOperation::RelayNetworkAccessInitialized);
    state.record_operation(&SteamworksNetworkingUtilsOperation::RelayNetworkStatusRead {
        availability: Ok(SteamworksNetworkingAvailability::Waiting),
    });
    assert_eq!(state.relay_network_availability(), Some(SteamworksNetworkingAvailability::Waiting));
    assert_eq!(state.relay_network_availability_error(), None);
    assert_eq!(state.relay_network_available(), Some(false));
    assert_eq!(state.relay_network_pending(), Some(true));
    assert_eq!(state.relay_network_unavailable(), Some(false));

    state.record_operation(&SteamworksNetworkingUtilsOperation::DetailedRelayNetworkStatusRead {
        status: status.clone(),
    });
    assert!(status.relay_network_available());
    assert!(!status.relay_network_pending());
    assert!(!status.relay_network_unavailable());
    assert!(status.network_config_available());
    assert!(status.any_relay_available());

    state.record_operation(&SteamworksNetworkingUtilsOperation::RelayPingMeasurementStateRead { in_progress: true });
    state.record_operation(&SteamworksNetworkingUtilsOperation::RelayNetworkConfigStatusRead {
        availability: Ok(SteamworksNetworkingAvailability::Attempting),
    });
    state.record_operation(&SteamworksNetworkingUtilsOperation::AnyRelayStatusRead {
        availability: Ok(SteamworksNetworkingAvailability::Current),
    });
    state.record_operation(&SteamworksNetworkingUtilsOperation::RelayDebugMessageRead {
        message: "measuring".to_owned(),
    });

    assert_eq!(state.relay_ping_measurement_in_progress(), Some(true));
    assert_eq!(
        state.last_relay_network_config_availability(),
        Some(&Ok(SteamworksNetworkingAvailability::Attempting))
    );
    assert_eq!(state.relay_network_config_availability(), Some(SteamworksNetworkingAvailability::Attempting));
    assert_eq!(state.relay_network_config_availability_error(), None);
    assert_eq!(state.relay_network_config_available(), Some(false));
    assert_eq!(state.relay_network_config_pending(), Some(true));
    assert_eq!(state.relay_network_config_unavailable(), Some(false));
    assert_eq!(state.last_any_relay_availability(), Some(&Ok(SteamworksNetworkingAvailability::Current)));
    assert_eq!(state.any_relay_availability(), Some(SteamworksNetworkingAvailability::Current));
    assert_eq!(state.any_relay_availability_error(), None);
    assert_eq!(state.any_relay_available(), Some(true));
    assert_eq!(state.any_relay_pending(), Some(false));
    assert_eq!(state.any_relay_unavailable(), Some(false));
    assert_eq!(state.last_relay_debugging_message(), Some("measuring"));

    state.record_operation(&SteamworksNetworkingUtilsOperation::RelayNetworkStatusChanged { status: status.clone() });

    assert!(state.relay_network_access_initialized());
    assert_eq!(state.last_relay_network_availability(), Some(&Ok(SteamworksNetworkingAvailability::Current)));
    assert_eq!(state.last_relay_network_status(), Some(&status));
    assert_eq!(state.relay_ping_measurement_in_progress(), Some(false));
    assert_eq!(
        state.last_relay_network_config_availability(),
        Some(&Ok(SteamworksNetworkingAvailability::Current))
    );
    assert_eq!(state.last_any_relay_availability(), Some(&Ok(SteamworksNetworkingAvailability::Current)));
    assert_eq!(state.relay_network_availability(), Some(SteamworksNetworkingAvailability::Current));
    assert_eq!(state.relay_network_available(), Some(true));
    assert_eq!(state.relay_network_pending(), Some(false));
    assert_eq!(state.relay_network_unavailable(), Some(false));
    assert_eq!(state.relay_network_config_available(), Some(true));
    assert_eq!(state.relay_network_config_pending(), Some(false));
    assert_eq!(state.relay_network_config_unavailable(), Some(false));
    assert_eq!(state.any_relay_available(), Some(true));
    assert_eq!(state.any_relay_pending(), Some(false));
    assert_eq!(state.any_relay_unavailable(), Some(false));
    assert_eq!(state.last_relay_debugging_message(), Some("ready"));
    assert_eq!(state.relay_network_status_callback_count(), 1);

    state.record_operation(&SteamworksNetworkingUtilsOperation::RelayNetworkStatusRead {
        availability: Err(SteamworksNetworkingAvailabilityError::Retrying),
    });
    assert_eq!(state.relay_network_availability_error(), Some(SteamworksNetworkingAvailabilityError::Retrying));
    assert_eq!(state.relay_network_available(), Some(false));
    assert_eq!(state.relay_network_pending(), Some(true));
    assert_eq!(state.relay_network_unavailable(), Some(true));

    state.record_operation(&SteamworksNetworkingUtilsOperation::RelayNetworkConfigStatusRead {
        availability: Err(SteamworksNetworkingAvailabilityError::Unknown),
    });
    assert_eq!(state.relay_network_config_availability(), None);
    assert_eq!(
        state.relay_network_config_availability_error(),
        Some(SteamworksNetworkingAvailabilityError::Unknown)
    );
    assert_eq!(state.relay_network_config_available(), Some(false));
    assert_eq!(state.relay_network_config_pending(), Some(false));
    assert_eq!(state.relay_network_config_unavailable(), Some(true));

    state.record_operation(&SteamworksNetworkingUtilsOperation::AnyRelayStatusRead {
        availability: Err(SteamworksNetworkingAvailabilityError::Retrying),
    });
    assert_eq!(state.any_relay_availability(), None);
    assert_eq!(state.any_relay_availability_error(), Some(SteamworksNetworkingAvailabilityError::Retrying));
    assert_eq!(state.any_relay_available(), Some(false));
    assert_eq!(state.any_relay_pending(), Some(true));
    assert_eq!(state.any_relay_unavailable(), Some(true));
}

#[test]
fn relay_status_callback_operation_updates_state() {
    let mut state = SteamworksNetworkingUtilsState::default();
    let status = current_status();

    state.record_operation(&SteamworksNetworkingUtilsOperation::RelayNetworkStatusChanged { status: status.clone() });
    assert_eq!(state.last_relay_network_status(), Some(&status));
    assert_eq!(state.relay_ping_measurement_in_progress(), Some(false));
    assert_eq!(
        state.last_relay_network_config_availability(),
        Some(&Ok(SteamworksNetworkingAvailability::Current))
    );
    assert_eq!(state.last_any_relay_availability(), Some(&Ok(SteamworksNetworkingAvailability::Current)));
    assert_eq!(state.last_relay_debugging_message(), Some("ready"));
    assert_eq!(state.relay_network_status_callback_count(), 1);
}

#[test]
fn relay_status_callbacks_are_counted_not_stored() {
    let mut state = SteamworksNetworkingUtilsState::default();
    for _ in 0..3 {
        state.record_operation(&SteamworksNetworkingUtilsOperation::RelayNetworkStatusChanged {
            status: current_status(),
        });
    }
    assert_eq!(state.relay_network_status_callback_count(), 3);
    assert_eq!(state.last_relay_network_status(), Some(&current_status()));
}

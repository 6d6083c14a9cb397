//! High-level Steam Networking Sockets commands, handle bookkeeping and state.
//!
//! The plugin registers `SteamworksNetworkingSocketsCommand` and
//! `SteamworksNetworkingSocketsResult` messages, owns the Steam handles it
//! creates behind opaque IDs, and records bounded snapshots of what it
//! observed in `SteamworksNetworkingSocketsState`.

mod bulk;
mod command;
mod commands;
mod error;
mod handles;
mod identifiers;
mod laws;
mod listen_events;
mod operation;
mod polling;
mod purpose;
mod redaction;
mod snapshots;
mod state;
mod types;
mod validation;

pub use bulk::{
    accepted_on_none_of, accepted_on_one_of, close_all_connections, close_all_listen_sockets,
    close_all_poll_groups, flush_all_messages, left_poll_groups, poll_groups_cleared,
    ended_by_poll, left_open_by_polls, other_than, poll_all_connection_events, receive_all_messages,
    receive_all_poll_group_messages,
};
pub use bulk::receive_fails_at;
pub use commands::{
    connection_interface_plan, connection_plan, interface_plan, owned_before, plan_result_view,
    stored_connection_owner, stored_poll_group_owner,
};
pub use handles::{
    accepted_on, advanced_id, handle_answered, in_poll_group, keys_ascending, keys_issued_before,
    lemma_ascending_index_unique, lemma_filter_keeps_ascending, matches_disconnect, not_accepted_on,
    poll_group_cleared, storage_well_formed, table_changed, table_get, table_has, table_index,
    table_inserted, table_keys, table_removed, with_poll_group, with_user_data, SteamworksHandleEntry,
};
pub use listen_events::{disconnect_resolved, lemma_listen_event_recorded_weakens, listen_event_recorded};
pub use state::{
    cache_limit, cached_connection_info, cached_realtime_status, connection_event_batch_applied,
    connection_event_batches_applied, connections_state_removed, flattened_messages,
    flattened_poll_group_messages, initial_state, last_of, listen_event_batch_applied,
    listen_event_batches_applied, listen_sockets_events_removed, newest_poll_group_message,
    newest_received_message, newest_sent_message, next_state, option_map_spec, option_ref_is,
    option_view, poll_group_messages_recorded, poll_groups_messages_removed,
    received_messages_recorded, removed_connection_state, saturating_count, state_caches_bounded,
    successful_sends,
};
pub use validation::{
    config_entries_check_from, config_type_error, debug_text_check, outbound_message_check,
    outbound_messages_check_from,
};
pub use purpose::{
    lemma_batch_send_checks_every_message, lemma_closed_or_failed_connections_end,
    lemma_connection_calls_use_the_owning_interface, lemma_user_data_read_is_remembered, message_sendable,
};
pub use command::SteamworksNetworkingSocketsCommand;
pub use redaction::{
    summarize_config_entry, summarize_connection_name, summarize_connection_name_snapshot, summarize_message,
    summarize_outbound_message, summarize_poll_group_message, utf8_len, SteamworksConfigEntrySummary,
    SteamworksConnectionNameSummary, SteamworksMessageSummary, SteamworksOutboundMessageSummary,
    SteamworksPollGroupMessageSummary,
};
pub use polling::{
    collect_connection_events, handle_ended_with, incoming_report, listen_events_taken, listen_handle,
    listen_owner, listen_socket_poll_failed, listen_socket_polled, listen_socket_polled_somehow,
    poll_all_listen_socket_events, poll_listen_socket_events, reply_answered, request_answered,
    request_refused, SteamworksListenSocketIncoming,
};
pub use listen_events::{record_listen_socket_event, SteamworksListenSocketReport};
pub use commands::{
    batch_reached_terminal, close_listen_socket, close_poll_group, command_plan,
    connection_events_polled, connection_user_data_from_info_result, interface_owner,
    listen_socket_closed, merge_send_outcomes, networking_sockets_owner,
    networking_sockets_owner_for, outcomes_fit, owner_interface, plan_networking_sockets_command,
    allocated_before, prepare_send_messages, send_preparation_fails_at, stored_connection_handle,
    lemma_send_owners_find_every_connection, lemma_send_results_follow_messages, owned_items, split_by_owner,
    send_owners, send_result_at, server_interface_owner, server_networking_sockets_owner,
    SteamworksCommandPlanView, SteamworksNetworkingSocketsCommandPlan,
};
pub use error::SteamworksNetworkingSocketsError;
pub use handles::{
    SteamworksConnectionEntry, SteamworksHandleStorageView, SteamworksListenSocketEntry,
    SteamworksNetworkingSocketsConnectionMetadata, SteamworksNetworkingSocketsHandleOwner,
    SteamworksNetworkingSocketsHandleStorage, SteamworksPollGroupEntry,
};
pub use identifiers::{
    group_identifier_views, SteamworksListenSocketId, SteamworksNetworkingSocketsConnectionId,
    SteamworksNetworkingSocketsPollGroupId,
};
pub use laws::{
    lemma_close_listen_socket_removes_children, lemma_connection_close_forgets_state,
    lemma_connection_info_read_is_cached, lemma_fresh_id_unused, lemma_inserted_is_found,
    lemma_listen_socket_close_forgets_events, lemma_poll_group_close_forgets_messages,
    lemma_realtime_status_read_is_cached, lemma_received_messages_are_newest,
    lemma_removed_is_gone, lemma_connection_info_cache_update, lemma_realtime_status_cache_update,
    lemma_listen_events_cache_update, lemma_connection_close_keeps_other_connections,
    lemma_counters_follow_operations, keyed_cache_update, sent_by, received_by, send_succeeded,
};
pub use operation::{SteamworksNetworkingSocketsOperation, SteamworksNetworkingSocketsResult};
pub use snapshots::{
    SteamworksConnectionMessagesView, SteamworksConnectionNameView, SteamworksPollGroupMessagesView,
    copy_bytes, copy_connection_ids, SteamworksListenSocketClosedView, SteamworksMessageView,
    SteamworksNetworkingSocketsConnectionClosed, SteamworksNetworkingSocketsConnectionInfo,
    SteamworksNetworkingSocketsConnectionMessages, SteamworksNetworkingSocketsConnectionName,
    SteamworksNetworkingSocketsConnectionUserData, SteamworksNetworkingSocketsLaneConfiguration,
    SteamworksNetworkingSocketsListenSocketClosed, SteamworksNetworkingSocketsMessage,
    SteamworksNetworkingSocketsMessageSendResult, SteamworksNetworkingSocketsOutboundMessage,
    SteamworksNetworkingSocketsPollGroupAssignment, SteamworksNetworkingSocketsPollGroupMessage,
    SteamworksNetworkingSocketsPollGroupMessages, SteamworksNetworkingSocketsRealtimeLaneStatus,
    SteamworksNetworkingSocketsRealtimeStatus, SteamworksNetworkingSocketsSentMessage,
    SteamworksPollGroupMessageView, SteamworksRealtimeStatusView,
};
pub use state::{
    SteamworksNetworkingSocketsState, SteamworksNetworkingSocketsStateView,
    STEAMWORKS_NETWORKING_SOCKETS_STATE_CACHE_LIMIT,
};
pub use types::{
    SteamworksConnectionEventsView, SteamworksConnectionRequestPolicy,
    SteamworksListenSocketEventInfo, SteamworksListenSocketEventsView,
    SteamworksNetworkingSocketsConfigEntry, SteamworksNetworkingSocketsConnectionCreated,
    SteamworksNetworkingSocketsConnectionEventInfo, SteamworksNetworkingSocketsConnectionEvents,
    SteamworksNetworkingSocketsConnectionTarget, SteamworksNetworkingSocketsListenEndpoint,
    SteamworksNetworkingSocketsListenSocketCreated, SteamworksNetworkingSocketsListenSocketEvents,
};
pub use validation::{
    command_check, config_entries_check, config_entry_check, event_limit_check,
    float_bits_are_finite, lane_configuration_check, message_batch_size_check,
    message_channel_check, message_payload_len_check, outbound_messages_check,
    contains_nul, request_policy_check, send_message_batch_size_check, text_has_nul, validate_command,
    validate_config_entries, validate_event_limit, validate_lane_configuration,
    validate_message_batch_size, validate_message_channel, validate_message_payload_len,
    validate_request_policy, validate_send_message_batch_size, validate_virtual_port,
    virtual_port_check,
};

use vstd::prelude::*;

verus! {

/// Largest `max_events` a single poll command accepts.
pub const STEAMWORKS_NETWORKING_SOCKETS_MAX_EVENTS_PER_COMMAND: usize = 1024;

/// Largest number of messages a single receive or send command accepts.
pub const STEAMWORKS_NETWORKING_SOCKETS_MAX_MESSAGES_PER_COMMAND: usize = 1024;

/// Largest payload a single message may carry (Steam's send limit).
pub const STEAMWORKS_NETWORKING_SOCKETS_MAX_MESSAGE_BYTES: usize = 512 * 1024;

/// Largest number of lane statuses a realtime status command may request.
pub const STEAMWORKS_NETWORKING_SOCKETS_MAX_REALTIME_LANES: u32 = 16;

/// Largest number of lanes a lane configuration command may configure.
pub const STEAMWORKS_NETWORKING_SOCKETS_MAX_CONFIGURED_LANES: usize = 16;

/// Largest number of initial config entries a listen or connect command accepts.
pub const STEAMWORKS_NETWORKING_SOCKETS_MAX_CONFIG_ENTRIES: usize = 64;

/// Bevy plugin for high-level Steam Networking Sockets commands.
#[derive(Clone, Copy, Debug, Default, PartialEq, Eq)]
pub struct SteamworksNetworkingSocketsPlugin;

impl SteamworksNetworkingSocketsPlugin {
    /// Creates a Networking Sockets plugin with default behavior.
    pub fn new() -> (plugin: Self)
        ensures
            plugin == SteamworksNetworkingSocketsPlugin,
    {
        SteamworksNetworkingSocketsPlugin
    }
}

} // verus!

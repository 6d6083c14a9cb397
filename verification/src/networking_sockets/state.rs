//! Bounded record of what the Networking Sockets plugin observed.
//!
//! Keyed caches hold at most one entry per handle; every cache keeps at most
//! `STEAMWORKS_NETWORKING_SOCKETS_STATE_CACHE_LIMIT` entries, newest last.

use crate::cache::{
    first_for_key, last_for_key, option_ref_view,
    extend_snapshots, find_first_by_key, lemma_snapshot_views_empty, find_last_by_key, has_key, keys_unique,
    lemma_upserted_bounded, lemma_without_key_keeps_cache_shape, remove_key, snapshot_all,
    snapshot_views, snapshots_for_key, count_for_key, append_snapshots, trimmed, upsert_snapshot,
    upserted, without_key, key_matches, SteamworksKeyedSnapshot, SteamworksSnapshot,
};
use crate::networking_types::{SteamworksNetworkingAvailabilityResult, SteamworksNetworkingConnectionState};
use super::error::SteamworksNetworkingSocketsError;
use super::handles::SteamworksNetworkingSocketsHandleStorage;
use super::identifiers::{
    SteamworksListenSocketId, SteamworksNetworkingSocketsConnectionId,
    SteamworksNetworkingSocketsPollGroupId,
};
use super::operation::SteamworksNetworkingSocketsOperation;
use super::snapshots::{
    SteamworksConnectionMessagesView, SteamworksConnectionNameView,
    SteamworksListenSocketClosedView, SteamworksMessageView,
    SteamworksNetworkingSocketsConnectionClosed, SteamworksNetworkingSocketsConnectionInfo,
    SteamworksNetworkingSocketsConnectionMessages, SteamworksNetworkingSocketsConnectionName,
    SteamworksNetworkingSocketsConnectionUserData, SteamworksNetworkingSocketsLaneConfiguration,
    SteamworksNetworkingSocketsListenSocketClosed, SteamworksNetworkingSocketsMessage,
    SteamworksNetworkingSocketsMessageSendResult, SteamworksNetworkingSocketsPollGroupAssignment,
    SteamworksNetworkingSocketsPollGroupMessage, SteamworksNetworkingSocketsPollGroupMessages,
    SteamworksNetworkingSocketsRealtimeStatus, SteamworksNetworkingSocketsSentMessage,
    SteamworksPollGroupMessageView, SteamworksPollGroupMessagesView, SteamworksRealtimeStatusView,
    copy_connection_ids,
};
use super::types::{
    SteamworksConnectionEventsView, SteamworksListenSocketEventsView,
    SteamworksNetworkingSocketsConnectionCreated, SteamworksNetworkingSocketsConnectionEvents,
    SteamworksNetworkingSocketsListenSocketCreated, SteamworksNetworkingSocketsListenSocketEvents,
};
use vstd::prelude::*;

verus! {

/// Largest number of entries any cache of the state holds.
pub const STEAMWORKS_NETWORKING_SOCKETS_STATE_CACHE_LIMIT: usize = 1024;

/// Runtime state of the Networking Sockets plugin.
pub struct SteamworksNetworkingSocketsState {
    last_error: Option<SteamworksNetworkingSocketsError>,
    last_authentication_status: Option<SteamworksNetworkingAvailabilityResult>,
    last_created_listen_socket: Option<SteamworksNetworkingSocketsListenSocketCreated>,
    last_created_connection: Option<SteamworksNetworkingSocketsConnectionCreated>,
    last_created_poll_group: Option<SteamworksNetworkingSocketsPollGroupId>,
    listen_socket_events: Vec<SteamworksNetworkingSocketsListenSocketEvents>,
    last_listen_socket_events: Option<SteamworksNetworkingSocketsListenSocketEvents>,
    connection_events: Vec<SteamworksNetworkingSocketsConnectionEvents>,
    last_connection_events: Option<SteamworksNetworkingSocketsConnectionEvents>,
    connection_infos: Vec<SteamworksNetworkingSocketsConnectionInfo>,
    last_connection_info: Option<SteamworksNetworkingSocketsConnectionInfo>,
    realtime_statuses: Vec<SteamworksNetworkingSocketsRealtimeStatus>,
    last_realtime_status: Option<SteamworksNetworkingSocketsRealtimeStatus>,
    last_sent_message: Option<SteamworksNetworkingSocketsSentMessage>,
    recent_sent_messages: Vec<SteamworksNetworkingSocketsMessageSendResult>,
    last_sent_messages: Vec<SteamworksNetworkingSocketsMessageSendResult>,
    recent_received_messages: Vec<SteamworksNetworkingSocketsMessage>,
    last_received_messages: Vec<SteamworksNetworkingSocketsMessage>,
    recent_poll_group_messages: Vec<SteamworksNetworkingSocketsPollGroupMessage>,
    last_poll_group_messages: Vec<SteamworksNetworkingSocketsPollGroupMessage>,
    last_flushed_connection: Option<SteamworksNetworkingSocketsConnectionId>,
    last_connection_poll_group_set: Option<SteamworksNetworkingSocketsPollGroupAssignment>,
    last_connection_poll_group_cleared: Option<SteamworksNetworkingSocketsConnectionId>,
    last_connection_lanes_configured: Option<SteamworksNetworkingSocketsLaneConfiguration>,
    last_connection_user_data: Option<SteamworksNetworkingSocketsConnectionUserData>,
    last_connection_name: Option<SteamworksNetworkingSocketsConnectionName>,
    last_closed_connection: Option<SteamworksNetworkingSocketsConnectionClosed>,
    last_closed_listen_socket: Option<SteamworksNetworkingSocketsListenSocketClosed>,
    last_closed_poll_group: Option<SteamworksNetworkingSocketsPollGroupId>,
    listen_socket_count: usize,
    connection_count: usize,
    poll_group_count: usize,
    sent_count: u64,
    received_count: u64,
}

/// Abstract value of the plugin state: every field by its abstract value.
pub struct SteamworksNetworkingSocketsStateView {
    pub last_error: Option<SteamworksNetworkingSocketsError>,
    pub last_authentication_status: Option<SteamworksNetworkingAvailabilityResult>,
    pub last_created_listen_socket: Option<SteamworksNetworkingSocketsListenSocketCreated>,
    pub last_created_connection: Option<SteamworksNetworkingSocketsConnectionCreated>,
    pub last_created_poll_group: Option<SteamworksNetworkingSocketsPollGroupId>,
    pub listen_socket_events: Seq<SteamworksListenSocketEventsView>,
    pub last_listen_socket_events: Option<SteamworksListenSocketEventsView>,
    pub connection_events: Seq<SteamworksConnectionEventsView>,
    pub last_connection_events: Option<SteamworksConnectionEventsView>,
    pub connection_infos: Seq<SteamworksNetworkingSocketsConnectionInfo>,
    pub last_connection_info: Option<SteamworksNetworkingSocketsConnectionInfo>,
    pub realtime_statuses: Seq<SteamworksRealtimeStatusView>,
    pub last_realtime_status: Option<SteamworksRealtimeStatusView>,
    pub last_sent_message: Option<SteamworksNetworkingSocketsSentMessage>,
    pub recent_sent_messages: Seq<SteamworksNetworkingSocketsMessageSendResult>,
    pub last_sent_messages: Seq<SteamworksNetworkingSocketsMessageSendResult>,
    pub recent_received_messages: Seq<SteamworksMessageView>,
    pub last_received_messages: Seq<SteamworksMessageView>,
    pub recent_poll_group_messages: Seq<SteamworksPollGroupMessageView>,
    pub last_poll_group_messages: Seq<SteamworksPollGroupMessageView>,
    pub last_flushed_connection: Option<SteamworksNetworkingSocketsConnectionId>,
    pub last_connection_poll_group_set: Option<SteamworksNetworkingSocketsPollGroupAssignment>,
    pub last_connection_poll_group_cleared: Option<SteamworksNetworkingSocketsConnectionId>,
    pub last_connection_lanes_configured: Option<SteamworksNetworkingSocketsLaneConfiguration>,
    pub last_connection_user_data: Option<SteamworksNetworkingSocketsConnectionUserData>,
    pub last_connection_name: Option<SteamworksConnectionNameView>,
    pub last_closed_connection: Option<SteamworksNetworkingSocketsConnectionClosed>,
    pub last_closed_listen_socket: Option<SteamworksListenSocketClosedView>,
    pub last_closed_poll_group: Option<SteamworksNetworkingSocketsPollGroupId>,
    pub listen_socket_count: usize,
    pub connection_count: usize,
    pub poll_group_count: usize,
    pub sent_count: u64,
    pub received_count: u64,
}

/// The abstract value of an optional snapshot.
pub open spec fn option_view<T: View>(o: Option<T>) -> Option<T::V> {
    match o {
        Some(v) => Some(v@),
        None => None,
    }
}

/// The last entry of `s`, if any.
pub open spec fn last_of<A>(s: Seq<A>) -> Option<A> {
    if s.len() == 0 {
        None
    } else {
        Some(s.last())
    }
}

/// Cache limit as a natural number.
pub open spec fn cache_limit() -> nat {
    STEAMWORKS_NETWORKING_SOCKETS_STATE_CACHE_LIMIT as nat
}

/// `count + n`, saturating at `u64::MAX`.
pub open spec fn saturating_count(count: u64, n: int) -> u64 {
    if count + n > u64::MAX {
        u64::MAX
    } else {
        (count + n) as u64
    }
}

/// Every cache is within its limit and keyed caches hold one entry per key.
pub open spec fn state_caches_bounded(s: SteamworksNetworkingSocketsStateView) -> bool {
    &&& keys_unique::<SteamworksNetworkingSocketsListenSocketEvents>(s.listen_socket_events)
    &&& s.listen_socket_events.len() <= cache_limit()
    &&& keys_unique::<SteamworksNetworkingSocketsConnectionEvents>(s.connection_events)
    &&& s.connection_events.len() <= cache_limit()
    &&& keys_unique::<SteamworksNetworkingSocketsConnectionInfo>(s.connection_infos)
    &&& s.connection_infos.len() <= cache_limit()
    &&& keys_unique::<SteamworksNetworkingSocketsRealtimeStatus>(s.realtime_statuses)
    &&& s.realtime_statuses.len() <= cache_limit()
    &&& s.recent_sent_messages.len() <= cache_limit()
    &&& s.recent_received_messages.len() <= cache_limit()
    &&& s.recent_poll_group_messages.len() <= cache_limit()
}

/// The state of a freshly created plugin: nothing observed, all counts zero.
pub open spec fn initial_state() -> SteamworksNetworkingSocketsStateView {
    SteamworksNetworkingSocketsStateView {
        last_error: None,
        last_authentication_status: None,
        last_created_listen_socket: None,
        last_created_connection: None,
        last_created_poll_group: None,
        listen_socket_events: Seq::empty(),
        last_listen_socket_events: None,
        connection_events: Seq::empty(),
        last_connection_events: None,
        connection_infos: Seq::empty(),
        last_connection_info: None,
        realtime_statuses: Seq::empty(),
        last_realtime_status: None,
        last_sent_message: None,
        recent_sent_messages: Seq::empty(),
        last_sent_messages: Seq::empty(),
        recent_received_messages: Seq::empty(),
        last_received_messages: Seq::empty(),
        recent_poll_group_messages: Seq::empty(),
        last_poll_group_messages: Seq::empty(),
        last_flushed_connection: None,
        last_connection_poll_group_set: None,
        last_connection_poll_group_cleared: None,
        last_connection_lanes_configured: None,
        last_connection_user_data: None,
        last_connection_name: None,
        last_closed_connection: None,
        last_closed_listen_socket: None,
        last_closed_poll_group: None,
        listen_socket_count: 0,
        connection_count: 0,
        poll_group_count: 0,
        sent_count: 0,
        received_count: 0,
    }
}

/// `s` without the cached info and realtime status of `connection`.
pub open spec fn removed_connection_state(
    s: SteamworksNetworkingSocketsStateView,
    connection: u64,
) -> SteamworksNetworkingSocketsStateView {
    SteamworksNetworkingSocketsStateView {
        connection_infos: without_key::<SteamworksNetworkingSocketsConnectionInfo>(
            s.connection_infos,
            connection,
        ),
        realtime_statuses: without_key::<SteamworksNetworkingSocketsRealtimeStatus>(
            s.realtime_statuses,
            connection,
        ),
        ..s
    }
}

/// `s` after caching one listen-socket event batch.
pub open spec fn listen_event_batch_applied(
    s: SteamworksNetworkingSocketsStateView,
    batch: SteamworksListenSocketEventsView,
) -> SteamworksNetworkingSocketsStateView {
    SteamworksNetworkingSocketsStateView {
        listen_socket_events: upserted::<SteamworksNetworkingSocketsListenSocketEvents>(
            s.listen_socket_events,
            batch,
            cache_limit(),
        ),
        ..s
    }
}

/// `s` after caching listen-socket event batches in order.
pub open spec fn listen_event_batches_applied(
    s: SteamworksNetworkingSocketsStateView,
    batches: Seq<SteamworksListenSocketEventsView>,
) -> SteamworksNetworkingSocketsStateView
    decreases batches.len(),
{
    if batches.len() == 0 {
        s
    } else {
        listen_event_batch_applied(
            listen_event_batches_applied(s, batches.drop_last()),
            batches.last(),
        )
    }
}

/// `s` after caching one connection event batch, dropping the connection's
/// cached info and status when the batch removed it.
pub open spec fn connection_event_batch_applied(
    s: SteamworksNetworkingSocketsStateView,
    batch: SteamworksConnectionEventsView,
) -> SteamworksNetworkingSocketsStateView {
    let cached = SteamworksNetworkingSocketsStateView {
        connection_events: upserted::<SteamworksNetworkingSocketsConnectionEvents>(
            s.connection_events,
            batch,
            cache_limit(),
        ),
        ..s
    };
    if batch.connection_removed {
        removed_connection_state(cached, batch.connection@)
    } else {
        cached
    }
}

/// `s` after caching connection event batches in order.
pub open spec fn connection_event_batches_applied(
    s: SteamworksNetworkingSocketsStateView,
    batches: Seq<SteamworksConnectionEventsView>,
) -> SteamworksNetworkingSocketsStateView
    decreases batches.len(),
{
    if batches.len() == 0 {
        s
    } else {
        connection_event_batch_applied(
            connection_event_batches_applied(s, batches.drop_last()),
            batches.last(),
        )
    }
}

/// `s` without the cached info and status of each of `connections`.
pub open spec fn connections_state_removed(
    s: SteamworksNetworkingSocketsStateView,
    connections: Seq<u64>,
) -> SteamworksNetworkingSocketsStateView
    decreases connections.len(),
{
    if connections.len() == 0 {
        s
    } else {
        removed_connection_state(
            connections_state_removed(s, connections.drop_last()),
            connections.last(),
        )
    }
}

/// `s` without the cached event batches of each of `listen_sockets`.
pub open spec fn listen_sockets_events_removed(
    s: SteamworksNetworkingSocketsStateView,
    listen_sockets: Seq<u64>,
) -> SteamworksNetworkingSocketsStateView
    decreases listen_sockets.len(),
{
    if listen_sockets.len() == 0 {
        s
    } else {
        let prev = listen_sockets_events_removed(s, listen_sockets.drop_last());
        SteamworksNetworkingSocketsStateView {
            listen_socket_events: without_key::<SteamworksNetworkingSocketsListenSocketEvents>(
                prev.listen_socket_events,
                listen_sockets.last(),
            ),
            ..prev
        }
    }
}

/// `s` without the recent messages of each of `poll_groups`.
pub open spec fn poll_groups_messages_removed(
    s: SteamworksNetworkingSocketsStateView,
    poll_groups: Seq<u64>,
) -> SteamworksNetworkingSocketsStateView
    decreases poll_groups.len(),
{
    if poll_groups.len() == 0 {
        s
    } else {
        let prev = poll_groups_messages_removed(s, poll_groups.drop_last());
        SteamworksNetworkingSocketsStateView {
            recent_poll_group_messages: without_key::<SteamworksNetworkingSocketsPollGroupMessage>(
                prev.recent_poll_group_messages,
                poll_groups.last(),
            ),
            ..prev
        }
    }
}

/// The messages of all batches, batch by batch.
pub open spec fn flattened_messages(batches: Seq<SteamworksConnectionMessagesView>) -> Seq<
    SteamworksMessageView,
>
    decreases batches.len(),
{
    if batches.len() == 0 {
        Seq::empty()
    } else {
        flattened_messages(batches.drop_last()) + batches.last().messages
    }
}

/// The poll-group messages of all batches, batch by batch.
pub open spec fn flattened_poll_group_messages(
    batches: Seq<SteamworksPollGroupMessagesView>,
) -> Seq<SteamworksPollGroupMessageView>
    decreases batches.len(),
{
    if batches.len() == 0 {
        Seq::empty()
    } else {
        flattened_poll_group_messages(batches.drop_last()) + batches.last().messages
    }
}

/// Number of send outcomes that carry a message number.
pub open spec fn successful_sends(messages: Seq<SteamworksNetworkingSocketsMessageSendResult>) -> nat
    decreases messages.len(),
{
    if messages.len() == 0 {
        0
    } else {
        successful_sends(messages.drop_last()) + if messages.last().result is Ok {
            1nat
        } else {
            0nat
        }
    }
}

/// `s` after recording a batch of received connection messages.
pub open spec fn received_messages_recorded(
    s: SteamworksNetworkingSocketsStateView,
    messages: Seq<SteamworksMessageView>,
) -> SteamworksNetworkingSocketsStateView {
    SteamworksNetworkingSocketsStateView {
        received_count: saturating_count(s.received_count, messages.len() as int),
        recent_received_messages: trimmed(s.recent_received_messages + messages, cache_limit()),
        last_received_messages: messages,
        ..s
    }
}

/// `s` after recording a batch of received poll-group messages.
pub open spec fn poll_group_messages_recorded(
    s: SteamworksNetworkingSocketsStateView,
    messages: Seq<SteamworksPollGroupMessageView>,
) -> SteamworksNetworkingSocketsStateView {
    SteamworksNetworkingSocketsStateView {
        received_count: saturating_count(s.received_count, messages.len() as int),
        recent_poll_group_messages: trimmed(s.recent_poll_group_messages + messages, cache_limit()),
        last_poll_group_messages: messages,
        ..s
    }
}

/// The state after recording one successful operation.
pub open spec fn next_state(
    s: SteamworksNetworkingSocketsStateView,
    op: SteamworksNetworkingSocketsOperation,
) -> SteamworksNetworkingSocketsStateView {
    match op {
        SteamworksNetworkingSocketsOperation::AuthenticationInitialized { availability } => {
            SteamworksNetworkingSocketsStateView {
                last_authentication_status: Some(availability),
                ..s
            }
        },
        SteamworksNetworkingSocketsOperation::AuthenticationStatusRead { availability } => {
            SteamworksNetworkingSocketsStateView {
                last_authentication_status: Some(availability),
                ..s
            }
        },
        SteamworksNetworkingSocketsOperation::ListenSocketCreated { listen_socket, endpoint } => {
            SteamworksNetworkingSocketsStateView {
                last_created_listen_socket: Some(
                    SteamworksNetworkingSocketsListenSocketCreated { listen_socket, endpoint },
                ),
                ..s
            }
        },
        SteamworksNetworkingSocketsOperation::ConnectionCreated { connection, target } => {
            SteamworksNetworkingSocketsStateView {
                last_created_connection: Some(
                    SteamworksNetworkingSocketsConnectionCreated { connection, target },
                ),
                ..s
            }
        },
        SteamworksNetworkingSocketsOperation::PollGroupCreated { poll_group } => {
            SteamworksNetworkingSocketsStateView { last_created_poll_group: Some(poll_group), ..s }
        },
        SteamworksNetworkingSocketsOperation::ListenSocketEventsPolled { listen_socket, events } => {
            let batch = SteamworksListenSocketEventsView {
                listen_socket,
                events: snapshot_views(events@),
            };
            SteamworksNetworkingSocketsStateView {
                last_listen_socket_events: Some(batch),
                ..listen_event_batch_applied(s, batch)
            }
        },
        SteamworksNetworkingSocketsOperation::AllListenSocketEventsPolled { listen_sockets } => {
            let batches = snapshot_views(listen_sockets@);
            SteamworksNetworkingSocketsStateView {
                last_listen_socket_events: last_of(batches),
                ..listen_event_batches_applied(s, batches)
            }
        },
        SteamworksNetworkingSocketsOperation::ConnectionEventsPolled {
            connection,
            events,
            connection_removed,
        } => {
            let batch = SteamworksConnectionEventsView {
                connection,
                events: events@,
                connection_removed,
            };
            SteamworksNetworkingSocketsStateView {
                last_connection_events: Some(batch),
                ..connection_event_batch_applied(s, batch)
            }
        },
        SteamworksNetworkingSocketsOperation::AllConnectionEventsPolled { connections } => {
            let batches = snapshot_views(connections@);
            SteamworksNetworkingSocketsStateView {
                last_connection_events: last_of(batches),
                ..connection_event_batches_applied(s, batches)
            }
        },
        SteamworksNetworkingSocketsOperation::ConnectionInfoRead { info } => {
            SteamworksNetworkingSocketsStateView {
                connection_infos: upserted::<SteamworksNetworkingSocketsConnectionInfo>(
                    s.connection_infos,
                    info,
                    cache_limit(),
                ),
                last_connection_info: Some(info),
                ..s
            }
        },
        SteamworksNetworkingSocketsOperation::ConnectionUserDataRead { connection, user_data } => {
            SteamworksNetworkingSocketsStateView {
                last_connection_user_data: Some(
                    SteamworksNetworkingSocketsConnectionUserData { connection, user_data },
                ),
                ..s
            }
        },
        SteamworksNetworkingSocketsOperation::RealtimeConnectionStatusRead { status } => {
            SteamworksNetworkingSocketsStateView {
                realtime_statuses: upserted::<SteamworksNetworkingSocketsRealtimeStatus>(
                    s.realtime_statuses,
                    status@,
                    cache_limit(),
                ),
                last_realtime_status: Some(status@),
                ..s
            }
        },
        SteamworksNetworkingSocketsOperation::MessageSent { connection, message_number, bytes } => {
            SteamworksNetworkingSocketsStateView {
                sent_count: saturating_count(s.sent_count, 1),
                last_sent_message: Some(
                    SteamworksNetworkingSocketsSentMessage { connection, message_number, bytes },
                ),
                ..s
            }
        },
        SteamworksNetworkingSocketsOperation::MessagesSent { messages } => {
            SteamworksNetworkingSocketsStateView {
                sent_count: saturating_count(s.sent_count, successful_sends(messages@) as int),
                recent_sent_messages: trimmed(s.recent_sent_messages + messages@, cache_limit()),
                last_sent_messages: messages@,
                ..s
            }
        },
        SteamworksNetworkingSocketsOperation::MessagesReceived { connection, messages } => {
            received_messages_recorded(s, snapshot_views(messages@))
        },
        SteamworksNetworkingSocketsOperation::AllMessagesReceived { connections } => {
            received_messages_recorded(s, flattened_messages(snapshot_views(connections@)))
        },
        SteamworksNetworkingSocketsOperation::PollGroupMessagesReceived { poll_group, messages } => {
            poll_group_messages_recorded(s, snapshot_views(messages@))
        },
        SteamworksNetworkingSocketsOperation::AllPollGroupMessagesReceived { poll_groups } => {
            poll_group_messages_recorded(
                s,
                flattened_poll_group_messages(snapshot_views(poll_groups@)),
            )
        },
        SteamworksNetworkingSocketsOperation::MessagesFlushed { connection } => {
            SteamworksNetworkingSocketsStateView { last_flushed_connection: Some(connection), ..s }
        },
        SteamworksNetworkingSocketsOperation::AllMessagesFlushed { connections } => {
            SteamworksNetworkingSocketsStateView {
                last_flushed_connection: last_of(connections@),
                ..s
            }
        },
        SteamworksNetworkingSocketsOperation::ConnectionPollGroupSet { connection, poll_group } => {
            SteamworksNetworkingSocketsStateView {
                last_connection_poll_group_set: Some(
                    SteamworksNetworkingSocketsPollGroupAssignment { connection, poll_group },
                ),
                ..s
            }
        },
        SteamworksNetworkingSocketsOperation::ConnectionPollGroupCleared { connection } => {
            SteamworksNetworkingSocketsStateView {
                last_connection_poll_group_cleared: Some(connection),
                ..s
            }
        },
        SteamworksNetworkingSocketsOperation::ConnectionLanesConfigured { connection, lanes } => {
            SteamworksNetworkingSocketsStateView {
                last_connection_lanes_configured: Some(
                    SteamworksNetworkingSocketsLaneConfiguration { connection, lanes },
                ),
                ..s
            }
        },
        SteamworksNetworkingSocketsOperation::ConnectionUserDataSet { connection, user_data } => {
            SteamworksNetworkingSocketsStateView {
                last_connection_user_data: Some(
                    SteamworksNetworkingSocketsConnectionUserData { connection, user_data },
                ),
                ..s
            }
        },
        SteamworksNetworkingSocketsOperation::ConnectionNameSet { connection, name } => {
            SteamworksNetworkingSocketsStateView {
                last_connection_name: Some(SteamworksConnectionNameView { connection, name: name@ }),
                ..s
            }
        },
        SteamworksNetworkingSocketsOperation::ConnectionClosed { connection, close_succeeded } => {
            SteamworksNetworkingSocketsStateView {
                last_closed_connection: Some(
                    SteamworksNetworkingSocketsConnectionClosed { connection, close_succeeded },
                ),
                ..removed_connection_state(s, connection@)
            }
        },
        SteamworksNetworkingSocketsOperation::AllConnectionsClosed { connections } => {
            SteamworksNetworkingSocketsStateView {
                last_closed_connection: last_of(connections@),
                ..connections_state_removed(
                    s,
                    connections@.map_values(
                        |c: SteamworksNetworkingSocketsConnectionClosed| c.connection@,
                    ),
                )
            }
        },
        SteamworksNetworkingSocketsOperation::ListenSocketClosed {
            listen_socket,
            closed_connections,
        } => {
            SteamworksNetworkingSocketsStateView {
                listen_socket_events: without_key::<SteamworksNetworkingSocketsListenSocketEvents>(
                    s.listen_socket_events,
                    listen_socket@,
                ),
                last_closed_listen_socket: Some(
                    SteamworksListenSocketClosedView {
                        listen_socket,
                        closed_connections: closed_connections@,
                    },
                ),
                ..s
            }
        },
        SteamworksNetworkingSocketsOperation::AllListenSocketsClosed { listen_sockets } => {
            let closed = snapshot_views(listen_sockets@);
            SteamworksNetworkingSocketsStateView {
                last_closed_listen_socket: last_of(closed),
                ..listen_sockets_events_removed(
                    s,
                    closed.map_values(|c: SteamworksListenSocketClosedView| c.listen_socket@),
                )
            }
        },
        SteamworksNetworkingSocketsOperation::PollGroupClosed { poll_group } => {
            SteamworksNetworkingSocketsStateView {
                recent_poll_group_messages: without_key::<
                    SteamworksNetworkingSocketsPollGroupMessage,
                >(s.recent_poll_group_messages, poll_group@),
                last_closed_poll_group: Some(poll_group),
                ..s
            }
        },
        SteamworksNetworkingSocketsOperation::AllPollGroupsClosed { poll_groups } => {
            SteamworksNetworkingSocketsStateView {
                last_closed_poll_group: last_of(poll_groups@),
                ..poll_groups_messages_removed(
                    s,
                    poll_groups@.map_values(|g: SteamworksNetworkingSocketsPollGroupId| g@),
                )
            }
        },
    }
}

impl View for SteamworksNetworkingSocketsState {
    type V = SteamworksNetworkingSocketsStateView;

    closed spec fn view(&self) -> SteamworksNetworkingSocketsStateView {
        SteamworksNetworkingSocketsStateView {
            last_error: self.last_error,
            last_authentication_status: self.last_authentication_status,
            last_created_listen_socket: self.last_created_listen_socket,
            last_created_connection: self.last_created_connection,
            last_created_poll_group: self.last_created_poll_group,
            listen_socket_events: snapshot_views(self.listen_socket_events@),
            last_listen_socket_events: option_view(self.last_listen_socket_events),
            connection_events: snapshot_views(self.connection_events@),
            last_connection_events: option_view(self.last_connection_events),
            connection_infos: snapshot_views(self.connection_infos@),
            last_connection_info: self.last_connection_info,
            realtime_statuses: snapshot_views(self.realtime_statuses@),
            last_realtime_status: option_view(self.last_realtime_status),
            last_sent_message: self.last_sent_message,
            recent_sent_messages: snapshot_views(self.recent_sent_messages@),
            last_sent_messages: snapshot_views(self.last_sent_messages@),
            recent_received_messages: snapshot_views(self.recent_received_messages@),
            last_received_messages: snapshot_views(self.last_received_messages@),
            recent_poll_group_messages: snapshot_views(self.recent_poll_group_messages@),
            last_poll_group_messages: snapshot_views(self.last_poll_group_messages@),
            last_flushed_connection: self.last_flushed_connection,
            last_connection_poll_group_set: self.last_connection_poll_group_set,
            last_connection_poll_group_cleared: self.last_connection_poll_group_cleared,
            last_connection_lanes_configured: self.last_connection_lanes_configured,
            last_connection_user_data: self.last_connection_user_data,
            last_connection_name: option_view(self.last_connection_name),
            last_closed_connection: self.last_closed_connection,
            last_closed_listen_socket: option_view(self.last_closed_listen_socket),
            last_closed_poll_group: self.last_closed_poll_group,
            listen_socket_count: self.listen_socket_count,
            connection_count: self.connection_count,
            poll_group_count: self.poll_group_count,
            sent_count: self.sent_count,
            received_count: self.received_count,
        }
    }
}

impl SteamworksNetworkingSocketsState {
    #[verifier::type_invariant]
    spec fn caches_bounded(self) -> bool {
        state_caches_bounded(self@)
    }
}

impl Default for SteamworksNetworkingSocketsState {
    /// An empty state: nothing observed, all counts zero.
    fn default() -> (state: Self)
        ensures
            state@ == initial_state(),
            state_caches_bounded(state@),
    {
        let state = SteamworksNetworkingSocketsState {
            last_error: None,
            last_authentication_status: None,
            last_created_listen_socket: None,
            last_created_connection: None,
            last_created_poll_group: None,
            listen_socket_events: Vec::new(),
            last_listen_socket_events: None,
            connection_events: Vec::new(),
            last_connection_events: None,
            connection_infos: Vec::new(),
            last_connection_info: None,
            realtime_statuses: Vec::new(),
            last_realtime_status: None,
            last_sent_message: None,
            recent_sent_messages: Vec::new(),
            last_sent_messages: Vec::new(),
            recent_received_messages: Vec::new(),
            last_received_messages: Vec::new(),
            recent_poll_group_messages: Vec::new(),
            last_poll_group_messages: Vec::new(),
            last_flushed_connection: None,
            last_connection_poll_group_set: None,
            last_connection_poll_group_cleared: None,
            last_connection_lanes_configured: None,
            last_connection_user_data: None,
            last_connection_name: None,
            last_closed_connection: None,
            last_closed_listen_socket: None,
            last_closed_poll_group: None,
            listen_socket_count: 0,
            connection_count: 0,
            poll_group_count: 0,
            sent_count: 0,
            received_count: 0,
        };
        proof {
            lemma_snapshot_views_empty(state.listen_socket_events@);
            lemma_snapshot_views_empty(state.connection_events@);
            lemma_snapshot_views_empty(state.connection_infos@);
            lemma_snapshot_views_empty(state.realtime_statuses@);
            lemma_snapshot_views_empty(state.recent_sent_messages@);
            lemma_snapshot_views_empty(state.last_sent_messages@);
            lemma_snapshot_views_empty(state.recent_received_messages@);
            lemma_snapshot_views_empty(state.last_received_messages@);
            lemma_snapshot_views_empty(state.recent_poll_group_messages@);
            lemma_snapshot_views_empty(state.last_poll_group_messages@);
            assert(state@ =~= initial_state());
        }
        state
    }
}

/// Copies an optional snapshot.
fn snapshot_option<T: SteamworksSnapshot>(o: &Option<T>) -> (copy: Option<T>)
    ensures
        option_view(copy) == option_view(*o),
{
    match o {
        Some(v) => Some(v.snapshot()),
        None => None,
    }
}

/// Copies the last entry of a vector of snapshots.
fn snapshot_last<T: SteamworksSnapshot>(items: &Vec<T>) -> (copy: Option<T>)
    ensures
        option_view(copy) == last_of(snapshot_views(items@)),
{
    let n = items.len();
    if n == 0 {
        None
    } else {
        Some(items[n - 1].snapshot())
    }
}

/// Copies every message of every batch, batch by batch.
fn flatten_connection_messages(batches: &Vec<SteamworksNetworkingSocketsConnectionMessages>) -> (all:
    Vec<SteamworksNetworkingSocketsMessage>)
    ensures
        snapshot_views(all@) == flattened_messages(snapshot_views(batches@)),
{
    let ghost views = snapshot_views(batches@);
    let mut all: Vec<SteamworksNetworkingSocketsMessage> = Vec::new();
    let mut i: usize = 0;
    proof {
        lemma_snapshot_views_empty(all@);
        assert(views.take(0) =~= Seq::<SteamworksConnectionMessagesView>::empty());
    }
    while i < batches.len()
        invariant
            0 <= i <= batches@.len(),
            views == snapshot_views(batches@),
            snapshot_views(all@) == flattened_messages(views.take(i as int)),
        decreases batches@.len() - i,
    {
        extend_snapshots(&mut all, &batches[i].messages);
        proof {
            assert(views.take(i as int + 1).drop_last() =~= views.take(i as int));
            assert(views[i as int] == batches@[i as int]@);
        }
        i += 1;
    }
    proof {
        assert(views.take(i as int) =~= views);
    }
    all
}

/// Copies every poll-group message of every batch, batch by batch.
fn flatten_poll_group_messages(batches: &Vec<SteamworksNetworkingSocketsPollGroupMessages>) -> (all:
    Vec<SteamworksNetworkingSocketsPollGroupMessage>)
    ensures
        snapshot_views(all@) == flattened_poll_group_messages(snapshot_views(batches@)),
{
    let ghost views = snapshot_views(batches@);
    let mut all: Vec<SteamworksNetworkingSocketsPollGroupMessage> = Vec::new();
    let mut i: usize = 0;
    proof {
        lemma_snapshot_views_empty(all@);
        assert(views.take(0) =~= Seq::<SteamworksPollGroupMessagesView>::empty());
    }
    while i < batches.len()
        invariant
            0 <= i <= batches@.len(),
            views == snapshot_views(batches@),
            snapshot_views(all@) == flattened_poll_group_messages(views.take(i as int)),
        decreases batches@.len() - i,
    {
        extend_snapshots(&mut all, &batches[i].messages);
        proof {
            assert(views.take(i as int + 1).drop_last() =~= views.take(i as int));
            assert(views[i as int] == batches@[i as int]@);
        }
        i += 1;
    }
    proof {
        assert(views.take(i as int) =~= views);
    }
    all
}

/// Counts the send outcomes that carry a message number.
fn count_successful_sends(messages: &Vec<SteamworksNetworkingSocketsMessageSendResult>) -> (count:
    usize)
    ensures
        count == successful_sends(messages@),
{
    let mut count: usize = 0;
    let mut i: usize = 0;
    while i < messages.len()
        invariant
            0 <= i <= messages@.len(),
            count == successful_sends(messages@.take(i as int)),
            count <= i,
        decreases messages@.len() - i,
    {
        proof {
            assert(messages@.take(i as int + 1).drop_last() =~= messages@.take(i as int));
        }
        if messages[i].result.is_ok() {
            count += 1;
        }
        i += 1;
    }
    proof {
        assert(messages@.take(i as int) =~= messages@);
    }
    count
}

impl SteamworksNetworkingSocketsState {
    /// Copies the numbers of stored handles into the state.
    pub fn sync_handle_counts<L, C, P>(&mut self, handles: &SteamworksNetworkingSocketsHandleStorage<L, C, P>)
        ensures
            final(self)@ == (SteamworksNetworkingSocketsStateView {
                listen_socket_count: handles@.listen_sockets.len() as usize,
                connection_count: handles@.connections.len() as usize,
                poll_group_count: handles@.poll_groups.len() as usize,
                ..old(self)@
            }),
    {
        proof {
            use_type_invariant(&*self);
        }
        self.listen_socket_count = handles.listen_socket_count();
        self.connection_count = handles.connection_count();
        self.poll_group_count = handles.poll_group_count();
    }

    /// Records the error of a failed command.
    pub fn record_error(&mut self, error: SteamworksNetworkingSocketsError)
        ensures
            final(self)@ == (SteamworksNetworkingSocketsStateView {
                last_error: Some(error),
                ..old(self)@
            }),
    {
        proof {
            use_type_invariant(&*self);
        }
        self.last_error = Some(error);
    }

    /// Drops the cached info and realtime status of one connection.
    fn remove_connection_state(&mut self, connection: SteamworksNetworkingSocketsConnectionId)
        ensures
            final(self)@ == removed_connection_state(old(self)@, connection@),
    {
        proof {
            use_type_invariant(&*self);
            lemma_without_key_keeps_cache_shape::<SteamworksNetworkingSocketsConnectionInfo>(
                self@.connection_infos,
                connection@,
                cache_limit(),
            );
            lemma_without_key_keeps_cache_shape::<SteamworksNetworkingSocketsRealtimeStatus>(
                self@.realtime_statuses,
                connection@,
                cache_limit(),
            );
        }
        let mut infos: Vec<SteamworksNetworkingSocketsConnectionInfo> = Vec::new();
        std::mem::swap(&mut infos, &mut self.connection_infos);
        remove_key(&mut infos, connection.raw());
        self.connection_infos = infos;
        let mut statuses: Vec<SteamworksNetworkingSocketsRealtimeStatus> = Vec::new();
        std::mem::swap(&mut statuses, &mut self.realtime_statuses);
        remove_key(&mut statuses, connection.raw());
        self.realtime_statuses = statuses;
    }

    /// Caches one listen-socket event batch.
    fn apply_listen_event_batch(&mut self, batch: SteamworksNetworkingSocketsListenSocketEvents)
        ensures
            final(self)@ == listen_event_batch_applied(old(self)@, batch@),
    {
        proof {
            use_type_invariant(&*self);
            lemma_upserted_bounded::<SteamworksNetworkingSocketsListenSocketEvents>(
                self@.listen_socket_events,
                batch@,
                cache_limit(),
            );
        }
        let mut cached: Vec<SteamworksNetworkingSocketsListenSocketEvents> = Vec::new();
        std::mem::swap(&mut cached, &mut self.listen_socket_events);
        upsert_snapshot(&mut cached, batch, STEAMWORKS_NETWORKING_SOCKETS_STATE_CACHE_LIMIT);
        self.listen_socket_events = cached;
    }

    /// Caches one connection event batch and drops the connection's cached
    /// info and status when the batch removed it.
    fn apply_connection_event_batch(&mut self, batch: SteamworksNetworkingSocketsConnectionEvents)
        ensures
            final(self)@ == connection_event_batch_applied(old(self)@, batch@),
    {
        proof {
            use_type_invariant(&*self);
            lemma_upserted_bounded::<SteamworksNetworkingSocketsConnectionEvents>(
                self@.connection_events,
                batch@,
                cache_limit(),
            );
        }
        let connection = batch.connection;
        let removed = batch.connection_removed;
        let mut cached: Vec<SteamworksNetworkingSocketsConnectionEvents> = Vec::new();
        std::mem::swap(&mut cached, &mut self.connection_events);
        upsert_snapshot(&mut cached, batch, STEAMWORKS_NETWORKING_SOCKETS_STATE_CACHE_LIMIT);
        self.connection_events = cached;
        if removed {
            self.remove_connection_state(connection);
        }
    }

    /// Records a batch of received connection messages.
    fn record_received_messages(&mut self, messages: &Vec<SteamworksNetworkingSocketsMessage>)
        ensures
            final(self)@ == received_messages_recorded(old(self)@, snapshot_views(messages@)),
    {
        proof {
            use_type_invariant(&*self);
        }
        self.received_count = self.received_count.saturating_add(messages.len() as u64);
        let mut recent: Vec<SteamworksNetworkingSocketsMessage> = Vec::new();
        std::mem::swap(&mut recent, &mut self.recent_received_messages);
        append_snapshots(&mut recent, messages, STEAMWORKS_NETWORKING_SOCKETS_STATE_CACHE_LIMIT);
        self.recent_received_messages = recent;
        self.last_received_messages = snapshot_all(messages);
    }

    /// Records a batch of received poll-group messages.
    fn record_poll_group_messages(
        &mut self,
        messages: &Vec<SteamworksNetworkingSocketsPollGroupMessage>,
    )
        ensures
            final(self)@ == poll_group_messages_recorded(old(self)@, snapshot_views(messages@)),
    {
        proof {
            use_type_invariant(&*self);
        }
        self.received_count = self.received_count.saturating_add(messages.len() as u64);
        let mut recent: Vec<SteamworksNetworkingSocketsPollGroupMessage> = Vec::new();
        std::mem::swap(&mut recent, &mut self.recent_poll_group_messages);
        append_snapshots(&mut recent, messages, STEAMWORKS_NETWORKING_SOCKETS_STATE_CACHE_LIMIT);
        self.recent_poll_group_messages = recent;
        self.last_poll_group_messages = snapshot_all(messages);
    }

    /// Caches listen-socket event batches in order.
    fn apply_listen_event_batches(
        &mut self,
        batches: &Vec<SteamworksNetworkingSocketsListenSocketEvents>,
    )
        ensures
            final(self)@ == listen_event_batches_applied(old(self)@, snapshot_views(batches@)),
    {
        let ghost start = self@;
        let ghost views = snapshot_views(batches@);
        let mut i: usize = 0;
        proof {
            assert(views.take(0) =~= Seq::<SteamworksListenSocketEventsView>::empty());
        }
        while i < batches.len()
            invariant
                0 <= i <= batches@.len(),
                views == snapshot_views(batches@),
                self@ == listen_event_batches_applied(start, views.take(i as int)),
            decreases batches@.len() - i,
        {
            let batch = batches[i].snapshot();
            self.apply_listen_event_batch(batch);
            proof {
                assert(views.take(i as int + 1).drop_last() =~= views.take(i as int));
            }
            i += 1;
        }
        proof {
            assert(views.take(i as int) =~= views);
        }
    }

    /// Caches connection event batches in order.
    fn apply_connection_event_batches(
        &mut self,
        batches: &Vec<SteamworksNetworkingSocketsConnectionEvents>,
    )
        ensures
            final(self)@ == connection_event_batches_applied(old(self)@, snapshot_views(batches@)),
    {
        let ghost start = self@;
        let ghost views = snapshot_views(batches@);
        let mut i: usize = 0;
        proof {
            assert(views.take(0) =~= Seq::<SteamworksConnectionEventsView>::empty());
        }
        while i < batches.len()
            invariant
                0 <= i <= batches@.len(),
                views == snapshot_views(batches@),
                self@ == connection_event_batches_applied(start, views.take(i as int)),
            decreases batches@.len() - i,
        {
            let batch = batches[i].snapshot();
            self.apply_connection_event_batch(batch);
            proof {
                assert(views.take(i as int + 1).drop_last() =~= views.take(i as int));
            }
            i += 1;
        }
        proof {
            assert(views.take(i as int) =~= views);
        }
    }

    /// Drops the cached info and status of every closed connection.
    fn remove_closed_connections_state(
        &mut self,
        closed: &Vec<SteamworksNetworkingSocketsConnectionClosed>,
    )
        ensures
            final(self)@ == connections_state_removed(
                old(self)@,
                closed@.map_values(|c: SteamworksNetworkingSocketsConnectionClosed| c.connection@),
            ),
    {
        let ghost start = self@;
        let ghost keys = closed@.map_values(
            |c: SteamworksNetworkingSocketsConnectionClosed| c.connection@,
        );
        let mut i: usize = 0;
        proof {
            assert(keys.take(0) =~= Seq::<u64>::empty());
        }
        while i < closed.len()
            invariant
                0 <= i <= closed@.len(),
                keys == closed@.map_values(
                    |c: SteamworksNetworkingSocketsConnectionClosed| c.connection@,
                ),
                self@ == connections_state_removed(start, keys.take(i as int)),
            decreases closed@.len() - i,
        {
            self.remove_connection_state(closed[i].connection);
            proof {
                assert(keys.take(i as int + 1).drop_last() =~= keys.take(i as int));
            }
            i += 1;
        }
        proof {
            assert(keys.take(i as int) =~= keys);
        }
    }

    /// Drops the cached event batch of one listen socket.
    fn remove_listen_socket_events(&mut self, listen_socket: SteamworksListenSocketId)
        ensures
            final(self)@ == (SteamworksNetworkingSocketsStateView {
                listen_socket_events: without_key::<SteamworksNetworkingSocketsListenSocketEvents>(
                    old(self)@.listen_socket_events,
                    listen_socket@,
                ),
                ..old(self)@
            }),
    {
        proof {
            use_type_invariant(&*self);
            lemma_without_key_keeps_cache_shape::<SteamworksNetworkingSocketsListenSocketEvents>(
                self@.listen_socket_events,
                listen_socket@,
                cache_limit(),
            );
        }
        let mut cached: Vec<SteamworksNetworkingSocketsListenSocketEvents> = Vec::new();
        std::mem::swap(&mut cached, &mut self.listen_socket_events);
        remove_key(&mut cached, listen_socket.raw());
        self.listen_socket_events = cached;
    }

    /// Drops the cached event batches of every closed listen socket.
    fn remove_closed_listen_sockets_events(
        &mut self,
        closed: &Vec<SteamworksNetworkingSocketsListenSocketClosed>,
    )
        ensures
            final(self)@ == listen_sockets_events_removed(
                old(self)@,
                snapshot_views(closed@).map_values(
                    |c: SteamworksListenSocketClosedView| c.listen_socket@,
                ),
            ),
    {
        let ghost start = self@;
        let ghost keys = snapshot_views(closed@).map_values(
            |c: SteamworksListenSocketClosedView| c.listen_socket@,
        );
        let mut i: usize = 0;
        proof {
            assert(keys.take(0) =~= Seq::<u64>::empty());
        }
        while i < closed.len()
            invariant
                0 <= i <= closed@.len(),
                keys == snapshot_views(closed@).map_values(
                    |c: SteamworksListenSocketClosedView| c.listen_socket@,
                ),
                self@ == listen_sockets_events_removed(start, keys.take(i as int)),
            decreases closed@.len() - i,
        {
            self.remove_listen_socket_events(closed[i].listen_socket);
            proof {
                assert(keys.take(i as int + 1).drop_last() =~= keys.take(i as int));
            }
            i += 1;
        }
        proof {
            assert(keys.take(i as int) =~= keys);
        }
    }

    /// Drops the recent messages of one poll group.
    fn remove_poll_group_messages(&mut self, poll_group: SteamworksNetworkingSocketsPollGroupId)
        ensures
            final(self)@ == (SteamworksNetworkingSocketsStateView {
                recent_poll_group_messages: without_key::<
                    SteamworksNetworkingSocketsPollGroupMessage,
                >(old(self)@.recent_poll_group_messages, poll_group@),
                ..old(self)@
            }),
    {
        proof {
            use_type_invariant(&*self);
            broadcast use vstd::seq_lib::group_filter_ensures;
            self@.recent_poll_group_messages.lemma_filter_len(
                crate::cache::key_differs::<SteamworksNetworkingSocketsPollGroupMessage>(
                    poll_group@,
                ),
            );
        }
        let mut recent: Vec<SteamworksNetworkingSocketsPollGroupMessage> = Vec::new();
        std::mem::swap(&mut recent, &mut self.recent_poll_group_messages);
        remove_key(&mut recent, poll_group.raw());
        self.recent_poll_group_messages = recent;
    }

    /// Drops the recent messages of every closed poll group.
    fn remove_closed_poll_groups_messages(
        &mut self,
        poll_groups: &Vec<SteamworksNetworkingSocketsPollGroupId>,
    )
        ensures
            final(self)@ == poll_groups_messages_removed(
                old(self)@,
                poll_groups@.map_values(|g: SteamworksNetworkingSocketsPollGroupId| g@),
            ),
    {
        let ghost start = self@;
        let ghost keys = poll_groups@.map_values(|g: SteamworksNetworkingSocketsPollGroupId| g@);
        let mut i: usize = 0;
        proof {
            assert(keys.take(0) =~= Seq::<u64>::empty());
        }
        while i < poll_groups.len()
            invariant
                0 <= i <= poll_groups@.len(),
                keys == poll_groups@.map_values(|g: SteamworksNetworkingSocketsPollGroupId| g@),
                self@ == poll_groups_messages_removed(start, keys.take(i as int)),
            decreases poll_groups@.len() - i,
        {
            self.remove_poll_group_messages(poll_groups[i]);
            proof {
                assert(keys.take(i as int + 1).drop_last() =~= keys.take(i as int));
            }
            i += 1;
        }
        proof {
            assert(keys.take(i as int) =~= keys);
        }
    }

    /// Records one successful operation: updates the caches it touches, the
    /// most recent snapshot of its kind and the message counters.
    pub fn record_operation(&mut self, operation: &SteamworksNetworkingSocketsOperation)
        ensures
            final(self)@ == next_state(old(self)@, *operation),
            state_caches_bounded(final(self)@),
    {
        proof {
            use_type_invariant(&*self);
        }
        self.record_operation_fields(operation);
        proof {
            use_type_invariant(&*self);
        }
    }

    /// Updates the fields that one operation touches.
    fn record_operation_fields(&mut self, operation: &SteamworksNetworkingSocketsOperation)
        ensures
            final(self)@ == next_state(old(self)@, *operation),
    {
        proof {
            use_type_invariant(&*self);
        }
        match operation {
            SteamworksNetworkingSocketsOperation::AuthenticationInitialized { availability } => {
                self.last_authentication_status = Some(*availability);
            },
            SteamworksNetworkingSocketsOperation::AuthenticationStatusRead { availability } => {
                self.last_authentication_status = Some(*availability);
            },
            SteamworksNetworkingSocketsOperation::ListenSocketCreated { listen_socket, endpoint } => {
                self.last_created_listen_socket = Some(
                    SteamworksNetworkingSocketsListenSocketCreated {
                        listen_socket: *listen_socket,
                        endpoint: *endpoint,
                    },
                );
            },
            SteamworksNetworkingSocketsOperation::ConnectionCreated { connection, target } => {
                self.last_created_connection = Some(
                    SteamworksNetworkingSocketsConnectionCreated {
                        connection: *connection,
                        target: target.snapshot(),
                    },
                );
            },
            SteamworksNetworkingSocketsOperation::PollGroupCreated { poll_group } => {
                self.last_created_poll_group = Some(*poll_group);
            },
            SteamworksNetworkingSocketsOperation::ListenSocketEventsPolled { listen_socket, events } => {
                let batch = SteamworksNetworkingSocketsListenSocketEvents {
                    listen_socket: *listen_socket,
                    events: snapshot_all(events),
                };
                let last = batch.snapshot();
                self.apply_listen_event_batch(batch);
                proof {
                    use_type_invariant(&*self);
                }
                self.last_listen_socket_events = Some(last);
            },
            SteamworksNetworkingSocketsOperation::AllListenSocketEventsPolled { listen_sockets } => {
                self.apply_listen_event_batches(listen_sockets);
                proof {
                    use_type_invariant(&*self);
                }
                self.last_listen_socket_events = snapshot_last(listen_sockets);
            },
            SteamworksNetworkingSocketsOperation::ConnectionEventsPolled {
                connection,
                events,
                connection_removed,
            } => {
                let copied = snapshot_all(events);
                proof {
                    assert(snapshot_views(copied@).len() == copied@.len());
                    assert(snapshot_views(events@).len() == events@.len());
                    assert forall|i: int| 0 <= i < copied@.len() implies copied@[i]
                        == events@[i] by {
                        assert(snapshot_views(copied@)[i] == snapshot_views(events@)[i]);
                    }
                    assert(copied@ =~= events@);
                }
                let batch = SteamworksNetworkingSocketsConnectionEvents {
                    connection: *connection,
                    events: copied,
                    connection_removed: *connection_removed,
                };
                let last = batch.snapshot();
                self.apply_connection_event_batch(batch);
                proof {
                    use_type_invariant(&*self);
                }
                self.last_connection_events = Some(last);
            },
            SteamworksNetworkingSocketsOperation::AllConnectionEventsPolled { connections } => {
                self.apply_connection_event_batches(connections);
                proof {
                    use_type_invariant(&*self);
                }
                self.last_connection_events = snapshot_last(connections);
            },
            SteamworksNetworkingSocketsOperation::ConnectionInfoRead { info } => {
                proof {
                    lemma_upserted_bounded::<SteamworksNetworkingSocketsConnectionInfo>(
                        self@.connection_infos,
                        *info,
                        cache_limit(),
                    );
                }
                let mut infos: Vec<SteamworksNetworkingSocketsConnectionInfo> = Vec::new();
                std::mem::swap(&mut infos, &mut self.connection_infos);
                upsert_snapshot(
                    &mut infos,
                    info.snapshot(),
                    STEAMWORKS_NETWORKING_SOCKETS_STATE_CACHE_LIMIT,
                );
                self.connection_infos = infos;
                self.last_connection_info = Some(info.snapshot());
            },
            SteamworksNetworkingSocketsOperation::ConnectionUserDataRead { connection, user_data } => {
                self.last_connection_user_data = Some(
                    SteamworksNetworkingSocketsConnectionUserData {
                        connection: *connection,
                        user_data: *user_data,
                    },
                );
            },
            SteamworksNetworkingSocketsOperation::RealtimeConnectionStatusRead { status } => {
                proof {
                    lemma_upserted_bounded::<SteamworksNetworkingSocketsRealtimeStatus>(
                        self@.realtime_statuses,
                        status@,
                        cache_limit(),
                    );
                }
                let mut statuses: Vec<SteamworksNetworkingSocketsRealtimeStatus> = Vec::new();
                std::mem::swap(&mut statuses, &mut self.realtime_statuses);
                upsert_snapshot(
                    &mut statuses,
                    status.snapshot(),
                    STEAMWORKS_NETWORKING_SOCKETS_STATE_CACHE_LIMIT,
                );
                self.realtime_statuses = statuses;
                self.last_realtime_status = Some(status.snapshot());
            },
            SteamworksNetworkingSocketsOperation::MessageSent {
                connection,
                message_number,
                bytes,
            } => {
                self.sent_count = self.sent_count.saturating_add(1);
                self.last_sent_message = Some(
                    SteamworksNetworkingSocketsSentMessage {
                        connection: *connection,
                        message_number: *message_number,
                        bytes: *bytes,
                    },
                );
            },
            SteamworksNetworkingSocketsOperation::MessagesSent { messages } => {
                let successful = count_successful_sends(messages);
                self.sent_count = self.sent_count.saturating_add(successful as u64);
                let mut recent: Vec<SteamworksNetworkingSocketsMessageSendResult> = Vec::new();
                std::mem::swap(&mut recent, &mut self.recent_sent_messages);
                append_snapshots(
                    &mut recent,
                    messages,
                    STEAMWORKS_NETWORKING_SOCKETS_STATE_CACHE_LIMIT,
                );
                self.recent_sent_messages = recent;
                self.last_sent_messages = snapshot_all(messages);
                proof {
                    assert(snapshot_views(messages@) =~= messages@);
                    assert(snapshot_views(self.recent_sent_messages@) =~= self.recent_sent_messages@);
                    assert(snapshot_views(old(self).recent_sent_messages@)
                        =~= old(self).recent_sent_messages@);
                }
            },
            SteamworksNetworkingSocketsOperation::MessagesReceived { connection, messages } => {
                self.record_received_messages(messages);
            },
            SteamworksNetworkingSocketsOperation::AllMessagesReceived { connections } => {
                let messages = flatten_connection_messages(connections);
                self.record_received_messages(&messages);
            },
            SteamworksNetworkingSocketsOperation::PollGroupMessagesReceived { poll_group, messages } => {
                self.record_poll_group_messages(messages);
            },
            SteamworksNetworkingSocketsOperation::AllPollGroupMessagesReceived { poll_groups } => {
                let messages = flatten_poll_group_messages(poll_groups);
                self.record_poll_group_messages(&messages);
            },
            SteamworksNetworkingSocketsOperation::MessagesFlushed { connection } => {
                self.last_flushed_connection = Some(*connection);
            },
            SteamworksNetworkingSocketsOperation::AllMessagesFlushed { connections } => {
                let n = connections.len();
                self.last_flushed_connection = if n == 0 {
                    None
                } else {
                    Some(connections[n - 1])
                };
            },
            SteamworksNetworkingSocketsOperation::ConnectionPollGroupSet { connection, poll_group } => {
                self.last_connection_poll_group_set = Some(
                    SteamworksNetworkingSocketsPollGroupAssignment {
                        connection: *connection,
                        poll_group: *poll_group,
                    },
                );
            },
            SteamworksNetworkingSocketsOperation::ConnectionPollGroupCleared { connection } => {
                self.last_connection_poll_group_cleared = Some(*connection);
            },
            SteamworksNetworkingSocketsOperation::ConnectionLanesConfigured { connection, lanes } => {
                self.last_connection_lanes_configured = Some(
                    SteamworksNetworkingSocketsLaneConfiguration {
                        connection: *connection,
                        lanes: *lanes,
                    },
                );
            },
            SteamworksNetworkingSocketsOperation::ConnectionUserDataSet { connection, user_data } => {
                self.last_connection_user_data = Some(
                    SteamworksNetworkingSocketsConnectionUserData {
                        connection: *connection,
                        user_data: *user_data,
                    },
                );
            },
            SteamworksNetworkingSocketsOperation::ConnectionNameSet { connection, name } => {
                self.last_connection_name = Some(
                    SteamworksNetworkingSocketsConnectionName {
                        connection: *connection,
                        name: name.clone(),
                    },
                );
            },
            SteamworksNetworkingSocketsOperation::ConnectionClosed {
                connection,
                close_succeeded,
            } => {
                self.remove_connection_state(*connection);
                proof {
                    use_type_invariant(&*self);
                }
                self.last_closed_connection = Some(
                    SteamworksNetworkingSocketsConnectionClosed {
                        connection: *connection,
                        close_succeeded: *close_succeeded,
                    },
                );
            },
            SteamworksNetworkingSocketsOperation::AllConnectionsClosed { connections } => {
                self.remove_closed_connections_state(connections);
                proof {
                    use_type_invariant(&*self);
                }
                let n = connections.len();
                self.last_closed_connection = if n == 0 {
                    None
                } else {
                    Some(connections[n - 1])
                };
            },
            SteamworksNetworkingSocketsOperation::ListenSocketClosed {
                listen_socket,
                closed_connections,
            } => {
                self.remove_listen_socket_events(*listen_socket);
                proof {
                    use_type_invariant(&*self);
                }
                self.last_closed_listen_socket = Some(
                    SteamworksNetworkingSocketsListenSocketClosed {
                        listen_socket: *listen_socket,
                        closed_connections: copy_connection_ids(closed_connections),
                    },
                );
            },
            SteamworksNetworkingSocketsOperation::AllListenSocketsClosed { listen_sockets } => {
                self.remove_closed_listen_sockets_events(listen_sockets);
                proof {
                    use_type_invariant(&*self);
                }
                self.last_closed_listen_socket = snapshot_last(listen_sockets);
            },
            SteamworksNetworkingSocketsOperation::PollGroupClosed { poll_group } => {
                self.remove_poll_group_messages(*poll_group);
                proof {
                    use_type_invariant(&*self);
                }
                self.last_closed_poll_group = Some(*poll_group);
            },
            SteamworksNetworkingSocketsOperation::AllPollGroupsClosed { poll_groups } => {
                self.remove_closed_poll_groups_messages(poll_groups);
                proof {
                    use_type_invariant(&*self);
                }
                let n = poll_groups.len();
                self.last_closed_poll_group = if n == 0 {
                    None
                } else {
                    Some(poll_groups[n - 1])
                };
            },
        }
    }
}

/// Whether an optional reference points at the value `v` holds.
pub open spec fn option_ref_is<T>(r: Option<&T>, v: Option<T>) -> bool {
    match r {
        Some(x) => v == Some(*x),
        None => v is None,
    }
}

/// `Some(f(x))` where `o` is `Some(x)`.
pub open spec fn option_map_spec<A, B>(o: Option<A>, f: spec_fn(A) -> B) -> Option<B> {
    match o {
        Some(x) => Some(f(x)),
        None => None,
    }
}

/// The cached info snapshot of `connection`.
pub open spec fn cached_connection_info(
    s: SteamworksNetworkingSocketsStateView,
    connection: u64,
) -> Option<SteamworksNetworkingSocketsConnectionInfo> {
    first_for_key::<SteamworksNetworkingSocketsConnectionInfo>(s.connection_infos, connection)
}

/// The cached realtime status of `connection`.
pub open spec fn cached_realtime_status(
    s: SteamworksNetworkingSocketsStateView,
    connection: u64,
) -> Option<SteamworksRealtimeStatusView> {
    first_for_key::<SteamworksNetworkingSocketsRealtimeStatus>(s.realtime_statuses, connection)
}

/// The newest recent batch-send outcome of `connection`.
pub open spec fn newest_sent_message(
    s: SteamworksNetworkingSocketsStateView,
    connection: u64,
) -> Option<SteamworksNetworkingSocketsMessageSendResult> {
    last_for_key::<SteamworksNetworkingSocketsMessageSendResult>(s.recent_sent_messages, connection)
}

/// The newest recent received message of `connection`.
pub open spec fn newest_received_message(
    s: SteamworksNetworkingSocketsStateView,
    connection: u64,
) -> Option<SteamworksMessageView> {
    last_for_key::<SteamworksNetworkingSocketsMessage>(s.recent_received_messages, connection)
}

/// The newest recent message of `poll_group`.
pub open spec fn newest_poll_group_message(
    s: SteamworksNetworkingSocketsStateView,
    poll_group: u64,
) -> Option<SteamworksPollGroupMessageView> {
    last_for_key::<SteamworksNetworkingSocketsPollGroupMessage>(
        s.recent_poll_group_messages,
        poll_group,
    )
}

impl SteamworksNetworkingSocketsState {
    /// Returns the most recent synchronous command error.
    pub fn last_error(&self) -> (error: Option<&SteamworksNetworkingSocketsError>)
        ensures
            option_ref_is(error, self@.last_error),
    {
        self.last_error.as_ref()
    }

    /// Returns the latest authentication status observed through this plugin.
    pub fn last_authentication_status(&self) -> (status: Option<&SteamworksNetworkingAvailabilityResult>)
        ensures
            option_ref_is(status, self@.last_authentication_status),
    {
        self.last_authentication_status.as_ref()
    }

    /// Returns the most recent listen socket created through this plugin.
    pub fn last_created_listen_socket(&self) -> (created: Option<&SteamworksNetworkingSocketsListenSocketCreated>)
        ensures
            option_ref_is(created, self@.last_created_listen_socket),
    {
        self.last_created_listen_socket.as_ref()
    }

    /// Returns the most recent connection created through this plugin.
    pub fn last_created_connection(&self) -> (created: Option<&SteamworksNetworkingSocketsConnectionCreated>)
        ensures
            option_ref_is(created, self@.last_created_connection),
    {
        self.last_created_connection.as_ref()
    }

    /// Returns the most recent poll group created through this plugin.
    pub fn last_created_poll_group(&self) -> (poll_group: Option<SteamworksNetworkingSocketsPollGroupId>)
        ensures
            poll_group == self@.last_created_poll_group,
    {
        self.last_created_poll_group
    }

    /// Returns the most recent listen-socket event batch processed through this plugin.
    pub fn last_listen_socket_events(&self) -> (batch: Option<&SteamworksNetworkingSocketsListenSocketEvents>)
        ensures
            option_ref_view(batch) == self@.last_listen_socket_events,
    {
        self.last_listen_socket_events.as_ref()
    }

    /// Returns the cached listen-socket event batches, one per listen socket.
    pub fn listen_socket_events(&self) -> (batches: &[SteamworksNetworkingSocketsListenSocketEvents])
        ensures
            snapshot_views(batches@) == self@.listen_socket_events,
    {
        self.listen_socket_events.as_slice()
    }

    /// Returns the number of cached listen-socket event batches.
    pub fn listen_socket_event_batch_count(&self) -> (count: usize)
        ensures
            count == self@.listen_socket_events.len(),
    {
        self.listen_socket_events.len()
    }

    /// Returns the cached event batch for one listen socket.
    pub fn listen_socket_event_batch(&self, listen_socket: SteamworksListenSocketId) -> (batch: Option<
        &SteamworksNetworkingSocketsListenSocketEvents,
    >)
        ensures
            option_ref_view(batch) == first_for_key::<SteamworksNetworkingSocketsListenSocketEvents>(
                self@.listen_socket_events,
                listen_socket@,
            ),
    {
        find_first_by_key(&self.listen_socket_events, listen_socket.raw())
    }

    /// Returns the number of events cached for one listen socket.
    pub fn listen_socket_event_count(&self, listen_socket: SteamworksListenSocketId) -> (count: Option<
        usize,
    >)
        ensures
            count == option_map_spec(
                first_for_key::<SteamworksNetworkingSocketsListenSocketEvents>(
                    self@.listen_socket_events,
                    listen_socket@,
                ),
                |b: SteamworksListenSocketEventsView| b.events.len() as usize,
            ),
    {
        match self.listen_socket_event_batch(listen_socket) {
            Some(batch) => Some(batch.events.len()),
            None => None,
        }
    }

    /// Returns the most recent connection event batch processed through this plugin.
    pub fn last_connection_events(&self) -> (batch: Option<&SteamworksNetworkingSocketsConnectionEvents>)
        ensures
            option_ref_view(batch) == self@.last_connection_events,
    {
        self.last_connection_events.as_ref()
    }

    /// Returns the cached connection event batches, one per connection.
    pub fn connection_events(&self) -> (batches: &[SteamworksNetworkingSocketsConnectionEvents])
        ensures
            snapshot_views(batches@) == self@.connection_events,
    {
        self.connection_events.as_slice()
    }

    /// Returns the number of cached connection event batches.
    pub fn connection_event_batch_count(&self) -> (count: usize)
        ensures
            count == self@.connection_events.len(),
    {
        self.connection_events.len()
    }

    /// Returns the cached event batch for one connection.
    pub fn connection_event_batch(&self, connection: SteamworksNetworkingSocketsConnectionId) -> (batch:
        Option<&SteamworksNetworkingSocketsConnectionEvents>)
        ensures
            option_ref_view(batch) == first_for_key::<SteamworksNetworkingSocketsConnectionEvents>(
                self@.connection_events,
                connection@,
            ),
    {
        find_first_by_key(&self.connection_events, connection.raw())
    }

    /// Returns the number of events cached for one connection.
    pub fn connection_event_count(&self, connection: SteamworksNetworkingSocketsConnectionId) -> (count:
        Option<usize>)
        ensures
            count == option_map_spec(
                first_for_key::<SteamworksNetworkingSocketsConnectionEvents>(
                    self@.connection_events,
                    connection@,
                ),
                |b: SteamworksConnectionEventsView| b.events.len() as usize,
            ),
    {
        match self.connection_event_batch(connection) {
            Some(batch) => Some(batch.events.len()),
            None => None,
        }
    }

    /// Returns whether the latest cached event batch removed one connection.
    pub fn connection_event_removed(&self, connection: SteamworksNetworkingSocketsConnectionId) -> (removed:
        Option<bool>)
        ensures
            removed == option_map_spec(
                first_for_key::<SteamworksNetworkingSocketsConnectionEvents>(
                    self@.connection_events,
                    connection@,
                ),
                |b: SteamworksConnectionEventsView| b.connection_removed,
            ),
    {
        match self.connection_event_batch(connection) {
            Some(batch) => Some(batch.connection_removed),
            None => None,
        }
    }

    /// Returns the most recent connection info snapshot read through the plugin.
    pub fn last_connection_info(&self) -> (info: Option<&SteamworksNetworkingSocketsConnectionInfo>)
        ensures
            option_ref_is(info, self@.last_connection_info),
    {
        self.last_connection_info.as_ref()
    }

    /// Returns the cached connection info snapshots, one per connection.
    pub fn connection_infos(&self) -> (infos: &[SteamworksNetworkingSocketsConnectionInfo])
        ensures
            snapshot_views(infos@) == self@.connection_infos,
    {
        self.connection_infos.as_slice()
    }

    /// Returns the number of cached connection info snapshots.
    pub fn connection_info_count(&self) -> (count: usize)
        ensures
            count == self@.connection_infos.len(),
    {
        self.connection_infos.len()
    }

    /// Returns the cached connection info for one connection.
    pub fn connection_info(&self, connection: SteamworksNetworkingSocketsConnectionId) -> (info: Option<
        &SteamworksNetworkingSocketsConnectionInfo,
    >)
        ensures
            option_ref_view(info) == cached_connection_info(self@, connection@),
    {
        find_first_by_key(&self.connection_infos, connection.raw())
    }

    /// Returns the latest known high-level state for one connection: the
    /// cached info's state, else the cached realtime status's state.
    pub fn connection_state(&self, connection: SteamworksNetworkingSocketsConnectionId) -> (state: Option<
        SteamworksNetworkingConnectionState,
    >)
        ensures
            state == match cached_connection_info(self@, connection@) {
                Some(info) => Some(info.state),
                None => option_map_spec(
                    cached_realtime_status(self@, connection@),
                    |st: SteamworksRealtimeStatusView| st.connection_state,
                ),
            },
    {
        match self.connection_info(connection) {
            Some(info) => Some(info.state),
            None => match self.realtime_status(connection) {
                Some(status) => Some(status.connection_state),
                None => None,
            },
        }
    }

    /// Returns the latest known remote identity for one connection,
    /// preserving a known connection without identity as `Some(None)`.
    pub fn connection_remote(&self, connection: SteamworksNetworkingSocketsConnectionId) -> (remote:
        Option<Option<&crate::networking_types::SteamworksNetworkingIdentity>>)
        ensures
            match cached_connection_info(self@, connection@) {
                Some(info) => match remote {
                    Some(r) => option_ref_is(r, info.remote),
                    None => false,
                },
                None => remote is None,
            },
    {
        match self.connection_info(connection) {
            Some(info) => Some(info.remote.as_ref()),
            None => None,
        }
    }

    /// Returns the cached end reason for one connection, preserving a known
    /// connection without one as `Some(None)`.
    pub fn connection_end_reason(&self, connection: SteamworksNetworkingSocketsConnectionId) -> (reason:
        Option<Option<crate::networking_types::SteamworksNetConnectionEnd>>)
        ensures
            reason == option_map_spec(
                cached_connection_info(self@, connection@),
                |info: SteamworksNetworkingSocketsConnectionInfo| info.end_reason,
            ),
    {
        match self.connection_info(connection) {
            Some(info) => Some(info.end_reason),
            None => None,
        }
    }

    /// Returns the latest known connection user data: the most recent
    /// user-data read or write for this connection, else the cached info.
    pub fn connection_user_data(&self, connection: SteamworksNetworkingSocketsConnectionId) -> (user_data:
        Option<i64>)
        ensures
            user_data == match self@.last_connection_user_data {
                Some(last) if last.connection == connection => Some(last.user_data),
                _ => option_map_spec(
                    cached_connection_info(self@, connection@),
                    |info: SteamworksNetworkingSocketsConnectionInfo| info.user_data,
                ),
            },
    {
        if let Some(last) = &self.last_connection_user_data {
            if last.connection == connection {
                return Some(last.user_data);
            }
        }
        match self.connection_info(connection) {
            Some(info) => Some(info.user_data),
            None => None,
        }
    }

    /// Returns the most recent debug name submitted for one connection.
    pub fn connection_name(&self, connection: SteamworksNetworkingSocketsConnectionId) -> (name: Option<
        &str,
    >)
        ensures
            match self@.last_connection_name {
                Some(last) if last.connection == connection => match name {
                    Some(n) => n@ == last.name,
                    None => false,
                },
                _ => name is None,
            },
    {
        match &self.last_connection_name {
            Some(last) => {
                if last.connection == connection {
                    Some(last.name.as_str())
                } else {
                    None
                }
            },
            None => None,
        }
    }

    /// Returns the most recent realtime connection status snapshot.
    pub fn last_realtime_status(&self) -> (status: Option<&SteamworksNetworkingSocketsRealtimeStatus>)
        ensures
            option_ref_view(status) == self@.last_realtime_status,
    {
        self.last_realtime_status.as_ref()
    }

    /// Returns the cached realtime status snapshots, one per connection.
    pub fn realtime_statuses(&self) -> (statuses: &[SteamworksNetworkingSocketsRealtimeStatus])
        ensures
            snapshot_views(statuses@) == self@.realtime_statuses,
    {
        self.realtime_statuses.as_slice()
    }

    /// Returns the number of cached realtime status snapshots.
    pub fn realtime_status_count(&self) -> (count: usize)
        ensures
            count == self@.realtime_statuses.len(),
    {
        self.realtime_statuses.len()
    }

    /// Returns the cached realtime status for one connection.
    pub fn realtime_status(&self, connection: SteamworksNetworkingSocketsConnectionId) -> (status: Option<
        &SteamworksNetworkingSocketsRealtimeStatus,
    >)
        ensures
            option_ref_view(status) == cached_realtime_status(self@, connection@),
    {
        find_first_by_key(&self.realtime_statuses, connection.raw())
    }

    /// Returns the latest cached ping estimate for one connection.
    pub fn connection_ping(&self, connection: SteamworksNetworkingSocketsConnectionId) -> (ping: Option<i32>)
        ensures
            ping == option_map_spec(
                cached_realtime_status(self@, connection@),
                |st: SteamworksRealtimeStatusView| st.ping,
            ),
    {
        match self.realtime_status(connection) {
            Some(status) => Some(status.ping),
            None => None,
        }
    }

    /// Returns the bit patterns of the latest cached local and remote
    /// connection quality for one connection.
    pub fn connection_quality(&self, connection: SteamworksNetworkingSocketsConnectionId) -> (quality:
        Option<(u32, u32)>)
        ensures
            quality == option_map_spec(
                cached_realtime_status(self@, connection@),
                |st: SteamworksRealtimeStatusView| (st.rate_bits.0, st.rate_bits.1),
            ),
    {
        match self.realtime_status(connection) {
            Some(status) => Some(
                (status.connection_quality_local_bits, status.connection_quality_remote_bits),
            ),
            None => None,
        }
    }

    /// Returns the latest cached send capacity for one connection.
    pub fn connection_send_rate_bytes_per_sec(&self, connection: SteamworksNetworkingSocketsConnectionId) -> (rate:
        Option<i32>)
        ensures
            rate == option_map_spec(
                cached_realtime_status(self@, connection@),
                |st: SteamworksRealtimeStatusView| st.send_rate_bytes_per_sec,
            ),
    {
        match self.realtime_status(connection) {
            Some(status) => Some(status.send_rate_bytes_per_sec),
            None => None,
        }
    }

    /// Returns the latest cached pending unreliable bytes for one connection.
    pub fn connection_pending_unreliable(&self, connection: SteamworksNetworkingSocketsConnectionId) -> (pending:
        Option<i32>)
        ensures
            pending == option_map_spec(
                cached_realtime_status(self@, connection@),
                |st: SteamworksRealtimeStatusView| st.pending_unreliable,
            ),
    {
        match self.realtime_status(connection) {
            Some(status) => Some(status.pending_unreliable),
            None => None,
        }
    }

    /// Returns the latest cached pending reliable bytes for one connection.
    pub fn connection_pending_reliable(&self, connection: SteamworksNetworkingSocketsConnectionId) -> (pending:
        Option<i32>)
        ensures
            pending == option_map_spec(
                cached_realtime_status(self@, connection@),
                |st: SteamworksRealtimeStatusView| st.pending_reliable,
            ),
    {
        match self.realtime_status(connection) {
            Some(status) => Some(status.pending_reliable),
            None => None,
        }
    }

    /// Returns the number of cached realtime lane snapshots for one connection.
    pub fn connection_lane_count(&self, connection: SteamworksNetworkingSocketsConnectionId) -> (lanes:
        Option<usize>)
        ensures
            lanes == option_map_spec(
                cached_realtime_status(self@, connection@),
                |st: SteamworksRealtimeStatusView| st.lanes.len() as usize,
            ),
    {
        match self.realtime_status(connection) {
            Some(status) => Some(status.lanes.len()),
            None => None,
        }
    }
}

impl SteamworksNetworkingSocketsState {
    /// Returns the most recent sent-message snapshot.
    pub fn last_sent_message(&self) -> (sent: Option<&SteamworksNetworkingSocketsSentMessage>)
        ensures
            option_ref_is(sent, self@.last_sent_message),
    {
        self.last_sent_message.as_ref()
    }

    /// Returns the connection for the most recent single-message send.
    pub fn last_sent_message_connection(&self) -> (connection: Option<SteamworksNetworkingSocketsConnectionId>)
        ensures
            connection == option_map_spec(
                self@.last_sent_message,
                |m: SteamworksNetworkingSocketsSentMessage| m.connection,
            ),
    {
        match &self.last_sent_message {
            Some(message) => Some(message.connection),
            None => None,
        }
    }

    /// Returns the message number for the most recent single-message send.
    pub fn last_sent_message_number(&self) -> (number: Option<u64>)
        ensures
            number == option_map_spec(
                self@.last_sent_message,
                |m: SteamworksNetworkingSocketsSentMessage| m.message_number,
            ),
    {
        match &self.last_sent_message {
            Some(message) => Some(message.message_number),
            None => None,
        }
    }

    /// Returns the byte count for the most recent single-message send.
    pub fn last_sent_message_bytes(&self) -> (bytes: Option<usize>)
        ensures
            bytes == option_map_spec(
                self@.last_sent_message,
                |m: SteamworksNetworkingSocketsSentMessage| m.bytes,
            ),
    {
        match &self.last_sent_message {
            Some(message) => Some(message.bytes),
            None => None,
        }
    }

    /// Returns the most recent batch send outcomes.
    pub fn last_sent_messages(&self) -> (messages: &[SteamworksNetworkingSocketsMessageSendResult])
        ensures
            messages@ == self@.last_sent_messages,
    {
        proof {
            assert(snapshot_views(self.last_sent_messages@) =~= self.last_sent_messages@);
        }
        self.last_sent_messages.as_slice()
    }

    /// Returns the number of outcomes in the most recent batch send.
    pub fn last_sent_message_count(&self) -> (count: usize)
        ensures
            count == self@.last_sent_messages.len(),
    {
        self.last_sent_messages.len()
    }

    /// Returns the retained batch-send outcomes in observation order.
    pub fn recent_sent_messages(&self) -> (messages: &[SteamworksNetworkingSocketsMessageSendResult])
        ensures
            messages@ == self@.recent_sent_messages,
    {
        proof {
            assert(snapshot_views(self.recent_sent_messages@) =~= self.recent_sent_messages@);
        }
        self.recent_sent_messages.as_slice()
    }

    /// Returns the number of batch-send outcomes retained across batches.
    pub fn recent_sent_message_count(&self) -> (count: usize)
        ensures
            count == self@.recent_sent_messages.len(),
    {
        self.recent_sent_messages.len()
    }

    /// Returns the retained batch-send outcomes for one connection, oldest first.
    pub fn sent_messages_for_connection(&self, connection: SteamworksNetworkingSocketsConnectionId) -> (messages:
        Vec<SteamworksNetworkingSocketsMessageSendResult>)
        ensures
            messages@ == self@.recent_sent_messages.filter(
                key_matches::<SteamworksNetworkingSocketsMessageSendResult>(connection@),
            ),
    {
        let messages = snapshots_for_key(&self.recent_sent_messages, connection.raw());
        proof {
            assert(snapshot_views(messages@) =~= messages@);
            assert(snapshot_views(self.recent_sent_messages@) =~= self.recent_sent_messages@);
        }
        messages
    }

    /// Returns the number of retained batch-send outcomes for one connection.
    pub fn sent_message_count_for_connection(&self, connection: SteamworksNetworkingSocketsConnectionId) -> (count:
        usize)
        ensures
            count == self@.recent_sent_messages.filter(
                key_matches::<SteamworksNetworkingSocketsMessageSendResult>(connection@),
            ).len(),
    {
        count_for_key(&self.recent_sent_messages, connection.raw())
    }

    /// Returns the newest retained batch-send outcome for one connection.
    pub fn last_sent_message_for_connection(&self, connection: SteamworksNetworkingSocketsConnectionId) -> (message:
        Option<&SteamworksNetworkingSocketsMessageSendResult>)
        ensures
            option_ref_view(message) == newest_sent_message(self@, connection@),
    {
        find_last_by_key(&self.recent_sent_messages, connection.raw())
    }

    /// Returns the Steam message number from the newest batch-send outcome
    /// for one connection, when that send succeeded.
    pub fn last_sent_message_number_for_connection(&self, connection: SteamworksNetworkingSocketsConnectionId) -> (number:
        Option<u64>)
        ensures
            number == match newest_sent_message(self@, connection@) {
                Some(m) => match m.result {
                    Ok(n) => Some(n),
                    Err(_) => None,
                },
                None => None,
            },
    {
        match self.last_sent_message_for_connection(connection) {
            Some(message) => match message.result {
                Ok(number) => Some(number),
                Err(_) => None,
            },
            None => None,
        }
    }

    /// Returns whether the newest batch-send outcome for one connection succeeded.
    pub fn last_sent_message_succeeded_for_connection(&self, connection: SteamworksNetworkingSocketsConnectionId) -> (succeeded:
        Option<bool>)
        ensures
            succeeded == option_map_spec(
                newest_sent_message(self@, connection@),
                |m: SteamworksNetworkingSocketsMessageSendResult| m.result is Ok,
            ),
    {
        match self.last_sent_message_for_connection(connection) {
            Some(message) => Some(message.result.is_ok()),
            None => None,
        }
    }

    /// Returns the byte count from the newest batch-send outcome for one connection.
    pub fn last_sent_message_bytes_for_connection(&self, connection: SteamworksNetworkingSocketsConnectionId) -> (bytes:
        Option<usize>)
        ensures
            bytes == option_map_spec(
                newest_sent_message(self@, connection@),
                |m: SteamworksNetworkingSocketsMessageSendResult| m.bytes,
            ),
    {
        match self.last_sent_message_for_connection(connection) {
            Some(message) => Some(message.bytes),
            None => None,
        }
    }

    /// Returns the most recent received message batch.
    pub fn last_received_messages(&self) -> (messages: &[SteamworksNetworkingSocketsMessage])
        ensures
            snapshot_views(messages@) == self@.last_received_messages,
    {
        self.last_received_messages.as_slice()
    }

    /// Returns the number of messages in the most recent received batch.
    pub fn last_received_message_count(&self) -> (count: usize)
        ensures
            count == self@.last_received_messages.len(),
    {
        self.last_received_messages.len()
    }

    /// Returns the retained received messages in observation order.
    pub fn recent_received_messages(&self) -> (messages: &[SteamworksNetworkingSocketsMessage])
        ensures
            snapshot_views(messages@) == self@.recent_received_messages,
    {
        self.recent_received_messages.as_slice()
    }

    /// Returns the number of received messages retained across batches.
    pub fn recent_received_message_count(&self) -> (count: usize)
        ensures
            count == self@.recent_received_messages.len(),
    {
        self.recent_received_messages.len()
    }

    /// Returns copies of the retained received messages for one connection,
    /// oldest first.
    pub fn received_messages_for_connection(&self, connection: SteamworksNetworkingSocketsConnectionId) -> (messages:
        Vec<SteamworksNetworkingSocketsMessage>)
        ensures
            snapshot_views(messages@) == self@.recent_received_messages.filter(
                key_matches::<SteamworksNetworkingSocketsMessage>(connection@),
            ),
    {
        snapshots_for_key(&self.recent_received_messages, connection.raw())
    }

    /// Returns the number of retained received messages for one connection.
    pub fn received_message_count_for_connection(&self, connection: SteamworksNetworkingSocketsConnectionId) -> (count:
        usize)
        ensures
            count == self@.recent_received_messages.filter(
                key_matches::<SteamworksNetworkingSocketsMessage>(connection@),
            ).len(),
    {
        count_for_key(&self.recent_received_messages, connection.raw())
    }

    /// Returns the newest retained received message for one connection.
    pub fn last_received_message_for_connection(&self, connection: SteamworksNetworkingSocketsConnectionId) -> (message:
        Option<&SteamworksNetworkingSocketsMessage>)
        ensures
            option_ref_view(message) == newest_received_message(self@, connection@),
    {
        find_last_by_key(&self.recent_received_messages, connection.raw())
    }

    /// Returns the payload size of the newest retained received message for one connection.
    pub fn last_received_message_bytes_for_connection(&self, connection: SteamworksNetworkingSocketsConnectionId) -> (bytes:
        Option<usize>)
        ensures
            bytes == option_map_spec(
                newest_received_message(self@, connection@),
                |m: SteamworksMessageView| m.data.len() as usize,
            ),
    {
        match self.last_received_message_for_connection(connection) {
            Some(message) => Some(message.data.len()),
            None => None,
        }
    }

    /// Returns the channel of the newest retained received message for one connection.
    pub fn last_received_message_channel_for_connection(&self, connection: SteamworksNetworkingSocketsConnectionId) -> (channel:
        Option<i32>)
        ensures
            channel == option_map_spec(
                newest_received_message(self@, connection@),
                |m: SteamworksMessageView| m.channel,
            ),
    {
        match self.last_received_message_for_connection(connection) {
            Some(message) => Some(message.channel),
            None => None,
        }
    }

    /// Returns the payload of the newest retained received message for one connection.
    pub fn last_received_message_data_for_connection(&self, connection: SteamworksNetworkingSocketsConnectionId) -> (data:
        Option<&[u8]>)
        ensures
            match newest_received_message(self@, connection@) {
                Some(m) => match data {
                    Some(d) => d@ == m.data,
                    None => false,
                },
                None => data is None,
            },
    {
        match self.last_received_message_for_connection(connection) {
            Some(message) => Some(message.data.as_slice()),
            None => None,
        }
    }

    /// Returns the most recent poll-group message batch.
    pub fn last_poll_group_messages(&self) -> (messages: &[SteamworksNetworkingSocketsPollGroupMessage])
        ensures
            snapshot_views(messages@) == self@.last_poll_group_messages,
    {
        self.last_poll_group_messages.as_slice()
    }

    /// Returns the number of messages in the most recent poll-group batch.
    pub fn last_poll_group_message_count(&self) -> (count: usize)
        ensures
            count == self@.last_poll_group_messages.len(),
    {
        self.last_poll_group_messages.len()
    }

    /// Returns the retained poll-group messages in observation order.
    pub fn recent_poll_group_messages(&self) -> (messages: &[SteamworksNetworkingSocketsPollGroupMessage])
        ensures
            snapshot_views(messages@) == self@.recent_poll_group_messages,
    {
        self.recent_poll_group_messages.as_slice()
    }

    /// Returns the number of poll-group messages retained across batches.
    pub fn recent_poll_group_message_count(&self) -> (count: usize)
        ensures
            count == self@.recent_poll_group_messages.len(),
    {
        self.recent_poll_group_messages.len()
    }

    /// Returns copies of the retained messages of one poll group, oldest first.
    pub fn poll_group_messages(&self, poll_group: SteamworksNetworkingSocketsPollGroupId) -> (messages:
        Vec<SteamworksNetworkingSocketsPollGroupMessage>)
        ensures
            snapshot_views(messages@) == self@.recent_poll_group_messages.filter(
                key_matches::<SteamworksNetworkingSocketsPollGroupMessage>(poll_group@),
            ),
    {
        snapshots_for_key(&self.recent_poll_group_messages, poll_group.raw())
    }

    /// Returns the number of retained messages of one poll group.
    pub fn poll_group_message_count(&self, poll_group: SteamworksNetworkingSocketsPollGroupId) -> (count:
        usize)
        ensures
            count == self@.recent_poll_group_messages.filter(
                key_matches::<SteamworksNetworkingSocketsPollGroupMessage>(poll_group@),
            ).len(),
    {
        count_for_key(&self.recent_poll_group_messages, poll_group.raw())
    }

    /// Returns the newest retained message of one poll group.
    pub fn last_poll_group_message(&self, poll_group: SteamworksNetworkingSocketsPollGroupId) -> (message:
        Option<&SteamworksNetworkingSocketsPollGroupMessage>)
        ensures
            option_ref_view(message) == newest_poll_group_message(self@, poll_group@),
    {
        find_last_by_key(&self.recent_poll_group_messages, poll_group.raw())
    }

    /// Returns the payload size of the newest retained message of one poll group.
    pub fn last_poll_group_message_bytes(&self, poll_group: SteamworksNetworkingSocketsPollGroupId) -> (bytes:
        Option<usize>)
        ensures
            bytes == option_map_spec(
                newest_poll_group_message(self@, poll_group@),
                |m: SteamworksPollGroupMessageView| m.data.len() as usize,
            ),
    {
        match self.last_poll_group_message(poll_group) {
            Some(message) => Some(message.data.len()),
            None => None,
        }
    }

    /// Returns the channel of the newest retained message of one poll group.
    pub fn last_poll_group_message_channel(&self, poll_group: SteamworksNetworkingSocketsPollGroupId) -> (channel:
        Option<i32>)
        ensures
            channel == option_map_spec(
                newest_poll_group_message(self@, poll_group@),
                |m: SteamworksPollGroupMessageView| m.channel,
            ),
    {
        match self.last_poll_group_message(poll_group) {
            Some(message) => Some(message.channel),
            None => None,
        }
    }

    /// Returns the payload of the newest retained message of one poll group.
    pub fn last_poll_group_message_data(&self, poll_group: SteamworksNetworkingSocketsPollGroupId) -> (data:
        Option<&[u8]>)
        ensures
            match newest_poll_group_message(self@, poll_group@) {
                Some(m) => match data {
                    Some(d) => d@ == m.data,
                    None => false,
                },
                None => data is None,
            },
    {
        match self.last_poll_group_message(poll_group) {
            Some(message) => Some(message.data.as_slice()),
            None => None,
        }
    }

    /// Returns the most recent connection flushed through this plugin.
    pub fn last_flushed_connection(&self) -> (connection: Option<SteamworksNetworkingSocketsConnectionId>)
        ensures
            connection == self@.last_flushed_connection,
    {
        self.last_flushed_connection
    }

    /// Returns the most recent connection poll-group assignment.
    pub fn last_connection_poll_group_set(&self) -> (assignment: Option<&SteamworksNetworkingSocketsPollGroupAssignment>)
        ensures
            option_ref_is(assignment, self@.last_connection_poll_group_set),
    {
        self.last_connection_poll_group_set.as_ref()
    }

    /// Returns the most recent connection removed from its poll group.
    pub fn last_connection_poll_group_cleared(&self) -> (connection: Option<SteamworksNetworkingSocketsConnectionId>)
        ensures
            connection == self@.last_connection_poll_group_cleared,
    {
        self.last_connection_poll_group_cleared
    }

    /// Returns the most recent connection lane configuration.
    pub fn last_connection_lanes_configured(&self) -> (configuration: Option<&SteamworksNetworkingSocketsLaneConfiguration>)
        ensures
            option_ref_is(configuration, self@.last_connection_lanes_configured),
    {
        self.last_connection_lanes_configured.as_ref()
    }

    /// Returns the most recent connection user-data read or write.
    pub fn last_connection_user_data(&self) -> (user_data: Option<&SteamworksNetworkingSocketsConnectionUserData>)
        ensures
            option_ref_is(user_data, self@.last_connection_user_data),
    {
        self.last_connection_user_data.as_ref()
    }

    /// Returns the most recent connection debug-name submission.
    pub fn last_connection_name(&self) -> (name: Option<&SteamworksNetworkingSocketsConnectionName>)
        ensures
            option_ref_view(name) == self@.last_connection_name,
    {
        self.last_connection_name.as_ref()
    }

    /// Returns the most recent connection closed through this plugin.
    pub fn last_closed_connection(&self) -> (closed: Option<&SteamworksNetworkingSocketsConnectionClosed>)
        ensures
            option_ref_is(closed, self@.last_closed_connection),
    {
        self.last_closed_connection.as_ref()
    }

    /// Returns the most recent listen socket closed through this plugin.
    pub fn last_closed_listen_socket(&self) -> (closed: Option<&SteamworksNetworkingSocketsListenSocketClosed>)
        ensures
            option_ref_view(closed) == self@.last_closed_listen_socket,
    {
        self.last_closed_listen_socket.as_ref()
    }

    /// Returns the most recent poll group closed through this plugin.
    pub fn last_closed_poll_group(&self) -> (poll_group: Option<SteamworksNetworkingSocketsPollGroupId>)
        ensures
            poll_group == self@.last_closed_poll_group,
    {
        self.last_closed_poll_group
    }

    /// Returns the number of plugin-owned listen sockets.
    pub fn listen_socket_count(&self) -> (count: usize)
        ensures
            count == self@.listen_socket_count,
    {
        self.listen_socket_count
    }

    /// Returns the number of plugin-owned connections.
    pub fn connection_count(&self) -> (count: usize)
        ensures
            count == self@.connection_count,
    {
        self.connection_count
    }

    /// Returns the number of plugin-owned poll groups.
    pub fn poll_group_count(&self) -> (count: usize)
        ensures
            count == self@.poll_group_count,
    {
        self.poll_group_count
    }

    /// Returns the number of messages sent successfully through this plugin.
    pub fn sent_count(&self) -> (count: u64)
        ensures
            count == self@.sent_count,
    {
        self.sent_count
    }

    /// Returns the number of messages received through this plugin.
    pub fn received_count(&self) -> (count: u64)
        ensures
            count == self@.received_count,
    {
        self.received_count
    }
}

} // verus!

//! What planning, validation, recording and event polling are for, stated
//! over the inputs and results themselves.

use super::command::SteamworksNetworkingSocketsCommand;
use super::commands::{batch_reached_terminal, command_plan, SteamworksCommandPlanView};
use super::error::SteamworksNetworkingSocketsError;
use super::handles::{table_get, table_has, SteamworksHandleStorageView, SteamworksNetworkingSocketsHandleOwner};
use super::identifiers::SteamworksNetworkingSocketsConnectionId;
use super::operation::SteamworksNetworkingSocketsOperation;
use super::snapshots::{SteamworksNetworkingSocketsConnectionUserData, SteamworksNetworkingSocketsOutboundMessage};
use super::state::{next_state, SteamworksNetworkingSocketsStateView};
use super::types::SteamworksNetworkingSocketsConnectionEventInfo;
use super::validation::{command_check, outbound_messages_check_from};
use super::{
    STEAMWORKS_NETWORKING_SOCKETS_MAX_CONFIGURED_LANES, STEAMWORKS_NETWORKING_SOCKETS_MAX_MESSAGES_PER_COMMAND, STEAMWORKS_NETWORKING_SOCKETS_MAX_MESSAGE_BYTES,
    STEAMWORKS_NETWORKING_SOCKETS_MAX_REALTIME_LANES,
};
use crate::networking_types::SteamworksNetworkingConnectionState;
use vstd::prelude::*;

verus! {

/// A realtime-status read or a lane configuration on a stored connection
/// goes through the interface that created that connection: the plan names
/// the connection's stored owner when that interface is available, whatever
/// the other interface's availability, and fails with that interface's
/// unavailability otherwise.
pub proof fn lemma_connection_calls_use_the_owning_interface<L, C, P>(
    command: SteamworksNetworkingSocketsCommand,
    connection: SteamworksNetworkingSocketsConnectionId,
    client_available: bool,
    server_available: bool,
    h: SteamworksHandleStorageView<L, C, P>,
)
    requires
        table_has(h.connections, connection@),
        match command {
            SteamworksNetworkingSocketsCommand::GetRealtimeConnectionStatus { connection: c, lanes } => c == connection
                && lanes <= STEAMWORKS_NETWORKING_SOCKETS_MAX_REALTIME_LANES,
            SteamworksNetworkingSocketsCommand::ConfigureConnectionLanes {
                connection: c,
                lane_priorities,
                lane_weights,
            } => c == connection && 0 < lane_priorities@.len() <= STEAMWORKS_NETWORKING_SOCKETS_MAX_CONFIGURED_LANES
                && lane_priorities@.len() == lane_weights@.len(),
            _ => false,
        },
    ensures
        ({
            let owner = table_get(h.connections, connection@)->Some_0.owner;
            let plan = command_plan(command, client_available, server_available, h);
            &&& owner == SteamworksNetworkingSocketsHandleOwner::Client && client_available ==> plan == Ok::<
                SteamworksCommandPlanView,
                SteamworksNetworkingSocketsError,
            >(SteamworksCommandPlanView::Interface(SteamworksNetworkingSocketsHandleOwner::Client))
            &&& owner == SteamworksNetworkingSocketsHandleOwner::Server && server_available ==> plan == Ok::<
                SteamworksCommandPlanView,
                SteamworksNetworkingSocketsError,
            >(SteamworksCommandPlanView::Interface(SteamworksNetworkingSocketsHandleOwner::Server))
            &&& owner == SteamworksNetworkingSocketsHandleOwner::Client && !client_available ==> plan == Err::<
                SteamworksCommandPlanView,
                SteamworksNetworkingSocketsError,
            >(SteamworksNetworkingSocketsError::ClientUnavailable)
            &&& owner == SteamworksNetworkingSocketsHandleOwner::Server && !server_available ==> plan == Err::<
                SteamworksCommandPlanView,
                SteamworksNetworkingSocketsError,
            >(SteamworksNetworkingSocketsError::ServerUnavailable)
        }),
{
}

/// Whether `message` can go to Steam: its payload fits and its channel is
/// not negative.
pub open spec fn message_sendable(message: SteamworksNetworkingSocketsOutboundMessage) -> bool {
    message.data@.len() <= STEAMWORKS_NETWORKING_SOCKETS_MAX_MESSAGE_BYTES && message.channel >= 0
}

proof fn lemma_messages_check_from(messages: Seq<SteamworksNetworkingSocketsOutboundMessage>, from: int)
    requires
        0 <= from <= messages.len(),
    ensures
        outbound_messages_check_from(messages, from) is Ok <==> forall|i: int|
            from <= i < messages.len() ==> message_sendable(#[trigger] messages[i]),
    decreases messages.len() - from,
{
    if from < messages.len() {
        lemma_messages_check_from(messages, from + 1);
        let m = messages[from];
        if m.data@.len() > STEAMWORKS_NETWORKING_SOCKETS_MAX_MESSAGE_BYTES {
            vstd::std_specs::vec::axiom_spec_len(&m.data);
            assert((m.data@.len() as usize) > STEAMWORKS_NETWORKING_SOCKETS_MAX_MESSAGE_BYTES);
        }
    }
}

/// A batch send passes validation exactly when it holds between one message
/// and the per-command limit and every message in it can go to Steam; one
/// oversized payload or negative channel anywhere in the batch fails it.
pub proof fn lemma_batch_send_checks_every_message(messages: Vec<SteamworksNetworkingSocketsOutboundMessage>)
    ensures
        command_check(SteamworksNetworkingSocketsCommand::SendMessages { messages }) is Ok <==> {
            &&& 1 <= messages@.len() <= STEAMWORKS_NETWORKING_SOCKETS_MAX_MESSAGES_PER_COMMAND
            &&& forall|i: int| 0 <= i < messages@.len() ==> message_sendable(#[trigger] messages@[i])
        },
{
    vstd::std_specs::vec::axiom_spec_len(&messages);
    lemma_messages_check_from(messages@, 0);
}

/// Reading a connection's user data makes it the latest known user data of
/// that connection, exactly as setting it does.
pub proof fn lemma_user_data_read_is_remembered(
    s: SteamworksNetworkingSocketsStateView,
    connection: SteamworksNetworkingSocketsConnectionId,
    user_data: i64,
)
    ensures
        next_state(
            s,
            SteamworksNetworkingSocketsOperation::ConnectionUserDataRead { connection, user_data },
        ).last_connection_user_data == Some(SteamworksNetworkingSocketsConnectionUserData { connection, user_data }),
        next_state(
            s,
            SteamworksNetworkingSocketsOperation::ConnectionUserDataRead { connection, user_data },
        ) == next_state(s, SteamworksNetworkingSocketsOperation::ConnectionUserDataSet { connection, user_data }),
{
}

/// A polled batch ends its connection exactly when some event moved it into
/// `ClosedByPeer` or `ProblemDetectedLocally`: a connection that failed
/// locally is removed just as one the peer closed.
pub proof fn lemma_closed_or_failed_connections_end(events: Seq<SteamworksNetworkingSocketsConnectionEventInfo>)
    ensures
        batch_reached_terminal(events) <==> exists|i: int|
            0 <= i < events.len() && (#[trigger] events[i].new_state
                == SteamworksNetworkingConnectionState::ClosedByPeer || events[i].new_state
                == SteamworksNetworkingConnectionState::ProblemDetectedLocally),
{
}

} // verus!

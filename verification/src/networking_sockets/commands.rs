//! Decisions that come before and after the Steam calls of a command: which
//! interface serves it, which stored handles it needs, and how stored
//! handles change with what Steam reported.

use crate::networking_types::{
    connection_state_is_terminal, is_terminal_connection_state, SteamworksInvalidHandle,
    SteamworksSteamError,
};
use super::command::SteamworksNetworkingSocketsCommand;
use super::error::SteamworksNetworkingSocketsError;
use super::handles::{
    accepted_on, not_accepted_on, table_get, table_has, table_keys, table_removed,
    SteamworksHandleStorageView, SteamworksNetworkingSocketsHandleOwner,
    SteamworksNetworkingSocketsHandleStorage,
};
use super::identifiers::{
    SteamworksListenSocketId, SteamworksNetworkingSocketsConnectionId,
    SteamworksNetworkingSocketsPollGroupId,
};
use super::operation::SteamworksNetworkingSocketsOperation;
use super::snapshots::{SteamworksNetworkingSocketsMessageSendResult, SteamworksNetworkingSocketsOutboundMessage};
use super::types::SteamworksNetworkingSocketsConnectionEventInfo;
use super::validation::{command_check, validate_command};
use vstd::prelude::*;

verus! {

/// The interface that serves interface-wide calls: the client when there is
/// one, else the game server.
pub open spec fn interface_owner(client_available: bool, server_available: bool) -> Result<
    SteamworksNetworkingSocketsHandleOwner,
    SteamworksNetworkingSocketsError,
> {
    if client_available {
        Ok(SteamworksNetworkingSocketsHandleOwner::Client)
    } else if server_available {
        Ok(SteamworksNetworkingSocketsHandleOwner::Server)
    } else {
        Err(SteamworksNetworkingSocketsError::ClientUnavailable)
    }
}

/// The game server interface, for calls that only a server can make.
pub open spec fn server_interface_owner(server_available: bool) -> Result<
    SteamworksNetworkingSocketsHandleOwner,
    SteamworksNetworkingSocketsError,
> {
    if server_available {
        Ok(SteamworksNetworkingSocketsHandleOwner::Server)
    } else {
        Err(SteamworksNetworkingSocketsError::ServerUnavailable)
    }
}

/// The interface that created a handle, when it is still available.
pub open spec fn owner_interface(
    client_available: bool,
    server_available: bool,
    owner: SteamworksNetworkingSocketsHandleOwner,
) -> Result<SteamworksNetworkingSocketsHandleOwner, SteamworksNetworkingSocketsError> {
    match owner {
        SteamworksNetworkingSocketsHandleOwner::Client => if client_available {
            Ok(SteamworksNetworkingSocketsHandleOwner::Client)
        } else {
            Err(SteamworksNetworkingSocketsError::ClientUnavailable)
        },
        SteamworksNetworkingSocketsHandleOwner::Server => server_interface_owner(server_available),
    }
}

/// Picks the interface for interface-wide calls.
pub fn networking_sockets_owner(client_available: bool, server_available: bool) -> (owner: Result<
    SteamworksNetworkingSocketsHandleOwner,
    SteamworksNetworkingSocketsError,
>)
    ensures
        owner == interface_owner(client_available, server_available),
{
    if client_available {
        Ok(SteamworksNetworkingSocketsHandleOwner::Client)
    } else if server_available {
        Ok(SteamworksNetworkingSocketsHandleOwner::Server)
    } else {
        Err(SteamworksNetworkingSocketsError::ClientUnavailable)
    }
}

/// Picks the game server interface.
pub fn server_networking_sockets_owner(server_available: bool) -> (owner: Result<
    SteamworksNetworkingSocketsHandleOwner,
    SteamworksNetworkingSocketsError,
>)
    ensures
        owner == server_interface_owner(server_available),
{
    if server_available {
        Ok(SteamworksNetworkingSocketsHandleOwner::Server)
    } else {
        Err(SteamworksNetworkingSocketsError::ServerUnavailable)
    }
}

/// Picks the interface that created a handle.
pub fn networking_sockets_owner_for(
    client_available: bool,
    server_available: bool,
    owner: SteamworksNetworkingSocketsHandleOwner,
) -> (interface: Result<SteamworksNetworkingSocketsHandleOwner, SteamworksNetworkingSocketsError>)
    ensures
        interface == owner_interface(client_available, server_available, owner),
{
    match owner {
        SteamworksNetworkingSocketsHandleOwner::Client => if client_available {
            Ok(SteamworksNetworkingSocketsHandleOwner::Client)
        } else {
            Err(SteamworksNetworkingSocketsError::ClientUnavailable)
        },
        SteamworksNetworkingSocketsHandleOwner::Server => server_networking_sockets_owner(
            server_available,
        ),
    }
}

/// Maps the outcome of reading a connection's user data from Steam.
pub fn connection_user_data_from_info_result(result: Result<i64, SteamworksInvalidHandle>) -> (user_data: Result<
    i64,
    SteamworksNetworkingSocketsError,
>)
    ensures
        match result {
            Ok(value) => user_data == Ok::<i64, SteamworksNetworkingSocketsError>(value),
            Err(_) => user_data == Err::<i64, SteamworksNetworkingSocketsError>(
                SteamworksNetworkingSocketsError::InvalidHandle { operation: "net_connection.info" },
            ),
        },
{
    match result {
        Ok(value) => Ok(value),
        Err(_) => Err(
            SteamworksNetworkingSocketsError::InvalidHandle { operation: "net_connection.info" },
        ),
    }
}

/// How a validated command will be carried out.
pub enum SteamworksNetworkingSocketsCommandPlan {
    /// Call Steam through the interface of this owner.
    Interface(SteamworksNetworkingSocketsHandleOwner),
    /// Work on stored handles only.
    Handles,
    /// Allocate each message with the client and send it through the
    /// interface that owns its connection.
    SendMessages,
}

/// Abstract value of a command plan.
pub enum SteamworksCommandPlanView {
    /// Call Steam through the interface of this owner.
    Interface(SteamworksNetworkingSocketsHandleOwner),
    /// Work on stored handles only.
    Handles,
    /// Allocate and send each outbound message.
    SendMessages,
}

impl View for SteamworksNetworkingSocketsCommandPlan {
    type V = SteamworksCommandPlanView;

    open spec fn view(&self) -> SteamworksCommandPlanView {
        match self {
            SteamworksNetworkingSocketsCommandPlan::Interface(owner) => SteamworksCommandPlanView::Interface(*owner),
            SteamworksNetworkingSocketsCommandPlan::Handles => SteamworksCommandPlanView::Handles,
            SteamworksNetworkingSocketsCommandPlan::SendMessages => SteamworksCommandPlanView::SendMessages,
        }
    }
}

/// The abstract value of a planning result.
pub open spec fn plan_result_view(
    r: Result<SteamworksNetworkingSocketsCommandPlan, SteamworksNetworkingSocketsError>,
) -> Result<SteamworksCommandPlanView, SteamworksNetworkingSocketsError> {
    match r {
        Ok(plan) => Ok(plan@),
        Err(error) => Err(error),
    }
}

/// The owner of a stored connection, or why there is none.
pub open spec fn stored_connection_owner<L, C, P>(
    h: SteamworksHandleStorageView<L, C, P>,
    connection: SteamworksNetworkingSocketsConnectionId,
) -> Result<SteamworksNetworkingSocketsHandleOwner, SteamworksNetworkingSocketsError> {
    match table_get(h.connections, connection@) {
        Some(e) => Ok(e.owner),
        None => Err(SteamworksNetworkingSocketsError::ConnectionNotFound { id: connection }),
    }
}

/// The owner of a stored poll group, or why there is none.
pub open spec fn stored_poll_group_owner<L, C, P>(
    h: SteamworksHandleStorageView<L, C, P>,
    poll_group: SteamworksNetworkingSocketsPollGroupId,
) -> Result<SteamworksNetworkingSocketsHandleOwner, SteamworksNetworkingSocketsError> {
    match table_get(h.poll_groups, poll_group@) {
        Some(e) => Ok(e.owner),
        None => Err(SteamworksNetworkingSocketsError::PollGroupNotFound { id: poll_group }),
    }
}

/// Plan of a command that calls the interface `owner` picked.
pub open spec fn interface_plan(
    owner: Result<SteamworksNetworkingSocketsHandleOwner, SteamworksNetworkingSocketsError>,
) -> Result<SteamworksCommandPlanView, SteamworksNetworkingSocketsError> {
    match owner {
        Ok(o) => Ok(SteamworksCommandPlanView::Interface(o)),
        Err(e) => Err(e),
    }
}

/// Plan of a command on one stored connection.
pub open spec fn connection_plan<L, C, P>(
    h: SteamworksHandleStorageView<L, C, P>,
    connection: SteamworksNetworkingSocketsConnectionId,
) -> Result<SteamworksCommandPlanView, SteamworksNetworkingSocketsError> {
    if table_has(h.connections, connection@) {
        Ok(SteamworksCommandPlanView::Handles)
    } else {
        Err(SteamworksNetworkingSocketsError::ConnectionNotFound { id: connection })
    }
}

/// Plan of a command that calls the interface owning a stored connection.
pub open spec fn connection_interface_plan<L, C, P>(
    client_available: bool,
    server_available: bool,
    h: SteamworksHandleStorageView<L, C, P>,
    connection: SteamworksNetworkingSocketsConnectionId,
) -> Result<SteamworksCommandPlanView, SteamworksNetworkingSocketsError> {
    match stored_connection_owner(h, connection) {
        Err(e) => Err(e),
        Ok(owner) => interface_plan(owner_interface(client_available, server_available, owner)),
    }
}

/// The owners of the connections of `messages`, in order, or the first
/// reason one of them cannot be sent.
pub open spec fn send_owners<L, C, P>(
    server_available: bool,
    h: SteamworksHandleStorageView<L, C, P>,
    messages: Seq<SteamworksNetworkingSocketsOutboundMessage>,
) -> Result<Seq<SteamworksNetworkingSocketsHandleOwner>, SteamworksNetworkingSocketsError>
    decreases messages.len(),
{
    if messages.len() == 0 {
        Ok(Seq::empty())
    } else {
        match send_owners(server_available, h, messages.drop_last()) {
            Err(e) => Err(e),
            Ok(owners) => match stored_connection_owner(h, messages.last().connection) {
                Err(e) => Err(e),
                Ok(owner) => if owner == SteamworksNetworkingSocketsHandleOwner::Server
                    && !server_available {
                    Err(SteamworksNetworkingSocketsError::ServerUnavailable)
                } else {
                    Ok(owners.push(owner))
                },
            },
        }
    }
}

/// How a command is carried out, or why it fails before any Steam call:
/// validation first, then the interface and stored handles it needs.
pub open spec fn command_plan<L, C, P>(
    command: SteamworksNetworkingSocketsCommand,
    client_available: bool,
    server_available: bool,
    h: SteamworksHandleStorageView<L, C, P>,
) -> Result<SteamworksCommandPlanView, SteamworksNetworkingSocketsError> {
    match command_check(command) {
        Err(e) => Err(e),
        Ok(()) => match command {
            SteamworksNetworkingSocketsCommand::InitAuthentication
            | SteamworksNetworkingSocketsCommand::GetAuthenticationStatus
            | SteamworksNetworkingSocketsCommand::CreateListenSocketIp { .. }
            | SteamworksNetworkingSocketsCommand::CreateListenSocketP2p { .. }
            | SteamworksNetworkingSocketsCommand::ConnectByIpAddress { .. }
            | SteamworksNetworkingSocketsCommand::ConnectP2p { .. }
            | SteamworksNetworkingSocketsCommand::CreatePollGroup => interface_plan(
                interface_owner(client_available, server_available),
            ),
            SteamworksNetworkingSocketsCommand::CreateHostedDedicatedServerListenSocket { .. }
            | SteamworksNetworkingSocketsCommand::CreateServerPollGroup => interface_plan(
                server_interface_owner(server_available),
            ),
            SteamworksNetworkingSocketsCommand::PollListenSocketEvents { listen_socket, .. }
            | SteamworksNetworkingSocketsCommand::CloseListenSocket { listen_socket } => {
                if table_has(h.listen_sockets, listen_socket@) {
                    Ok(SteamworksCommandPlanView::Handles)
                } else {
                    Err(SteamworksNetworkingSocketsError::ListenSocketNotFound { id: listen_socket })
                }
            },
            SteamworksNetworkingSocketsCommand::PollConnectionEvents { connection, .. }
            | SteamworksNetworkingSocketsCommand::GetConnectionInfo { connection }
            | SteamworksNetworkingSocketsCommand::GetConnectionUserData { connection }
            | SteamworksNetworkingSocketsCommand::SendMessage { connection, .. }
            | SteamworksNetworkingSocketsCommand::ReceiveMessages { connection, .. }
            | SteamworksNetworkingSocketsCommand::FlushMessages { connection }
            | SteamworksNetworkingSocketsCommand::ClearConnectionPollGroup { connection }
            | SteamworksNetworkingSocketsCommand::SetConnectionUserData { connection, .. }
            | SteamworksNetworkingSocketsCommand::SetConnectionName { connection, .. }
            | SteamworksNetworkingSocketsCommand::CloseConnection { connection, .. } => {
                connection_plan(h, connection)
            },
            SteamworksNetworkingSocketsCommand::GetRealtimeConnectionStatus { connection, .. }
            | SteamworksNetworkingSocketsCommand::ConfigureConnectionLanes { connection, .. } => {
                connection_interface_plan(client_available, server_available, h, connection)
            },
            SteamworksNetworkingSocketsCommand::SendMessages { .. } => {
                if !client_available {
                    Err(SteamworksNetworkingSocketsError::ClientUnavailable)
                } else {
                    Ok(SteamworksCommandPlanView::SendMessages)
                }
            },
            SteamworksNetworkingSocketsCommand::ReceivePollGroupMessages { poll_group, .. }
            | SteamworksNetworkingSocketsCommand::ClosePollGroup { poll_group } => {
                if table_has(h.poll_groups, poll_group@) {
                    Ok(SteamworksCommandPlanView::Handles)
                } else {
                    Err(SteamworksNetworkingSocketsError::PollGroupNotFound { id: poll_group })
                }
            },
            SteamworksNetworkingSocketsCommand::SetConnectionPollGroup { connection, poll_group } => {
                match stored_connection_owner(h, connection) {
                    Err(e) => Err(e),
                    Ok(connection_owner) => match stored_poll_group_owner(h, poll_group) {
                        Err(e) => Err(e),
                        Ok(poll_group_owner) => if connection_owner != poll_group_owner {
                            Err(
                                SteamworksNetworkingSocketsError::HandleOwnerMismatch {
                                    connection,
                                    poll_group,
                                },
                            )
                        } else {
                            Ok(SteamworksCommandPlanView::Handles)
                        },
                    },
                }
            },
            SteamworksNetworkingSocketsCommand::PollAllListenSocketEvents { .. }
            | SteamworksNetworkingSocketsCommand::PollAllConnectionEvents { .. }
            | SteamworksNetworkingSocketsCommand::ReceiveAllMessages { .. }
            | SteamworksNetworkingSocketsCommand::ReceiveAllPollGroupMessages { .. }
            | SteamworksNetworkingSocketsCommand::FlushAllMessages
            | SteamworksNetworkingSocketsCommand::CloseAllConnections { .. }
            | SteamworksNetworkingSocketsCommand::CloseAllListenSockets
            | SteamworksNetworkingSocketsCommand::CloseAllPollGroups => Ok(
                SteamworksCommandPlanView::Handles,
            ),
        },
    }
}

/// Looks up the owner of a stored connection.
fn connection_owner_or_not_found<L, C, P>(
    handles: &SteamworksNetworkingSocketsHandleStorage<L, C, P>,
    connection: SteamworksNetworkingSocketsConnectionId,
) -> (owner: Result<SteamworksNetworkingSocketsHandleOwner, SteamworksNetworkingSocketsError>)
    ensures
        owner == stored_connection_owner(handles@, connection),
{
    match handles.connection_owner(connection) {
        Some(owner) => Ok(owner),
        None => Err(SteamworksNetworkingSocketsError::ConnectionNotFound { id: connection }),
    }
}

/// The handle stored for `connection`, where one is stored.
pub open spec fn stored_connection_handle<L, C, P>(
    h: SteamworksHandleStorageView<L, C, P>,
    connection: SteamworksNetworkingSocketsConnectionId,
) -> C {
    table_get(h.connections, connection@)->Some_0.handle
}

/// Whether `allocate` gave an outbound message for each of the first `n`
/// messages, from the handle of its connection.
pub open spec fn allocated_before<L, C, P, A, F: Fn(&C, &SteamworksNetworkingSocketsOutboundMessage) -> Result<
    A,
    SteamworksNetworkingSocketsError,
>>(
    allocate: F,
    h: SteamworksHandleStorageView<L, C, P>,
    messages: Seq<SteamworksNetworkingSocketsOutboundMessage>,
    n: int,
) -> bool {
    forall|j: int|
        0 <= j < n ==> exists|a: A|
            call_ensures(
                allocate,
                (&stored_connection_handle(h, (#[trigger] messages[j]).connection), &messages[j]),
                Ok::<A, SteamworksNetworkingSocketsError>(a),
            )
}

/// Whether preparing a batch stops at message `i` with `error`: every
/// earlier message was looked up and allocated, and message `i` either has
/// no usable connection (`send_owners` fails there) or its allocation
/// failed with `error`.
pub open spec fn send_preparation_fails_at<L, C, P, A, F: Fn(&C, &SteamworksNetworkingSocketsOutboundMessage) -> Result<
    A,
    SteamworksNetworkingSocketsError,
>>(
    server_available: bool,
    allocate: F,
    h: SteamworksHandleStorageView<L, C, P>,
    messages: Seq<SteamworksNetworkingSocketsOutboundMessage>,
    i: int,
    error: SteamworksNetworkingSocketsError,
) -> bool {
    &&& 0 <= i < messages.len()
    &&& send_owners(server_available, h, messages.take(i)) is Ok
    &&& allocated_before(allocate, h, messages, i)
    &&& ({
        ||| send_owners(server_available, h, messages.take(i + 1))
            == Err::<Seq<SteamworksNetworkingSocketsHandleOwner>, SteamworksNetworkingSocketsError>(error)
        ||| (send_owners(server_available, h, messages.take(i + 1)) is Ok && call_ensures(
            allocate,
            (&stored_connection_handle(h, messages[i].connection), &messages[i]),
            Err::<A, SteamworksNetworkingSocketsError>(error),
        ))
    })
}

/// Prepares a batch send, message by message in order: looks up the owner
/// of the message's connection, refuses a server-owned one while no game
/// server is available, and allocates the message from its connection's
/// handle through `allocate`. Stops at the first message that fails.
/// Returns each message's owner and allocated outbound message.
pub fn prepare_send_messages<L, C, P, A, F: Fn(&C, &SteamworksNetworkingSocketsOutboundMessage) -> Result<
    A,
    SteamworksNetworkingSocketsError,
>>(
    server_available: bool,
    handles: &SteamworksNetworkingSocketsHandleStorage<L, C, P>,
    messages: &Vec<SteamworksNetworkingSocketsOutboundMessage>,
    allocate: F,
) -> (prepared: Result<
    (Vec<SteamworksNetworkingSocketsHandleOwner>, Vec<A>),
    SteamworksNetworkingSocketsError,
>)
    requires
        forall|c: &C, m: &SteamworksNetworkingSocketsOutboundMessage| call_requires(allocate, (c, m)),
    ensures
        match prepared {
            Ok((owners, allocated)) => {
                &&& send_owners(server_available, handles@, messages@) == Ok::<
                    Seq<SteamworksNetworkingSocketsHandleOwner>,
                    SteamworksNetworkingSocketsError,
                >(owners@)
                &&& allocated@.len() == messages@.len()
                &&& forall|i: int|
                    0 <= i < messages@.len() ==> call_ensures(
                        allocate,
                        (
                            &stored_connection_handle(handles@, (#[trigger] messages@[i]).connection),
                            &messages@[i],
                        ),
                        Ok::<A, SteamworksNetworkingSocketsError>(allocated@[i]),
                    )
            },
            Err(error) => exists|i: int|
                send_preparation_fails_at(server_available, allocate, handles@, messages@, i, error),
        },
{
    let ghost h = handles@;
    let mut owners: Vec<SteamworksNetworkingSocketsHandleOwner> = Vec::new();
    let mut allocated: Vec<A> = Vec::new();
    let mut i: usize = 0;
    proof {
        assert(messages@.take(0) =~= Seq::<SteamworksNetworkingSocketsOutboundMessage>::empty());
    }
    while i < messages.len()
        invariant
            0 <= i <= messages@.len(),
            h == handles@,
            send_owners(server_available, h, messages@.take(i as int)) == Ok::<
                Seq<SteamworksNetworkingSocketsHandleOwner>,
                SteamworksNetworkingSocketsError,
            >(owners@),
            allocated@.len() == i,
            forall|j: int|
                0 <= j < i ==> call_ensures(
                    allocate,
                    (&stored_connection_handle(h, (#[trigger] messages@[j]).connection), &messages@[j]),
                    Ok::<A, SteamworksNetworkingSocketsError>(allocated@[j]),
                ),
            forall|c: &C, m: &SteamworksNetworkingSocketsOutboundMessage| call_requires(allocate, (c, m)),
        decreases messages@.len() - i,
    {
        proof {
            assert(messages@.take(i as int + 1).drop_last() =~= messages@.take(i as int));
            assert(messages@.take(i as int + 1).last() == messages@[i as int]);
            assert forall|j: int| 0 <= j < i implies exists|a: A|
                call_ensures(
                    allocate,
                    (&stored_connection_handle(h, (#[trigger] messages@[j]).connection), &messages@[j]),
                    Ok::<A, SteamworksNetworkingSocketsError>(a),
                ) by {
                assert(call_ensures(
                    allocate,
                    (&stored_connection_handle(h, messages@[j].connection), &messages@[j]),
                    Ok::<A, SteamworksNetworkingSocketsError>(allocated@[j]),
                ));
            }
            assert(allocated_before(allocate, h, messages@, i as int));
        }
        let message = &messages[i];
        let entry = match handles.connection(message.connection) {
            Some(entry) => entry,
            None => {
                proof {
                    assert(send_preparation_fails_at(
                        server_available,
                        allocate,
                        h,
                        messages@,
                        i as int,
                        SteamworksNetworkingSocketsError::ConnectionNotFound { id: message.connection },
                    ));
                }
                return Err(SteamworksNetworkingSocketsError::ConnectionNotFound { id: message.connection });
            },
        };
        let owner = entry.owner;
        if owner == SteamworksNetworkingSocketsHandleOwner::Server && !server_available {
            proof {
                assert(send_preparation_fails_at(
                    server_available,
                    allocate,
                    h,
                    messages@,
                    i as int,
                    SteamworksNetworkingSocketsError::ServerUnavailable,
                ));
            }
            return Err(SteamworksNetworkingSocketsError::ServerUnavailable);
        }
        match allocate(&entry.handle, message) {
            Ok(outbound) => {
                let ghost prev = allocated@;
                owners.push(owner);
                allocated.push(outbound);
                proof {
                    assert forall|j: int| 0 <= j < i + 1 implies call_ensures(
                        allocate,
                        (&stored_connection_handle(h, (#[trigger] messages@[j]).connection), &messages@[j]),
                        Ok::<A, SteamworksNetworkingSocketsError>(allocated@[j]),
                    ) by {
                        if j < i {
                            assert(allocated@[j] == prev[j]);
                        }
                    }
                }
            },
            Err(error) => {
                proof {
                    assert(send_preparation_fails_at(server_available, allocate, h, messages@, i as int, error));
                }
                return Err(error);
            },
        }
        i += 1;
    }
    proof {
        assert(messages@.take(i as int) =~= messages@);
    }
    Ok((owners, allocated))
}

/// Decides how a command is carried out, or why it fails before any Steam
/// call.
pub fn plan_networking_sockets_command<L, C, P>(
    command: &SteamworksNetworkingSocketsCommand,
    client_available: bool,
    server_available: bool,
    handles: &SteamworksNetworkingSocketsHandleStorage<L, C, P>,
) -> (plan: Result<SteamworksNetworkingSocketsCommandPlan, SteamworksNetworkingSocketsError>)
    ensures
        plan_result_view(plan) == command_plan(
            *command,
            client_available,
            server_available,
            handles@,
        ),
{
    match validate_command(command) {
        Err(e) => return Err(e),
        Ok(()) => {},
    }
    match command {
        SteamworksNetworkingSocketsCommand::InitAuthentication
        | SteamworksNetworkingSocketsCommand::GetAuthenticationStatus
        | SteamworksNetworkingSocketsCommand::CreateListenSocketIp { .. }
        | SteamworksNetworkingSocketsCommand::CreateListenSocketP2p { .. }
        | SteamworksNetworkingSocketsCommand::ConnectByIpAddress { .. }
        | SteamworksNetworkingSocketsCommand::ConnectP2p { .. }
        | SteamworksNetworkingSocketsCommand::CreatePollGroup => {
            match networking_sockets_owner(client_available, server_available) {
                Ok(owner) => Ok(SteamworksNetworkingSocketsCommandPlan::Interface(owner)),
                Err(e) => Err(e),
            }
        },
        SteamworksNetworkingSocketsCommand::CreateHostedDedicatedServerListenSocket { .. }
        | SteamworksNetworkingSocketsCommand::CreateServerPollGroup => {
            match server_networking_sockets_owner(server_available) {
                Ok(owner) => Ok(SteamworksNetworkingSocketsCommandPlan::Interface(owner)),
                Err(e) => Err(e),
            }
        },
        SteamworksNetworkingSocketsCommand::PollListenSocketEvents { listen_socket, .. }
        | SteamworksNetworkingSocketsCommand::CloseListenSocket { listen_socket } => {
            if handles.contains_listen_socket(*listen_socket) {
                Ok(SteamworksNetworkingSocketsCommandPlan::Handles)
            } else {
                Err(SteamworksNetworkingSocketsError::ListenSocketNotFound { id: *listen_socket })
            }
        },
        SteamworksNetworkingSocketsCommand::PollConnectionEvents { connection, .. }
        | SteamworksNetworkingSocketsCommand::GetConnectionInfo { connection }
        | SteamworksNetworkingSocketsCommand::GetConnectionUserData { connection }
        | SteamworksNetworkingSocketsCommand::SendMessage { connection, .. }
        | SteamworksNetworkingSocketsCommand::ReceiveMessages { connection, .. }
        | SteamworksNetworkingSocketsCommand::FlushMessages { connection }
        | SteamworksNetworkingSocketsCommand::ClearConnectionPollGroup { connection }
        | SteamworksNetworkingSocketsCommand::SetConnectionUserData { connection, .. }
        | SteamworksNetworkingSocketsCommand::SetConnectionName { connection, .. }
        | SteamworksNetworkingSocketsCommand::CloseConnection { connection, .. } => {
            if handles.contains_connection(*connection) {
                Ok(SteamworksNetworkingSocketsCommandPlan::Handles)
            } else {
                Err(SteamworksNetworkingSocketsError::ConnectionNotFound { id: *connection })
            }
        },
        SteamworksNetworkingSocketsCommand::GetRealtimeConnectionStatus { connection, .. }
        | SteamworksNetworkingSocketsCommand::ConfigureConnectionLanes { connection, .. } => {
            match connection_owner_or_not_found(handles, *connection) {
                Err(e) => Err(e),
                Ok(owner) => match networking_sockets_owner_for(
                    client_available,
                    server_available,
                    owner,
                ) {
                    Ok(interface) => Ok(SteamworksNetworkingSocketsCommandPlan::Interface(interface)),
                    Err(e) => Err(e),
                },
            }
        },
        SteamworksNetworkingSocketsCommand::SendMessages { .. } => {
            if !client_available {
                Err(SteamworksNetworkingSocketsError::ClientUnavailable)
            } else {
                Ok(SteamworksNetworkingSocketsCommandPlan::SendMessages)
            }
        },
        SteamworksNetworkingSocketsCommand::ReceivePollGroupMessages { poll_group, .. }
        | SteamworksNetworkingSocketsCommand::ClosePollGroup { poll_group } => {
            if handles.contains_poll_group(*poll_group) {
                Ok(SteamworksNetworkingSocketsCommandPlan::Handles)
            } else {
                Err(SteamworksNetworkingSocketsError::PollGroupNotFound { id: *poll_group })
            }
        },
        SteamworksNetworkingSocketsCommand::SetConnectionPollGroup { connection, poll_group } => {
            let connection_owner = match connection_owner_or_not_found(handles, *connection) {
                Ok(owner) => owner,
                Err(e) => return Err(e),
            };
            let poll_group_owner = match handles.poll_group_owner(*poll_group) {
                Some(owner) => owner,
                None => return Err(
                    SteamworksNetworkingSocketsError::PollGroupNotFound { id: *poll_group },
                ),
            };
            if connection_owner != poll_group_owner {
                Err(
                    SteamworksNetworkingSocketsError::HandleOwnerMismatch {
                        connection: *connection,
                        poll_group: *poll_group,
                    },
                )
            } else {
                Ok(SteamworksNetworkingSocketsCommandPlan::Handles)
            }
        },
        SteamworksNetworkingSocketsCommand::PollAllListenSocketEvents { .. }
        | SteamworksNetworkingSocketsCommand::PollAllConnectionEvents { .. }
        | SteamworksNetworkingSocketsCommand::ReceiveAllMessages { .. }
        | SteamworksNetworkingSocketsCommand::ReceiveAllPollGroupMessages { .. }
        | SteamworksNetworkingSocketsCommand::FlushAllMessages
        | SteamworksNetworkingSocketsCommand::CloseAllConnections { .. }
        | SteamworksNetworkingSocketsCommand::CloseAllListenSockets
        | SteamworksNetworkingSocketsCommand::CloseAllPollGroups => Ok(
            SteamworksNetworkingSocketsCommandPlan::Handles,
        ),
    }
}

/// The storage after closing `listen_socket`: its accepted connections and
/// the socket itself are gone.
pub open spec fn listen_socket_closed<L, C, P>(
    h: SteamworksHandleStorageView<L, C, P>,
    listen_socket: SteamworksListenSocketId,
) -> SteamworksHandleStorageView<L, C, P> {
    SteamworksHandleStorageView {
        listen_sockets: table_removed(h.listen_sockets, listen_socket@),
        connections: h.connections.filter(not_accepted_on(listen_socket)),
        ..h
    }
}

/// Closes a stored listen socket and every connection it accepted.
pub fn close_listen_socket<L, C, P>(
    handles: &mut SteamworksNetworkingSocketsHandleStorage<L, C, P>,
    listen_socket: SteamworksListenSocketId,
) -> (result: Result<SteamworksNetworkingSocketsOperation, SteamworksNetworkingSocketsError>)
    ensures
        !table_has(old(handles)@.listen_sockets, listen_socket@) ==> {
            &&& result == Err::<SteamworksNetworkingSocketsOperation, SteamworksNetworkingSocketsError>(
                SteamworksNetworkingSocketsError::ListenSocketNotFound { id: listen_socket },
            )
            &&& final(handles)@ == old(handles)@
        },
        table_has(old(handles)@.listen_sockets, listen_socket@) ==> {
            &&& result matches Ok(SteamworksNetworkingSocketsOperation::ListenSocketClosed {
                listen_socket: closed,
                closed_connections,
            })
            &&& closed == listen_socket
            &&& closed_connections@.map_values(|c: SteamworksNetworkingSocketsConnectionId| c@)
                == table_keys(old(handles)@.connections.filter(accepted_on(listen_socket)))
            &&& final(handles)@ == listen_socket_closed(old(handles)@, listen_socket)
        },
{
    if !handles.contains_listen_socket(listen_socket) {
        return Err(SteamworksNetworkingSocketsError::ListenSocketNotFound { id: listen_socket });
    }
    let closed_connections = handles.remove_connections_for_listen_socket(listen_socket);
    handles.remove_listen_socket(listen_socket);
    Ok(SteamworksNetworkingSocketsOperation::ListenSocketClosed { listen_socket, closed_connections })
}

/// Closes a stored poll group, taking every connection out of it.
pub fn close_poll_group<L, C, P>(
    handles: &mut SteamworksNetworkingSocketsHandleStorage<L, C, P>,
    poll_group: SteamworksNetworkingSocketsPollGroupId,
) -> (result: Result<SteamworksNetworkingSocketsOperation, SteamworksNetworkingSocketsError>)
    ensures
        !table_has(old(handles)@.poll_groups, poll_group@) ==> {
            &&& result == Err::<SteamworksNetworkingSocketsOperation, SteamworksNetworkingSocketsError>(
                SteamworksNetworkingSocketsError::PollGroupNotFound { id: poll_group },
            )
            &&& final(handles)@ == old(handles)@
        },
        table_has(old(handles)@.poll_groups, poll_group@) ==> {
            &&& result == Ok::<SteamworksNetworkingSocketsOperation, SteamworksNetworkingSocketsError>(
                SteamworksNetworkingSocketsOperation::PollGroupClosed { poll_group },
            )
            &&& final(handles)@ == (SteamworksHandleStorageView {
                poll_groups: table_removed(old(handles)@.poll_groups, poll_group@),
                connections: super::handles::poll_group_cleared(old(handles)@.connections, poll_group),
                ..old(handles)@
            })
        },
{
    match handles.remove_poll_group(poll_group) {
        Some(_) => Ok(SteamworksNetworkingSocketsOperation::PollGroupClosed { poll_group }),
        None => Err(SteamworksNetworkingSocketsError::PollGroupNotFound { id: poll_group }),
    }
}

/// Whether some event of a polled batch reached a terminal state.
pub open spec fn batch_reached_terminal(events: Seq<SteamworksNetworkingSocketsConnectionEventInfo>) -> bool {
    exists|i: int| 0 <= i < events.len() && connection_state_is_terminal(#[trigger] events[i].new_state)
}

/// Finishes polling one connection: when an event reached a terminal state,
/// the connection is removed from storage.
pub fn connection_events_polled<L, C, P>(
    handles: &mut SteamworksNetworkingSocketsHandleStorage<L, C, P>,
    connection: SteamworksNetworkingSocketsConnectionId,
    events: Vec<SteamworksNetworkingSocketsConnectionEventInfo>,
) -> (operation: SteamworksNetworkingSocketsOperation)
    ensures
        operation matches SteamworksNetworkingSocketsOperation::ConnectionEventsPolled {
            connection: polled,
            events: reported,
            connection_removed,
        } && polled == connection && reported@ == events@ && connection_removed
            == batch_reached_terminal(events@),
        batch_reached_terminal(events@) ==> final(handles)@ == (SteamworksHandleStorageView {
            connections: table_removed(old(handles)@.connections, connection@),
            ..old(handles)@
        }),
        !batch_reached_terminal(events@) ==> final(handles)@ == old(handles)@,
{
    let mut removed = false;
    let mut i: usize = 0;
    while i < events.len()
        invariant
            0 <= i <= events@.len(),
            removed == exists|j: int|
                0 <= j < i && connection_state_is_terminal(#[trigger] events@[j].new_state),
        decreases events@.len() - i,
    {
        if is_terminal_connection_state(events[i].new_state) {
            removed = true;
        }
        i += 1;
    }
    if removed {
        handles.remove_connection(connection);
    }
    SteamworksNetworkingSocketsOperation::ConnectionEventsPolled {
        connection,
        events,
        connection_removed: removed,
    }
}

/// Whether the owners of a batch pair up with Steam's outcomes: each
/// interface reported exactly one outcome per message it was given.
pub open spec fn outcomes_fit(
    owners: Seq<SteamworksNetworkingSocketsHandleOwner>,
    client_outcomes: nat,
    server_outcomes: nat,
) -> bool {
    &&& owned_before(owners, SteamworksNetworkingSocketsHandleOwner::Client, owners.len() as int)
        == client_outcomes
    &&& owned_before(owners, SteamworksNetworkingSocketsHandleOwner::Server, owners.len() as int)
        == server_outcomes
}

/// Number of messages among the first `k` owned by `owner`.
pub open spec fn owned_before(
    owners: Seq<SteamworksNetworkingSocketsHandleOwner>,
    owner: SteamworksNetworkingSocketsHandleOwner,
    k: int,
) -> nat {
    owners.take(k).filter(|o: SteamworksNetworkingSocketsHandleOwner| o == owner).len()
}

/// The send result of message `i` of a batch, given Steam's per-interface
/// outcomes in submission order.
pub open spec fn send_result_at(
    messages: Seq<SteamworksNetworkingSocketsOutboundMessage>,
    owners: Seq<SteamworksNetworkingSocketsHandleOwner>,
    client_outcomes: Seq<Result<u64, SteamworksSteamError>>,
    server_outcomes: Seq<Result<u64, SteamworksSteamError>>,
    i: int,
) -> SteamworksNetworkingSocketsMessageSendResult {
    let outcome = if owners[i] == SteamworksNetworkingSocketsHandleOwner::Client {
        client_outcomes[owned_before(owners, SteamworksNetworkingSocketsHandleOwner::Client, i) as int]
    } else {
        server_outcomes[owned_before(owners, SteamworksNetworkingSocketsHandleOwner::Server, i) as int]
    };
    SteamworksNetworkingSocketsMessageSendResult {
        connection: messages[i].connection,
        send_flags: messages[i].send_flags,
        channel: messages[i].channel,
        bytes: messages[i].data@.len() as usize,
        user_data: messages[i].user_data,
        result: outcome,
    }
}

/// The items whose owner is `owner`, in their order.
pub open spec fn owned_items<A>(
    owners: Seq<SteamworksNetworkingSocketsHandleOwner>,
    items: Seq<A>,
    owner: SteamworksNetworkingSocketsHandleOwner,
) -> Seq<A>
    decreases owners.len(),
{
    if owners.len() == 0 {
        Seq::empty()
    } else {
        let rest = owned_items(owners.drop_last(), items.take(owners.len() - 1), owner);
        if owners.last() == owner {
            rest.push(items[owners.len() - 1])
        } else {
            rest
        }
    }
}

/// Splits prepared messages into the client-owned and the server-owned
/// batch, each in the order of the messages; `owners` gives each item's
/// owner.
pub fn split_by_owner<A>(owners: &Vec<SteamworksNetworkingSocketsHandleOwner>, items: Vec<A>) -> (parts: (
    Vec<A>,
    Vec<A>,
))
    requires
        owners@.len() == items@.len(),
    ensures
        parts.0@ == owned_items(owners@, items@, SteamworksNetworkingSocketsHandleOwner::Client),
        parts.1@ == owned_items(owners@, items@, SteamworksNetworkingSocketsHandleOwner::Server),
{
    let ghost all = items@;
    let mut rest = items;
    let mut client: Vec<A> = Vec::new();
    let mut server: Vec<A> = Vec::new();
    let mut i: usize = 0;
    proof {
        assert(all.take(0) =~= Seq::<A>::empty());
        assert(owners@.take(0) =~= Seq::<SteamworksNetworkingSocketsHandleOwner>::empty());
        assert(rest@ =~= all.skip(0));
    }
    while i < owners.len()
        invariant
            owners@.len() == all.len(),
            0 <= i <= owners@.len(),
            rest@ == all.skip(i as int),
            client@ == owned_items(
                owners@.take(i as int),
                all.take(i as int),
                SteamworksNetworkingSocketsHandleOwner::Client,
            ),
            server@ == owned_items(
                owners@.take(i as int),
                all.take(i as int),
                SteamworksNetworkingSocketsHandleOwner::Server,
            ),
        decreases owners@.len() - i,
    {
        let item = rest.remove(0);
        proof {
            assert(item == all[i as int]);
            assert(rest@ =~= all.skip(i as int + 1));
            let o = owners@.take(i as int + 1);
            assert(o.drop_last() =~= owners@.take(i as int));
            assert(all.take(i as int + 1).take(i as int) =~= all.take(i as int));
            assert(o.last() == owners@[i as int]);
            assert(all.take(i as int + 1)[i as int] == all[i as int]);
        }
        match owners[i] {
            SteamworksNetworkingSocketsHandleOwner::Client => client.push(item),
            SteamworksNetworkingSocketsHandleOwner::Server => server.push(item),
        }
        i += 1;
    }
    proof {
        assert(owners@.take(i as int) =~= owners@);
        assert(all.take(i as int) =~= all);
    }
    (client, server)
}

/// When every message of a batch can be sent, each one's connection is
/// stored, one owner is planned per message, and that owner is the owner of
/// the message's connection.
pub proof fn lemma_send_owners_find_every_connection<L, C, P>(
    server_available: bool,
    h: SteamworksHandleStorageView<L, C, P>,
    messages: Seq<SteamworksNetworkingSocketsOutboundMessage>,
)
    requires
        send_owners(server_available, h, messages) is Ok,
    ensures
        ({
            let owners = send_owners(server_available, h, messages)->Ok_0;
            &&& owners.len() == messages.len()
            &&& forall|i: int|
                0 <= i < messages.len() ==> table_has(h.connections, (#[trigger] messages[i]).connection@)
                    && stored_connection_owner(h, messages[i].connection) == Ok::<
                    SteamworksNetworkingSocketsHandleOwner,
                    SteamworksNetworkingSocketsError,
                >(owners[i])
        }),
    decreases messages.len(),
{
    if messages.len() > 0 {
        lemma_send_owners_find_every_connection(server_available, h, messages.drop_last());
        assert forall|i: int| 0 <= i < messages.len() - 1 implies messages[i] == messages.drop_last()[i] by {}
    }
}

/// The send result of each message repeats the message's connection, send
/// flags, channel and user data, and counts its payload bytes.
pub proof fn lemma_send_results_follow_messages(
    messages: Seq<SteamworksNetworkingSocketsOutboundMessage>,
    owners: Seq<SteamworksNetworkingSocketsHandleOwner>,
    client_outcomes: Seq<Result<u64, SteamworksSteamError>>,
    server_outcomes: Seq<Result<u64, SteamworksSteamError>>,
    i: int,
)
    requires
        0 <= i < messages.len(),
    ensures
        ({
            let r = send_result_at(messages, owners, client_outcomes, server_outcomes, i);
            &&& r.connection == messages[i].connection
            &&& r.send_flags == messages[i].send_flags
            &&& r.channel == messages[i].channel
            &&& r.user_data == messages[i].user_data
            &&& r.bytes == messages[i].data@.len() as usize
        }),
{
}

/// Puts Steam's per-interface send outcomes back in command order.
///
/// Messages were submitted to the interface that owns their connection, in
/// command order; each interface reports one outcome per submitted message.
/// When the counts do not match, the batch fails as an operation failure.
pub fn merge_send_outcomes(
    messages: &Vec<SteamworksNetworkingSocketsOutboundMessage>,
    owners: &Vec<SteamworksNetworkingSocketsHandleOwner>,
    client_outcomes: &Vec<Result<u64, SteamworksSteamError>>,
    server_outcomes: &Vec<Result<u64, SteamworksSteamError>>,
) -> (results: Result<Vec<SteamworksNetworkingSocketsMessageSendResult>, SteamworksNetworkingSocketsError>)
    ensures
        (owners@.len() == messages@.len() && outcomes_fit(
            owners@,
            client_outcomes@.len(),
            server_outcomes@.len(),
        )) ==> (results matches Ok(r) && r@.len() == messages@.len() && forall|i: int|
            0 <= i < messages@.len() ==> #[trigger] r@[i] == send_result_at(
                messages@,
                owners@,
                client_outcomes@,
                server_outcomes@,
                i,
            )),
        !(owners@.len() == messages@.len() && outcomes_fit(
            owners@,
            client_outcomes@.len(),
            server_outcomes@.len(),
        )) ==> results == Err::<Vec<SteamworksNetworkingSocketsMessageSendResult>, SteamworksNetworkingSocketsError>(
            SteamworksNetworkingSocketsError::OperationFailed {
                operation: "networking_sockets.send_messages",
            },
        ),
{
    let failed = SteamworksNetworkingSocketsError::OperationFailed {
        operation: "networking_sockets.send_messages",
    };
    if owners.len() != messages.len() {
        return Err(failed);
    }
    let mut results: Vec<SteamworksNetworkingSocketsMessageSendResult> = Vec::new();
    let mut next_client: usize = 0;
    let mut next_server: usize = 0;
    let mut i: usize = 0;
    proof {
        reveal(Seq::filter);
        assert(owners@.take(0) =~= Seq::<SteamworksNetworkingSocketsHandleOwner>::empty());
    }
    while i < messages.len()
        invariant
            0 <= i <= messages@.len(),
            owners@.len() == messages@.len(),
            next_client == owned_before(owners@, SteamworksNetworkingSocketsHandleOwner::Client, i as int),
            next_server == owned_before(owners@, SteamworksNetworkingSocketsHandleOwner::Server, i as int),
            next_client + next_server == i,
            results@.len() == i,
            forall|j: int| 0 <= j < i ==> #[trigger] results@[j] == send_result_at(
                messages@,
                owners@,
                client_outcomes@,
                server_outcomes@,
                j,
            ),
            (owners@.len() == messages@.len() && outcomes_fit(
                owners@,
                client_outcomes@.len(),
                server_outcomes@.len(),
            )) ==> (next_client <= client_outcomes@.len() && next_server <= server_outcomes@.len()),
        decreases messages@.len() - i,
    {
        proof {
            lemma_owned_step(owners@, SteamworksNetworkingSocketsHandleOwner::Client, i as int);
            lemma_owned_step(owners@, SteamworksNetworkingSocketsHandleOwner::Server, i as int);
        }
        let owner = owners[i];
        let outcome = match owner {
            SteamworksNetworkingSocketsHandleOwner::Client => {
                if next_client >= client_outcomes.len() {
                    proof {
                        lemma_owned_count_grows(owners@, SteamworksNetworkingSocketsHandleOwner::Client, i as int);
                    }
                    return Err(
                        SteamworksNetworkingSocketsError::OperationFailed {
                            operation: "networking_sockets.send_messages",
                        },
                    );
                }
                let o = client_outcomes[next_client];
                next_client += 1;
                o
            },
            SteamworksNetworkingSocketsHandleOwner::Server => {
                if next_server >= server_outcomes.len() {
                    proof {
                        lemma_owned_count_grows(owners@, SteamworksNetworkingSocketsHandleOwner::Server, i as int);
                    }
                    return Err(
                        SteamworksNetworkingSocketsError::OperationFailed {
                            operation: "networking_sockets.send_messages",
                        },
                    );
                }
                let o = server_outcomes[next_server];
                next_server += 1;
                o
            },
        };
        let message = &messages[i];
        results.push(
            SteamworksNetworkingSocketsMessageSendResult {
                connection: message.connection,
                send_flags: message.send_flags,
                channel: message.channel,
                bytes: message.data.len(),
                user_data: message.user_data,
                result: outcome,
            },
        );
        i += 1;
    }
    proof {
        assert(owners@.take(i as int) =~= owners@);
    }
    if next_client != client_outcomes.len() || next_server != server_outcomes.len() {
        return Err(failed);
    }
    Ok(results)
}

/// The count of messages owned by `owner` grows by one exactly at the
/// messages it owns.
proof fn lemma_owned_step(
    owners: Seq<SteamworksNetworkingSocketsHandleOwner>,
    owner: SteamworksNetworkingSocketsHandleOwner,
    k: int,
)
    requires
        0 <= k < owners.len(),
    ensures
        owned_before(owners, owner, k + 1) == owned_before(owners, owner, k) + if owners[k]
            == owner {
            1nat
        } else {
            0nat
        },
{
    reveal(Seq::filter);
    assert(owners.take(k + 1).drop_last() =~= owners.take(k));
}

/// The count of messages owned by `owner` never shrinks along the batch.
proof fn lemma_owned_monotone(
    owners: Seq<SteamworksNetworkingSocketsHandleOwner>,
    owner: SteamworksNetworkingSocketsHandleOwner,
    a: int,
    b: int,
)
    requires
        0 <= a <= b <= owners.len(),
    ensures
        owned_before(owners, owner, a) <= owned_before(owners, owner, b),
    decreases b - a,
{
    if a < b {
        lemma_owned_step(owners, owner, b - 1);
        lemma_owned_monotone(owners, owner, a, b - 1);
    }
}

/// A message owned by `owner` at index `i` is counted in the whole batch
/// after the ones before it.
proof fn lemma_owned_count_grows(
    owners: Seq<SteamworksNetworkingSocketsHandleOwner>,
    owner: SteamworksNetworkingSocketsHandleOwner,
    i: int,
)
    requires
        0 <= i < owners.len(),
        owners[i] == owner,
    ensures
        owned_before(owners, owner, owners.len() as int) >= owned_before(owners, owner, i) + 1,
{
    lemma_owned_step(owners, owner, i);
    lemma_owned_monotone(owners, owner, i + 1, owners.len() as int);
}

} // verus!

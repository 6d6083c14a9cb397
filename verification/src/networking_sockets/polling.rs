//! How many events one poll takes from Steam, and when it stops.

use super::error::SteamworksNetworkingSocketsError;
use super::handles::{
    handle_answered, keys_ascending, lemma_ascending_index_unique, table_get, table_has, table_keys,
    SteamworksConnectionEntry, SteamworksHandleStorageView, SteamworksNetworkingSocketsHandleOwner,
    SteamworksNetworkingSocketsHandleStorage,
};
use super::operation::SteamworksNetworkingSocketsOperation;
use super::identifiers::{SteamworksListenSocketId, SteamworksNetworkingSocketsConnectionId};
use super::listen_events::{
    lemma_listen_event_recorded_weakens, listen_event_recorded, record_listen_socket_event,
    SteamworksListenSocketReport,
};
use super::types::{
    SteamworksConnectionRequestPolicy, SteamworksListenSocketEventInfo,
    SteamworksNetworkingSocketsConnectionEventInfo, SteamworksNetworkingSocketsListenSocketEvents,
};
use crate::networking_types::{
    connection_state_is_terminal, is_terminal_connection_state, SteamworksNetConnectionEnd,
    SteamworksNetworkingConnectionState, SteamworksNetworkingIdentity, SteamworksSteamError,
};
use vstd::prelude::*;

verus! {

/// Takes up to `max_events` state changes of `connection` from `next`, which
/// gives the next pending `(old_state, new_state)` or `None` when Steam has
/// none, and stops after the first change into a terminal state.
pub fn collect_connection_events<
    F: Fn() -> Option<(SteamworksNetworkingConnectionState, SteamworksNetworkingConnectionState)>,
>(connection: SteamworksNetworkingSocketsConnectionId, max_events: usize, next: F) -> (events: Vec<
    SteamworksNetworkingSocketsConnectionEventInfo,
>)
    requires
        call_requires(next, ()),
    ensures
        events@.len() <= max_events,
        forall|i: int|
            0 <= i < events@.len() ==> {
                &&& (#[trigger] events@[i]).connection == connection
                &&& call_ensures(
                    next,
                    (),
                    Some::<(SteamworksNetworkingConnectionState, SteamworksNetworkingConnectionState)>(
                        (events@[i].old_state, events@[i].new_state),
                    ),
                )
            },
        forall|i: int| 0 <= i < events@.len() - 1 ==> !connection_state_is_terminal(#[trigger] events@[i].new_state),
        events@.len() < max_events && (events@.len() == 0 || !connection_state_is_terminal(
            events@[events@.len() - 1].new_state,
        )) ==> call_ensures(
            next,
            (),
            None::<(SteamworksNetworkingConnectionState, SteamworksNetworkingConnectionState)>,
        ),
{
    let mut events: Vec<SteamworksNetworkingSocketsConnectionEventInfo> = Vec::new();
    let mut taken: usize = 0;
    while taken < max_events
        invariant
            taken == events@.len(),
            taken <= max_events,
            call_requires(next, ()),
            forall|i: int|
                0 <= i < events@.len() ==> {
                    &&& (#[trigger] events@[i]).connection == connection
                    &&& call_ensures(
                        next,
                        (),
                        Some::<(SteamworksNetworkingConnectionState, SteamworksNetworkingConnectionState)>(
                            (events@[i].old_state, events@[i].new_state),
                        ),
                    )
                },
            forall|i: int| 0 <= i < events@.len() ==> !connection_state_is_terminal(#[trigger] events@[i].new_state),
        decreases max_events - taken,
    {
        let pending = next();
        match pending {
            None => {
                return events;
            },
            Some((old_state, new_state)) => {
                let ghost prev = events@;
                events.push(SteamworksNetworkingSocketsConnectionEventInfo { connection, new_state, old_state });
                taken += 1;
                proof {
                    assert forall|i: int| 0 <= i < events@.len() - 1 implies events@[i] == prev[i] by {}
                }
                if is_terminal_connection_state(new_state) {
                    return events;
                }
            },
        }
    }
    events
}

/// One event that Steam reports on a listen socket, with the pending
/// connection request `Q` or the new connection handle `C` it carries.
pub enum SteamworksListenSocketIncoming<C, Q> {
    /// A peer asks to connect; the request must be accepted or rejected.
    Request {
        /// Remote identity reported by Steam.
        remote: SteamworksNetworkingIdentity,
        /// User data attached to the request.
        user_data: i64,
        /// The pending request.
        request: Q,
    },
    /// An accepted connection is established.
    Connected {
        /// Remote identity reported by Steam.
        remote: SteamworksNetworkingIdentity,
        /// User data attached to the connection.
        user_data: i64,
        /// Handle of the new connection.
        connection: C,
    },
    /// A connection accepted on the socket ended.
    Disconnected {
        /// Remote identity reported by Steam.
        remote: SteamworksNetworkingIdentity,
        /// User data attached to the connection.
        user_data: i64,
        /// Why the connection ended.
        end_reason: SteamworksNetConnectionEnd,
    },
}

/// The record that the library keeps of an event Steam reported: a request
/// as answered, a connection with its handle, or a disconnect.
pub open spec fn incoming_report<C, Q>(reply: SteamworksListenSocketIncoming<C, Q>) -> SteamworksListenSocketReport<C> {
    match reply {
        SteamworksListenSocketIncoming::Request { remote, user_data, .. } => {
            SteamworksListenSocketReport::RequestAnswered { remote, user_data }
        },
        SteamworksListenSocketIncoming::Connected { remote, user_data, connection } => {
            SteamworksListenSocketReport::Connected { remote, user_data, connection }
        },
        SteamworksListenSocketIncoming::Disconnected { remote, user_data, end_reason } => {
            SteamworksListenSocketReport::Disconnected { remote, user_data, end_reason }
        },
    }
}

/// What `ends` answered for the handle stored under `key` in `table`, asked
/// whether it ended with `reason`.
pub open spec fn handle_ended_with<C, E: Fn(&C, SteamworksNetConnectionEnd) -> bool>(
    ends: E,
    table: Seq<SteamworksConnectionEntry<C>>,
    key: u64,
    reason: SteamworksNetConnectionEnd,
    answer: bool,
) -> bool {
    match table_get(table, key) {
        Some(e) => call_ensures(ends, (&e.handle, reason), answer),
        None => false,
    }
}

/// For a disconnect reply, what `ends` answered about each stored handle
/// and the reply's end reason.
pub open spec fn reply_answered<C, Q, E: Fn(&C, SteamworksNetConnectionEnd) -> bool>(
    ends: E,
    table: Seq<SteamworksConnectionEntry<C>>,
    reply: SteamworksListenSocketIncoming<C, Q>,
) -> spec_fn(u64, bool) -> bool {
    |k: u64, b: bool|
        match reply {
            SteamworksListenSocketIncoming::Disconnected { end_reason, .. } => handle_ended_with(
                ends,
                table,
                k,
                end_reason,
                b,
            ),
            _ => false,
        }
}

/// A request reply was answered as `policy` says and Steam took the answer:
/// `accept` succeeded, or `reject` was given the policy's reason and debug
/// text and returned `true`. Other replies need no answer.
pub open spec fn request_answered<
    C,
    Q,
    A: Fn(Q) -> Result<(), SteamworksSteamError>,
    J: Fn(Q, SteamworksNetConnectionEnd, &Option<String>) -> bool,
>(accept: A, reject: J, policy: SteamworksConnectionRequestPolicy, reply: SteamworksListenSocketIncoming<C, Q>) -> bool {
    match reply {
        SteamworksListenSocketIncoming::Request { request, .. } => match policy {
            SteamworksConnectionRequestPolicy::Accept => call_ensures(
                accept,
                (request,),
                Ok::<(), SteamworksSteamError>(()),
            ),
            SteamworksConnectionRequestPolicy::Reject { reason, debug } => call_ensures(
                reject,
                (request, reason, &debug),
                true,
            ),
        },
        _ => true,
    }
}

/// A request reply whose answer Steam did not take, and the error the poll
/// reports for it.
pub open spec fn request_refused<
    C,
    Q,
    A: Fn(Q) -> Result<(), SteamworksSteamError>,
    J: Fn(Q, SteamworksNetConnectionEnd, &Option<String>) -> bool,
>(
    accept: A,
    reject: J,
    policy: SteamworksConnectionRequestPolicy,
    reply: SteamworksListenSocketIncoming<C, Q>,
    error: SteamworksNetworkingSocketsError,
) -> bool {
    match reply {
        SteamworksListenSocketIncoming::Request { request, .. } => match policy {
            SteamworksConnectionRequestPolicy::Accept => exists|source: SteamworksSteamError|
                call_ensures(accept, (request,), Err::<(), SteamworksSteamError>(source)) && error
                    == SteamworksNetworkingSocketsError::SteamError {
                    operation: "listen_socket_event.connection_request.accept",
                    source,
                },
            SteamworksConnectionRequestPolicy::Reject { reason, debug } => call_ensures(
                reject,
                (request, reason, &debug),
                false,
            ) && error == SteamworksNetworkingSocketsError::OperationFailed {
                operation: "listen_socket_event.connection_request.reject",
            },
        },
        _ => false,
    }
}

/// The handle of the stored listen socket `listen_socket`.
pub open spec fn listen_handle<L, C, P>(h: SteamworksHandleStorageView<L, C, P>, listen_socket: SteamworksListenSocketId) -> L {
    table_get(h.listen_sockets, listen_socket@)->Some_0.handle
}

/// The owner of the stored listen socket `listen_socket`.
pub open spec fn listen_owner<L, C, P>(
    h: SteamworksHandleStorageView<L, C, P>,
    listen_socket: SteamworksListenSocketId,
) -> SteamworksNetworkingSocketsHandleOwner {
    table_get(h.listen_sockets, listen_socket@)->Some_0.owner
}

/// `events` were taken from `listen_socket` in order, starting from the
/// storage `before`: the i-th came from Steam's i-th reply `replies[i]` to
/// `receive` on the socket's handle, a request among them was answered as
/// `policy` says, and recording it took the storage from `states[i]` to
/// `states[i + 1]` (`listen_event_recorded`).
pub open spec fn listen_events_taken<
    L,
    C,
    P,
    Q,
    R: Fn(&L) -> Option<SteamworksListenSocketIncoming<C, Q>>,
    A: Fn(Q) -> Result<(), SteamworksSteamError>,
    J: Fn(Q, SteamworksNetConnectionEnd, &Option<String>) -> bool,
    E: Fn(&C, SteamworksNetConnectionEnd) -> bool,
>(
    receive: R,
    accept: A,
    reject: J,
    ends: E,
    before: SteamworksHandleStorageView<L, C, P>,
    listen_socket: SteamworksListenSocketId,
    policy: SteamworksConnectionRequestPolicy,
    replies: Seq<SteamworksListenSocketIncoming<C, Q>>,
    states: Seq<SteamworksHandleStorageView<L, C, P>>,
    events: Seq<SteamworksListenSocketEventInfo>,
) -> bool {
    &&& replies.len() == events.len()
    &&& states.len() == events.len() + 1
    &&& states[0] == before
    &&& forall|i: int|
        0 <= i < events.len() ==> {
            &&& call_ensures(
                receive,
                (&listen_handle(before, listen_socket),),
                Some::<SteamworksListenSocketIncoming<C, Q>>(#[trigger] replies[i]),
            )
            &&& request_answered(accept, reject, policy, replies[i])
            &&& listen_event_recorded(
                states[i],
                states[i + 1],
                listen_socket,
                listen_owner(before, listen_socket),
                policy,
                incoming_report(replies[i]),
                events[i],
                reply_answered(ends, states[i].connections, replies[i]),
            )
        }
}

/// A poll of `listen_socket` from `before` to `after` that returned
/// `events`: they were taken in order as `listen_events_taken` says, at
/// most `max_events` of them, and fewer only when Steam had no further
/// event.
pub open spec fn listen_socket_polled<
    L,
    C,
    P,
    Q,
    R: Fn(&L) -> Option<SteamworksListenSocketIncoming<C, Q>>,
    A: Fn(Q) -> Result<(), SteamworksSteamError>,
    J: Fn(Q, SteamworksNetConnectionEnd, &Option<String>) -> bool,
    E: Fn(&C, SteamworksNetConnectionEnd) -> bool,
>(
    receive: R,
    accept: A,
    reject: J,
    ends: E,
    before: SteamworksHandleStorageView<L, C, P>,
    after: SteamworksHandleStorageView<L, C, P>,
    listen_socket: SteamworksListenSocketId,
    max_events: usize,
    policy: SteamworksConnectionRequestPolicy,
    events: Seq<SteamworksListenSocketEventInfo>,
) -> bool {
    &&& events.len() <= max_events
    &&& exists|replies: Seq<SteamworksListenSocketIncoming<C, Q>>, states: Seq<SteamworksHandleStorageView<L, C, P>>|
        listen_events_taken(receive, accept, reject, ends, before, listen_socket, policy, replies, states, events)
            && after == states.last()
    &&& events.len() < max_events ==> call_ensures(
        receive,
        (&listen_handle(before, listen_socket),),
        None::<SteamworksListenSocketIncoming<C, Q>>,
    )
}

/// A poll of `listen_socket` from `before` that stopped with `error` at
/// `after`: some events were taken and recorded as `listen_events_taken`
/// says, then Steam's next reply was a request whose answer it did not
/// take (`request_refused`).
pub open spec fn listen_socket_poll_failed<
    L,
    C,
    P,
    Q,
    R: Fn(&L) -> Option<SteamworksListenSocketIncoming<C, Q>>,
    A: Fn(Q) -> Result<(), SteamworksSteamError>,
    J: Fn(Q, SteamworksNetConnectionEnd, &Option<String>) -> bool,
    E: Fn(&C, SteamworksNetConnectionEnd) -> bool,
>(
    receive: R,
    accept: A,
    reject: J,
    ends: E,
    before: SteamworksHandleStorageView<L, C, P>,
    after: SteamworksHandleStorageView<L, C, P>,
    listen_socket: SteamworksListenSocketId,
    max_events: usize,
    policy: SteamworksConnectionRequestPolicy,
    error: SteamworksNetworkingSocketsError,
) -> bool {
    exists|
        replies: Seq<SteamworksListenSocketIncoming<C, Q>>,
        states: Seq<SteamworksHandleStorageView<L, C, P>>,
        events: Seq<SteamworksListenSocketEventInfo>,
        reply: SteamworksListenSocketIncoming<C, Q>,
    |
        listen_events_taken(receive, accept, reject, ends, before, listen_socket, policy, replies, states, events)
            && after == states.last() && events.len() < max_events && call_ensures(
            receive,
            (&listen_handle(before, listen_socket),),
            Some::<SteamworksListenSocketIncoming<C, Q>>(reply),
        ) && request_refused(accept, reject, policy, reply, error)
}

/// Polls up to `max_events` events of `listen_socket` through `receive`,
/// which gives the next pending event of the socket's handle or `None`.
/// A connection request is answered as `policy` says, through `accept` or
/// `reject`; every event is then recorded in the handle storage as
/// `record_listen_socket_event` does, where `ends` tells whether a stored
/// handle ended with the reported reason. Stops when Steam has no more
/// events, and fails when the socket is not stored, an accept fails, or a
/// reject is refused.
pub fn poll_listen_socket_events<
    L,
    C,
    P,
    Q,
    R: Fn(&L) -> Option<SteamworksListenSocketIncoming<C, Q>>,
    A: Fn(Q) -> Result<(), SteamworksSteamError>,
    J: Fn(Q, SteamworksNetConnectionEnd, &Option<String>) -> bool,
    E: Fn(&C, SteamworksNetConnectionEnd) -> bool,
>(
    handles: &mut SteamworksNetworkingSocketsHandleStorage<L, C, P>,
    listen_socket: SteamworksListenSocketId,
    max_events: usize,
    policy: &SteamworksConnectionRequestPolicy,
    receive: &R,
    accept: &A,
    reject: &J,
    ends: &E,
) -> (result: Result<Vec<SteamworksListenSocketEventInfo>, SteamworksNetworkingSocketsError>)
    requires
        forall|l: &L| call_requires(*receive, (l,)),
        forall|q: Q| call_requires(*accept, (q,)),
        forall|q: Q, r: SteamworksNetConnectionEnd, d: &Option<String>| call_requires(*reject, (q, r, d)),
        forall|c: &C, r: SteamworksNetConnectionEnd| call_requires(*ends, (c, r)),
    ensures
        final(handles)@.listen_sockets == old(handles)@.listen_sockets,
        final(handles)@.poll_groups == old(handles)@.poll_groups,
        max_events == 0 ==> (result matches Ok(events) && events@.len() == 0) && final(handles)@ == old(handles)@,
        max_events > 0 && !table_has(old(handles)@.listen_sockets, listen_socket@) ==> result
            == Err::<Vec<SteamworksListenSocketEventInfo>, SteamworksNetworkingSocketsError>(
            SteamworksNetworkingSocketsError::ListenSocketNotFound { id: listen_socket },
        ) && final(handles)@ == old(handles)@,
        match result {
            Ok(events) => listen_socket_polled(
                *receive,
                *accept,
                *reject,
                *ends,
                old(handles)@,
                final(handles)@,
                listen_socket,
                max_events,
                *policy,
                events@,
            ),
            Err(error) => {
                ||| (!table_has(old(handles)@.listen_sockets, listen_socket@) && error
                    == SteamworksNetworkingSocketsError::ListenSocketNotFound { id: listen_socket })
                ||| (table_has(old(handles)@.listen_sockets, listen_socket@) && listen_socket_poll_failed(
                    *receive,
                    *accept,
                    *reject,
                    *ends,
                    old(handles)@,
                    final(handles)@,
                    listen_socket,
                    max_events,
                    *policy,
                    error,
                ))
            },
        },
{
    let mut events: Vec<SteamworksListenSocketEventInfo> = Vec::new();
    let ghost before = handles@;
    let ghost mut replies: Seq<SteamworksListenSocketIncoming<C, Q>> = Seq::empty();
    let ghost mut states: Seq<SteamworksHandleStorageView<L, C, P>> = seq![handles@];
    let mut taken: usize = 0;
    while taken < max_events
        invariant
            taken == events@.len(),
            taken <= max_events,
            before == old(handles)@,
            handles@.listen_sockets == before.listen_sockets,
            handles@.poll_groups == before.poll_groups,
            taken > 0 ==> table_has(before.listen_sockets, listen_socket@),
            listen_events_taken(
                *receive,
                *accept,
                *reject,
                *ends,
                before,
                listen_socket,
                *policy,
                replies,
                states,
                events@,
            ),
            handles@ == states.last(),
            forall|l: &L| call_requires(*receive, (l,)),
            forall|q: Q| call_requires(*accept, (q,)),
            forall|q: Q, r: SteamworksNetConnectionEnd, d: &Option<String>| call_requires(*reject, (q, r, d)),
            forall|c: &C, r: SteamworksNetConnectionEnd| call_requires(*ends, (c, r)),
        decreases max_events - taken,
    {
        let (incoming, owner) = match handles.listen_socket(listen_socket) {
            Some(entry) => (receive(&entry.handle), entry.owner),
            None => {
                return Err(SteamworksNetworkingSocketsError::ListenSocketNotFound { id: listen_socket });
            },
        };
        let ghost pre = handles@;
        let ghost g_incoming = incoming;
        proof {
            assert(owner == listen_owner(before, listen_socket));
            assert(call_ensures(*receive, (&listen_handle(before, listen_socket),), g_incoming));
        }
        let (report, reason) = match incoming {
            None => {
                proof {
                    assert(listen_events_taken(
                        *receive,
                        *accept,
                        *reject,
                        *ends,
                        before,
                        listen_socket,
                        *policy,
                        replies,
                        states,
                        events@,
                    ) && handles@ == states.last());
                }
                return Ok(events);
            },
            Some(SteamworksListenSocketIncoming::Request { remote, user_data, request }) => {
                let ghost reply = g_incoming->Some_0;
                proof {
                    assert(reply == SteamworksListenSocketIncoming::<C, Q>::Request { remote, user_data, request });
                }
                match policy {
                    SteamworksConnectionRequestPolicy::Accept => {
                        let answer = accept(request);
                        match answer {
                            Ok(unit) => {
                                assert(answer is Ok);
                                assert(unit == ());
                                assert(answer == Ok::<(), SteamworksSteamError>(()));
                                assert(request_answered(*accept, *reject, *policy, reply));
                            },
                            Err(source) => {
                                let error = SteamworksNetworkingSocketsError::SteamError {
                                    operation: "listen_socket_event.connection_request.accept",
                                    source,
                                };
                                proof {
                                    assert(request_refused(*accept, *reject, *policy, reply, error));
                                    assert(listen_socket_poll_failed(
                                        *receive,
                                        *accept,
                                        *reject,
                                        *ends,
                                        before,
                                        handles@,
                                        listen_socket,
                                        max_events,
                                        *policy,
                                        error,
                                    ));
                                }
                                return Err(error);
                            },
                        }
                    },
                    SteamworksConnectionRequestPolicy::Reject { reason, debug } => {
                        let taken_answer = reject(request, *reason, debug);
                        if !taken_answer {
                            let error = SteamworksNetworkingSocketsError::OperationFailed {
                                operation: "listen_socket_event.connection_request.reject",
                            };
                            proof {
                                assert(request_refused(*accept, *reject, *policy, reply, error));
                                assert(listen_socket_poll_failed(
                                    *receive,
                                    *accept,
                                    *reject,
                                    *ends,
                                    before,
                                    handles@,
                                    listen_socket,
                                    max_events,
                                    *policy,
                                    error,
                                ));
                            }
                            return Err(error);
                        }
                        assert(request_answered(*accept, *reject, *policy, reply));
                    },
                }
                (SteamworksListenSocketReport::RequestAnswered { remote, user_data }, None)
            },
            Some(SteamworksListenSocketIncoming::Connected { remote, user_data, connection }) => {
                (SteamworksListenSocketReport::Connected { remote, user_data, connection }, None)
            },
            Some(SteamworksListenSocketIncoming::Disconnected { remote, user_data, end_reason }) => {
                (SteamworksListenSocketReport::Disconnected { remote, user_data, end_reason }, Some(end_reason))
            },
        };
        let ghost reply = g_incoming->Some_0;
        proof {
            assert(report == incoming_report(reply));
            assert(request_answered(*accept, *reject, *policy, reply));
        }
        let reported = match reason {
            Some(r) => r,
            None => SteamworksNetConnectionEnd::app_generic_normal(),
        };
        proof {
            assert(report is Disconnected ==> (reply matches SteamworksListenSocketIncoming::Disconnected {
                end_reason,
                ..
            } && end_reason == reported));
        }
        let ends_ref = ends;
        let ends_as_reported = |c: &C| -> (ended: bool)
            requires
                forall|c2: &C, r: SteamworksNetConnectionEnd| call_requires(*ends_ref, (c2, r)),
            ensures
                call_ensures(*ends_ref, (c, reported), ended),
        { ends_ref(c, reported) };
        let info = record_listen_socket_event(handles, listen_socket, owner, policy, report, ends_as_reported);
        proof {
            let answered = |k: u64, b: bool| handle_answered(ends_as_reported, pre.connections, k, b);
            let implied = reply_answered(*ends, pre.connections, reply);
            if report is Disconnected {
                assert forall|k: u64, b: bool| #[trigger] answered(k, b) implies implied(k, b) by {
                    let e = table_get(pre.connections, k)->Some_0;
                    assert(call_ensures(ends_as_reported, (&e.handle,), b));
                }
            }
            lemma_listen_event_recorded_weakens(
                pre,
                handles@,
                listen_socket,
                owner,
                *policy,
                report,
                info,
                answered,
                implied,
            );
        }
        let ghost prev_events = events@;
        let ghost prev_replies = replies;
        let ghost prev_states = states;
        events.push(info);
        proof {
            replies = replies.push(reply);
            states = states.push(handles@);
            assert forall|i: int| 0 <= i < events@.len() implies {
                &&& call_ensures(
                    *receive,
                    (&listen_handle(before, listen_socket),),
                    Some::<SteamworksListenSocketIncoming<C, Q>>(#[trigger] replies[i]),
                )
                &&& request_answered(*accept, *reject, *policy, replies[i])
                &&& listen_event_recorded(
                    states[i],
                    states[i + 1],
                    listen_socket,
                    listen_owner(before, listen_socket),
                    *policy,
                    incoming_report(replies[i]),
                    events@[i],
                    reply_answered(*ends, states[i].connections, replies[i]),
                )
            } by {
                if i < prev_events.len() {
                    assert(replies[i] == prev_replies[i]);
                    assert(states[i] == prev_states[i]);
                    assert(states[i + 1] == prev_states[i + 1]);
                    assert(events@[i] == prev_events[i]);
                } else {
                    assert(states[i] == pre);
                }
            }
        }
        taken += 1;
    }
    Ok(events)
}

/// Whether some poll of `listen_socket` took the storage from `before` to
/// `after` (see `listen_socket_polled`).
pub open spec fn listen_socket_polled_somehow<
    L,
    C,
    P,
    Q,
    R: Fn(&L) -> Option<SteamworksListenSocketIncoming<C, Q>>,
    A: Fn(Q) -> Result<(), SteamworksSteamError>,
    J: Fn(Q, SteamworksNetConnectionEnd, &Option<String>) -> bool,
    E: Fn(&C, SteamworksNetConnectionEnd) -> bool,
>(
    receive: R,
    accept: A,
    reject: J,
    ends: E,
    before: SteamworksHandleStorageView<L, C, P>,
    after: SteamworksHandleStorageView<L, C, P>,
    listen_socket: SteamworksListenSocketId,
    max_events: usize,
    policy: SteamworksConnectionRequestPolicy,
) -> bool {
    exists|events: Seq<SteamworksListenSocketEventInfo>|
        listen_socket_polled(receive, accept, reject, ends, before, after, listen_socket, max_events, policy, events)
}

/// Polls every stored listen socket in ID order with
/// `poll_listen_socket_events`, stopping at the first that fails.
pub fn poll_all_listen_socket_events<
    L,
    C,
    P,
    Q,
    R: Fn(&L) -> Option<SteamworksListenSocketIncoming<C, Q>>,
    A: Fn(Q) -> Result<(), SteamworksSteamError>,
    J: Fn(Q, SteamworksNetConnectionEnd, &Option<String>) -> bool,
    E: Fn(&C, SteamworksNetConnectionEnd) -> bool,
>(
    handles: &mut SteamworksNetworkingSocketsHandleStorage<L, C, P>,
    max_events_per_socket: usize,
    policy: &SteamworksConnectionRequestPolicy,
    receive: &R,
    accept: &A,
    reject: &J,
    ends: &E,
) -> (result: Result<SteamworksNetworkingSocketsOperation, SteamworksNetworkingSocketsError>)
    requires
        forall|l: &L| call_requires(*receive, (l,)),
        forall|q: Q| call_requires(*accept, (q,)),
        forall|q: Q, r: SteamworksNetConnectionEnd, d: &Option<String>| call_requires(*reject, (q, r, d)),
        forall|c: &C, r: SteamworksNetConnectionEnd| call_requires(*ends, (c, r)),
    ensures
        final(handles)@.listen_sockets == old(handles)@.listen_sockets,
        final(handles)@.poll_groups == old(handles)@.poll_groups,
        old(handles)@.listen_sockets.len() == 0 ==> result is Ok && final(handles)@ == old(handles)@,
        match result {
            Ok(operation) => operation matches SteamworksNetworkingSocketsOperation::AllListenSocketEventsPolled {
                listen_sockets,
            } && listen_sockets@.len() == old(handles)@.listen_sockets.len() && exists|
                states: Seq<SteamworksHandleStorageView<L, C, P>>,
            |
                {
                    &&& states.len() == listen_sockets@.len() + 1
                    &&& states[0] == old(handles)@
                    &&& final(handles)@ == states.last()
                    &&& forall|i: int|
                        0 <= i < listen_sockets@.len() ==> {
                            &&& (#[trigger] listen_sockets@[i]).listen_socket == old(handles)@.listen_sockets[i].id
                            &&& listen_socket_polled(
                                *receive,
                                *accept,
                                *reject,
                                *ends,
                                states[i],
                                states[i + 1],
                                listen_sockets@[i].listen_socket,
                                max_events_per_socket,
                                *policy,
                                listen_sockets@[i].events@,
                            )
                        }
                },
            Err(error) => exists|k: int, states: Seq<SteamworksHandleStorageView<L, C, P>>|
                {
                    &&& 0 <= k < old(handles)@.listen_sockets.len()
                    &&& states.len() == k + 1
                    &&& states[0] == old(handles)@
                    &&& forall|i: int|
                        0 <= i < k ==> listen_socket_polled_somehow(
                            *receive,
                            *accept,
                            *reject,
                            *ends,
                            #[trigger] states[i],
                            states[i + 1],
                            old(handles)@.listen_sockets[i].id,
                            max_events_per_socket,
                            *policy,
                        )
                    &&& listen_socket_poll_failed(
                        *receive,
                        *accept,
                        *reject,
                        *ends,
                        states[k],
                        final(handles)@,
                        old(handles)@.listen_sockets[k].id,
                        max_events_per_socket,
                        *policy,
                        error,
                    )
                },
        },
{
    let ids = handles.listen_socket_ids();
    let ghost sockets = handles@.listen_sockets;
    let ghost mut states: Seq<SteamworksHandleStorageView<L, C, P>> = seq![handles@];
    let mut batches: Vec<SteamworksNetworkingSocketsListenSocketEvents> = Vec::new();
    let mut i: usize = 0;
    while i < ids.len()
        invariant
            ids@ == table_keys(sockets),
            keys_ascending(sockets),
            sockets == old(handles)@.listen_sockets,
            handles@.listen_sockets == sockets,
            handles@.poll_groups == old(handles)@.poll_groups,
            0 <= i <= ids@.len(),
            batches@.len() == i,
            states.len() == i + 1,
            states[0] == old(handles)@,
            handles@ == states.last(),
            forall|j: int|
                0 <= j < i ==> {
                    &&& (#[trigger] batches@[j]).listen_socket == sockets[j].id
                    &&& listen_socket_polled(
                        *receive,
                        *accept,
                        *reject,
                        *ends,
                        states[j],
                        states[j + 1],
                        batches@[j].listen_socket,
                        max_events_per_socket,
                        *policy,
                        batches@[j].events@,
                    )
                },
            forall|l: &L| call_requires(*receive, (l,)),
            forall|q: Q| call_requires(*accept, (q,)),
            forall|q: Q, r: SteamworksNetConnectionEnd, d: &Option<String>| call_requires(*reject, (q, r, d)),
            forall|c: &C, r: SteamworksNetConnectionEnd| call_requires(*ends, (c, r)),
        decreases ids@.len() - i,
    {
        let listen_socket = SteamworksListenSocketId::from_raw(ids[i]);
        proof {
            lemma_ascending_index_unique(sockets, ids@[i as int], i as int);
            SteamworksListenSocketId::lemma_raw_identifies(listen_socket, sockets[i as int].id);
        }
        let ghost pre = handles@;
        let events = match poll_listen_socket_events(
            handles,
            listen_socket,
            max_events_per_socket,
            policy,
            receive,
            accept,
            reject,
            ends,
        ) {
            Ok(events) => events,
            Err(error) => {
                proof {
                    assert forall|j: int| 0 <= j < i implies listen_socket_polled_somehow(
                        *receive,
                        *accept,
                        *reject,
                        *ends,
                        #[trigger] states[j],
                        states[j + 1],
                        old(handles)@.listen_sockets[j].id,
                        max_events_per_socket,
                        *policy,
                    ) by {
                        assert(batches@[j].listen_socket == sockets[j].id);
                    }
                }
                return Err(error);
            },
        };
        let ghost prev = batches@;
        let ghost prev_states = states;
        batches.push(SteamworksNetworkingSocketsListenSocketEvents { listen_socket, events });
        proof {
            states = states.push(handles@);
            assert forall|j: int| 0 <= j < i + 1 implies {
                &&& (#[trigger] batches@[j]).listen_socket == sockets[j].id
                &&& listen_socket_polled(
                    *receive,
                    *accept,
                    *reject,
                    *ends,
                    states[j],
                    states[j + 1],
                    batches@[j].listen_socket,
                    max_events_per_socket,
                    *policy,
                    batches@[j].events@,
                )
            } by {
                if j < i {
                    assert(batches@[j] == prev[j]);
                    assert(states[j] == prev_states[j]);
                    assert(states[j + 1] == prev_states[j + 1]);
                } else {
                    assert(states[j] == pre);
                }
            }
        }
        i += 1;
    }
    Ok(SteamworksNetworkingSocketsOperation::AllListenSocketEventsPolled { listen_sockets: batches })
}

} // verus!

//! Commands that act on every stored handle of a kind, in ID order.

use crate::cache::{lemma_filter_agree, lemma_filter_filter, lemma_filter_keeps_all};
use super::commands::{batch_reached_terminal, close_listen_socket, close_poll_group};
use super::handles::{
    accepted_on, keys_ascending, lemma_ascending_index_unique, lemma_filter_keeps_ascending,
    not_accepted_on, poll_group_cleared,
    table_get, table_has, table_keys, table_removed, with_poll_group, SteamworksConnectionEntry,
    SteamworksHandleEntry, SteamworksHandleStorageView, SteamworksListenSocketEntry,
    SteamworksNetworkingSocketsHandleStorage, SteamworksPollGroupEntry,
};
use super::identifiers::{
    SteamworksListenSocketId, SteamworksNetworkingSocketsConnectionId,
    SteamworksNetworkingSocketsPollGroupId,
};
use super::operation::SteamworksNetworkingSocketsOperation;
use super::error::SteamworksNetworkingSocketsError;
use super::snapshots::{
    SteamworksNetworkingSocketsConnectionClosed, SteamworksNetworkingSocketsConnectionMessages,
    SteamworksNetworkingSocketsListenSocketClosed, SteamworksNetworkingSocketsMessage,
    SteamworksNetworkingSocketsPollGroupMessage, SteamworksNetworkingSocketsPollGroupMessages,
};
use super::types::{
    SteamworksNetworkingSocketsConnectionEventInfo, SteamworksNetworkingSocketsConnectionEvents,
};
use crate::networking_types::{
    connection_state_is_terminal, is_terminal_connection_state, SteamworksInvalidHandle,
    SteamworksSteamError,
};
use vstd::prelude::*;

verus! {

/// In an ascending table, the entry at `i` is the first of the entries from
/// `i` on, and taking it out leaves the entries after it.
proof fn lemma_front_of_rest<E: SteamworksHandleEntry>(s: Seq<E>, i: int)
    requires
        keys_ascending(s),
        0 <= i < s.len(),
    ensures
        keys_ascending(s.skip(i)),
        table_has(s.skip(i), s[i].entry_key()),
        table_get(s.skip(i), s[i].entry_key()) == Some(s[i]),
        table_removed(s.skip(i), s[i].entry_key()) == s.skip(i + 1),
{
    let t = s.skip(i);
    assert forall|a: int, b: int| 0 <= a < b < t.len() implies t[a].entry_key() < t[b].entry_key() by {
        assert(t[a] == s[a + i]);
        assert(t[b] == s[b + i]);
    }
    assert(t[0] == s[i]);
    lemma_ascending_index_unique(t, s[i].entry_key(), 0);
    assert(t.remove(0) =~= s.skip(i + 1));
}

/// Closes every stored connection in ID order: each is taken out of the
/// storage and its handle handed to `close`, whose answer is reported.
pub fn close_all_connections<L, C, P, F: Fn(C) -> bool>(
    handles: &mut SteamworksNetworkingSocketsHandleStorage<L, C, P>,
    close: F,
) -> (operation: SteamworksNetworkingSocketsOperation)
    requires
        forall|c: C| call_requires(close, (c,)),
    ensures
        operation matches SteamworksNetworkingSocketsOperation::AllConnectionsClosed { connections }
            && connections@.len() == old(handles)@.connections.len() && forall|i: int|
            0 <= i < connections@.len() ==> {
                &&& (#[trigger] connections@[i]).connection == old(handles)@.connections[i].id
                &&& call_ensures(
                    close,
                    (old(handles)@.connections[i].handle,),
                    connections@[i].close_succeeded,
                )
            },
        final(handles)@ == (SteamworksHandleStorageView {
            connections: Seq::empty(),
            ..old(handles)@
        }),
{
    let ids = handles.connection_ids();
    let ghost h0 = handles@;
    let mut closed: Vec<SteamworksNetworkingSocketsConnectionClosed> = Vec::new();
    let mut i: usize = 0;
    proof {
        assert(h0.connections.skip(0) =~= h0.connections);
    }
    while i < ids.len()
        invariant
            ids@ == table_keys(h0.connections),
            keys_ascending(h0.connections),
            0 <= i <= ids@.len(),
            handles@ == (SteamworksHandleStorageView { connections: h0.connections.skip(i as int), ..h0 }),
            closed@.len() == i,
            forall|j: int| 0 <= j < i ==> {
                &&& (#[trigger] closed@[j]).connection == h0.connections[j].id
                &&& call_ensures(close, (h0.connections[j].handle,), closed@[j].close_succeeded)
            },
            forall|c: C| call_requires(close, (c,)),
        decreases ids@.len() - i,
    {
        let connection = SteamworksNetworkingSocketsConnectionId::from_raw(ids[i]);
        proof {
            lemma_front_of_rest(h0.connections, i as int);
            SteamworksNetworkingSocketsConnectionId::lemma_raw_identifies(
                connection,
                h0.connections[i as int].id,
            );
        }
        let removed = handles.remove_connection(connection);
        match removed {
            Some(entry) => {
                let close_succeeded = close(entry.handle);
                closed.push(SteamworksNetworkingSocketsConnectionClosed { connection, close_succeeded });
            },
            None => {},
        }
        i += 1;
    }
    proof {
        assert(h0.connections.skip(i as int) =~= Seq::<SteamworksConnectionEntry<C>>::empty());
    }
    SteamworksNetworkingSocketsOperation::AllConnectionsClosed { connections: closed }
}

/// Whether a connection entry was accepted on one of the listen sockets of
/// `sockets`.
pub open spec fn accepted_on_one_of<L, C>(sockets: Seq<SteamworksListenSocketEntry<L>>) -> spec_fn(
    SteamworksConnectionEntry<C>,
) -> bool {
    |e: SteamworksConnectionEntry<C>|
        match e.metadata.listen_socket {
            Some(listen_socket) => table_has(sockets, listen_socket@),
            None => false,
        }
}

/// Whether a connection entry was accepted on none of the listen sockets of
/// `sockets`.
pub open spec fn accepted_on_none_of<L, C>(sockets: Seq<SteamworksListenSocketEntry<L>>) -> spec_fn(
    SteamworksConnectionEntry<C>,
) -> bool {
    |e: SteamworksConnectionEntry<C>| !accepted_on_one_of(sockets)(e)
}

/// A table prefix one entry longer has the IDs of the shorter one and the
/// ID of the entry added.
proof fn lemma_prefix_step<E: SteamworksHandleEntry>(s: Seq<E>, i: int, key: u64)
    requires
        0 <= i < s.len(),
    ensures
        table_has(s.take(i + 1), key) <==> (table_has(s.take(i), key) || s[i].entry_key() == key),
{
    if table_has(s.take(i + 1), key) {
        let j = choose|j: int| 0 <= j < i + 1 && #[trigger] s.take(i + 1)[j].entry_key() == key;
        if j < i {
            assert(s.take(i)[j] == s[j]);
        } else {
            assert(s.take(i + 1)[j] == s[i]);
        }
    }
    if table_has(s.take(i), key) {
        let j = choose|j: int| 0 <= j < i && #[trigger] s.take(i)[j].entry_key() == key;
        assert(s.take(i + 1)[j] == s[j]);
    }
    if s[i].entry_key() == key {
        assert(s.take(i + 1)[i] == s[i]);
    }
}

/// In an ascending table, no entry before `i` has the ID of entry `i`.
proof fn lemma_prefix_lacks_next<E: SteamworksHandleEntry>(s: Seq<E>, i: int)
    requires
        keys_ascending(s),
        0 <= i < s.len(),
    ensures
        !table_has(s.take(i), s[i].entry_key()),
{
    if table_has(s.take(i), s[i].entry_key()) {
        let j = choose|j: int| 0 <= j < i && #[trigger] s.take(i)[j].entry_key() == s[i].entry_key();
        assert(s.take(i)[j] == s[j]);
    }
}

/// Closes every stored listen socket in ID order, with the connections each
/// accepted; reports each socket with the IDs of its connections.
pub fn close_all_listen_sockets<L, C, P>(handles: &mut SteamworksNetworkingSocketsHandleStorage<L, C, P>) -> (operation:
    SteamworksNetworkingSocketsOperation)
    ensures
        operation matches SteamworksNetworkingSocketsOperation::AllListenSocketsClosed { listen_sockets }
            && listen_sockets@.len() == old(handles)@.listen_sockets.len() && forall|i: int|
            0 <= i < listen_sockets@.len() ==> {
                &&& (#[trigger] listen_sockets@[i]).listen_socket == old(handles)@.listen_sockets[i].id
                &&& listen_sockets@[i].closed_connections@.map_values(
                    |c: SteamworksNetworkingSocketsConnectionId| c@,
                ) == table_keys(
                    old(handles)@.connections.filter(accepted_on(old(handles)@.listen_sockets[i].id)),
                )
            },
        final(handles)@ == (SteamworksHandleStorageView {
            listen_sockets: Seq::empty(),
            connections: old(handles)@.connections.filter(
                accepted_on_none_of(old(handles)@.listen_sockets),
            ),
            ..old(handles)@
        }),
{
    let ids = handles.listen_socket_ids();
    let ghost h0 = handles@;
    let mut closed: Vec<SteamworksNetworkingSocketsListenSocketClosed> = Vec::new();
    let mut i: usize = 0;
    proof {
        assert(h0.listen_sockets.skip(0) =~= h0.listen_sockets);
        let none0 = accepted_on_none_of::<L, C>(h0.listen_sockets.take(0));
        assert forall|e: SteamworksConnectionEntry<C>| #[trigger] none0(e) by {
            if let Some(ls) = e.metadata.listen_socket {
                assert(!table_has(h0.listen_sockets.take(0), ls@));
            }
        }
        lemma_filter_keeps_all(h0.connections, none0);
    }
    while i < ids.len()
        invariant
            ids@ == table_keys(h0.listen_sockets),
            keys_ascending(h0.listen_sockets),
            0 <= i <= ids@.len(),
            handles@ == (SteamworksHandleStorageView {
                listen_sockets: h0.listen_sockets.skip(i as int),
                connections: h0.connections.filter(accepted_on_none_of(h0.listen_sockets.take(i as int))),
                ..h0
            }),
            closed@.len() == i,
            forall|j: int| 0 <= j < i ==> {
                &&& (#[trigger] closed@[j]).listen_socket == h0.listen_sockets[j].id
                &&& closed@[j].closed_connections@.map_values(
                    |c: SteamworksNetworkingSocketsConnectionId| c@,
                ) == table_keys(h0.connections.filter(accepted_on(h0.listen_sockets[j].id)))
            },
        decreases ids@.len() - i,
    {
        let listen_socket = SteamworksListenSocketId::from_raw(ids[i]);
        let ghost before = handles@;
        let ghost k = i as int;
        let ghost none_k = accepted_on_none_of::<L, C>(h0.listen_sockets.take(k));
        let ghost none_next = accepted_on_none_of::<L, C>(h0.listen_sockets.take(k + 1));
        let ghost on_it = accepted_on::<C>(listen_socket);
        let ghost off_it = not_accepted_on::<C>(listen_socket);
        proof {
            lemma_front_of_rest(h0.listen_sockets, k);
            SteamworksListenSocketId::lemma_raw_identifies(listen_socket, h0.listen_sockets[k].id);
            lemma_prefix_lacks_next(h0.listen_sockets, k);
            assert forall|e: SteamworksConnectionEntry<C>| #[trigger] none_next(e) == (none_k(e)
                && off_it(e)) by {
                if let Some(ls) = e.metadata.listen_socket {
                    lemma_prefix_step(h0.listen_sockets, k, ls@);
                    SteamworksListenSocketId::lemma_raw_identifies(ls, listen_socket);
                }
            }
            assert forall|e: SteamworksConnectionEntry<C>| #[trigger] on_it(e) == (none_k(e) && on_it(e)) by {
                if on_it(e) {
                    assert(e.metadata.listen_socket == Some(listen_socket));
                }
            }
            lemma_filter_filter(h0.connections, none_k, off_it);
            lemma_filter_agree(h0.connections, |x: SteamworksConnectionEntry<C>| none_k(x) && off_it(x), none_next);
            lemma_filter_filter(h0.connections, none_k, on_it);
            lemma_filter_agree(h0.connections, |x: SteamworksConnectionEntry<C>| none_k(x) && on_it(x), on_it);
        }
        let result = close_listen_socket(handles, listen_socket);
        match result {
            Ok(SteamworksNetworkingSocketsOperation::ListenSocketClosed { listen_socket, closed_connections }) => {
                closed.push(SteamworksNetworkingSocketsListenSocketClosed { listen_socket, closed_connections });
            },
            _ => {},
        }
        i += 1;
    }
    proof {
        assert(h0.listen_sockets.skip(i as int) =~= Seq::<SteamworksListenSocketEntry<L>>::empty());
        assert(h0.listen_sockets.take(i as int) =~= h0.listen_sockets);
    }
    SteamworksNetworkingSocketsOperation::AllListenSocketsClosed { listen_sockets: closed }
}

/// A connection entry taken out of its poll group when that group is one of
/// `groups`.
pub open spec fn left_poll_groups<P, C>(groups: Seq<SteamworksPollGroupEntry<P>>, e: SteamworksConnectionEntry<C>) -> SteamworksConnectionEntry<C> {
    if e.metadata.poll_group is Some && table_has(groups, e.metadata.poll_group->0@) {
        with_poll_group(e, None)
    } else {
        e
    }
}

/// The connection table with every connection taken out of the poll groups
/// of `groups`.
pub open spec fn poll_groups_cleared<P, C>(
    s: Seq<SteamworksConnectionEntry<C>>,
    groups: Seq<SteamworksPollGroupEntry<P>>,
) -> Seq<SteamworksConnectionEntry<C>> {
    s.map_values(|e: SteamworksConnectionEntry<C>| left_poll_groups(groups, e))
}

/// Closes every stored poll group in ID order, taking every connection out
/// of it; reports the IDs of the groups.
pub fn close_all_poll_groups<L, C, P>(handles: &mut SteamworksNetworkingSocketsHandleStorage<L, C, P>) -> (operation:
    SteamworksNetworkingSocketsOperation)
    ensures
        operation matches SteamworksNetworkingSocketsOperation::AllPollGroupsClosed { poll_groups }
            && poll_groups@.len() == old(handles)@.poll_groups.len() && forall|i: int|
            0 <= i < poll_groups@.len() ==> #[trigger] poll_groups@[i] == old(handles)@.poll_groups[i].id,
        final(handles)@ == (SteamworksHandleStorageView {
            poll_groups: Seq::empty(),
            connections: poll_groups_cleared(old(handles)@.connections, old(handles)@.poll_groups),
            ..old(handles)@
        }),
{
    let ids = handles.poll_group_ids();
    let ghost h0 = handles@;
    let mut closed: Vec<SteamworksNetworkingSocketsPollGroupId> = Vec::new();
    let mut i: usize = 0;
    proof {
        assert(h0.poll_groups.skip(0) =~= h0.poll_groups);
        assert(poll_groups_cleared(h0.connections, h0.poll_groups.take(0)) =~= h0.connections);
    }
    while i < ids.len()
        invariant
            ids@ == table_keys(h0.poll_groups),
            keys_ascending(h0.poll_groups),
            0 <= i <= ids@.len(),
            handles@ == (SteamworksHandleStorageView {
                poll_groups: h0.poll_groups.skip(i as int),
                connections: poll_groups_cleared(h0.connections, h0.poll_groups.take(i as int)),
                ..h0
            }),
            closed@.len() == i,
            forall|j: int| 0 <= j < i ==> #[trigger] closed@[j] == h0.poll_groups[j].id,
        decreases ids@.len() - i,
    {
        let poll_group = SteamworksNetworkingSocketsPollGroupId::from_raw(ids[i]);
        let ghost k = i as int;
        proof {
            lemma_front_of_rest(h0.poll_groups, k);
            SteamworksNetworkingSocketsPollGroupId::lemma_raw_identifies(poll_group, h0.poll_groups[k].id);
            let before = poll_groups_cleared(h0.connections, h0.poll_groups.take(k));
            let after = poll_groups_cleared(h0.connections, h0.poll_groups.take(k + 1));
            assert forall|j: int| 0 <= j < h0.connections.len() implies #[trigger] poll_group_cleared(
                before,
                poll_group,
            )[j] == after[j] by {
                let e = h0.connections[j];
                if let Some(pg) = e.metadata.poll_group {
                    lemma_prefix_step(h0.poll_groups, k, pg@);
                    SteamworksNetworkingSocketsPollGroupId::lemma_raw_identifies(pg, poll_group);
                }
            }
            assert(poll_group_cleared(before, poll_group) =~= after);
        }
        let _ = close_poll_group(handles, poll_group);
        closed.push(poll_group);
        i += 1;
    }
    proof {
        assert(h0.poll_groups.skip(i as int) =~= Seq::<SteamworksPollGroupEntry<P>>::empty());
        assert(h0.poll_groups.take(i as int) =~= h0.poll_groups);
    }
    SteamworksNetworkingSocketsOperation::AllPollGroupsClosed { poll_groups: closed }
}

/// Flushes every stored connection in ID order through `flush`, stopping at
/// the first one whose flush fails.
pub fn flush_all_messages<L, C, P, F: Fn(&C) -> Result<(), SteamworksSteamError>>(
    handles: &SteamworksNetworkingSocketsHandleStorage<L, C, P>,
    flush: F,
) -> (result: Result<SteamworksNetworkingSocketsOperation, SteamworksNetworkingSocketsError>)
    requires
        forall|c: &C| call_requires(flush, (c,)),
    ensures
        match result {
            Ok(operation) => operation matches SteamworksNetworkingSocketsOperation::AllMessagesFlushed {
                connections,
            } && connections@.len() == handles@.connections.len() && forall|i: int|
                0 <= i < connections@.len() ==> {
                    &&& #[trigger] connections@[i] == handles@.connections[i].id
                    &&& call_ensures(
                        flush,
                        (&handles@.connections[i].handle,),
                        Ok::<(), SteamworksSteamError>(()),
                    )
                },
            Err(error) => exists|i: int, source: SteamworksSteamError|
                0 <= i < handles@.connections.len() && (forall|j: int|
                    0 <= j < i ==> call_ensures(
                        flush,
                        (&(#[trigger] handles@.connections[j]).handle,),
                        Ok::<(), SteamworksSteamError>(()),
                    )) && call_ensures(
                    flush,
                    (&handles@.connections[i].handle,),
                    Err::<(), SteamworksSteamError>(source),
                ) && error == (SteamworksNetworkingSocketsError::SteamError {
                    operation: "net_connection.flush_messages",
                    source,
                }),
        },
{
    let ids = handles.connection_ids();
    let ghost h = handles@;
    let mut flushed: Vec<SteamworksNetworkingSocketsConnectionId> = Vec::new();
    let mut i: usize = 0;
    while i < ids.len()
        invariant
            ids@ == table_keys(h.connections),
            keys_ascending(h.connections),
            h == handles@,
            0 <= i <= ids@.len(),
            flushed@.len() == i,
            forall|j: int| 0 <= j < i ==> {
                &&& #[trigger] flushed@[j] == h.connections[j].id
                &&& call_ensures(flush, (&h.connections[j].handle,), Ok::<(), SteamworksSteamError>(()))
            },
            forall|c: &C| call_requires(flush, (c,)),
        decreases ids@.len() - i,
    {
        let connection = SteamworksNetworkingSocketsConnectionId::from_raw(ids[i]);
        proof {
            lemma_ascending_index_unique(h.connections, ids@[i as int], i as int);
            SteamworksNetworkingSocketsConnectionId::lemma_raw_identifies(connection, h.connections[i as int].id);
        }
        match handles.connection(connection) {
            Some(entry) => {
                proof {
                    assert(*entry == h.connections[i as int]);
                }
                let flushed_now = flush(&entry.handle);
                match flushed_now {
                    Ok(()) => {
                        assert(flushed_now->Ok_0 == ());
                    },
                    Err(source) => {
                        proof {
                            assert forall|j: int| 0 <= j < i implies call_ensures(
                                flush,
                                (&(#[trigger] h.connections[j]).handle,),
                                Ok::<(), SteamworksSteamError>(()),
                            ) by {
                                assert(flushed@[j] == h.connections[j].id);
                            }
                        }
                        return Err(
                            SteamworksNetworkingSocketsError::SteamError {
                                operation: "net_connection.flush_messages",
                                source,
                            },
                        );
                    },
                }
            },
            None => {},
        }
        let ghost prev = flushed@;
        flushed.push(connection);
        proof {
            assert forall|j: int| 0 <= j < i + 1 implies {
                &&& #[trigger] flushed@[j] == h.connections[j].id
                &&& call_ensures(flush, (&h.connections[j].handle,), Ok::<(), SteamworksSteamError>(()))
            } by {
                if j < i {
                    assert(flushed@[j] == prev[j]);
                }
            }
        }
        i += 1;
    }
    Ok(SteamworksNetworkingSocketsOperation::AllMessagesFlushed { connections: flushed })
}

/// Whether `receive` returned messages for every entry of `entries` before
/// index `i`, and reported the handle at `i` unknown.
pub open spec fn receive_fails_at<
    C,
    F: Fn(SteamworksNetworkingSocketsConnectionId, &C) -> Result<
        Vec<SteamworksNetworkingSocketsMessage>,
        SteamworksInvalidHandle,
    >,
>(receive: F, entries: Seq<SteamworksConnectionEntry<C>>, i: int) -> bool {
    &&& 0 <= i < entries.len()
    &&& forall|j: int|
        0 <= j < i ==> exists|messages: Vec<SteamworksNetworkingSocketsMessage>|
            call_ensures(
                receive,
                ((#[trigger] entries[j]).id, &entries[j].handle),
                Ok::<Vec<SteamworksNetworkingSocketsMessage>, SteamworksInvalidHandle>(messages),
            )
    &&& call_ensures(
        receive,
        (entries[i].id, &entries[i].handle),
        Err::<Vec<SteamworksNetworkingSocketsMessage>, SteamworksInvalidHandle>(
            SteamworksInvalidHandle,
        ),
    )
}

/// Receives from every stored connection in ID order through `receive`,
/// stopping at the first connection whose handle Steam no longer knows.
pub fn receive_all_messages<
    L,
    C,
    P,
    F: Fn(SteamworksNetworkingSocketsConnectionId, &C) -> Result<
        Vec<SteamworksNetworkingSocketsMessage>,
        SteamworksInvalidHandle,
    >,
>(handles: &SteamworksNetworkingSocketsHandleStorage<L, C, P>, receive: F) -> (result: Result<
    SteamworksNetworkingSocketsOperation,
    SteamworksNetworkingSocketsError,
>)
    requires
        forall|id: SteamworksNetworkingSocketsConnectionId, c: &C| call_requires(receive, (id, c)),
    ensures
        match result {
            Ok(operation) => operation matches SteamworksNetworkingSocketsOperation::AllMessagesReceived {
                connections,
            } && connections@.len() == handles@.connections.len() && forall|i: int|
                0 <= i < connections@.len() ==> {
                    &&& (#[trigger] connections@[i]).connection == handles@.connections[i].id
                    &&& call_ensures(
                        receive,
                        (handles@.connections[i].id, &handles@.connections[i].handle),
                        Ok::<Vec<SteamworksNetworkingSocketsMessage>, SteamworksInvalidHandle>(
                            connections@[i].messages,
                        ),
                    )
                },
            Err(error) => error == (SteamworksNetworkingSocketsError::InvalidHandle {
                operation: "net_connection.receive_messages",
            }) && exists|i: int| receive_fails_at(receive, handles@.connections, i),
        },
{
    let ids = handles.connection_ids();
    let ghost h = handles@;
    let mut batches: Vec<SteamworksNetworkingSocketsConnectionMessages> = Vec::new();
    let mut i: usize = 0;
    while i < ids.len()
        invariant
            ids@ == table_keys(h.connections),
            keys_ascending(h.connections),
            h == handles@,
            0 <= i <= ids@.len(),
            batches@.len() == i,
            forall|j: int| 0 <= j < i ==> {
                &&& (#[trigger] batches@[j]).connection == h.connections[j].id
                &&& call_ensures(
                    receive,
                    (h.connections[j].id, &h.connections[j].handle),
                    Ok::<Vec<SteamworksNetworkingSocketsMessage>, SteamworksInvalidHandle>(
                        batches@[j].messages,
                    ),
                )
            },
            forall|id: SteamworksNetworkingSocketsConnectionId, c: &C| call_requires(receive, (id, c)),
        decreases ids@.len() - i,
    {
        let connection = SteamworksNetworkingSocketsConnectionId::from_raw(ids[i]);
        proof {
            lemma_ascending_index_unique(h.connections, ids@[i as int], i as int);
            SteamworksNetworkingSocketsConnectionId::lemma_raw_identifies(connection, h.connections[i as int].id);
        }
        if let Some(entry) = handles.connection(connection) {
            proof {
                assert(*entry == h.connections[i as int]);
            }
            let received = receive(connection, &entry.handle);
            match received {
                Ok(messages) => {
                    let ghost prev = batches@;
                    batches.push(SteamworksNetworkingSocketsConnectionMessages { connection, messages });
                    proof {
                        assert forall|j: int| 0 <= j < i + 1 implies {
                            &&& (#[trigger] batches@[j]).connection == h.connections[j].id
                            &&& call_ensures(
                                receive,
                                (h.connections[j].id, &h.connections[j].handle),
                                Ok::<Vec<SteamworksNetworkingSocketsMessage>, SteamworksInvalidHandle>(
                                    batches@[j].messages,
                                ),
                            )
                        } by {
                            if j < i {
                                assert(batches@[j] == prev[j]);
                            }
                        }
                    }
                },
                Err(e) => {
                    assert(e == SteamworksInvalidHandle);
                    proof {
                        assert forall|j: int| 0 <= j < i implies exists|
                            messages: Vec<SteamworksNetworkingSocketsMessage>,
                        |
                            call_ensures(
                                receive,
                                (
                                    (#[trigger] handles@.connections[j]).id,
                                    &handles@.connections[j].handle,
                                ),
                                Ok::<Vec<SteamworksNetworkingSocketsMessage>, SteamworksInvalidHandle>(
                                    messages,
                                ),
                            ) by {
                            assert(batches@[j].connection == h.connections[j].id);
                        }
                        assert(receive_fails_at(receive, h.connections, i as int));
                    }
                    return Err(
                        SteamworksNetworkingSocketsError::InvalidHandle {
                            operation: "net_connection.receive_messages",
                        },
                    );
                },
            }
        }
        i += 1;
    }
    Ok(SteamworksNetworkingSocketsOperation::AllMessagesReceived { connections: batches })
}

/// Receives from every stored poll group in ID order through `receive`.
pub fn receive_all_poll_group_messages<
    L,
    C,
    P,
    F: Fn(SteamworksNetworkingSocketsPollGroupId, &P) -> Vec<SteamworksNetworkingSocketsPollGroupMessage>,
>(handles: &SteamworksNetworkingSocketsHandleStorage<L, C, P>, receive: F) -> (operation:
    SteamworksNetworkingSocketsOperation)
    requires
        forall|id: SteamworksNetworkingSocketsPollGroupId, p: &P| call_requires(receive, (id, p)),
    ensures
        operation matches SteamworksNetworkingSocketsOperation::AllPollGroupMessagesReceived {
            poll_groups,
        } && poll_groups@.len() == handles@.poll_groups.len() && forall|i: int|
            0 <= i < poll_groups@.len() ==> {
                &&& (#[trigger] poll_groups@[i]).poll_group == handles@.poll_groups[i].id
                &&& call_ensures(
                    receive,
                    (handles@.poll_groups[i].id, &handles@.poll_groups[i].handle),
                    poll_groups@[i].messages,
                )
            },
{
    let ids = handles.poll_group_ids();
    let ghost h = handles@;
    let mut batches: Vec<SteamworksNetworkingSocketsPollGroupMessages> = Vec::new();
    let mut i: usize = 0;
    while i < ids.len()
        invariant
            ids@ == table_keys(h.poll_groups),
            keys_ascending(h.poll_groups),
            h == handles@,
            0 <= i <= ids@.len(),
            batches@.len() == i,
            forall|j: int| 0 <= j < i ==> {
                &&& (#[trigger] batches@[j]).poll_group == h.poll_groups[j].id
                &&& call_ensures(
                    receive,
                    (h.poll_groups[j].id, &h.poll_groups[j].handle),
                    batches@[j].messages,
                )
            },
            forall|id: SteamworksNetworkingSocketsPollGroupId, p: &P| call_requires(receive, (id, p)),
        decreases ids@.len() - i,
    {
        let poll_group = SteamworksNetworkingSocketsPollGroupId::from_raw(ids[i]);
        proof {
            lemma_ascending_index_unique(h.poll_groups, ids@[i as int], i as int);
            SteamworksNetworkingSocketsPollGroupId::lemma_raw_identifies(poll_group, h.poll_groups[i as int].id);
        }
        if let Some(entry) = handles.poll_group(poll_group) {
            proof {
                assert(*entry == h.poll_groups[i as int]);
            }
            let messages = receive(poll_group, &entry.handle);
            let ghost prev = batches@;
            batches.push(SteamworksNetworkingSocketsPollGroupMessages { poll_group, messages });
            proof {
                assert forall|j: int| 0 <= j < i + 1 implies {
                    &&& (#[trigger] batches@[j]).poll_group == h.poll_groups[j].id
                    &&& call_ensures(
                        receive,
                        (h.poll_groups[j].id, &h.poll_groups[j].handle),
                        batches@[j].messages,
                    )
                } by {
                    if j < i {
                        assert(batches@[j] == prev[j]);
                    }
                }
            }
        }
        i += 1;
    }
    SteamworksNetworkingSocketsOperation::AllPollGroupMessagesReceived { poll_groups: batches }
}

/// Whether a poll in `batches` ended the connection of entry `e`.
pub open spec fn ended_by_poll<C>(
    batches: Seq<SteamworksNetworkingSocketsConnectionEvents>,
    e: SteamworksConnectionEntry<C>,
) -> bool {
    exists|j: int|
        0 <= j < batches.len() && (#[trigger] batches[j]).connection == e.id
            && batches[j].connection_removed
}

/// Whether a poll in `batches` left the connection of an entry open.
pub open spec fn left_open_by_polls<C>(batches: Seq<SteamworksNetworkingSocketsConnectionEvents>) -> spec_fn(
    SteamworksConnectionEntry<C>,
) -> bool {
    |e: SteamworksConnectionEntry<C>| !ended_by_poll(batches, e)
}

/// Whether some event of a batch ends the connection.
fn events_reach_terminal(events: &Vec<SteamworksNetworkingSocketsConnectionEventInfo>) -> (terminal: bool)
    ensures
        terminal == batch_reached_terminal(events@),
{
    let mut terminal = false;
    let mut i: usize = 0;
    while i < events.len()
        invariant
            0 <= i <= events@.len(),
            terminal == exists|j: int|
                0 <= j < i && connection_state_is_terminal(#[trigger] events@[j].new_state),
        decreases events@.len() - i,
    {
        if is_terminal_connection_state(events[i].new_state) {
            terminal = true;
        }
        i += 1;
    }
    terminal
}

/// Whether a table entry has an ID other than `key`.
pub open spec fn other_than<E: SteamworksHandleEntry>(key: u64) -> spec_fn(E) -> bool {
    |e: E| e.entry_key() != key
}

/// In an ascending table, taking out the entry with ID `key` keeps exactly
/// the entries with other IDs.
proof fn lemma_removed_is_filter<E: SteamworksHandleEntry>(s: Seq<E>, t: int, key: u64)
    requires
        keys_ascending(s),
        0 <= t < s.len(),
        s[t].entry_key() == key,
    ensures
        s.remove(t) == s.filter(other_than::<E>(key)),
    decreases s.len(),
{
    reveal(Seq::filter);
    let other = other_than::<E>(key);
    let rest = s.drop_last();
    if t == s.len() - 1 {
        assert forall|e: E| rest.contains(e) implies #[trigger] other(e) by {
            let j = choose|j: int| 0 <= j < rest.len() && rest[j] == e;
            assert(s[j] == e);
        }
        assert forall|j: int| 0 <= j < rest.len() implies other(#[trigger] rest[j]) by {
            assert(s[j] == rest[j]);
        }
        lemma_filter_keeps_every(rest, other);
        assert(s.remove(t) =~= rest);
    } else {
        assert(keys_ascending(rest));
        assert(rest[t] == s[t]);
        lemma_removed_is_filter(rest, t, key);
        assert(s.last() == s[s.len() - 1]);
        assert(other(s.last()));
        assert(s.remove(t) =~= rest.remove(t).push(s.last()));
    }
}

/// A filter that keeps every entry of a sequence keeps the sequence.
proof fn lemma_filter_keeps_every<A>(s: Seq<A>, p: spec_fn(A) -> bool)
    requires
        forall|j: int| 0 <= j < s.len() ==> p(#[trigger] s[j]),
    ensures
        s.filter(p) == s,
    decreases s.len(),
{
    reveal(Seq::filter);
    if s.len() == 0 {
        assert(s.filter(p) =~= s);
    } else {
        let rest = s.drop_last();
        assert forall|j: int| 0 <= j < rest.len() implies p(#[trigger] rest[j]) by {
            assert(rest[j] == s[j]);
        }
        lemma_filter_keeps_every(rest, p);
        assert(p(s[s.len() - 1]));
        assert(rest.push(s.last()) =~= s);
    }
}

/// Polls every stored connection in ID order through `poll`, then removes
/// each connection whose batch reached a state that ends it.
pub fn poll_all_connection_events<
    L,
    C,
    P,
    F: Fn(SteamworksNetworkingSocketsConnectionId, &C) -> Vec<SteamworksNetworkingSocketsConnectionEventInfo>,
>(handles: &mut SteamworksNetworkingSocketsHandleStorage<L, C, P>, poll: F) -> (operation:
    SteamworksNetworkingSocketsOperation)
    requires
        forall|id: SteamworksNetworkingSocketsConnectionId, c: &C| call_requires(poll, (id, c)),
    ensures
        operation matches SteamworksNetworkingSocketsOperation::AllConnectionEventsPolled { connections }
            && connections@.len() == old(handles)@.connections.len() && (forall|i: int|
            0 <= i < connections@.len() ==> {
                &&& (#[trigger] connections@[i]).connection == old(handles)@.connections[i].id
                &&& call_ensures(
                    poll,
                    (old(handles)@.connections[i].id, &old(handles)@.connections[i].handle),
                    connections@[i].events,
                )
                &&& connections@[i].connection_removed == batch_reached_terminal(connections@[i].events@)
            }) && final(handles)@ == (SteamworksHandleStorageView {
                connections: old(handles)@.connections.filter(left_open_by_polls(connections@)),
                ..old(handles)@
            }),
{
    let ids = handles.connection_ids();
    let ghost h0 = handles@;
    let mut batches: Vec<SteamworksNetworkingSocketsConnectionEvents> = Vec::new();
    let mut i: usize = 0;
    while i < ids.len()
        invariant
            ids@ == table_keys(h0.connections),
            keys_ascending(h0.connections),
            h0 == handles@,
            0 <= i <= ids@.len(),
            batches@.len() == i,
            forall|j: int| 0 <= j < i ==> {
                &&& (#[trigger] batches@[j]).connection == h0.connections[j].id
                &&& call_ensures(
                    poll,
                    (h0.connections[j].id, &h0.connections[j].handle),
                    batches@[j].events,
                )
                &&& batches@[j].connection_removed == batch_reached_terminal(batches@[j].events@)
            },
            forall|id: SteamworksNetworkingSocketsConnectionId, c: &C| call_requires(poll, (id, c)),
        decreases ids@.len() - i,
    {
        let connection = SteamworksNetworkingSocketsConnectionId::from_raw(ids[i]);
        proof {
            lemma_ascending_index_unique(h0.connections, ids@[i as int], i as int);
            SteamworksNetworkingSocketsConnectionId::lemma_raw_identifies(connection, h0.connections[i as int].id);
        }
        if let Some(entry) = handles.connection(connection) {
            proof {
                assert(*entry == h0.connections[i as int]);
            }
            let events = poll(connection, &entry.handle);
            let connection_removed = events_reach_terminal(&events);
            let ghost prev = batches@;
            batches.push(SteamworksNetworkingSocketsConnectionEvents { connection, events, connection_removed });
            proof {
                assert forall|j: int| 0 <= j < i + 1 implies {
                    &&& (#[trigger] batches@[j]).connection == h0.connections[j].id
                    &&& call_ensures(
                        poll,
                        (h0.connections[j].id, &h0.connections[j].handle),
                        batches@[j].events,
                    )
                    &&& batches@[j].connection_removed == batch_reached_terminal(batches@[j].events@)
                } by {
                    if j < i {
                        assert(batches@[j] == prev[j]);
                    }
                }
            }
        }
        i += 1;
    }
    let ghost all = batches@;
    let mut k: usize = 0;
    proof {
        let open0 = left_open_by_polls::<C>(all.take(0));
        assert forall|e: SteamworksConnectionEntry<C>| #[trigger] open0(e) by {
            if ended_by_poll(all.take(0), e) {
                let j = choose|j: int|
                    0 <= j < all.take(0).len() && (#[trigger] all.take(0)[j]).connection == e.id
                        && all.take(0)[j].connection_removed;
            }
        }
        lemma_filter_keeps_all(h0.connections, open0);
    }
    while k < batches.len()
        invariant
            all == batches@,
            all.len() == h0.connections.len(),
            keys_ascending(h0.connections),
            0 <= k <= all.len(),
            forall|j: int| 0 <= j < all.len() ==> (#[trigger] all[j]).connection == h0.connections[j].id,
            handles@ == (SteamworksHandleStorageView {
                connections: h0.connections.filter(left_open_by_polls(all.take(k as int))),
                ..h0
            }),
        decreases all.len() - k,
    {
        let ghost kk = k as int;
        let ghost open_k = left_open_by_polls::<C>(all.take(kk));
        let ghost open_next = left_open_by_polls::<C>(all.take(kk + 1));
        let ghost current = handles@.connections;
        let ghost key = h0.connections[kk].entry_key();
        proof {
            assert forall|e: SteamworksConnectionEntry<C>| #[trigger] open_next(e) == (open_k(e) && (
            !all[kk].connection_removed || e.entry_key() != key)) by {
                SteamworksNetworkingSocketsConnectionId::lemma_raw_identifies(e.id, all[kk].connection);
                if ended_by_poll(all.take(kk + 1), e) {
                    let j = choose|j: int|
                        0 <= j < all.take(kk + 1).len() && (#[trigger] all.take(kk + 1)[j]).connection == e.id
                            && all.take(kk + 1)[j].connection_removed;
                    if j < kk {
                        assert(all.take(kk)[j] == all.take(kk + 1)[j]);
                    } else {
                        assert(all.take(kk + 1)[j] == all[kk]);
                    }
                }
                if ended_by_poll(all.take(kk), e) {
                    let j = choose|j: int|
                        0 <= j < all.take(kk).len() && (#[trigger] all.take(kk)[j]).connection == e.id
                            && all.take(kk)[j].connection_removed;
                    assert(all.take(kk + 1)[j] == all.take(kk)[j]);
                }
                if all[kk].connection_removed && e.entry_key() == key {
                    assert(all.take(kk + 1)[kk] == all[kk]);
                }
            }
        }
        if batches[k].connection_removed {
            let connection = batches[k].connection;
            proof {
                // the entry polled at k is still stored, at some index of the filtered table
                let t0 = h0.connections[kk];
                assert(open_k(t0)) by {
                    if ended_by_poll(all.take(kk), t0) {
                        let j = choose|j: int|
                            0 <= j < all.take(kk).len() && (#[trigger] all.take(kk)[j]).connection == t0.id
                                && all.take(kk)[j].connection_removed;
                        assert(all.take(kk)[j] == all[j]);
                        SteamworksNetworkingSocketsConnectionId::lemma_raw_identifies(
                            h0.connections[j].id,
                            t0.id,
                        );
                        assert(h0.connections[j].entry_key() < t0.entry_key());
                    }
                }
                lemma_filter_keeps_ascending(h0.connections, open_k);
                assert(current.contains(t0)) by {
                    crate::cache::lemma_filter_contains(h0.connections, open_k, kk);
                }
                let t = choose|t: int| 0 <= t < current.len() && current[t] == t0;
                lemma_ascending_index_unique(current, key, t);
                lemma_removed_is_filter(current, t, key);
                let other = other_than::<SteamworksConnectionEntry<C>>(key);
                lemma_filter_filter(h0.connections, open_k, other);
                lemma_filter_agree(
                    h0.connections,
                    |e: SteamworksConnectionEntry<C>| open_k(e) && other(e),
                    open_next,
                );
                SteamworksNetworkingSocketsConnectionId::lemma_raw_identifies(connection, t0.id);
            }
            handles.remove_connection(connection);
        } else {
            proof {
                lemma_filter_agree(h0.connections, open_k, open_next);
            }
        }
        k += 1;
    }
    proof {
        assert(all.take(k as int) =~= all);
    }
    SteamworksNetworkingSocketsOperation::AllConnectionEventsPolled { connections: batches }
}

} // verus!

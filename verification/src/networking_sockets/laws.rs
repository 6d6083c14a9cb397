//! Properties of the Networking Sockets state and handle storage that hold
//! across operations.

use crate::cache::{
    first_for_key, has_key, is_first_for_key, key_differs, keys_unique, lemma_upserted_evicts_oldest,
    lemma_upserted_keeps_other_keys, lemma_upserted_keys_unique, lemma_upserted_length,
    lemma_without_key_keeps_other_keys, trimmed, upserted, without_key, SteamworksKeyedSnapshot,
};
use super::handles::{
    keys_ascending, keys_issued_before, not_accepted_on, table_get,
    table_has, table_index, table_inserted, table_removed, SteamworksConnectionEntry,
    SteamworksHandleEntry,
};
use super::identifiers::{
    SteamworksListenSocketId, SteamworksNetworkingSocketsConnectionId,
    SteamworksNetworkingSocketsPollGroupId,
};
use super::operation::SteamworksNetworkingSocketsOperation;
use super::snapshots::{
    SteamworksNetworkingSocketsConnectionInfo, SteamworksNetworkingSocketsPollGroupMessage,
    SteamworksNetworkingSocketsRealtimeStatus, SteamworksNetworkingSocketsMessage,
};
use super::state::{
    cache_limit, cached_connection_info, cached_realtime_status, connection_event_batches_applied,
    connections_state_removed, flattened_messages, flattened_poll_group_messages,
    listen_event_batches_applied, listen_sockets_events_removed, next_state,
    poll_groups_messages_removed, saturating_count, state_caches_bounded, successful_sends,
    SteamworksNetworkingSocketsStateView,
};
use super::snapshots::SteamworksNetworkingSocketsMessageSendResult;
use crate::cache::snapshot_views;
use super::types::{
    SteamworksConnectionEventsView, SteamworksListenSocketEventInfo, SteamworksListenSocketEventsView,
    SteamworksNetworkingSocketsListenSocketEvents,
};
use vstd::prelude::*;

verus! {

broadcast use vstd::seq_lib::group_filter_ensures;

/// An upserted value is the one entry of its key in a cache with unique keys.
proof fn lemma_upserted_holds_value<T: SteamworksKeyedSnapshot>(s: Seq<T::V>, value: T::V, limit: nat)
    requires
        keys_unique::<T>(s),
        s.len() <= limit,
        limit > 0,
    ensures
        first_for_key::<T>(upserted::<T>(s, value, limit), T::key_of(value)) == Some(value),
{
    let key = T::key_of(value);
    let u = upserted::<T>(s, value, limit);
    if has_key::<T>(s, key) {
        let i = choose|i: int| 0 <= i < s.len() && T::key_of(s[i]) == key;
        assert(u[i] == value);
        assert forall|j: int| 0 <= j < i implies T::key_of(#[trigger] u[j]) != key by {
            assert(T::key_of(s[j]) != T::key_of(s[i]));
        }
        assert(is_first_for_key::<T>(u, key, i));
        lemma_first_at::<T>(u, key, i);
    } else {
        let p = s.push(value);
        let last = u.len() - 1;
        assert(u[last] == value);
        assert forall|j: int| 0 <= j < last implies T::key_of(#[trigger] u[j]) != key by {
            if p.len() > limit {
                assert(u[j] == p[j + p.len() - limit]);
            } else {
                assert(u[j] == p[j]);
            }
        }
        lemma_first_at::<T>(u, key, last);
    }
}

/// The oldest entry of a key is found at its oldest index.
proof fn lemma_first_at<T: SteamworksKeyedSnapshot>(s: Seq<T::V>, key: u64, i: int)
    requires
        is_first_for_key::<T>(s, key, i),
    ensures
        first_for_key::<T>(s, key) == Some(s[i]),
{
    assert(has_key::<T>(s, key));
    let c = choose|c: int| is_first_for_key::<T>(s, key, c);
    if c < i {
        assert(T::key_of(s[c]) != key);
    } else if c > i {
        assert(T::key_of(s[i]) != key);
    }
}

/// A cache without a key holds no entry of that key.
proof fn lemma_without_key_forgets<T: SteamworksKeyedSnapshot>(s: Seq<T::V>, key: u64)
    ensures
        first_for_key::<T>(without_key::<T>(s, key), key) is None,
{
    let w = without_key::<T>(s, key);
    assert forall|i: int| 0 <= i < w.len() implies T::key_of(#[trigger] w[i]) != key by {
        s.lemma_filter_pred(key_differs::<T>(key), i);
    }
}

/// Reading a connection's info caches it: a later lookup for that
/// connection gives the info just read.
pub proof fn lemma_connection_info_read_is_cached(
    s: SteamworksNetworkingSocketsStateView,
    info: SteamworksNetworkingSocketsConnectionInfo,
)
    requires
        state_caches_bounded(s),
    ensures
        cached_connection_info(
            next_state(s, SteamworksNetworkingSocketsOperation::ConnectionInfoRead { info }),
            info.connection@,
        ) == Some(info),
        next_state(s, SteamworksNetworkingSocketsOperation::ConnectionInfoRead { info }).last_connection_info
            == Some(info),
{
    lemma_upserted_holds_value::<SteamworksNetworkingSocketsConnectionInfo>(
        s.connection_infos,
        info,
        cache_limit(),
    );
}

/// Reading a connection's realtime status caches it: a later lookup for
/// that connection gives the status just read.
pub proof fn lemma_realtime_status_read_is_cached(
    s: SteamworksNetworkingSocketsStateView,
    status: SteamworksNetworkingSocketsRealtimeStatus,
)
    requires
        state_caches_bounded(s),
    ensures
        cached_realtime_status(
            next_state(s, SteamworksNetworkingSocketsOperation::RealtimeConnectionStatusRead { status }),
            status.connection@,
        ) == Some(status@),
{
    lemma_upserted_holds_value::<SteamworksNetworkingSocketsRealtimeStatus>(
        s.realtime_statuses,
        status@,
        cache_limit(),
    );
}

/// Closing a connection forgets its cached info and realtime status.
pub proof fn lemma_connection_close_forgets_state(
    s: SteamworksNetworkingSocketsStateView,
    connection: SteamworksNetworkingSocketsConnectionId,
    close_succeeded: bool,
)
    ensures
        ({
            let after = next_state(
                s,
                SteamworksNetworkingSocketsOperation::ConnectionClosed { connection, close_succeeded },
            );
            &&& cached_connection_info(after, connection@) is None
            &&& cached_realtime_status(after, connection@) is None
        }),
{
    lemma_without_key_forgets::<SteamworksNetworkingSocketsConnectionInfo>(
        s.connection_infos,
        connection@,
    );
    lemma_without_key_forgets::<SteamworksNetworkingSocketsRealtimeStatus>(
        s.realtime_statuses,
        connection@,
    );
}

/// Closing a listen socket forgets its cached event batch.
pub proof fn lemma_listen_socket_close_forgets_events(
    s: SteamworksNetworkingSocketsStateView,
    listen_socket: SteamworksListenSocketId,
    closed_connections: Vec<SteamworksNetworkingSocketsConnectionId>,
)
    ensures
        first_for_key::<SteamworksNetworkingSocketsListenSocketEvents>(
            next_state(
                s,
                SteamworksNetworkingSocketsOperation::ListenSocketClosed {
                    listen_socket,
                    closed_connections,
                },
            ).listen_socket_events,
            listen_socket@,
        ) is None,
{
    lemma_without_key_forgets::<SteamworksNetworkingSocketsListenSocketEvents>(
        s.listen_socket_events,
        listen_socket@,
    );
}

/// Closing a poll group forgets every retained message it received.
pub proof fn lemma_poll_group_close_forgets_messages(
    s: SteamworksNetworkingSocketsStateView,
    poll_group: SteamworksNetworkingSocketsPollGroupId,
)
    ensures
        !has_key::<SteamworksNetworkingSocketsPollGroupMessage>(
            next_state(s, SteamworksNetworkingSocketsOperation::PollGroupClosed { poll_group })
                .recent_poll_group_messages,
            poll_group@,
        ),
{
    let w = without_key::<SteamworksNetworkingSocketsPollGroupMessage>(
        s.recent_poll_group_messages,
        poll_group@,
    );
    assert forall|i: int| 0 <= i < w.len() implies
        SteamworksNetworkingSocketsPollGroupMessage::key_of(#[trigger] w[i]) != poll_group@ by {
        s.recent_poll_group_messages.lemma_filter_pred(
            key_differs::<SteamworksNetworkingSocketsPollGroupMessage>(poll_group@),
            i,
        );
    }
}

/// A received batch that fits in the cache ends the retained history, in
/// order; the retained history never exceeds the cache limit.
pub proof fn lemma_received_messages_are_newest(
    s: SteamworksNetworkingSocketsStateView,
    connection: SteamworksNetworkingSocketsConnectionId,
    messages: Vec<SteamworksNetworkingSocketsMessage>,
)
    ensures
        ({
            let after = next_state(
                s,
                SteamworksNetworkingSocketsOperation::MessagesReceived { connection, messages },
            );
            let m = crate::cache::snapshot_views(messages@);
            &&& after.recent_received_messages.len() <= cache_limit()
            &&& m.len() <= cache_limit() ==> after.recent_received_messages.subrange(
                after.recent_received_messages.len() - m.len(),
                after.recent_received_messages.len() as int,
            ) == m
            &&& after.last_received_messages == m
        }),
{
    let m = crate::cache::snapshot_views(messages@);
    let all = s.recent_received_messages + m;
    let t = trimmed(all, cache_limit());
    if m.len() <= cache_limit() {
        assert(t.subrange(t.len() - m.len(), t.len() as int) =~= m);
    }
}

/// A handle stored under an ID that is at least every stored ID is found
/// under that ID.
pub proof fn lemma_inserted_is_found<E: SteamworksHandleEntry>(s: Seq<E>, e: E)
    requires
        keys_ascending(s),
        forall|i: int| 0 <= i < s.len() ==> #[trigger] s[i].entry_key() <= e.entry_key(),
    ensures
        table_get(table_inserted(s, e), e.entry_key()) == Some(e),
{
    let t = table_inserted(s, e);
    let last = t.len() - 1;
    assert(t[last] == e);
    assert(table_has(t, e.entry_key()));
    let c = table_index(t, e.entry_key());
    if c != last {
        if s.len() > 0 && s.last().entry_key() == e.entry_key() {
            assert(t[c] == s[c]);
            assert(s[c].entry_key() < s[s.len() - 1].entry_key());
        } else {
            assert(t[c] == s[c]);
            if s.len() > 0 {
                assert(s[c].entry_key() <= s[s.len() - 1].entry_key());
            }
        }
    }
}

/// A removed handle is no longer found.
pub proof fn lemma_removed_is_gone<E: SteamworksHandleEntry>(s: Seq<E>, key: u64)
    requires
        keys_ascending(s),
    ensures
        !table_has(table_removed(s, key), key),
{
    if table_has(s, key) {
        let i = table_index(s, key);
        let r = s.remove(i);
        assert forall|a: int| 0 <= a < r.len() implies #[trigger] r[a].entry_key() != key by {
            let oa = if a < i { a } else { a + 1 };
            assert(r[a] == s[oa]);
        }
    }
}

/// While its counter has not saturated, a fresh ID is not in use.
pub proof fn lemma_fresh_id_unused<E: SteamworksHandleEntry>(s: Seq<E>, next: u64)
    requires
        keys_issued_before(s, next),
        next < u64::MAX,
    ensures
        !table_has(s, next),
{
}

/// Closing a listen socket leaves no stored connection that it accepted.
pub proof fn lemma_close_listen_socket_removes_children<C>(
    connections: Seq<SteamworksConnectionEntry<C>>,
    listen_socket: SteamworksListenSocketId,
)
    ensures
        forall|i: int|
            0 <= i < connections.filter(not_accepted_on(listen_socket)).len() ==> (#[trigger] connections.filter(
                not_accepted_on(listen_socket),
            )[i]).metadata.listen_socket != Some(listen_socket),
{
    assert forall|i: int|
        0 <= i < connections.filter(not_accepted_on(listen_socket)).len() implies (#[trigger] connections.filter(
            not_accepted_on(listen_socket),
        )[i]).metadata.listen_socket != Some(listen_socket) by {
        connections.lemma_filter_pred(not_accepted_on(listen_socket), i);
    }
}

/// How a keyed cache changes when `value` is recorded in it: an entry of a
/// cached key is replaced in place (the length stays), a new key is appended
/// (the length grows by one until the limit, and at the limit the oldest
/// entry is evicted), keys stay one entry each, and, unless an entry was
/// evicted, what is cached for every other key stays.
pub open spec fn keyed_cache_update<T: SteamworksKeyedSnapshot>(
    before: Seq<T::V>,
    after: Seq<T::V>,
    value: T::V,
    other: u64,
) -> bool {
    let key = T::key_of(value);
    &&& first_for_key::<T>(after, key) == Some(value)
    &&& keys_unique::<T>(after)
    &&& after.len() == if has_key::<T>(before, key) {
        before.len()
    } else if before.len() < cache_limit() {
        before.len() + 1
    } else {
        cache_limit()
    }
    &&& !has_key::<T>(before, key) && before.len() == cache_limit() ==> after == before.subrange(
        1,
        before.len() as int,
    ).push(value)
    &&& other != key && (has_key::<T>(before, key) || before.len() < cache_limit()) ==> first_for_key::<T>(
        after,
        other,
    ) == first_for_key::<T>(before, other)
}

proof fn lemma_keyed_cache_update<T: SteamworksKeyedSnapshot>(s: Seq<T::V>, value: T::V, other: u64)
    requires
        keys_unique::<T>(s),
        s.len() <= cache_limit(),
    ensures
        keyed_cache_update::<T>(s, upserted::<T>(s, value, cache_limit()), value, other),
{
    lemma_upserted_holds_value::<T>(s, value, cache_limit());
    lemma_upserted_keys_unique::<T>(s, value, cache_limit());
    lemma_upserted_length::<T>(s, value, cache_limit());
    if !has_key::<T>(s, T::key_of(value)) && s.len() == cache_limit() {
        lemma_upserted_evicts_oldest::<T>(s, value, cache_limit());
    }
    if other != T::key_of(value) && (has_key::<T>(s, T::key_of(value)) || s.len() < cache_limit()) {
        lemma_upserted_keeps_other_keys::<T>(s, value, cache_limit(), other);
    }
}

/// Reading a connection's info updates the info cache as a keyed cache:
/// the info read is the one cached for its connection, the cache keeps one
/// entry per connection, its length follows the keyed-update rule, the
/// oldest entry is evicted at the limit, and other connections' infos stay.
pub proof fn lemma_connection_info_cache_update(
    s: SteamworksNetworkingSocketsStateView,
    info: SteamworksNetworkingSocketsConnectionInfo,
    other: u64,
)
    requires
        state_caches_bounded(s),
    ensures
        keyed_cache_update::<SteamworksNetworkingSocketsConnectionInfo>(
            s.connection_infos,
            next_state(s, SteamworksNetworkingSocketsOperation::ConnectionInfoRead { info }).connection_infos,
            info,
            other,
        ),
{
    lemma_keyed_cache_update::<SteamworksNetworkingSocketsConnectionInfo>(s.connection_infos, info, other);
}

/// Reading a connection's realtime status updates the status cache as a
/// keyed cache (see `keyed_cache_update`).
pub proof fn lemma_realtime_status_cache_update(
    s: SteamworksNetworkingSocketsStateView,
    status: SteamworksNetworkingSocketsRealtimeStatus,
    other: u64,
)
    requires
        state_caches_bounded(s),
    ensures
        keyed_cache_update::<SteamworksNetworkingSocketsRealtimeStatus>(
            s.realtime_statuses,
            next_state(s, SteamworksNetworkingSocketsOperation::RealtimeConnectionStatusRead { status })
                .realtime_statuses,
            status@,
            other,
        ),
{
    lemma_keyed_cache_update::<SteamworksNetworkingSocketsRealtimeStatus>(s.realtime_statuses, status@, other);
}

/// Polling one listen socket updates the listen-event cache as a keyed
/// cache (see `keyed_cache_update`) with the batch just polled.
pub proof fn lemma_listen_events_cache_update(
    s: SteamworksNetworkingSocketsStateView,
    listen_socket: SteamworksListenSocketId,
    events: Vec<SteamworksListenSocketEventInfo>,
    other: u64,
)
    requires
        state_caches_bounded(s),
    ensures
        keyed_cache_update::<SteamworksNetworkingSocketsListenSocketEvents>(
            s.listen_socket_events,
            next_state(s, SteamworksNetworkingSocketsOperation::ListenSocketEventsPolled { listen_socket, events })
                .listen_socket_events,
            SteamworksListenSocketEventsView { listen_socket, events: snapshot_views(events@) },
            other,
        ),
{
    lemma_keyed_cache_update::<SteamworksNetworkingSocketsListenSocketEvents>(
        s.listen_socket_events,
        SteamworksListenSocketEventsView { listen_socket, events: snapshot_views(events@) },
        other,
    );
}

/// Closing a connection leaves the cached info and realtime status of every
/// other connection as they were.
pub proof fn lemma_connection_close_keeps_other_connections(
    s: SteamworksNetworkingSocketsStateView,
    connection: SteamworksNetworkingSocketsConnectionId,
    close_succeeded: bool,
    other: u64,
)
    requires
        state_caches_bounded(s),
        other != connection@,
    ensures
        ({
            let after = next_state(
                s,
                SteamworksNetworkingSocketsOperation::ConnectionClosed { connection, close_succeeded },
            );
            &&& cached_connection_info(after, other) == cached_connection_info(s, other)
            &&& cached_realtime_status(after, other) == cached_realtime_status(s, other)
        }),
{
    lemma_without_key_keeps_other_keys::<SteamworksNetworkingSocketsConnectionInfo>(
        s.connection_infos,
        connection@,
        other,
    );
    lemma_without_key_keeps_other_keys::<SteamworksNetworkingSocketsRealtimeStatus>(
        s.realtime_statuses,
        connection@,
        other,
    );
}

/// Holds of a send result that Steam accepted.
pub open spec fn send_succeeded() -> spec_fn(SteamworksNetworkingSocketsMessageSendResult) -> bool {
    |r: SteamworksNetworkingSocketsMessageSendResult| r.result is Ok
}

/// How many messages an operation reports as sent successfully.
pub open spec fn sent_by(op: SteamworksNetworkingSocketsOperation) -> nat {
    match op {
        SteamworksNetworkingSocketsOperation::MessageSent { .. } => 1,
        SteamworksNetworkingSocketsOperation::MessagesSent { messages } => messages@.filter(send_succeeded()).len(),
        _ => 0,
    }
}

/// How many messages an operation reports as received.
pub open spec fn received_by(op: SteamworksNetworkingSocketsOperation) -> nat {
    match op {
        SteamworksNetworkingSocketsOperation::MessagesReceived { messages, .. } => messages@.len(),
        SteamworksNetworkingSocketsOperation::AllMessagesReceived { connections } => flattened_messages(
            snapshot_views(connections@),
        ).len(),
        SteamworksNetworkingSocketsOperation::PollGroupMessagesReceived { messages, .. } => messages@.len(),
        SteamworksNetworkingSocketsOperation::AllPollGroupMessagesReceived { poll_groups } => flattened_poll_group_messages(
            snapshot_views(poll_groups@),
        ).len(),
        _ => 0,
    }
}

proof fn lemma_successful_sends_counts(messages: Seq<SteamworksNetworkingSocketsMessageSendResult>)
    ensures
        successful_sends(messages) == messages.filter(send_succeeded()).len(),
    decreases messages.len(),
{
    reveal(Seq::filter);
    if messages.len() > 0 {
        lemma_successful_sends_counts(messages.drop_last());
    }
}

/// Recording an operation adds the messages it sent successfully to the
/// sent count and the messages it received to the received count, both
/// saturating, and leaves the last recorded error as it was.
pub proof fn lemma_counters_follow_operations(
    s: SteamworksNetworkingSocketsStateView,
    op: SteamworksNetworkingSocketsOperation,
)
    ensures
        next_state(s, op).sent_count == saturating_count(s.sent_count, sent_by(op) as int),
        next_state(s, op).received_count == saturating_count(s.received_count, received_by(op) as int),
        next_state(s, op).last_error == s.last_error,
{
    if let SteamworksNetworkingSocketsOperation::MessagesSent { messages } = op {
        lemma_successful_sends_counts(messages@);
    }
    lemma_batches_keep_counters(s, op);
}

/// The counters and the last error of two states agree.
spec fn counters_agree(a: SteamworksNetworkingSocketsStateView, b: SteamworksNetworkingSocketsStateView) -> bool {
    &&& a.sent_count == b.sent_count
    &&& a.received_count == b.received_count
    &&& a.last_error == b.last_error
}

proof fn lemma_listen_batches_keep_counters(
    s: SteamworksNetworkingSocketsStateView,
    batches: Seq<SteamworksListenSocketEventsView>,
)
    ensures
        counters_agree(listen_event_batches_applied(s, batches), s),
    decreases batches.len(),
{
    if batches.len() > 0 {
        lemma_listen_batches_keep_counters(s, batches.drop_last());
    }
}

proof fn lemma_connection_batches_keep_counters(
    s: SteamworksNetworkingSocketsStateView,
    batches: Seq<SteamworksConnectionEventsView>,
)
    ensures
        counters_agree(connection_event_batches_applied(s, batches), s),
    decreases batches.len(),
{
    if batches.len() > 0 {
        lemma_connection_batches_keep_counters(s, batches.drop_last());
    }
}

proof fn lemma_removals_keep_counters(s: SteamworksNetworkingSocketsStateView, keys: Seq<u64>)
    ensures
        counters_agree(connections_state_removed(s, keys), s),
        counters_agree(listen_sockets_events_removed(s, keys), s),
        counters_agree(poll_groups_messages_removed(s, keys), s),
    decreases keys.len(),
{
    if keys.len() > 0 {
        lemma_removals_keep_counters(s, keys.drop_last());
    }
}

proof fn lemma_batches_keep_counters(s: SteamworksNetworkingSocketsStateView, op: SteamworksNetworkingSocketsOperation)
    ensures
        sent_by(op) == 0 && received_by(op) == 0 ==> counters_agree(next_state(s, op), s),
{
    match op {
        SteamworksNetworkingSocketsOperation::AllListenSocketEventsPolled { listen_sockets } => {
            lemma_listen_batches_keep_counters(s, snapshot_views(listen_sockets@));
        },
        SteamworksNetworkingSocketsOperation::MessagesSent { messages } => {
            lemma_successful_sends_counts(messages@);
        },
        SteamworksNetworkingSocketsOperation::ListenSocketEventsPolled { listen_socket, events } => {},
        SteamworksNetworkingSocketsOperation::AllConnectionEventsPolled { connections } => {
            lemma_connection_batches_keep_counters(s, snapshot_views(connections@));
        },
        SteamworksNetworkingSocketsOperation::AllConnectionsClosed { connections } => {
            lemma_removals_keep_counters(
                s,
                connections@.map_values(|c: super::snapshots::SteamworksNetworkingSocketsConnectionClosed| c.connection@),
            );
        },
        SteamworksNetworkingSocketsOperation::AllListenSocketsClosed { listen_sockets } => {
            lemma_removals_keep_counters(
                s,
                snapshot_views(listen_sockets@).map_values(
                    |c: super::snapshots::SteamworksListenSocketClosedView| c.listen_socket@,
                ),
            );
        },
        SteamworksNetworkingSocketsOperation::AllPollGroupsClosed { poll_groups } => {
            lemma_removals_keep_counters(
                s,
                poll_groups@.map_values(|g: SteamworksNetworkingSocketsPollGroupId| g@),
            );
        },
        _ => {},
    }
}

} // verus!

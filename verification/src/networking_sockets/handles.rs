//! Storage of the Steam handles that the plugin owns behind opaque IDs.
//!
//! Each table is a `Vec` of entries in strictly ascending ID order; IDs are
//! handed out from per-table counters that start at 1 and saturate at
//! `u64::MAX`. The handle types are generic so that the bookkeeping does not
//! depend on the Steam client that produced them.

use crate::cache::lemma_filter_member;
use crate::networking_types::SteamworksNetworkingIdentity;
use super::identifiers::{
    SteamworksListenSocketId, SteamworksNetworkingSocketsConnectionId,
    SteamworksNetworkingSocketsPollGroupId,
};
use vstd::prelude::*;

verus! {

/// The Steam interface, client or game server, that created a handle.
#[derive(Clone, Copy, Debug, PartialEq, Eq, Hash, Structural)]
pub enum SteamworksNetworkingSocketsHandleOwner {
    /// The Steam client interface.
    Client,
    /// The Steam game server interface.
    Server,
}

/// Bookkeeping that the plugin keeps beside each connection handle.
#[derive(Clone, PartialEq, Eq)]
pub struct SteamworksNetworkingSocketsConnectionMetadata {
    /// Listen socket that accepted the connection, if any.
    pub listen_socket: Option<SteamworksListenSocketId>,
    /// Poll group the connection was assigned to, if any.
    pub poll_group: Option<SteamworksNetworkingSocketsPollGroupId>,
    /// Remote identity reported when the connection was accepted.
    pub remote: Option<SteamworksNetworkingIdentity>,
    /// Last connection user data the plugin set or read.
    pub user_data: i64,
}

impl SteamworksNetworkingSocketsConnectionMetadata {
    /// Metadata of a connection that the plugin opened itself.
    pub fn independent() -> (metadata: Self)
        ensures
            metadata.listen_socket is None,
            metadata.poll_group is None,
            metadata.remote is None,
            metadata.user_data == 0,
    {
        SteamworksNetworkingSocketsConnectionMetadata {
            listen_socket: None,
            poll_group: None,
            remote: None,
            user_data: 0,
        }
    }

    /// Metadata of a connection accepted on `listen_socket`.
    pub fn listen_socket(
        listen_socket: SteamworksListenSocketId,
        remote: SteamworksNetworkingIdentity,
        user_data: i64,
    ) -> (metadata: Self)
        ensures
            metadata.listen_socket == Some(listen_socket),
            metadata.poll_group is None,
            metadata.remote == Some(remote),
            metadata.user_data == user_data,
    {
        SteamworksNetworkingSocketsConnectionMetadata {
            listen_socket: Some(listen_socket),
            poll_group: None,
            remote: Some(remote),
            user_data,
        }
    }
}

/// A stored listen socket handle.
pub struct SteamworksListenSocketEntry<L> {
    /// Plugin-owned ID.
    pub id: SteamworksListenSocketId,
    /// Interface that created the handle.
    pub owner: SteamworksNetworkingSocketsHandleOwner,
    /// The Steam handle.
    pub handle: L,
}

/// A stored connection handle with its metadata.
pub struct SteamworksConnectionEntry<C> {
    /// Plugin-owned ID.
    pub id: SteamworksNetworkingSocketsConnectionId,
    /// Interface that created the handle.
    pub owner: SteamworksNetworkingSocketsHandleOwner,
    /// The Steam handle.
    pub handle: C,
    /// Plugin bookkeeping for the connection.
    pub metadata: SteamworksNetworkingSocketsConnectionMetadata,
}

/// A stored poll group handle.
pub struct SteamworksPollGroupEntry<P> {
    /// Plugin-owned ID.
    pub id: SteamworksNetworkingSocketsPollGroupId,
    /// Interface that created the handle.
    pub owner: SteamworksNetworkingSocketsHandleOwner,
    /// The Steam handle.
    pub handle: P,
}

/// A table entry identified by a raw ID.
pub trait SteamworksHandleEntry: Sized {
    /// Raw ID of the entry.
    spec fn entry_key(self) -> u64;

    /// Reads the raw ID of the entry.
    fn raw_key(&self) -> (key: u64)
        ensures
            key == self.entry_key(),
    ;
}

impl<L> SteamworksHandleEntry for SteamworksListenSocketEntry<L> {
    open spec fn entry_key(self) -> u64 {
        self.id@
    }

    fn raw_key(&self) -> (key: u64) {
        self.id.raw()
    }
}

impl<C> SteamworksHandleEntry for SteamworksConnectionEntry<C> {
    open spec fn entry_key(self) -> u64 {
        self.id@
    }

    fn raw_key(&self) -> (key: u64) {
        self.id.raw()
    }
}

impl<P> SteamworksHandleEntry for SteamworksPollGroupEntry<P> {
    open spec fn entry_key(self) -> u64 {
        self.id@
    }

    fn raw_key(&self) -> (key: u64) {
        self.id.raw()
    }
}

/// The IDs of a table, in table order.
pub open spec fn table_keys<E: SteamworksHandleEntry>(s: Seq<E>) -> Seq<u64> {
    s.map_values(|e: E| e.entry_key())
}

/// The IDs of a table are strictly ascending.
pub open spec fn keys_ascending<E: SteamworksHandleEntry>(s: Seq<E>) -> bool {
    forall|i: int, j: int| 0 <= i < j < s.len() ==> s[i].entry_key() < s[j].entry_key()
}

/// Every ID of a table is positive and was handed out before the counter
/// reached `next` (or the counter has saturated).
pub open spec fn keys_issued_before<E: SteamworksHandleEntry>(s: Seq<E>, next: u64) -> bool {
    forall|i: int|
        0 <= i < s.len() ==> 1 <= #[trigger] s[i].entry_key() && (s[i].entry_key() < next || next
            == u64::MAX)
}

/// Whether some entry of the table has ID `key`.
pub open spec fn table_has<E: SteamworksHandleEntry>(s: Seq<E>, key: u64) -> bool {
    exists|i: int| 0 <= i < s.len() && #[trigger] s[i].entry_key() == key
}

/// The index of the entry with ID `key`.
pub open spec fn table_index<E: SteamworksHandleEntry>(s: Seq<E>, key: u64) -> int {
    choose|i: int| 0 <= i < s.len() && #[trigger] s[i].entry_key() == key
}

/// The entry with ID `key`, if any.
pub open spec fn table_get<E: SteamworksHandleEntry>(s: Seq<E>, key: u64) -> Option<E> {
    if table_has(s, key) {
        Some(s[table_index(s, key)])
    } else {
        None
    }
}

/// The table without the entry with ID `key`.
pub open spec fn table_removed<E: SteamworksHandleEntry>(s: Seq<E>, key: u64) -> Seq<E> {
    if table_has(s, key) {
        s.remove(table_index(s, key))
    } else {
        s
    }
}

/// The table with `e` stored under its ID, replacing an entry with the same
/// ID (which can only be the newest).
pub open spec fn table_inserted<E: SteamworksHandleEntry>(s: Seq<E>, e: E) -> Seq<E> {
    if s.len() > 0 && s.last().entry_key() == e.entry_key() {
        s.drop_last().push(e)
    } else {
        s.push(e)
    }
}

/// The ID counter after handing out `next`.
pub open spec fn advanced_id(next: u64) -> u64 {
    if next == u64::MAX {
        u64::MAX
    } else {
        (next + 1) as u64
    }
}

/// In an ascending table, an ID occurs at one index only.
pub proof fn lemma_ascending_index_unique<E: SteamworksHandleEntry>(s: Seq<E>, key: u64, i: int)
    requires
        keys_ascending(s),
        0 <= i < s.len(),
        s[i].entry_key() == key,
    ensures
        table_has(s, key),
        table_index(s, key) == i,
        table_get(s, key) == Some(s[i]),
{
    assert(table_has(s, key));
    let c = table_index(s, key);
    if c < i {
        assert(s[c].entry_key() < s[i].entry_key());
    } else if c > i {
        assert(s[i].entry_key() < s[c].entry_key());
    }
}

/// Removing one index keeps a table ascending.
proof fn lemma_remove_keeps_ascending<E: SteamworksHandleEntry>(s: Seq<E>, i: int)
    requires
        keys_ascending(s),
        0 <= i < s.len(),
    ensures
        keys_ascending(s.remove(i)),
{
    let r = s.remove(i);
    assert forall|a: int, b: int| 0 <= a < b < r.len() implies r[a].entry_key()
        < r[b].entry_key() by {
        let oa = if a < i { a } else { a + 1 };
        let ob = if b < i { b } else { b + 1 };
        assert(r[a] == s[oa]);
        assert(r[b] == s[ob]);
    }
}

/// A filtered table stays ascending.
pub proof fn lemma_filter_keeps_ascending<E: SteamworksHandleEntry>(s: Seq<E>, pred: spec_fn(E) -> bool)
    requires
        keys_ascending(s),
    ensures
        keys_ascending(s.filter(pred)),
    decreases s.len(),
{
    reveal(Seq::filter);
    if s.len() > 0 {
        let rest = s.drop_last();
        assert(keys_ascending(rest));
        lemma_filter_keeps_ascending(rest, pred);
        if pred(s.last()) {
            let f = rest.filter(pred);
            assert forall|a: int| 0 <= a < f.len() implies f[a].entry_key()
                < s.last().entry_key() by {
                lemma_filter_member(rest, pred, a);
                let j = choose|j: int| 0 <= j < rest.len() && rest[j] == f[a];
                assert(s[j] == rest[j]);
            }
            assert(s.filter(pred) == f.push(s.last()));
        }
    }
}

/// Finds the index of the entry with ID `key`.
fn table_position<E: SteamworksHandleEntry>(entries: &Vec<E>, key: u64) -> (position: Option<usize>)
    requires
        keys_ascending(entries@),
    ensures
        match position {
            Some(i) => i < entries@.len() && entries@[i as int].entry_key() == key
                && table_index(entries@, key) == i && table_has(entries@, key),
            None => !table_has(entries@, key),
        },
{
    let mut i: usize = 0;
    while i < entries.len()
        invariant
            0 <= i <= entries@.len(),
            keys_ascending(entries@),
            forall|j: int| 0 <= j < i ==> #[trigger] entries@[j].entry_key() != key,
        decreases entries@.len() - i,
    {
        if entries[i].raw_key() == key {
            proof {
                lemma_ascending_index_unique(entries@, key, i as int);
            }
            return Some(i);
        }
        i += 1;
    }
    None
}

/// Removes and returns the entry with ID `key`.
fn table_take<E: SteamworksHandleEntry>(entries: &mut Vec<E>, key: u64) -> (removed: Option<E>)
    requires
        keys_ascending(old(entries)@),
    ensures
        removed == table_get(old(entries)@, key),
        final(entries)@ == table_removed(old(entries)@, key),
        keys_ascending(final(entries)@),
{
    match table_position(entries, key) {
        Some(i) => {
            proof {
                lemma_remove_keeps_ascending(entries@, i as int);
            }
            Some(entries.remove(i))
        },
        None => None,
    }
}

/// Stores `entry` under its ID.
fn table_insert<E: SteamworksHandleEntry>(entries: &mut Vec<E>, entry: E)
    requires
        keys_ascending(old(entries)@),
        forall|i: int|
            0 <= i < old(entries)@.len() ==> #[trigger] old(entries)@[i].entry_key()
                <= entry.entry_key(),
    ensures
        final(entries)@ == table_inserted(old(entries)@, entry),
        keys_ascending(final(entries)@),
{
    let n = entries.len();
    if n > 0 && entries[n - 1].raw_key() == entry.raw_key() {
        entries.pop();
        entries.push(entry);
        proof {
            assert(entries@ =~= old(entries)@.drop_last().push(entry));
        }
    } else {
        entries.push(entry);
        proof {
            if n > 0 {
                assert(old(entries)@[n - 1].entry_key() < entry.entry_key());
            }
        }
    }
}

/// Returns the IDs of a table in table order.
fn table_ids<E: SteamworksHandleEntry>(entries: &Vec<E>) -> (ids: Vec<u64>)
    ensures
        ids@ == table_keys(entries@),
{
    let mut ids: Vec<u64> = Vec::new();
    let mut i: usize = 0;
    while i < entries.len()
        invariant
            0 <= i <= entries@.len(),
            ids@ == table_keys(entries@).take(i as int),
        decreases entries@.len() - i,
    {
        ids.push(entries[i].raw_key());
        proof {
            assert(ids@ =~= table_keys(entries@).take(i as int + 1));
        }
        i += 1;
    }
    proof {
        assert(table_keys(entries@).take(i as int) =~= table_keys(entries@));
    }
    ids
}

/// A table entry with a new value under the same ID keeps the table's
/// ID order and issue bound.
proof fn lemma_update_same_key<E: SteamworksHandleEntry>(s: Seq<E>, i: int, e: E, next: u64)
    requires
        keys_ascending(s),
        keys_issued_before(s, next),
        0 <= i < s.len(),
        s[i].entry_key() == e.entry_key(),
    ensures
        keys_ascending(s.update(i, e)),
        keys_issued_before(s.update(i, e), next),
        table_keys(s.update(i, e)) == table_keys(s),
{
    let u = s.update(i, e);
    assert forall|a: int| 0 <= a < u.len() implies #[trigger] u[a].entry_key() == s[a].entry_key() by {}
    assert(table_keys(u) =~= table_keys(s));
}

/// Removing an entry keeps the issue bound of a table.
proof fn lemma_removed_keeps_issued<E: SteamworksHandleEntry>(s: Seq<E>, key: u64, next: u64)
    requires
        keys_issued_before(s, next),
    ensures
        keys_issued_before(table_removed(s, key), next),
{
    if table_has(s, key) {
        let i = table_index(s, key);
        let r = s.remove(i);
        assert forall|a: int| 0 <= a < r.len() implies 1 <= #[trigger] r[a].entry_key() && (
        r[a].entry_key() < next || next == u64::MAX) by {
            let oa = if a < i { a } else { a + 1 };
            assert(r[a] == s[oa]);
        }
    }
}

/// A filtered table keeps the issue bound.
proof fn lemma_filter_keeps_issued<E: SteamworksHandleEntry>(
    s: Seq<E>,
    pred: spec_fn(E) -> bool,
    next: u64,
)
    requires
        keys_issued_before(s, next),
    ensures
        keys_issued_before(s.filter(pred), next),
{
    let f = s.filter(pred);
    assert forall|a: int| 0 <= a < f.len() implies 1 <= #[trigger] f[a].entry_key() && (
    f[a].entry_key() < next || next == u64::MAX) by {
        lemma_filter_member(s, pred, a);
    }
}

/// Taking connections out of a poll group keeps the connection IDs.
proof fn lemma_poll_group_cleared_keeps_keys<C>(
    s: Seq<SteamworksConnectionEntry<C>>,
    poll_group: SteamworksNetworkingSocketsPollGroupId,
    next: u64,
)
    requires
        keys_ascending(s),
        keys_issued_before(s, next),
    ensures
        keys_ascending(poll_group_cleared(s, poll_group)),
        keys_issued_before(poll_group_cleared(s, poll_group), next),
        table_keys(poll_group_cleared(s, poll_group)) == table_keys(s),
{
    let c = poll_group_cleared(s, poll_group);
    assert forall|a: int| 0 <= a < c.len() implies #[trigger] c[a].entry_key() == s[a].entry_key() by {}
    assert(table_keys(c) =~= table_keys(s));
}

/// `e` with its connection user data set to `user_data`.
pub open spec fn with_user_data<C>(e: SteamworksConnectionEntry<C>, user_data: i64) -> SteamworksConnectionEntry<C> {
    SteamworksConnectionEntry {
        metadata: SteamworksNetworkingSocketsConnectionMetadata { user_data, ..e.metadata },
        ..e
    }
}

/// `e` with its poll group set to `poll_group`.
pub open spec fn with_poll_group<C>(
    e: SteamworksConnectionEntry<C>,
    poll_group: Option<SteamworksNetworkingSocketsPollGroupId>,
) -> SteamworksConnectionEntry<C> {
    SteamworksConnectionEntry {
        metadata: SteamworksNetworkingSocketsConnectionMetadata { poll_group, ..e.metadata },
        ..e
    }
}

/// The table with the entry of ID `key` replaced by `f` of it.
pub open spec fn table_changed<E: SteamworksHandleEntry>(s: Seq<E>, key: u64, f: spec_fn(E) -> E) -> Seq<E> {
    if table_has(s, key) {
        s.update(table_index(s, key), f(s[table_index(s, key)]))
    } else {
        s
    }
}

/// Whether a connection entry belongs to `poll_group`.
pub open spec fn in_poll_group<C>(
    poll_group: SteamworksNetworkingSocketsPollGroupId,
) -> spec_fn(SteamworksConnectionEntry<C>) -> bool {
    |e: SteamworksConnectionEntry<C>| e.metadata.poll_group == Some(poll_group)
}

/// The connection table with every connection of `poll_group` taken out of it.
pub open spec fn poll_group_cleared<C>(
    s: Seq<SteamworksConnectionEntry<C>>,
    poll_group: SteamworksNetworkingSocketsPollGroupId,
) -> Seq<SteamworksConnectionEntry<C>> {
    s.map_values(
        |e: SteamworksConnectionEntry<C>|
            if e.metadata.poll_group == Some(poll_group) {
                with_poll_group(e, None)
            } else {
                e
            },
    )
}

/// Whether a connection entry was accepted on `listen_socket`.
pub open spec fn accepted_on<C>(listen_socket: SteamworksListenSocketId) -> spec_fn(
    SteamworksConnectionEntry<C>,
) -> bool {
    |e: SteamworksConnectionEntry<C>| e.metadata.listen_socket == Some(listen_socket)
}

/// Whether a connection entry was not accepted on `listen_socket`.
pub open spec fn not_accepted_on<C>(listen_socket: SteamworksListenSocketId) -> spec_fn(
    SteamworksConnectionEntry<C>,
) -> bool {
    |e: SteamworksConnectionEntry<C>| e.metadata.listen_socket != Some(listen_socket)
}

/// Whether a connection entry matches a disconnect event on `listen_socket`
/// from `remote` with `user_data`.
pub open spec fn matches_disconnect<C>(
    listen_socket: SteamworksListenSocketId,
    remote: SteamworksNetworkingIdentity,
    user_data: i64,
) -> spec_fn(SteamworksConnectionEntry<C>) -> bool {
    |e: SteamworksConnectionEntry<C>|
        e.metadata.listen_socket == Some(listen_socket) && (match e.metadata.remote {
            Some(known) => known == remote,
            None => false,
        }) && e.metadata.user_data == user_data
}

/// What `answer_of` answered for the handle stored under `key`, where one
/// is stored.
pub open spec fn handle_answered<C, F: Fn(&C) -> bool>(
    answer_of: F,
    table: Seq<SteamworksConnectionEntry<C>>,
    key: u64,
    answer: bool,
) -> bool {
    match table_get(table, key) {
        Some(e) => call_ensures(answer_of, (&e.handle,), answer),
        None => false,
    }
}

/// Abstract value of the handle storage.
pub struct SteamworksHandleStorageView<L, C, P> {
    /// Next listen socket ID to hand out.
    pub next_listen_socket_id: u64,
    /// Next connection ID to hand out.
    pub next_connection_id: u64,
    /// Next poll group ID to hand out.
    pub next_poll_group_id: u64,
    /// Listen socket entries in ID order.
    pub listen_sockets: Seq<SteamworksListenSocketEntry<L>>,
    /// Connection entries in ID order.
    pub connections: Seq<SteamworksConnectionEntry<C>>,
    /// Poll group entries in ID order.
    pub poll_groups: Seq<SteamworksPollGroupEntry<P>>,
}

/// Handles that the plugin owns, behind the IDs it handed out.
pub struct SteamworksNetworkingSocketsHandleStorage<L, C, P> {
    next_listen_socket_id: u64,
    next_connection_id: u64,
    next_poll_group_id: u64,
    listen_sockets: Vec<SteamworksListenSocketEntry<L>>,
    connections: Vec<SteamworksConnectionEntry<C>>,
    poll_groups: Vec<SteamworksPollGroupEntry<P>>,
}

/// Every table is in ID order and holds only IDs its counter handed out.
pub open spec fn storage_well_formed<L, C, P>(s: SteamworksHandleStorageView<L, C, P>) -> bool {
    &&& s.next_listen_socket_id >= 1
    &&& s.next_connection_id >= 1
    &&& s.next_poll_group_id >= 1
    &&& keys_ascending(s.listen_sockets)
    &&& keys_ascending(s.connections)
    &&& keys_ascending(s.poll_groups)
    &&& keys_issued_before(s.listen_sockets, s.next_listen_socket_id)
    &&& keys_issued_before(s.connections, s.next_connection_id)
    &&& keys_issued_before(s.poll_groups, s.next_poll_group_id)
}

impl<L, C, P> View for SteamworksNetworkingSocketsHandleStorage<L, C, P> {
    type V = SteamworksHandleStorageView<L, C, P>;

    closed spec fn view(&self) -> SteamworksHandleStorageView<L, C, P> {
        SteamworksHandleStorageView {
            next_listen_socket_id: self.next_listen_socket_id,
            next_connection_id: self.next_connection_id,
            next_poll_group_id: self.next_poll_group_id,
            listen_sockets: self.listen_sockets@,
            connections: self.connections@,
            poll_groups: self.poll_groups@,
        }
    }
}

impl<L, C, P> SteamworksNetworkingSocketsHandleStorage<L, C, P> {
    #[verifier::type_invariant]
    spec fn tables_well_formed(self) -> bool {
        storage_well_formed(self@)
    }

    /// Empty storage whose counters start at 1.
    pub fn new() -> (storage: Self)
        ensures
            storage@.next_listen_socket_id == 1,
            storage@.next_connection_id == 1,
            storage@.next_poll_group_id == 1,
            storage@.listen_sockets.len() == 0,
            storage@.connections.len() == 0,
            storage@.poll_groups.len() == 0,
    {
        SteamworksNetworkingSocketsHandleStorage {
            next_listen_socket_id: 1,
            next_connection_id: 1,
            next_poll_group_id: 1,
            listen_sockets: Vec::new(),
            connections: Vec::new(),
            poll_groups: Vec::new(),
        }
    }

    /// Stores a listen socket handle under a fresh ID.
    pub fn insert_listen_socket(&mut self, socket: L, owner: SteamworksNetworkingSocketsHandleOwner) -> (id:
        SteamworksListenSocketId)
        ensures
            id@ == old(self)@.next_listen_socket_id,
            final(self)@ == (SteamworksHandleStorageView {
                next_listen_socket_id: advanced_id(old(self)@.next_listen_socket_id),
                listen_sockets: table_inserted(
                    old(self)@.listen_sockets,
                    SteamworksListenSocketEntry { id, owner, handle: socket },
                ),
                ..old(self)@
            }),
            storage_well_formed(final(self)@),
    {
        proof {
            use_type_invariant(&*self);
        }
        let id = SteamworksListenSocketId::from_raw(self.next_listen_socket_id);
        let mut table: Vec<SteamworksListenSocketEntry<L>> = Vec::new();
        std::mem::swap(&mut table, &mut self.listen_sockets);
        table_insert(&mut table, SteamworksListenSocketEntry { id, owner, handle: socket });
        self.next_listen_socket_id = self.next_listen_socket_id.saturating_add(1);
        self.listen_sockets = table;
        proof {
            use_type_invariant(&*self);
        }
        id
    }

    /// Stores a connection handle and its metadata under a fresh ID.
    pub fn insert_connection(
        &mut self,
        connection: C,
        metadata: SteamworksNetworkingSocketsConnectionMetadata,
        owner: SteamworksNetworkingSocketsHandleOwner,
    ) -> (id: SteamworksNetworkingSocketsConnectionId)
        ensures
            id@ == old(self)@.next_connection_id,
            final(self)@ == (SteamworksHandleStorageView {
                next_connection_id: advanced_id(old(self)@.next_connection_id),
                connections: table_inserted(
                    old(self)@.connections,
                    SteamworksConnectionEntry { id, owner, handle: connection, metadata },
                ),
                ..old(self)@
            }),
            storage_well_formed(final(self)@),
    {
        proof {
            use_type_invariant(&*self);
        }
        let id = SteamworksNetworkingSocketsConnectionId::from_raw(self.next_connection_id);
        let mut table: Vec<SteamworksConnectionEntry<C>> = Vec::new();
        std::mem::swap(&mut table, &mut self.connections);
        table_insert(
            &mut table,
            SteamworksConnectionEntry { id, owner, handle: connection, metadata },
        );
        self.next_connection_id = self.next_connection_id.saturating_add(1);
        self.connections = table;
        proof {
            use_type_invariant(&*self);
        }
        id
    }

    /// Stores a poll group handle under a fresh ID.
    pub fn insert_poll_group(&mut self, poll_group: P, owner: SteamworksNetworkingSocketsHandleOwner) -> (id:
        SteamworksNetworkingSocketsPollGroupId)
        ensures
            id@ == old(self)@.next_poll_group_id,
            final(self)@ == (SteamworksHandleStorageView {
                next_poll_group_id: advanced_id(old(self)@.next_poll_group_id),
                poll_groups: table_inserted(
                    old(self)@.poll_groups,
                    SteamworksPollGroupEntry { id, owner, handle: poll_group },
                ),
                ..old(self)@
            }),
            storage_well_formed(final(self)@),
    {
        proof {
            use_type_invariant(&*self);
        }
        let id = SteamworksNetworkingSocketsPollGroupId::from_raw(self.next_poll_group_id);
        let mut table: Vec<SteamworksPollGroupEntry<P>> = Vec::new();
        std::mem::swap(&mut table, &mut self.poll_groups);
        table_insert(&mut table, SteamworksPollGroupEntry { id, owner, handle: poll_group });
        self.next_poll_group_id = self.next_poll_group_id.saturating_add(1);
        self.poll_groups = table;
        proof {
            use_type_invariant(&*self);
        }
        id
    }

    /// Whether a listen socket with this ID is stored.
    pub fn contains_listen_socket(&self, listen_socket: SteamworksListenSocketId) -> (found: bool)
        ensures
            found == table_has(self@.listen_sockets, listen_socket@),
    {
        proof {
            use_type_invariant(self);
        }
        table_position(&self.listen_sockets, listen_socket.raw()).is_some()
    }

    /// Whether a connection with this ID is stored.
    pub fn contains_connection(&self, connection: SteamworksNetworkingSocketsConnectionId) -> (found: bool)
        ensures
            found == table_has(self@.connections, connection@),
    {
        proof {
            use_type_invariant(self);
        }
        table_position(&self.connections, connection.raw()).is_some()
    }

    /// Whether a poll group with this ID is stored.
    pub fn contains_poll_group(&self, poll_group: SteamworksNetworkingSocketsPollGroupId) -> (found: bool)
        ensures
            found == table_has(self@.poll_groups, poll_group@),
    {
        proof {
            use_type_invariant(self);
        }
        table_position(&self.poll_groups, poll_group.raw()).is_some()
    }

    /// The stored listen socket entry with this ID.
    pub fn listen_socket(&self, listen_socket: SteamworksListenSocketId) -> (entry: Option<
        &SteamworksListenSocketEntry<L>,
    >)
        ensures
            match table_get(self@.listen_sockets, listen_socket@) {
                Some(e) => entry == Some(&e),
                None => entry is None,
            },
    {
        proof {
            use_type_invariant(self);
        }
        match table_position(&self.listen_sockets, listen_socket.raw()) {
            Some(i) => Some(&self.listen_sockets[i]),
            None => None,
        }
    }

    /// The stored connection entry with this ID.
    pub fn connection(&self, connection: SteamworksNetworkingSocketsConnectionId) -> (entry: Option<
        &SteamworksConnectionEntry<C>,
    >)
        ensures
            match table_get(self@.connections, connection@) {
                Some(e) => entry == Some(&e),
                None => entry is None,
            },
    {
        proof {
            use_type_invariant(self);
        }
        match table_position(&self.connections, connection.raw()) {
            Some(i) => Some(&self.connections[i]),
            None => None,
        }
    }

    /// The stored poll group entry with this ID.
    pub fn poll_group(&self, poll_group: SteamworksNetworkingSocketsPollGroupId) -> (entry: Option<
        &SteamworksPollGroupEntry<P>,
    >)
        ensures
            match table_get(self@.poll_groups, poll_group@) {
                Some(e) => entry == Some(&e),
                None => entry is None,
            },
    {
        proof {
            use_type_invariant(self);
        }
        match table_position(&self.poll_groups, poll_group.raw()) {
            Some(i) => Some(&self.poll_groups[i]),
            None => None,
        }
    }

    /// The interface that created a listen socket.
    pub fn listen_socket_owner(&self, listen_socket: SteamworksListenSocketId) -> (owner: Option<
        SteamworksNetworkingSocketsHandleOwner,
    >)
        ensures
            owner == match table_get(self@.listen_sockets, listen_socket@) {
                Some(e) => Some(e.owner),
                None => None,
            },
    {
        match self.listen_socket(listen_socket) {
            Some(entry) => Some(entry.owner),
            None => None,
        }
    }

    /// The interface that created a connection.
    pub fn connection_owner(&self, connection: SteamworksNetworkingSocketsConnectionId) -> (owner: Option<
        SteamworksNetworkingSocketsHandleOwner,
    >)
        ensures
            owner == match table_get(self@.connections, connection@) {
                Some(e) => Some(e.owner),
                None => None,
            },
    {
        match self.connection(connection) {
            Some(entry) => Some(entry.owner),
            None => None,
        }
    }

    /// The interface that created a poll group.
    pub fn poll_group_owner(&self, poll_group: SteamworksNetworkingSocketsPollGroupId) -> (owner: Option<
        SteamworksNetworkingSocketsHandleOwner,
    >)
        ensures
            owner == match table_get(self@.poll_groups, poll_group@) {
                Some(e) => Some(e.owner),
                None => None,
            },
    {
        match self.poll_group(poll_group) {
            Some(entry) => Some(entry.owner),
            None => None,
        }
    }

    /// The IDs of the stored listen sockets, ascending.
    pub fn listen_socket_ids(&self) -> (ids: Vec<u64>)
        ensures
            ids@ == table_keys(self@.listen_sockets),
            keys_ascending(self@.listen_sockets),
    {
        proof {
            use_type_invariant(self);
        }
        table_ids(&self.listen_sockets)
    }

    /// The IDs of the stored connections, ascending.
    pub fn connection_ids(&self) -> (ids: Vec<u64>)
        ensures
            ids@ == table_keys(self@.connections),
            keys_ascending(self@.connections),
    {
        proof {
            use_type_invariant(self);
        }
        table_ids(&self.connections)
    }

    /// The IDs of the stored poll groups, ascending.
    pub fn poll_group_ids(&self) -> (ids: Vec<u64>)
        ensures
            ids@ == table_keys(self@.poll_groups),
            keys_ascending(self@.poll_groups),
    {
        proof {
            use_type_invariant(self);
        }
        table_ids(&self.poll_groups)
    }

    /// Number of stored listen sockets.
    pub fn listen_socket_count(&self) -> (count: usize)
        ensures
            count == self@.listen_sockets.len(),
    {
        self.listen_sockets.len()
    }

    /// Number of stored connections.
    pub fn connection_count(&self) -> (count: usize)
        ensures
            count == self@.connections.len(),
    {
        self.connections.len()
    }

    /// Number of stored poll groups.
    pub fn poll_group_count(&self) -> (count: usize)
        ensures
            count == self@.poll_groups.len(),
    {
        self.poll_groups.len()
    }

    /// Removes and returns a listen socket.
    pub fn remove_listen_socket(&mut self, listen_socket: SteamworksListenSocketId) -> (removed: Option<
        SteamworksListenSocketEntry<L>,
    >)
        ensures
            removed == table_get(old(self)@.listen_sockets, listen_socket@),
            final(self)@ == (SteamworksHandleStorageView {
                listen_sockets: table_removed(old(self)@.listen_sockets, listen_socket@),
                ..old(self)@
            }),
    {
        proof {
            use_type_invariant(&*self);
        }
        let mut table: Vec<SteamworksListenSocketEntry<L>> = Vec::new();
        std::mem::swap(&mut table, &mut self.listen_sockets);
        let ghost before = table@;
        let removed = table_take(&mut table, listen_socket.raw());
        proof {
            lemma_removed_keeps_issued(before, listen_socket@, self.next_listen_socket_id);
        }
        self.listen_sockets = table;
        removed
    }

    /// Removes and returns a connection and its metadata.
    pub fn remove_connection(&mut self, connection: SteamworksNetworkingSocketsConnectionId) -> (removed:
        Option<SteamworksConnectionEntry<C>>)
        ensures
            removed == table_get(old(self)@.connections, connection@),
            final(self)@ == (SteamworksHandleStorageView {
                connections: table_removed(old(self)@.connections, connection@),
                ..old(self)@
            }),
    {
        proof {
            use_type_invariant(&*self);
        }
        let mut table: Vec<SteamworksConnectionEntry<C>> = Vec::new();
        std::mem::swap(&mut table, &mut self.connections);
        let ghost before = table@;
        let removed = table_take(&mut table, connection.raw());
        proof {
            lemma_removed_keeps_issued(before, connection@, self.next_connection_id);
        }
        self.connections = table;
        removed
    }

    /// Removes and returns a poll group, taking every connection out of it.
    pub fn remove_poll_group(&mut self, poll_group: SteamworksNetworkingSocketsPollGroupId) -> (removed:
        Option<SteamworksPollGroupEntry<P>>)
        ensures
            removed == table_get(old(self)@.poll_groups, poll_group@),
            final(self)@ == if table_has(old(self)@.poll_groups, poll_group@) {
                SteamworksHandleStorageView {
                    poll_groups: table_removed(old(self)@.poll_groups, poll_group@),
                    connections: poll_group_cleared(old(self)@.connections, poll_group),
                    ..old(self)@
                }
            } else {
                old(self)@
            },
    {
        proof {
            use_type_invariant(&*self);
        }
        let mut table: Vec<SteamworksPollGroupEntry<P>> = Vec::new();
        std::mem::swap(&mut table, &mut self.poll_groups);
        let ghost before = table@;
        let removed = table_take(&mut table, poll_group.raw());
        proof {
            lemma_removed_keeps_issued(before, poll_group@, self.next_poll_group_id);
        }
        self.poll_groups = table;
        if removed.is_some() {
            self.clear_poll_group_metadata(poll_group);
        }
        removed
    }

    /// Takes every connection out of `poll_group`; returns how many were in it.
    pub fn clear_poll_group_metadata(&mut self, poll_group: SteamworksNetworkingSocketsPollGroupId) -> (cleared:
        usize)
        ensures
            cleared == old(self)@.connections.filter(in_poll_group(poll_group)).len(),
            final(self)@ == (SteamworksHandleStorageView {
                connections: poll_group_cleared(old(self)@.connections, poll_group),
                ..old(self)@
            }),
    {
        proof {
            use_type_invariant(&*self);
        }
        let mut table: Vec<SteamworksConnectionEntry<C>> = Vec::new();
        std::mem::swap(&mut table, &mut self.connections);
        let ghost orig = table@;
        let ghost pred = in_poll_group::<C>(poll_group);
        let mut cleared: usize = 0;
        let mut i: usize = 0;
        proof {
            reveal(Seq::filter);
            assert(orig.take(0) =~= Seq::<SteamworksConnectionEntry<C>>::empty());
        }
        while i < table.len()
            invariant
                0 <= i <= table@.len(),
                table@.len() == orig.len(),
                pred == in_poll_group::<C>(poll_group),
                forall|j: int| 0 <= j < i ==> #[trigger] table@[j] == poll_group_cleared(orig, poll_group)[j],
                forall|j: int| i <= j < table@.len() ==> #[trigger] table@[j] == orig[j],
                cleared == orig.take(i as int).filter(pred).len(),
                cleared <= i,
            decreases table@.len() - i,
        {
            proof {
                assert(orig.take(i as int + 1).drop_last() =~= orig.take(i as int));
                reveal(Seq::filter);
            }
            if table[i].metadata.poll_group == Some(poll_group) {
                table[i].metadata.poll_group = None;
                cleared += 1;
            }
            i += 1;
        }
        proof {
            assert(orig.take(i as int) =~= orig);
            assert(table@ =~= poll_group_cleared(orig, poll_group));
            lemma_poll_group_cleared_keeps_keys(orig, poll_group, self.next_connection_id);
        }
        self.connections = table;
        cleared
    }

    /// Records new user data for a stored connection; unknown IDs are ignored.
    pub fn update_connection_user_data(
        &mut self,
        connection: SteamworksNetworkingSocketsConnectionId,
        user_data: i64,
    )
        ensures
            final(self)@ == (SteamworksHandleStorageView {
                connections: table_changed(
                    old(self)@.connections,
                    connection@,
                    |e: SteamworksConnectionEntry<C>| with_user_data(e, user_data),
                ),
                ..old(self)@
            }),
    {
        proof {
            use_type_invariant(&*self);
        }
        let mut table: Vec<SteamworksConnectionEntry<C>> = Vec::new();
        std::mem::swap(&mut table, &mut self.connections);
        if let Some(i) = table_position(&table, connection.raw()) {
            let ghost before = table@;
            table[i].metadata.user_data = user_data;
            proof {
                assert(table@ =~= before.update(i as int, with_user_data(before[i as int], user_data)));
                lemma_update_same_key(before, i as int, table@[i as int], self.next_connection_id);
            }
        }
        self.connections = table;
    }

    /// Records the poll group of a stored connection; unknown IDs are ignored.
    pub fn set_connection_poll_group(
        &mut self,
        connection: SteamworksNetworkingSocketsConnectionId,
        poll_group: SteamworksNetworkingSocketsPollGroupId,
    )
        ensures
            final(self)@ == (SteamworksHandleStorageView {
                connections: table_changed(
                    old(self)@.connections,
                    connection@,
                    |e: SteamworksConnectionEntry<C>| with_poll_group(e, Some(poll_group)),
                ),
                ..old(self)@
            }),
    {
        proof {
            use_type_invariant(&*self);
        }
        let mut table: Vec<SteamworksConnectionEntry<C>> = Vec::new();
        std::mem::swap(&mut table, &mut self.connections);
        if let Some(i) = table_position(&table, connection.raw()) {
            let ghost before = table@;
            table[i].metadata.poll_group = Some(poll_group);
            proof {
                assert(table@ =~= before.update(
                    i as int,
                    with_poll_group(before[i as int], Some(poll_group)),
                ));
                lemma_update_same_key(before, i as int, table@[i as int], self.next_connection_id);
            }
        }
        self.connections = table;
    }

    /// Records that a stored connection left its poll group; unknown IDs are
    /// ignored.
    pub fn clear_connection_poll_group(&mut self, connection: SteamworksNetworkingSocketsConnectionId)
        ensures
            final(self)@ == (SteamworksHandleStorageView {
                connections: table_changed(
                    old(self)@.connections,
                    connection@,
                    |e: SteamworksConnectionEntry<C>| with_poll_group(e, None),
                ),
                ..old(self)@
            }),
    {
        proof {
            use_type_invariant(&*self);
        }
        let mut table: Vec<SteamworksConnectionEntry<C>> = Vec::new();
        std::mem::swap(&mut table, &mut self.connections);
        if let Some(i) = table_position(&table, connection.raw()) {
            let ghost before = table@;
            table[i].metadata.poll_group = None;
            proof {
                assert(table@ =~= before.update(i as int, with_poll_group(before[i as int], None)));
                lemma_update_same_key(before, i as int, table@[i as int], self.next_connection_id);
            }
        }
        self.connections = table;
    }

    /// Removes every connection accepted on `listen_socket`; returns their
    /// IDs, ascending.
    pub fn remove_connections_for_listen_socket(&mut self, listen_socket: SteamworksListenSocketId) -> (removed:
        Vec<SteamworksNetworkingSocketsConnectionId>)
        ensures
            removed@.map_values(|c: SteamworksNetworkingSocketsConnectionId| c@) == table_keys(
                old(self)@.connections.filter(accepted_on(listen_socket)),
            ),
            final(self)@ == (SteamworksHandleStorageView {
                connections: old(self)@.connections.filter(not_accepted_on(listen_socket)),
                ..old(self)@
            }),
    {
        proof {
            use_type_invariant(&*self);
        }
        let mut table: Vec<SteamworksConnectionEntry<C>> = Vec::new();
        std::mem::swap(&mut table, &mut self.connections);
        let total = table.len();
        let ghost orig = table@;
        let ghost child = accepted_on::<C>(listen_socket);
        let ghost other = not_accepted_on::<C>(listen_socket);
        let mut kept: Vec<SteamworksConnectionEntry<C>> = Vec::new();
        let mut removed: Vec<SteamworksNetworkingSocketsConnectionId> = Vec::new();
        let mut k: usize = 0;
        proof {
            reveal(Seq::filter);
            assert(orig.take(0) =~= Seq::<SteamworksConnectionEntry<C>>::empty());
            assert(orig.skip(0) =~= orig);
        }
        while table.len() > 0
            invariant
                k <= orig.len(),
                orig.len() == total,
                table@ == orig.skip(k as int),
                child == accepted_on::<C>(listen_socket),
                other == not_accepted_on::<C>(listen_socket),
                kept@ == orig.take(k as int).filter(other),
                removed@.map_values(|c: SteamworksNetworkingSocketsConnectionId| c@) == table_keys(
                    orig.take(k as int).filter(child),
                ),
            decreases table@.len(),
        {
            let entry = table.remove(0);
            proof {
                assert(entry == orig[k as int]);
                assert(orig.take(k as int + 1).drop_last() =~= orig.take(k as int));
                assert(orig.skip(k as int + 1) =~= orig.skip(k as int).remove(0));
                reveal(Seq::filter);
            }
            if entry.metadata.listen_socket == Some(listen_socket) {
                let ghost prev = removed@;
                removed.push(entry.id);
                proof {
                    assert(removed@.map_values(|c: SteamworksNetworkingSocketsConnectionId| c@)
                        =~= prev.map_values(|c: SteamworksNetworkingSocketsConnectionId| c@).push(
                        entry.id@,
                    ));
                    assert(table_keys(orig.take(k as int + 1).filter(child)) =~= table_keys(
                        orig.take(k as int).filter(child),
                    ).push(entry.id@));
                }
            } else {
                kept.push(entry);
            }
            k += 1;
        }
        proof {
            assert(orig.take(k as int) =~= orig);
            lemma_filter_keeps_ascending(orig, other);
            lemma_filter_keeps_issued(orig, other, self.next_connection_id);
        }
        self.connections = kept;
        removed
    }

    /// IDs of the stored connections that match a disconnect event on
    /// `listen_socket` from `remote` with `user_data`, ascending.
    pub fn listen_connection_candidates(
        &self,
        listen_socket: SteamworksListenSocketId,
        remote: &SteamworksNetworkingIdentity,
        user_data: i64,
    ) -> (candidates: Vec<SteamworksNetworkingSocketsConnectionId>)
        ensures
            candidates@.map_values(|c: SteamworksNetworkingSocketsConnectionId| c@) == table_keys(
                self@.connections.filter(matches_disconnect(listen_socket, *remote, user_data)),
            ),
    {
        let ghost orig = self@.connections;
        let ghost pred = matches_disconnect::<C>(listen_socket, *remote, user_data);
        let mut candidates: Vec<SteamworksNetworkingSocketsConnectionId> = Vec::new();
        let mut i: usize = 0;
        proof {
            reveal(Seq::filter);
            assert(orig.take(0) =~= Seq::<SteamworksConnectionEntry<C>>::empty());
        }
        while i < self.connections.len()
            invariant
                0 <= i <= orig.len(),
                orig == self@.connections,
                pred == matches_disconnect::<C>(listen_socket, *remote, user_data),
                candidates@.map_values(|c: SteamworksNetworkingSocketsConnectionId| c@)
                    == table_keys(orig.take(i as int).filter(pred)),
            decreases orig.len() - i,
        {
            let entry = &self.connections[i];
            let same_remote = match &entry.metadata.remote {
                Some(known) => *known == *remote,
                None => false,
            };
            proof {
                assert(orig.take(i as int + 1).drop_last() =~= orig.take(i as int));
                assert(orig[i as int] == *entry);
                reveal(Seq::filter);
            }
            if entry.metadata.listen_socket == Some(listen_socket) && same_remote
                && entry.metadata.user_data == user_data {
                let ghost prev = candidates@;
                candidates.push(entry.id);
                proof {
                    assert(candidates@.map_values(|c: SteamworksNetworkingSocketsConnectionId| c@)
                        =~= prev.map_values(|c: SteamworksNetworkingSocketsConnectionId| c@).push(
                        entry.id@,
                    ));
                    assert(table_keys(orig.take(i as int + 1).filter(pred)) =~= table_keys(
                        orig.take(i as int).filter(pred),
                    ).push(entry.id@));
                }
            }
            i += 1;
        }
        proof {
            assert(orig.take(i as int) =~= orig);
        }
        candidates
    }

    /// Removes the connection that a disconnect event on `listen_socket`
    /// refers to and returns its ID.
    ///
    /// The connection is identified by the listen socket, remote identity and
    /// user data it was accepted with. When several stored connections match,
    /// the one whose handle `ends_as_reported` accepts is taken, provided it is
    /// the only such one; otherwise nothing is removed.
    pub fn remove_listen_connection_by_event<F: Fn(&C) -> bool>(
        &mut self,
        listen_socket: SteamworksListenSocketId,
        remote: &SteamworksNetworkingIdentity,
        user_data: i64,
        ends_as_reported: F,
    ) -> (removed: Option<SteamworksNetworkingSocketsConnectionId>)
        requires
            forall|c: &C| ends_as_reported.requires((c,)),
        ensures
            ({
                let table = old(self)@.connections;
                let candidates = table_keys(table.filter(matches_disconnect(listen_socket, *remote, user_data)));
                &&& candidates.len() == 0 ==> removed is None
                &&& candidates.len() == 1 ==> (removed matches Some(id) && id@ == candidates[0])
                &&& candidates.len() > 1 ==> match removed {
                    Some(id) => handle_answered(ends_as_reported, table, id@, true) && forall|k: u64|
                        #[trigger] candidates.contains(k) && k != id@ ==> handle_answered(
                            ends_as_reported,
                            table,
                            k,
                            false,
                        ),
                    None => (forall|k: u64|
                        #[trigger] candidates.contains(k) ==> handle_answered(ends_as_reported, table, k, false))
                        || exists|k1: u64, k2: u64|
                        #![trigger candidates.contains(k1), candidates.contains(k2)]
                        candidates.contains(k1) && candidates.contains(k2) && k1 != k2 && handle_answered(
                            ends_as_reported,
                            table,
                            k1,
                            true,
                        ) && handle_answered(ends_as_reported, table, k2, true),
                }
                &&& match removed {
                    Some(id) => candidates.contains(id@) && final(self)@ == (SteamworksHandleStorageView {
                        connections: table_removed(table, id@),
                        ..old(self)@
                    }),
                    None => final(self)@ == old(self)@,
                }
            }),
    {
        proof {
            use_type_invariant(&*self);
        }
        let candidates = self.listen_connection_candidates(listen_socket, remote, user_data);
        let ghost table = self@.connections;
        let ghost pred = matches_disconnect::<C>(listen_socket, *remote, user_data);
        let ghost keys = candidates@.map_values(|c: SteamworksNetworkingSocketsConnectionId| c@);
        proof {
            lemma_filter_keeps_ascending(table, pred);
            assert forall|j: int| 0 <= j < keys.len() implies table_has(table, #[trigger] keys[j]) by {
                lemma_filter_member(table, pred, j);
                let m = choose|m: int| 0 <= m < table.len() && table[m] == table.filter(pred)[j];
                assert(keys[j] == table.filter(pred)[j].entry_key());
                lemma_ascending_index_unique(table, keys[j], m);
            }
        }
        let chosen = if candidates.len() == 0 {
            None
        } else if candidates.len() == 1 {
            proof {
                assert(keys[0] == candidates@[0]@);
            }
            Some(candidates[0])
        } else {
            let mut terminal: Vec<SteamworksNetworkingSocketsConnectionId> = Vec::new();
            let ghost mut picked: Seq<int> = Seq::empty();
            let mut i: usize = 0;
            while i < candidates.len()
                invariant
                    0 <= i <= candidates@.len(),
                    table == self@.connections,
                    keys == candidates@.map_values(|c: SteamworksNetworkingSocketsConnectionId| c@),
                    keys_ascending(table.filter(pred)),
                    keys == table_keys(table.filter(pred)),
                    forall|j: int| 0 <= j < keys.len() ==> table_has(table, #[trigger] keys[j]),
                    forall|c: &C| ends_as_reported.requires((c,)),
                    picked.len() == terminal@.len(),
                    forall|t: int|
                        0 <= t < terminal@.len() ==> 0 <= #[trigger] picked[t] < i && (terminal@[t])@
                            == keys[picked[t]] && handle_answered(ends_as_reported, table, keys[picked[t]], true),
                    forall|t: int, u: int| 0 <= t < u < terminal@.len() ==> picked[t] < picked[u],
                    forall|j: int|
                        0 <= j < i ==> picked.contains(j) || handle_answered(
                            ends_as_reported,
                            table,
                            #[trigger] keys[j],
                            false,
                        ),
                decreases candidates@.len() - i,
            {
                proof {
                    assert(keys[i as int] == candidates@[i as int]@);
                }
                if let Some(entry) = self.connection(candidates[i]) {
                    let answer = ends_as_reported(&entry.handle);
                    if answer {
                        let ghost prev = picked;
                        terminal.push(candidates[i]);
                        proof {
                            picked = picked.push(i as int);
                            assert forall|j: int| 0 <= j < i + 1 implies picked.contains(j) || handle_answered(
                                ends_as_reported,
                                table,
                                #[trigger] keys[j],
                                false,
                            ) by {
                                if j == i {
                                    assert(picked[picked.len() - 1] == j);
                                } else if prev.contains(j) {
                                    let t = choose|t: int| 0 <= t < prev.len() && prev[t] == j;
                                    assert(picked[t] == j);
                                }
                            }
                        }
                    } else {
                        proof {
                            assert(handle_answered(ends_as_reported, table, keys[i as int], false));
                        }
                    }
                } else {
                    proof {
                        assert(table_has(table, keys[i as int]));
                    }
                }
                i += 1;
            }
            proof {
                assert forall|k: u64| #[trigger] keys.contains(k) implies exists|j: int|
                    0 <= j < keys.len() && keys[j] == k by {}
            }
            if terminal.len() == 1 {
                proof {
                    assert(terminal@[0]@ == keys[picked[0]]);
                    assert forall|k: u64| #[trigger] keys.contains(k) && k != terminal@[0]@ implies handle_answered(
                        ends_as_reported,
                        table,
                        k,
                        false,
                    ) by {
                        let j = choose|j: int| 0 <= j < keys.len() && keys[j] == k;
                        if picked.contains(j) {
                            let t = choose|t: int| 0 <= t < picked.len() && picked[t] == j;
                            assert(t == 0);
                        }
                    }
                    assert(keys.contains(keys[picked[0]]));
                }
                Some(terminal[0])
            } else {
                proof {
                    if terminal@.len() == 0 {
                        assert forall|k: u64| #[trigger] keys.contains(k) implies handle_answered(
                            ends_as_reported,
                            table,
                            k,
                            false,
                        ) by {
                            let j = choose|j: int| 0 <= j < keys.len() && keys[j] == k;
                            if picked.contains(j) {
                                let t = choose|t: int| 0 <= t < picked.len() && picked[t] == j;
                            }
                        }
                    } else {
                        let k1 = keys[picked[0]];
                        let k2 = keys[picked[1]];
                        assert(picked[0] < picked[1]);
                        assert(k1 < k2);
                        assert(keys.contains(k1));
                        assert(keys.contains(k2));
                    }
                }
                None
            }
        };
        match chosen {
            Some(id) => {
                self.remove_connection(id);
                Some(id)
            },
            None => None,
        }
    }
}

} // verus!

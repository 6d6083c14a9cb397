//! What the plugin records of each listen socket event, once Steam's part of
//! it is done: the event snapshot, and the change to the stored handles.

use crate::networking_types::{SteamworksNetConnectionEnd, SteamworksNetworkingIdentity};
use super::handles::{
    advanced_id, handle_answered, matches_disconnect, table_inserted, table_keys, table_removed,
    SteamworksConnectionEntry, SteamworksHandleStorageView, SteamworksNetworkingSocketsConnectionMetadata,
    SteamworksNetworkingSocketsHandleOwner, SteamworksNetworkingSocketsHandleStorage,
};
use super::identifiers::{SteamworksListenSocketId, SteamworksNetworkingSocketsConnectionId};
use super::types::{SteamworksConnectionRequestPolicy, SteamworksListenSocketEventInfo};
use vstd::prelude::*;

verus! {

/// A listen socket event as Steam delivered it.
pub enum SteamworksListenSocketReport<C> {
    /// A peer asked to connect, and the request was answered as the request
    /// policy says.
    RequestAnswered {
        /// Remote peer identity.
        remote: SteamworksNetworkingIdentity,
        /// Connection user data reported by Steam.
        user_data: i64,
    },
    /// A connection reached the connected state; Steam handed over its handle.
    Connected {
        /// Remote peer identity.
        remote: SteamworksNetworkingIdentity,
        /// Connection user data reported by Steam.
        user_data: i64,
        /// The new connection's handle.
        connection: C,
    },
    /// A connection on the socket ended.
    Disconnected {
        /// Remote peer identity.
        remote: SteamworksNetworkingIdentity,
        /// Connection user data reported by Steam.
        user_data: i64,
        /// End reason reported by Steam.
        end_reason: SteamworksNetConnectionEnd,
    },
}

/// How a disconnect event on `listen_socket` from `remote` with `user_data`
/// resolves in the connection table `before`: with no matching connection
/// nothing is removed; with one, it is removed; with several, the one whose
/// handle `answered` says ended as reported is removed if it is the only
/// such one, and otherwise nothing is. `removed` names the removed
/// connection, and `after` is the storage without it.
pub open spec fn disconnect_resolved<L, C, P>(
    before: SteamworksHandleStorageView<L, C, P>,
    after: SteamworksHandleStorageView<L, C, P>,
    listen_socket: SteamworksListenSocketId,
    remote: SteamworksNetworkingIdentity,
    user_data: i64,
    removed: Option<SteamworksNetworkingSocketsConnectionId>,
    answered: spec_fn(u64, bool) -> bool,
) -> bool {
    let candidates = table_keys(before.connections.filter(matches_disconnect(listen_socket, remote, user_data)));
    &&& candidates.len() == 0 ==> removed is None
    &&& candidates.len() == 1 ==> (removed matches Some(id) && id@ == candidates[0])
    &&& candidates.len() > 1 ==> match removed {
        Some(id) => answered(id@, true) && forall|k: u64|
            #[trigger] candidates.contains(k) && k != id@ ==> answered(k, false),
        None => (forall|k: u64| #[trigger] candidates.contains(k) ==> answered(k, false)) || exists|
            k1: u64,
            k2: u64,
        |
            #![trigger candidates.contains(k1), candidates.contains(k2)]
            candidates.contains(k1) && candidates.contains(k2) && k1 != k2 && answered(k1, true) && answered(
                k2,
                true,
            ),
    }
    &&& match removed {
        Some(id) => candidates.contains(id@) && after == (SteamworksHandleStorageView {
            connections: table_removed(before.connections, id@),
            ..before
        }),
        None => after == before,
    }
}

/// What recording `report` on `listen_socket` of `owner` does: the event
/// `info` reported and the storage `after` it, from the storage `before`.
/// An answered request changes nothing and is reported as the policy
/// decided it; a new connection is stored under the next fresh ID with the
/// socket's metadata; a disconnect resolves as `disconnect_resolved` says,
/// with `answered` telling whether a stored handle ended as reported.
pub open spec fn listen_event_recorded<L, C, P>(
    before: SteamworksHandleStorageView<L, C, P>,
    after: SteamworksHandleStorageView<L, C, P>,
    listen_socket: SteamworksListenSocketId,
    owner: SteamworksNetworkingSocketsHandleOwner,
    policy: SteamworksConnectionRequestPolicy,
    report: SteamworksListenSocketReport<C>,
    info: SteamworksListenSocketEventInfo,
    answered: spec_fn(u64, bool) -> bool,
) -> bool {
    match report {
        SteamworksListenSocketReport::RequestAnswered { remote, user_data } => {
            &&& info == if policy is Accept {
                SteamworksListenSocketEventInfo::ConnectionAccepted { listen_socket, remote, user_data }
            } else {
                SteamworksListenSocketEventInfo::ConnectionRejected { listen_socket, remote, user_data }
            }
            &&& after == before
        },
        SteamworksListenSocketReport::Connected { remote, user_data, connection } => {
            &&& info matches SteamworksListenSocketEventInfo::Connected {
                listen_socket: ls,
                connection: id,
                remote: r,
                user_data: u,
            }
            &&& ls == listen_socket && r == remote && u == user_data
            &&& id@ == before.next_connection_id
            &&& after == (SteamworksHandleStorageView {
                next_connection_id: advanced_id(before.next_connection_id),
                connections: table_inserted(
                    before.connections,
                    SteamworksConnectionEntry {
                        id,
                        owner,
                        handle: connection,
                        metadata: SteamworksNetworkingSocketsConnectionMetadata {
                            listen_socket: Some(listen_socket),
                            poll_group: None,
                            remote: Some(remote),
                            user_data,
                        },
                    },
                ),
                ..before
            })
        },
        SteamworksListenSocketReport::Disconnected { remote, user_data, end_reason } => {
            &&& info matches SteamworksListenSocketEventInfo::Disconnected {
                listen_socket: ls,
                connection: removed,
                remote: r,
                user_data: u,
                end_reason: reason,
            }
            &&& ls == listen_socket && r == remote && u == user_data && reason == end_reason
            &&& disconnect_resolved(before, after, listen_socket, remote, user_data, removed, answered)
        },
    }
}

/// A recorded event stays recorded when `answered` is replaced by anything
/// it implies for a disconnect.
pub proof fn lemma_listen_event_recorded_weakens<L, C, P>(
    before: SteamworksHandleStorageView<L, C, P>,
    after: SteamworksHandleStorageView<L, C, P>,
    listen_socket: SteamworksListenSocketId,
    owner: SteamworksNetworkingSocketsHandleOwner,
    policy: SteamworksConnectionRequestPolicy,
    report: SteamworksListenSocketReport<C>,
    info: SteamworksListenSocketEventInfo,
    answered: spec_fn(u64, bool) -> bool,
    implied: spec_fn(u64, bool) -> bool,
)
    requires
        listen_event_recorded(before, after, listen_socket, owner, policy, report, info, answered),
        report is Disconnected ==> forall|k: u64, b: bool| #[trigger] answered(k, b) ==> implied(k, b),
    ensures
        listen_event_recorded(before, after, listen_socket, owner, policy, report, info, implied),
{
    if let SteamworksListenSocketReport::Disconnected { remote, user_data, end_reason } = report {
        let candidates = table_keys(before.connections.filter(matches_disconnect(listen_socket, remote, user_data)));
        if candidates.len() > 1 {
            if let SteamworksListenSocketEventInfo::Disconnected { connection: removed, .. } = info {
                match removed {
                    Some(id) => {
                        assert(answered(id@, true));
                        assert forall|k: u64| #[trigger] candidates.contains(k) && k != id@ implies implied(
                            k,
                            false,
                        ) by {
                            assert(answered(k, false));
                        }
                    },
                    None => {
                        if forall|k: u64| #[trigger] candidates.contains(k) ==> answered(k, false) {
                            assert forall|k: u64| #[trigger] candidates.contains(k) implies implied(k, false) by {
                                assert(answered(k, false));
                            }
                        } else {
                            let (k1, k2) = choose|k1: u64, k2: u64|
                                #![trigger candidates.contains(k1), candidates.contains(k2)]
                                candidates.contains(k1) && candidates.contains(k2) && k1 != k2 && answered(
                                    k1,
                                    true,
                                ) && answered(k2, true);
                            assert(answered(k1, true) && answered(k2, true));
                            assert(implied(k1, true) && implied(k2, true));
                        }
                    },
                }
            }
        }
    }
}

/// Records one event of `listen_socket`, which `owner`'s interface created:
/// an answered request is reported as the policy decided it, a new
/// connection is stored with the socket's metadata under a fresh ID, and an
/// ended connection is taken out of the storage when it can be told apart
/// (`ends_as_reported` says whether a stored handle ended as reported).
pub fn record_listen_socket_event<L, C, P, F: Fn(&C) -> bool>(
    handles: &mut SteamworksNetworkingSocketsHandleStorage<L, C, P>,
    listen_socket: SteamworksListenSocketId,
    owner: SteamworksNetworkingSocketsHandleOwner,
    policy: &SteamworksConnectionRequestPolicy,
    report: SteamworksListenSocketReport<C>,
    ends_as_reported: F,
) -> (info: SteamworksListenSocketEventInfo)
    requires
        forall|c: &C| call_requires(ends_as_reported, (c,)),
    ensures
        listen_event_recorded(
            old(handles)@,
            final(handles)@,
            listen_socket,
            owner,
            *policy,
            report,
            info,
            |k: u64, b: bool| handle_answered(ends_as_reported, old(handles)@.connections, k, b),
        ),
{
    match report {
        SteamworksListenSocketReport::RequestAnswered { remote, user_data } => match policy {
            SteamworksConnectionRequestPolicy::Accept => {
                SteamworksListenSocketEventInfo::ConnectionAccepted { listen_socket, remote, user_data }
            },
            SteamworksConnectionRequestPolicy::Reject { .. } => {
                SteamworksListenSocketEventInfo::ConnectionRejected { listen_socket, remote, user_data }
            },
        },
        SteamworksListenSocketReport::Connected { remote, user_data, connection } => {
            let id = handles.insert_connection(
                connection,
                SteamworksNetworkingSocketsConnectionMetadata::listen_socket(listen_socket, remote, user_data),
                owner,
            );
            SteamworksListenSocketEventInfo::Connected { listen_socket, connection: id, remote, user_data }
        },
        SteamworksListenSocketReport::Disconnected { remote, user_data, end_reason } => {
            let removed = handles.remove_listen_connection_by_event(
                listen_socket,
                &remote,
                user_data,
                ends_as_reported,
            );
            SteamworksListenSocketEventInfo::Disconnected {
                listen_socket,
                connection: removed,
                remote,
                user_data,
                end_reason,
            }
        },
    }
}

} // verus!

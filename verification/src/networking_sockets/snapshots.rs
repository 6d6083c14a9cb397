//! Owned snapshots of connections, messages and closed handles.

use crate::cache::{snapshot_all, snapshot_views, SteamworksKeyedSnapshot, SteamworksSnapshot};
use crate::networking_types::{
    SteamworksNetConnectionEnd, SteamworksNetworkingConnectionState, SteamworksNetworkingIdentity,
    SteamworksSendFlags, SteamworksSteamError,
};
use super::identifiers::{
    SteamworksListenSocketId, SteamworksNetworkingSocketsConnectionId,
    SteamworksNetworkingSocketsPollGroupId,
};
use vstd::prelude::*;

verus! {

/// Owned snapshot of one Networking Sockets connection.
#[derive(Clone, Debug, PartialEq, Eq)]
pub struct SteamworksNetworkingSocketsConnectionInfo {
    /// Plugin-owned connection ID.
    pub connection: SteamworksNetworkingSocketsConnectionId,
    /// High-level connection state reported by Steam.
    pub state: SteamworksNetworkingConnectionState,
    /// Remote peer identity when Steam reports one.
    pub remote: Option<SteamworksNetworkingIdentity>,
    /// Connection user data reported by Steam.
    pub user_data: i64,
    /// End reason reported by Steam when the connection has ended.
    pub end_reason: Option<SteamworksNetConnectionEnd>,
}

impl View for SteamworksNetworkingSocketsConnectionInfo {
    type V = SteamworksNetworkingSocketsConnectionInfo;

    open spec fn view(&self) -> SteamworksNetworkingSocketsConnectionInfo {
        *self
    }
}

impl SteamworksSnapshot for SteamworksNetworkingSocketsConnectionInfo {
    fn snapshot(&self) -> (copy: Self) {
        let remote = match &self.remote {
            Some(remote) => Some(*remote),
            None => None,
        };
        SteamworksNetworkingSocketsConnectionInfo {
            connection: self.connection,
            state: self.state,
            remote,
            user_data: self.user_data,
            end_reason: self.end_reason,
        }
    }
}

impl SteamworksKeyedSnapshot for SteamworksNetworkingSocketsConnectionInfo {
    open spec fn key_of(view: SteamworksNetworkingSocketsConnectionInfo) -> u64 {
        view.connection@
    }

    fn snapshot_key(&self) -> (key: u64) {
        self.connection.raw()
    }
}

/// Owned snapshot of one Networking Sockets realtime lane.
#[derive(Clone, Copy, Debug, PartialEq, Eq)]
pub struct SteamworksNetworkingSocketsRealtimeLaneStatus {
    /// Pending unreliable bytes for this lane.
    pub pending_unreliable: i32,
    /// Pending reliable bytes for this lane.
    pub pending_reliable: i32,
    /// Sent reliable bytes awaiting acknowledgement for this lane.
    pub sent_unacked_reliable: i32,
    /// Lane-specific queue time reported by Steam.
    pub queued_send_bytes: i64,
}

/// Owned snapshot of realtime connection status.
///
/// Rates and qualities are held as IEEE-754 binary32 bit patterns.
#[derive(Clone, Debug, PartialEq, Eq)]
pub struct SteamworksNetworkingSocketsRealtimeStatus {
    /// Plugin-owned connection ID.
    pub connection: SteamworksNetworkingSocketsConnectionId,
    /// Connection state in the realtime status block.
    pub connection_state: SteamworksNetworkingConnectionState,
    /// Estimated ping in milliseconds.
    pub ping: i32,
    /// Bits of the local delivery quality between 0.0 and 1.0.
    pub connection_quality_local_bits: u32,
    /// Bits of the remote delivery quality between 0.0 and 1.0.
    pub connection_quality_remote_bits: u32,
    /// Bits of the outbound packet rate.
    pub out_packets_per_sec_bits: u32,
    /// Bits of the outbound byte rate.
    pub out_bytes_per_sec_bits: u32,
    /// Bits of the inbound packet rate.
    pub in_packets_per_sec_bits: u32,
    /// Bits of the inbound byte rate.
    pub in_bytes_per_sec_bits: u32,
    /// Estimated send capacity in bytes per second.
    pub send_rate_bytes_per_sec: i32,
    /// Pending unreliable bytes.
    pub pending_unreliable: i32,
    /// Pending reliable bytes.
    pub pending_reliable: i32,
    /// Sent reliable bytes awaiting acknowledgement.
    pub sent_unacked_reliable: i32,
    /// Queue time reported by Steam.
    pub queued_send_bytes: i64,
    /// Per-lane status snapshots.
    pub lanes: Vec<SteamworksNetworkingSocketsRealtimeLaneStatus>,
}

/// Abstract value of a realtime status snapshot: the snapshot with its lanes
/// as a sequence.
pub struct SteamworksRealtimeStatusView {
    /// Plugin-owned connection ID.
    pub connection: SteamworksNetworkingSocketsConnectionId,
    /// Connection state in the realtime status block.
    pub connection_state: SteamworksNetworkingConnectionState,
    /// Estimated ping in milliseconds.
    pub ping: i32,
    /// Bit patterns of local quality, remote quality, outbound packet rate,
    /// outbound byte rate, inbound packet rate and inbound byte rate.
    pub rate_bits: (u32, u32, u32, u32, u32, u32),
    /// Estimated send capacity in bytes per second.
    pub send_rate_bytes_per_sec: i32,
    /// Pending unreliable bytes.
    pub pending_unreliable: i32,
    /// Pending reliable bytes.
    pub pending_reliable: i32,
    /// Sent reliable bytes awaiting acknowledgement.
    pub sent_unacked_reliable: i32,
    /// Queue time reported by Steam.
    pub queued_send_bytes: i64,
    /// Per-lane status snapshots.
    pub lanes: Seq<SteamworksNetworkingSocketsRealtimeLaneStatus>,
}

impl View for SteamworksNetworkingSocketsRealtimeStatus {
    type V = SteamworksRealtimeStatusView;

    open spec fn view(&self) -> SteamworksRealtimeStatusView {
        SteamworksRealtimeStatusView {
            connection: self.connection,
            connection_state: self.connection_state,
            ping: self.ping,
            rate_bits: (
                self.connection_quality_local_bits,
                self.connection_quality_remote_bits,
                self.out_packets_per_sec_bits,
                self.out_bytes_per_sec_bits,
                self.in_packets_per_sec_bits,
                self.in_bytes_per_sec_bits,
            ),
            send_rate_bytes_per_sec: self.send_rate_bytes_per_sec,
            pending_unreliable: self.pending_unreliable,
            pending_reliable: self.pending_reliable,
            sent_unacked_reliable: self.sent_unacked_reliable,
            queued_send_bytes: self.queued_send_bytes,
            lanes: self.lanes@,
        }
    }
}

/// Copies a vector of plain lane snapshots.
fn copy_lanes(lanes: &Vec<SteamworksNetworkingSocketsRealtimeLaneStatus>) -> (copy: Vec<
    SteamworksNetworkingSocketsRealtimeLaneStatus,
>)
    ensures
        copy@ == lanes@,
{
    let mut copy: Vec<SteamworksNetworkingSocketsRealtimeLaneStatus> = Vec::new();
    let mut i: usize = 0;
    while i < lanes.len()
        invariant
            0 <= i <= lanes@.len(),
            copy@ == lanes@.take(i as int),
        decreases lanes@.len() - i,
    {
        copy.push(lanes[i]);
        proof {
            assert(copy@ =~= lanes@.take(i as int + 1));
        }
        i += 1;
    }
    proof {
        assert(lanes@.take(i as int) =~= lanes@);
    }
    copy
}

impl SteamworksSnapshot for SteamworksNetworkingSocketsRealtimeStatus {
    fn snapshot(&self) -> (copy: Self) {
        SteamworksNetworkingSocketsRealtimeStatus {
            connection: self.connection,
            connection_state: self.connection_state,
            ping: self.ping,
            connection_quality_local_bits: self.connection_quality_local_bits,
            connection_quality_remote_bits: self.connection_quality_remote_bits,
            out_packets_per_sec_bits: self.out_packets_per_sec_bits,
            out_bytes_per_sec_bits: self.out_bytes_per_sec_bits,
            in_packets_per_sec_bits: self.in_packets_per_sec_bits,
            in_bytes_per_sec_bits: self.in_bytes_per_sec_bits,
            send_rate_bytes_per_sec: self.send_rate_bytes_per_sec,
            pending_unreliable: self.pending_unreliable,
            pending_reliable: self.pending_reliable,
            sent_unacked_reliable: self.sent_unacked_reliable,
            queued_send_bytes: self.queued_send_bytes,
            lanes: copy_lanes(&self.lanes),
        }
    }
}

impl SteamworksKeyedSnapshot for SteamworksNetworkingSocketsRealtimeStatus {
    open spec fn key_of(view: SteamworksRealtimeStatusView) -> u64 {
        view.connection@
    }

    fn snapshot_key(&self) -> (key: u64) {
        self.connection.raw()
    }
}

/// Sent-message snapshot.
#[derive(Clone, Copy, Debug, PartialEq, Eq)]
pub struct SteamworksNetworkingSocketsSentMessage {
    /// Connection sent on.
    pub connection: SteamworksNetworkingSocketsConnectionId,
    /// Assigned message number.
    pub message_number: u64,
    /// Payload size in bytes.
    pub bytes: usize,
}

/// Per-message result returned by a batch send command.
#[derive(Clone, Copy, Debug, PartialEq, Eq)]
pub struct SteamworksNetworkingSocketsMessageSendResult {
    /// Connection that this message targeted.
    pub connection: SteamworksNetworkingSocketsConnectionId,
    /// Delivery flags used by this message.
    pub send_flags: SteamworksSendFlags,
    /// Message lane/channel.
    pub channel: i32,
    /// Payload size in bytes.
    pub bytes: usize,
    /// Application user data that was attached to the outgoing message.
    pub user_data: i64,
    /// Message number assigned by Steam, or the per-message Steam send error.
    pub result: Result<u64, SteamworksSteamError>,
}

impl View for SteamworksNetworkingSocketsMessageSendResult {
    type V = SteamworksNetworkingSocketsMessageSendResult;

    open spec fn view(&self) -> SteamworksNetworkingSocketsMessageSendResult {
        *self
    }
}

impl SteamworksSnapshot for SteamworksNetworkingSocketsMessageSendResult {
    fn snapshot(&self) -> (copy: Self) {
        *self
    }
}

impl SteamworksKeyedSnapshot for SteamworksNetworkingSocketsMessageSendResult {
    open spec fn key_of(view: SteamworksNetworkingSocketsMessageSendResult) -> u64 {
        view.connection@
    }

    fn snapshot_key(&self) -> (key: u64) {
        self.connection.raw()
    }
}

/// Owned outbound Networking Sockets message submitted by a batch send command.
#[derive(Clone, PartialEq, Eq)]
pub struct SteamworksNetworkingSocketsOutboundMessage {
    /// Connection to send on.
    pub connection: SteamworksNetworkingSocketsConnectionId,
    /// Delivery flags.
    pub send_flags: SteamworksSendFlags,
    /// Message lane/channel.
    pub channel: i32,
    /// Payload copied into a Steam message before sending.
    pub data: Vec<u8>,
    /// Application user data attached to the outgoing message.
    pub user_data: i64,
}

impl SteamworksNetworkingSocketsOutboundMessage {
    /// Creates an outbound message for channel `0` with no user data.
    pub fn new(
        connection: SteamworksNetworkingSocketsConnectionId,
        send_flags: SteamworksSendFlags,
        data: Vec<u8>,
    ) -> (message: Self)
        ensures
            message.connection == connection,
            message.send_flags == send_flags,
            message.channel == 0,
            message.data@ == data@,
            message.user_data == 0,
    {
        SteamworksNetworkingSocketsOutboundMessage {
            connection,
            send_flags,
            channel: 0,
            data,
            user_data: 0,
        }
    }

    /// Sets the message lane/channel.
    pub fn with_channel(self, channel: i32) -> (message: Self)
        ensures
            message.connection == self.connection,
            message.send_flags == self.send_flags,
            message.channel == channel,
            message.data@ == self.data@,
            message.user_data == self.user_data,
    {
        let mut message = self;
        message.channel = channel;
        message
    }

    /// Sets application user data on the outgoing message.
    pub fn with_user_data(self, user_data: i64) -> (message: Self)
        ensures
            message.connection == self.connection,
            message.send_flags == self.send_flags,
            message.channel == self.channel,
            message.data@ == self.data@,
            message.user_data == user_data,
    {
        let mut message = self;
        message.user_data = user_data;
        message
    }
}

/// Connection poll-group assignment snapshot.
#[derive(Clone, Copy, Debug, PartialEq, Eq)]
pub struct SteamworksNetworkingSocketsPollGroupAssignment {
    /// Connection assigned.
    pub connection: SteamworksNetworkingSocketsConnectionId,
    /// Poll group assigned.
    pub poll_group: SteamworksNetworkingSocketsPollGroupId,
}

/// Connection lane configuration snapshot.
#[derive(Clone, Copy, Debug, PartialEq, Eq)]
pub struct SteamworksNetworkingSocketsLaneConfiguration {
    /// Connection configured.
    pub connection: SteamworksNetworkingSocketsConnectionId,
    /// Number of lanes configured.
    pub lanes: usize,
}

/// Connection user-data read or mutation snapshot.
#[derive(Clone, Copy, Debug, PartialEq, Eq)]
pub struct SteamworksNetworkingSocketsConnectionUserData {
    /// Connection inspected or updated.
    pub connection: SteamworksNetworkingSocketsConnectionId,
    /// User data value.
    pub user_data: i64,
}

/// Connection debug-name mutation snapshot.
#[derive(Clone, PartialEq, Eq)]
pub struct SteamworksNetworkingSocketsConnectionName {
    /// Connection updated.
    pub connection: SteamworksNetworkingSocketsConnectionId,
    /// Debug name submitted to Steam.
    pub name: String,
}

/// Abstract value of a connection debug-name snapshot.
pub struct SteamworksConnectionNameView {
    /// Connection updated.
    pub connection: SteamworksNetworkingSocketsConnectionId,
    /// Debug name submitted to Steam.
    pub name: Seq<char>,
}

impl View for SteamworksNetworkingSocketsConnectionName {
    type V = SteamworksConnectionNameView;

    open spec fn view(&self) -> SteamworksConnectionNameView {
        SteamworksConnectionNameView { connection: self.connection, name: self.name@ }
    }
}

/// Connection close snapshot.
#[derive(Clone, Copy, Debug, PartialEq, Eq)]
pub struct SteamworksNetworkingSocketsConnectionClosed {
    /// Connection removed.
    pub connection: SteamworksNetworkingSocketsConnectionId,
    /// Return value from Steam's close call.
    pub close_succeeded: bool,
}

/// Listen socket close snapshot.
#[derive(Clone, Debug, PartialEq, Eq)]
pub struct SteamworksNetworkingSocketsListenSocketClosed {
    /// Listen socket removed.
    pub listen_socket: SteamworksListenSocketId,
    /// Accepted child connections removed with the listen socket.
    pub closed_connections: Vec<SteamworksNetworkingSocketsConnectionId>,
}

/// Abstract value of a listen socket close snapshot.
pub struct SteamworksListenSocketClosedView {
    /// Listen socket removed.
    pub listen_socket: SteamworksListenSocketId,
    /// Accepted child connections removed with the listen socket.
    pub closed_connections: Seq<SteamworksNetworkingSocketsConnectionId>,
}

impl View for SteamworksNetworkingSocketsListenSocketClosed {
    type V = SteamworksListenSocketClosedView;

    open spec fn view(&self) -> SteamworksListenSocketClosedView {
        SteamworksListenSocketClosedView {
            listen_socket: self.listen_socket,
            closed_connections: self.closed_connections@,
        }
    }
}

/// Copies a vector of connection IDs.
pub fn copy_connection_ids(ids: &Vec<SteamworksNetworkingSocketsConnectionId>) -> (copy: Vec<
    SteamworksNetworkingSocketsConnectionId,
>)
    ensures
        copy@ == ids@,
{
    let mut copy: Vec<SteamworksNetworkingSocketsConnectionId> = Vec::new();
    let mut i: usize = 0;
    while i < ids.len()
        invariant
            0 <= i <= ids@.len(),
            copy@ == ids@.take(i as int),
        decreases ids@.len() - i,
    {
        copy.push(ids[i]);
        proof {
            assert(copy@ =~= ids@.take(i as int + 1));
        }
        i += 1;
    }
    proof {
        assert(ids@.take(i as int) =~= ids@);
    }
    copy
}

impl SteamworksSnapshot for SteamworksNetworkingSocketsListenSocketClosed {
    fn snapshot(&self) -> (copy: Self) {
        SteamworksNetworkingSocketsListenSocketClosed {
            listen_socket: self.listen_socket,
            closed_connections: copy_connection_ids(&self.closed_connections),
        }
    }
}

/// Owned snapshot of one received Networking Sockets message.
#[derive(Clone, PartialEq, Eq)]
pub struct SteamworksNetworkingSocketsMessage {
    /// Connection that received the message.
    pub connection: SteamworksNetworkingSocketsConnectionId,
    /// Remote peer identity carried by Steam's message.
    pub peer: SteamworksNetworkingIdentity,
    /// Message payload copied from Steam's message handle.
    pub data: Vec<u8>,
    /// Message lane/channel.
    pub channel: i32,
    /// Message flags reported by Steam.
    pub send_flags: SteamworksSendFlags,
    /// Message number assigned by the sender.
    pub message_number: u64,
    /// Connection user data captured by Steam for this message.
    pub connection_user_data: i64,
}

/// Abstract value of a received message: the message with its payload as a
/// sequence of bytes.
pub struct SteamworksMessageView {
    /// Connection that received the message.
    pub connection: SteamworksNetworkingSocketsConnectionId,
    /// Remote peer identity.
    pub peer: SteamworksNetworkingIdentity,
    /// Payload bytes.
    pub data: Seq<u8>,
    /// Message lane/channel.
    pub channel: i32,
    /// Message flags.
    pub send_flags: SteamworksSendFlags,
    /// Message number assigned by the sender.
    pub message_number: u64,
    /// Connection user data captured by Steam for this message.
    pub connection_user_data: i64,
}

impl View for SteamworksNetworkingSocketsMessage {
    type V = SteamworksMessageView;

    open spec fn view(&self) -> SteamworksMessageView {
        SteamworksMessageView {
            connection: self.connection,
            peer: self.peer,
            data: self.data@,
            channel: self.channel,
            send_flags: self.send_flags,
            message_number: self.message_number,
            connection_user_data: self.connection_user_data,
        }
    }
}

/// Copies a byte payload.
pub fn copy_bytes(bytes: &Vec<u8>) -> (copy: Vec<u8>)
    ensures
        copy@ == bytes@,
{
    let mut copy: Vec<u8> = Vec::new();
    let mut i: usize = 0;
    while i < bytes.len()
        invariant
            0 <= i <= bytes@.len(),
            copy@ == bytes@.take(i as int),
        decreases bytes@.len() - i,
    {
        copy.push(bytes[i]);
        proof {
            assert(copy@ =~= bytes@.take(i as int + 1));
        }
        i += 1;
    }
    proof {
        assert(bytes@.take(i as int) =~= bytes@);
    }
    copy
}

impl SteamworksSnapshot for SteamworksNetworkingSocketsMessage {
    fn snapshot(&self) -> (copy: Self) {
        SteamworksNetworkingSocketsMessage {
            connection: self.connection,
            peer: self.peer,
            data: copy_bytes(&self.data),
            channel: self.channel,
            send_flags: self.send_flags,
            message_number: self.message_number,
            connection_user_data: self.connection_user_data,
        }
    }
}

impl SteamworksKeyedSnapshot for SteamworksNetworkingSocketsMessage {
    open spec fn key_of(view: SteamworksMessageView) -> u64 {
        view.connection@
    }

    fn snapshot_key(&self) -> (key: u64) {
        self.connection.raw()
    }
}

/// Message batch received from one connection.
#[derive(Clone, PartialEq, Eq)]
pub struct SteamworksNetworkingSocketsConnectionMessages {
    /// Connection that was received from.
    pub connection: SteamworksNetworkingSocketsConnectionId,
    /// Owned message snapshots.
    pub messages: Vec<SteamworksNetworkingSocketsMessage>,
}

/// Abstract value of a per-connection message batch.
pub struct SteamworksConnectionMessagesView {
    /// Connection that was received from.
    pub connection: SteamworksNetworkingSocketsConnectionId,
    /// Received messages, oldest first.
    pub messages: Seq<SteamworksMessageView>,
}

impl View for SteamworksNetworkingSocketsConnectionMessages {
    type V = SteamworksConnectionMessagesView;

    open spec fn view(&self) -> SteamworksConnectionMessagesView {
        SteamworksConnectionMessagesView {
            connection: self.connection,
            messages: snapshot_views(self.messages@),
        }
    }
}

/// Owned snapshot of one message received through a poll group.
#[derive(Clone, PartialEq, Eq)]
pub struct SteamworksNetworkingSocketsPollGroupMessage {
    /// Poll group that received the message.
    pub poll_group: SteamworksNetworkingSocketsPollGroupId,
    /// Remote peer identity carried by Steam's message.
    pub peer: SteamworksNetworkingIdentity,
    /// Message payload copied from Steam's message handle.
    pub data: Vec<u8>,
    /// Message lane/channel.
    pub channel: i32,
    /// Message flags reported by Steam.
    pub send_flags: SteamworksSendFlags,
    /// Message number assigned by the sender.
    pub message_number: u64,
    /// Connection user data captured by Steam for this message.
    pub connection_user_data: i64,
}

/// Abstract value of a poll-group message.
pub struct SteamworksPollGroupMessageView {
    /// Poll group that received the message.
    pub poll_group: SteamworksNetworkingSocketsPollGroupId,
    /// Remote peer identity.
    pub peer: SteamworksNetworkingIdentity,
    /// Payload bytes.
    pub data: Seq<u8>,
    /// Message lane/channel.
    pub channel: i32,
    /// Message flags.
    pub send_flags: SteamworksSendFlags,
    /// Message number assigned by the sender.
    pub message_number: u64,
    /// Connection user data captured by Steam for this message.
    pub connection_user_data: i64,
}

impl View for SteamworksNetworkingSocketsPollGroupMessage {
    type V = SteamworksPollGroupMessageView;

    open spec fn view(&self) -> SteamworksPollGroupMessageView {
        SteamworksPollGroupMessageView {
            poll_group: self.poll_group,
            peer: self.peer,
            data: self.data@,
            channel: self.channel,
            send_flags: self.send_flags,
            message_number: self.message_number,
            connection_user_data: self.connection_user_data,
        }
    }
}

impl SteamworksSnapshot for SteamworksNetworkingSocketsPollGroupMessage {
    fn snapshot(&self) -> (copy: Self) {
        SteamworksNetworkingSocketsPollGroupMessage {
            poll_group: self.poll_group,
            peer: self.peer,
            data: copy_bytes(&self.data),
            channel: self.channel,
            send_flags: self.send_flags,
            message_number: self.message_number,
            connection_user_data: self.connection_user_data,
        }
    }
}

impl SteamworksKeyedSnapshot for SteamworksNetworkingSocketsPollGroupMessage {
    open spec fn key_of(view: SteamworksPollGroupMessageView) -> u64 {
        view.poll_group@
    }

    fn snapshot_key(&self) -> (key: u64) {
        self.poll_group.raw()
    }
}

/// Message batch received from one poll group.
#[derive(Clone, PartialEq, Eq)]
pub struct SteamworksNetworkingSocketsPollGroupMessages {
    /// Poll group that was received from.
    pub poll_group: SteamworksNetworkingSocketsPollGroupId,
    /// Owned message snapshots.
    pub messages: Vec<SteamworksNetworkingSocketsPollGroupMessage>,
}

/// Abstract value of a per-poll-group message batch.
pub struct SteamworksPollGroupMessagesView {
    /// Poll group that was received from.
    pub poll_group: SteamworksNetworkingSocketsPollGroupId,
    /// Received messages, oldest first.
    pub messages: Seq<SteamworksPollGroupMessageView>,
}

impl View for SteamworksNetworkingSocketsPollGroupMessages {
    type V = SteamworksPollGroupMessagesView;

    open spec fn view(&self) -> SteamworksPollGroupMessagesView {
        SteamworksPollGroupMessagesView {
            poll_group: self.poll_group,
            messages: snapshot_views(self.messages@),
        }
    }
}

} // verus!

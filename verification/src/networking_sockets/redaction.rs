//! Summaries of values that carry payloads, names or string settings, for
//! logs: each summary keeps every other field and only the length of what
//! it leaves out, so a summary cannot show a payload, a name or a string
//! value.

use super::identifiers::{SteamworksNetworkingSocketsConnectionId, SteamworksNetworkingSocketsPollGroupId};
use super::snapshots::{
    SteamworksNetworkingSocketsConnectionName, SteamworksNetworkingSocketsMessage,
    SteamworksNetworkingSocketsOutboundMessage, SteamworksNetworkingSocketsPollGroupMessage,
};
use super::types::SteamworksNetworkingSocketsConfigEntry;
use crate::networking_types::{SteamworksNetworkingConfigKey, SteamworksNetworkingIdentity, SteamworksSendFlags};
use vstd::prelude::*;

verus! {

/// The byte length of `text` in UTF-8.
pub open spec fn utf8_len(text: Seq<char>) -> nat {
    vstd::utf8::encode_utf8(text).len()
}

/// The byte length of `text` in UTF-8.
fn text_len(text: &String) -> (len: usize)
    ensures
        len == utf8_len(text@) as usize,
{
    text.as_str().len()
}

/// An outbound message without its payload.
#[derive(Clone, Copy, Debug, PartialEq, Eq, Structural)]
pub struct SteamworksOutboundMessageSummary {
    /// Connection to send on.
    pub connection: SteamworksNetworkingSocketsConnectionId,
    /// Steam send flags.
    pub send_flags: SteamworksSendFlags,
    /// Lane or channel.
    pub channel: i32,
    /// Payload length in bytes.
    pub data_len: usize,
    /// User data attached to the message.
    pub user_data: i64,
}

/// Summarizes an outbound message.
pub fn summarize_outbound_message(message: &SteamworksNetworkingSocketsOutboundMessage) -> (summary:
    SteamworksOutboundMessageSummary)
    ensures
        summary == (SteamworksOutboundMessageSummary {
            connection: message.connection,
            send_flags: message.send_flags,
            channel: message.channel,
            data_len: message.data@.len() as usize,
            user_data: message.user_data,
        }),
{
    SteamworksOutboundMessageSummary {
        connection: message.connection,
        send_flags: message.send_flags,
        channel: message.channel,
        data_len: message.data.len(),
        user_data: message.user_data,
    }
}

/// A received connection message without its payload.
#[derive(Clone, Copy, Debug, PartialEq, Eq, Structural)]
pub struct SteamworksMessageSummary {
    /// Connection the message arrived on.
    pub connection: SteamworksNetworkingSocketsConnectionId,
    /// Sending peer.
    pub peer: SteamworksNetworkingIdentity,
    /// Payload length in bytes.
    pub data_len: usize,
    /// Lane or channel.
    pub channel: i32,
    /// Steam send flags.
    pub send_flags: SteamworksSendFlags,
    /// Steam message number.
    pub message_number: u64,
    /// Connection user data at receipt.
    pub connection_user_data: i64,
}

/// Summarizes a received connection message.
pub fn summarize_message(message: &SteamworksNetworkingSocketsMessage) -> (summary: SteamworksMessageSummary)
    ensures
        summary == (SteamworksMessageSummary {
            connection: message.connection,
            peer: message.peer,
            data_len: message.data@.len() as usize,
            channel: message.channel,
            send_flags: message.send_flags,
            message_number: message.message_number,
            connection_user_data: message.connection_user_data,
        }),
{
    SteamworksMessageSummary {
        connection: message.connection,
        peer: message.peer,
        data_len: message.data.len(),
        channel: message.channel,
        send_flags: message.send_flags,
        message_number: message.message_number,
        connection_user_data: message.connection_user_data,
    }
}

/// A received poll-group message without its payload.
#[derive(Clone, Copy, Debug, PartialEq, Eq, Structural)]
pub struct SteamworksPollGroupMessageSummary {
    /// Poll group the message arrived on.
    pub poll_group: SteamworksNetworkingSocketsPollGroupId,
    /// Sending peer.
    pub peer: SteamworksNetworkingIdentity,
    /// Payload length in bytes.
    pub data_len: usize,
    /// Lane or channel.
    pub channel: i32,
    /// Steam send flags.
    pub send_flags: SteamworksSendFlags,
    /// Steam message number.
    pub message_number: u64,
    /// Connection user data at receipt.
    pub connection_user_data: i64,
}

/// Summarizes a received poll-group message.
pub fn summarize_poll_group_message(message: &SteamworksNetworkingSocketsPollGroupMessage) -> (summary:
    SteamworksPollGroupMessageSummary)
    ensures
        summary == (SteamworksPollGroupMessageSummary {
            poll_group: message.poll_group,
            peer: message.peer,
            data_len: message.data@.len() as usize,
            channel: message.channel,
            send_flags: message.send_flags,
            message_number: message.message_number,
            connection_user_data: message.connection_user_data,
        }),
{
    SteamworksPollGroupMessageSummary {
        poll_group: message.poll_group,
        peer: message.peer,
        data_len: message.data.len(),
        channel: message.channel,
        send_flags: message.send_flags,
        message_number: message.message_number,
        connection_user_data: message.connection_user_data,
    }
}

/// A configuration entry with a string value replaced by its length.
#[derive(Clone, Copy, Debug, PartialEq, Eq, Structural)]
pub enum SteamworksConfigEntrySummary {
    /// 32-bit integer setting.
    Int32 {
        /// Configuration key.
        value: SteamworksNetworkingConfigKey,
        /// Setting.
        data: i32,
    },
    /// 64-bit integer setting.
    Int64 {
        /// Configuration key.
        value: SteamworksNetworkingConfigKey,
        /// Setting.
        data: i64,
    },
    /// Float setting, by its bits.
    Float {
        /// Configuration key.
        value: SteamworksNetworkingConfigKey,
        /// Bits of the setting.
        data_bits: u32,
    },
    /// String setting, by its byte length.
    String {
        /// Configuration key.
        value: SteamworksNetworkingConfigKey,
        /// Byte length of the setting.
        data_len: usize,
    },
}

/// Summarizes a configuration entry.
pub fn summarize_config_entry(entry: &SteamworksNetworkingSocketsConfigEntry) -> (summary:
    SteamworksConfigEntrySummary)
    ensures
        summary == match *entry {
            SteamworksNetworkingSocketsConfigEntry::Int32 { value, data } => SteamworksConfigEntrySummary::Int32 {
                value,
                data,
            },
            SteamworksNetworkingSocketsConfigEntry::Int64 { value, data } => SteamworksConfigEntrySummary::Int64 {
                value,
                data,
            },
            SteamworksNetworkingSocketsConfigEntry::Float { value, data_bits } => SteamworksConfigEntrySummary::Float {
                value,
                data_bits,
            },
            SteamworksNetworkingSocketsConfigEntry::String { value, data } => SteamworksConfigEntrySummary::String {
                value,
                data_len: utf8_len(data@) as usize,
            },
        },
{
    match entry {
        SteamworksNetworkingSocketsConfigEntry::Int32 { value, data } => SteamworksConfigEntrySummary::Int32 {
            value: *value,
            data: *data,
        },
        SteamworksNetworkingSocketsConfigEntry::Int64 { value, data } => SteamworksConfigEntrySummary::Int64 {
            value: *value,
            data: *data,
        },
        SteamworksNetworkingSocketsConfigEntry::Float { value, data_bits } => SteamworksConfigEntrySummary::Float {
            value: *value,
            data_bits: *data_bits,
        },
        SteamworksNetworkingSocketsConfigEntry::String { value, data } => SteamworksConfigEntrySummary::String {
            value: *value,
            data_len: text_len(data),
        },
    }
}

/// A connection name replaced by its byte length.
#[derive(Clone, Copy, Debug, PartialEq, Eq, Structural)]
pub struct SteamworksConnectionNameSummary {
    /// Named connection.
    pub connection: SteamworksNetworkingSocketsConnectionId,
    /// Byte length of the name.
    pub name_len: usize,
}

/// Summarizes a connection name.
pub fn summarize_connection_name(
    connection: SteamworksNetworkingSocketsConnectionId,
    name: &String,
) -> (summary: SteamworksConnectionNameSummary)
    ensures
        summary == (SteamworksConnectionNameSummary { connection, name_len: utf8_len(name@) as usize }),
{
    SteamworksConnectionNameSummary { connection, name_len: text_len(name) }
}

/// Summarizes a stored connection name snapshot.
pub fn summarize_connection_name_snapshot(snapshot: &SteamworksNetworkingSocketsConnectionName) -> (summary:
    SteamworksConnectionNameSummary)
    ensures
        summary == (SteamworksConnectionNameSummary {
            connection: snapshot.connection,
            name_len: utf8_len(snapshot.name@) as usize,
        }),
{
    summarize_connection_name(snapshot.connection, &snapshot.name)
}

} // verus!

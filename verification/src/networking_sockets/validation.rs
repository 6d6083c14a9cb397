//! Validation of Networking Sockets commands before they reach Steam.

use crate::networking_types::SteamworksNetworkingConfigDataType;
use super::command::SteamworksNetworkingSocketsCommand;
use super::error::SteamworksNetworkingSocketsError;
use super::snapshots::SteamworksNetworkingSocketsOutboundMessage;
use super::types::{SteamworksConnectionRequestPolicy, SteamworksNetworkingSocketsConfigEntry};
use super::{
    STEAMWORKS_NETWORKING_SOCKETS_MAX_CONFIGURED_LANES,
    STEAMWORKS_NETWORKING_SOCKETS_MAX_CONFIG_ENTRIES,
    STEAMWORKS_NETWORKING_SOCKETS_MAX_EVENTS_PER_COMMAND,
    STEAMWORKS_NETWORKING_SOCKETS_MAX_MESSAGES_PER_COMMAND,
    STEAMWORKS_NETWORKING_SOCKETS_MAX_MESSAGE_BYTES,
    STEAMWORKS_NETWORKING_SOCKETS_MAX_REALTIME_LANES,
};
use vstd::prelude::*;
use vstd::utf8::encode_utf8;

verus! {

/// Whether the UTF-8 encoding of `text` contains a NUL byte.
pub open spec fn text_has_nul(text: Seq<char>) -> bool {
    encode_utf8(text).contains(0u8)
}

/// Whether an IEEE-754 binary32 bit pattern encodes a finite number
/// (its exponent field is not all ones).
pub open spec fn float_bits_are_finite(bits: u32) -> bool {
    (bits >> 23u32) & 0xffu32 != 0xffu32
}

/// Outcome of checking a poll command's event limit.
pub open spec fn event_limit_check(max_events: usize) -> Result<(), SteamworksNetworkingSocketsError> {
    if max_events == 0 {
        Err(SteamworksNetworkingSocketsError::InvalidEventLimit)
    } else if max_events > STEAMWORKS_NETWORKING_SOCKETS_MAX_EVENTS_PER_COMMAND {
        Err(
            SteamworksNetworkingSocketsError::TooManyEvents {
                requested: max_events,
                max_supported: STEAMWORKS_NETWORKING_SOCKETS_MAX_EVENTS_PER_COMMAND,
            },
        )
    } else {
        Ok(())
    }
}

/// Outcome of checking a receive command's batch size.
pub open spec fn message_batch_size_check(batch_size: usize) -> Result<(), SteamworksNetworkingSocketsError> {
    if batch_size == 0 {
        Err(SteamworksNetworkingSocketsError::InvalidBatchSize)
    } else if batch_size > STEAMWORKS_NETWORKING_SOCKETS_MAX_MESSAGES_PER_COMMAND {
        Err(
            SteamworksNetworkingSocketsError::BatchSizeTooLarge {
                requested: batch_size,
                max_supported: STEAMWORKS_NETWORKING_SOCKETS_MAX_MESSAGES_PER_COMMAND,
            },
        )
    } else {
        Ok(())
    }
}

/// Outcome of checking the size of a batch send.
pub open spec fn send_message_batch_size_check(batch_size: usize) -> Result<(), SteamworksNetworkingSocketsError> {
    if batch_size == 0 {
        Err(SteamworksNetworkingSocketsError::EmptyMessageBatch)
    } else if batch_size > STEAMWORKS_NETWORKING_SOCKETS_MAX_MESSAGES_PER_COMMAND {
        Err(
            SteamworksNetworkingSocketsError::SendBatchTooLarge {
                requested: batch_size,
                max_supported: STEAMWORKS_NETWORKING_SOCKETS_MAX_MESSAGES_PER_COMMAND,
            },
        )
    } else {
        Ok(())
    }
}

/// Outcome of checking one message payload size.
pub open spec fn message_payload_len_check(bytes: usize) -> Result<(), SteamworksNetworkingSocketsError> {
    if bytes > STEAMWORKS_NETWORKING_SOCKETS_MAX_MESSAGE_BYTES {
        Err(
            SteamworksNetworkingSocketsError::MessageTooLarge {
                bytes,
                max_supported: STEAMWORKS_NETWORKING_SOCKETS_MAX_MESSAGE_BYTES,
            },
        )
    } else {
        Ok(())
    }
}

/// Outcome of checking one message channel.
pub open spec fn message_channel_check(channel: i32) -> Result<(), SteamworksNetworkingSocketsError> {
    if channel < 0 {
        Err(SteamworksNetworkingSocketsError::InvalidMessageChannel { channel })
    } else {
        Ok(())
    }
}

/// Outcome of checking a lane configuration's priorities and weights.
pub open spec fn lane_configuration_check(priorities: nat, weights: nat) -> Result<(), SteamworksNetworkingSocketsError> {
    if priorities == 0 || priorities != weights {
        Err(
            SteamworksNetworkingSocketsError::InvalidLaneConfiguration {
                priorities: priorities as usize,
                weights: weights as usize,
            },
        )
    } else if priorities > STEAMWORKS_NETWORKING_SOCKETS_MAX_CONFIGURED_LANES {
        Err(
            SteamworksNetworkingSocketsError::TooManyConfiguredLanes {
                requested: priorities as usize,
                max_supported: STEAMWORKS_NETWORKING_SOCKETS_MAX_CONFIGURED_LANES,
            },
        )
    } else {
        Ok(())
    }
}

/// Outcome of checking a virtual port.
pub open spec fn virtual_port_check(port: i32) -> Result<(), SteamworksNetworkingSocketsError> {
    if port < 0 {
        Err(SteamworksNetworkingSocketsError::InvalidVirtualPort { port })
    } else {
        Ok(())
    }
}

/// Outcome of checking a connection request policy.
pub open spec fn request_policy_check(policy: SteamworksConnectionRequestPolicy) -> Result<(), SteamworksNetworkingSocketsError> {
    match policy {
        SteamworksConnectionRequestPolicy::Reject { debug: Some(text), .. } => {
            if text_has_nul(text@) {
                Err(SteamworksNetworkingSocketsError::InvalidString { field: "request_policy.debug" })
            } else {
                Ok(())
            }
        },
        _ => Ok(()),
    }
}

/// The error for a config entry whose key expects `expected` but which holds
/// `actual`.
pub open spec fn config_type_error(
    index: usize,
    expected: SteamworksNetworkingConfigDataType,
    actual: SteamworksNetworkingConfigDataType,
) -> SteamworksNetworkingSocketsError {
    SteamworksNetworkingSocketsError::InvalidConfigEntryType { index, expected, actual }
}

/// Outcome of checking the config entry at position `index`.
pub open spec fn config_entry_check(index: usize, entry: SteamworksNetworkingSocketsConfigEntry) -> Result<(), SteamworksNetworkingSocketsError> {
    match entry {
        SteamworksNetworkingSocketsConfigEntry::Int32 { value, .. } => {
            if value.data_type != SteamworksNetworkingConfigDataType::Int32 {
                Err(config_type_error(index, value.data_type, SteamworksNetworkingConfigDataType::Int32))
            } else {
                Ok(())
            }
        },
        SteamworksNetworkingSocketsConfigEntry::Int64 { value, .. } => {
            if value.data_type != SteamworksNetworkingConfigDataType::Int64 {
                Err(config_type_error(index, value.data_type, SteamworksNetworkingConfigDataType::Int64))
            } else {
                Ok(())
            }
        },
        SteamworksNetworkingSocketsConfigEntry::Float { value, data_bits } => {
            if value.data_type != SteamworksNetworkingConfigDataType::Float {
                Err(config_type_error(index, value.data_type, SteamworksNetworkingConfigDataType::Float))
            } else if !float_bits_are_finite(data_bits) {
                Err(SteamworksNetworkingSocketsError::InvalidConfigFloat { index })
            } else {
                Ok(())
            }
        },
        SteamworksNetworkingSocketsConfigEntry::String { value, data } => {
            if value.data_type != SteamworksNetworkingConfigDataType::String {
                Err(config_type_error(index, value.data_type, SteamworksNetworkingConfigDataType::String))
            } else if text_has_nul(data@) {
                Err(SteamworksNetworkingSocketsError::InvalidConfigString { index })
            } else {
                Ok(())
            }
        },
    }
}

/// Outcome of checking the config entries from position `from` on: the
/// error of the first invalid entry, if any.
pub open spec fn config_entries_check_from(entries: Seq<SteamworksNetworkingSocketsConfigEntry>, from: int) -> Result<(), SteamworksNetworkingSocketsError>
    decreases entries.len() - from,
{
    if from < 0 || from >= entries.len() {
        Ok(())
    } else {
        match config_entry_check(from as usize, entries[from]) {
            Err(error) => Err(error),
            Ok(()) => config_entries_check_from(entries, from + 1),
        }
    }
}

/// Outcome of checking a list of initial config entries.
pub open spec fn config_entries_check(entries: Seq<SteamworksNetworkingSocketsConfigEntry>) -> Result<(), SteamworksNetworkingSocketsError> {
    if entries.len() > STEAMWORKS_NETWORKING_SOCKETS_MAX_CONFIG_ENTRIES {
        Err(
            SteamworksNetworkingSocketsError::TooManyConfigEntries {
                requested: entries.len() as usize,
                max_supported: STEAMWORKS_NETWORKING_SOCKETS_MAX_CONFIG_ENTRIES,
            },
        )
    } else {
        config_entries_check_from(entries, 0)
    }
}

/// Outcome of checking one outbound message of a batch send.
pub open spec fn outbound_message_check(message: SteamworksNetworkingSocketsOutboundMessage) -> Result<(), SteamworksNetworkingSocketsError> {
    match message_payload_len_check(message.data@.len() as usize) {
        Err(error) => Err(error),
        Ok(()) => message_channel_check(message.channel),
    }
}

/// Outcome of checking the outbound messages from position `from` on.
pub open spec fn outbound_messages_check_from(messages: Seq<SteamworksNetworkingSocketsOutboundMessage>, from: int) -> Result<(), SteamworksNetworkingSocketsError>
    decreases messages.len() - from,
{
    if from < 0 || from >= messages.len() {
        Ok(())
    } else {
        match outbound_message_check(messages[from]) {
            Err(error) => Err(error),
            Ok(()) => outbound_messages_check_from(messages, from + 1),
        }
    }
}

/// Outcome of checking a batch send.
pub open spec fn outbound_messages_check(messages: Seq<SteamworksNetworkingSocketsOutboundMessage>) -> Result<(), SteamworksNetworkingSocketsError> {
    match send_message_batch_size_check(messages.len() as usize) {
        Err(error) => Err(error),
        Ok(()) => outbound_messages_check_from(messages, 0),
    }
}

/// Outcome of checking an optional debug text passed to Steam.
pub open spec fn debug_text_check(debug: Option<String>) -> Result<(), SteamworksNetworkingSocketsError> {
    match debug {
        Some(text) => if text_has_nul(text@) {
            Err(SteamworksNetworkingSocketsError::InvalidString { field: "debug" })
        } else {
            Ok(())
        },
        None => Ok(()),
    }
}

/// Outcome of validating a command before it reaches Steam.
pub open spec fn command_check(command: SteamworksNetworkingSocketsCommand) -> Result<(), SteamworksNetworkingSocketsError> {
    match command {
        SteamworksNetworkingSocketsCommand::CreateListenSocketIp { options, .. } => config_entries_check(options@),
        SteamworksNetworkingSocketsCommand::CreateListenSocketP2p { local_virtual_port, options } => {
            match virtual_port_check(local_virtual_port) {
                Err(error) => Err(error),
                Ok(()) => config_entries_check(options@),
            }
        },
        SteamworksNetworkingSocketsCommand::CreateHostedDedicatedServerListenSocket { options, .. } => config_entries_check(options@),
        SteamworksNetworkingSocketsCommand::ConnectByIpAddress { options, .. } => config_entries_check(options@),
        SteamworksNetworkingSocketsCommand::ConnectP2p { remote_virtual_port, options, .. } => {
            match virtual_port_check(remote_virtual_port) {
                Err(error) => Err(error),
                Ok(()) => config_entries_check(options@),
            }
        },
        SteamworksNetworkingSocketsCommand::PollListenSocketEvents { max_events, request_policy, .. } => {
            match event_limit_check(max_events) {
                Err(error) => Err(error),
                Ok(()) => request_policy_check(request_policy),
            }
        },
        SteamworksNetworkingSocketsCommand::PollAllListenSocketEvents { max_events_per_socket, request_policy } => {
            match event_limit_check(max_events_per_socket) {
                Err(error) => Err(error),
                Ok(()) => request_policy_check(request_policy),
            }
        },
        SteamworksNetworkingSocketsCommand::PollConnectionEvents { max_events, .. } => event_limit_check(max_events),
        SteamworksNetworkingSocketsCommand::PollAllConnectionEvents { max_events_per_connection } => event_limit_check(max_events_per_connection),
        SteamworksNetworkingSocketsCommand::ReceiveMessages { batch_size, .. } => message_batch_size_check(batch_size),
        SteamworksNetworkingSocketsCommand::ReceiveAllMessages { batch_size_per_connection } => message_batch_size_check(batch_size_per_connection),
        SteamworksNetworkingSocketsCommand::ReceivePollGroupMessages { batch_size, .. } => message_batch_size_check(batch_size),
        SteamworksNetworkingSocketsCommand::ReceiveAllPollGroupMessages { batch_size_per_poll_group } => message_batch_size_check(batch_size_per_poll_group),
        SteamworksNetworkingSocketsCommand::SendMessage { data, .. } => message_payload_len_check(data@.len() as usize),
        SteamworksNetworkingSocketsCommand::SendMessages { messages } => outbound_messages_check(messages@),
        SteamworksNetworkingSocketsCommand::GetRealtimeConnectionStatus { lanes, .. } => {
            if lanes > STEAMWORKS_NETWORKING_SOCKETS_MAX_REALTIME_LANES {
                Err(SteamworksNetworkingSocketsError::InvalidLaneCount {
                    lanes,
                    max_supported: STEAMWORKS_NETWORKING_SOCKETS_MAX_REALTIME_LANES,
                })
            } else {
                Ok(())
            }
        },
        SteamworksNetworkingSocketsCommand::ConfigureConnectionLanes { lane_priorities, lane_weights, .. } => {
            lane_configuration_check(lane_priorities@.len(), lane_weights@.len())
        },
        SteamworksNetworkingSocketsCommand::CloseConnection { debug, .. } => debug_text_check(debug),
        SteamworksNetworkingSocketsCommand::CloseAllConnections { debug, .. } => debug_text_check(debug),
        SteamworksNetworkingSocketsCommand::SetConnectionName { name, .. } => {
            if text_has_nul(name@) {
                Err(SteamworksNetworkingSocketsError::InvalidString { field: "name" })
            } else {
                Ok(())
            }
        },
        _ => Ok(()),
    }
}

/// Returns whether `text` contains a NUL byte.
pub fn contains_nul(text: &str) -> (found: bool)
    ensures
        found == text_has_nul(text@),
{
    let bytes = text.as_bytes();
    let mut i: usize = 0;
    while i < bytes.len()
        invariant
            0 <= i <= bytes@.len(),
            bytes@ == encode_utf8(text@),
            forall|j: int| 0 <= j < i ==> bytes@[j] != 0u8,
        decreases bytes@.len() - i,
    {
        if bytes[i] == 0u8 {
            assert(bytes@[i as int] == 0u8);
            return true;
        }
        i += 1;
    }
    false
}

/// Checks a poll command's event limit.
pub fn validate_event_limit(max_events: usize) -> (result: Result<(), SteamworksNetworkingSocketsError>)
    ensures
        result == event_limit_check(max_events),
{
    if max_events == 0 {
        return Err(SteamworksNetworkingSocketsError::InvalidEventLimit);
    }
    if max_events > STEAMWORKS_NETWORKING_SOCKETS_MAX_EVENTS_PER_COMMAND {
        return Err(
            SteamworksNetworkingSocketsError::TooManyEvents {
                requested: max_events,
                max_supported: STEAMWORKS_NETWORKING_SOCKETS_MAX_EVENTS_PER_COMMAND,
            },
        );
    }
    Ok(())
}

/// Checks a receive command's batch size.
pub fn validate_message_batch_size(batch_size: usize) -> (result: Result<(), SteamworksNetworkingSocketsError>)
    ensures
        result == message_batch_size_check(batch_size),
{
    if batch_size == 0 {
        return Err(SteamworksNetworkingSocketsError::InvalidBatchSize);
    }
    if batch_size > STEAMWORKS_NETWORKING_SOCKETS_MAX_MESSAGES_PER_COMMAND {
        return Err(
            SteamworksNetworkingSocketsError::BatchSizeTooLarge {
                requested: batch_size,
                max_supported: STEAMWORKS_NETWORKING_SOCKETS_MAX_MESSAGES_PER_COMMAND,
            },
        );
    }
    Ok(())
}

/// Checks the size of a batch send.
pub fn validate_send_message_batch_size(batch_size: usize) -> (result: Result<(), SteamworksNetworkingSocketsError>)
    ensures
        result == send_message_batch_size_check(batch_size),
{
    if batch_size == 0 {
        return Err(SteamworksNetworkingSocketsError::EmptyMessageBatch);
    }
    if batch_size > STEAMWORKS_NETWORKING_SOCKETS_MAX_MESSAGES_PER_COMMAND {
        return Err(
            SteamworksNetworkingSocketsError::SendBatchTooLarge {
                requested: batch_size,
                max_supported: STEAMWORKS_NETWORKING_SOCKETS_MAX_MESSAGES_PER_COMMAND,
            },
        );
    }
    Ok(())
}

/// Checks one message payload size.
pub fn validate_message_payload_len(bytes: usize) -> (result: Result<(), SteamworksNetworkingSocketsError>)
    ensures
        result == message_payload_len_check(bytes),
{
    if bytes > STEAMWORKS_NETWORKING_SOCKETS_MAX_MESSAGE_BYTES {
        return Err(
            SteamworksNetworkingSocketsError::MessageTooLarge {
                bytes,
                max_supported: STEAMWORKS_NETWORKING_SOCKETS_MAX_MESSAGE_BYTES,
            },
        );
    }
    Ok(())
}

/// Checks one message channel.
pub fn validate_message_channel(channel: i32) -> (result: Result<(), SteamworksNetworkingSocketsError>)
    ensures
        result == message_channel_check(channel),
{
    if channel < 0 {
        return Err(SteamworksNetworkingSocketsError::InvalidMessageChannel { channel });
    }
    Ok(())
}

/// Checks a lane configuration's priorities and weights.
pub fn validate_lane_configuration(lane_priorities: &[i32], lane_weights: &[u16]) -> (result: Result<(), SteamworksNetworkingSocketsError>)
    ensures
        result == lane_configuration_check(lane_priorities@.len(), lane_weights@.len()),
{
    if lane_priorities.len() == 0 || lane_priorities.len() != lane_weights.len() {
        return Err(
            SteamworksNetworkingSocketsError::InvalidLaneConfiguration {
                priorities: lane_priorities.len(),
                weights: lane_weights.len(),
            },
        );
    }
    if lane_priorities.len() > STEAMWORKS_NETWORKING_SOCKETS_MAX_CONFIGURED_LANES {
        return Err(
            SteamworksNetworkingSocketsError::TooManyConfiguredLanes {
                requested: lane_priorities.len(),
                max_supported: STEAMWORKS_NETWORKING_SOCKETS_MAX_CONFIGURED_LANES,
            },
        );
    }
    Ok(())
}

/// Checks a virtual port.
pub fn validate_virtual_port(port: i32) -> (result: Result<(), SteamworksNetworkingSocketsError>)
    ensures
        result == virtual_port_check(port),
{
    if port < 0 {
        return Err(SteamworksNetworkingSocketsError::InvalidVirtualPort { port });
    }
    Ok(())
}

/// Checks a connection request policy.
pub fn validate_request_policy(policy: &SteamworksConnectionRequestPolicy) -> (result: Result<(), SteamworksNetworkingSocketsError>)
    ensures
        result == request_policy_check(*policy),
{
    match policy {
        SteamworksConnectionRequestPolicy::Reject { debug: Some(text), .. } => {
            if contains_nul(text.as_str()) {
                Err(SteamworksNetworkingSocketsError::InvalidString { field: "request_policy.debug" })
            } else {
                Ok(())
            }
        },
        _ => Ok(()),
    }
}

/// Checks the config entry at position `index`.
pub fn validate_config_entry(index: usize, entry: &SteamworksNetworkingSocketsConfigEntry) -> (result: Result<(), SteamworksNetworkingSocketsError>)
    ensures
        result == config_entry_check(index, *entry),
{
    match entry {
        SteamworksNetworkingSocketsConfigEntry::Int32 { value, .. } => {
            let expected = value.data_type();
            if expected != SteamworksNetworkingConfigDataType::Int32 {
                return Err(SteamworksNetworkingSocketsError::InvalidConfigEntryType {
                    index,
                    expected,
                    actual: SteamworksNetworkingConfigDataType::Int32,
                });
            }
            Ok(())
        },
        SteamworksNetworkingSocketsConfigEntry::Int64 { value, .. } => {
            let expected = value.data_type();
            if expected != SteamworksNetworkingConfigDataType::Int64 {
                return Err(SteamworksNetworkingSocketsError::InvalidConfigEntryType {
                    index,
                    expected,
                    actual: SteamworksNetworkingConfigDataType::Int64,
                });
            }
            Ok(())
        },
        SteamworksNetworkingSocketsConfigEntry::Float { value, data_bits } => {
            let expected = value.data_type();
            if expected != SteamworksNetworkingConfigDataType::Float {
                return Err(SteamworksNetworkingSocketsError::InvalidConfigEntryType {
                    index,
                    expected,
                    actual: SteamworksNetworkingConfigDataType::Float,
                });
            }
            if (*data_bits >> 23u32) & 0xffu32 == 0xffu32 {
                return Err(SteamworksNetworkingSocketsError::InvalidConfigFloat { index });
            }
            Ok(())
        },
        SteamworksNetworkingSocketsConfigEntry::String { value, data } => {
            let expected = value.data_type();
            if expected != SteamworksNetworkingConfigDataType::String {
                return Err(SteamworksNetworkingSocketsError::InvalidConfigEntryType {
                    index,
                    expected,
                    actual: SteamworksNetworkingConfigDataType::String,
                });
            }
            if contains_nul(data.as_str()) {
                return Err(SteamworksNetworkingSocketsError::InvalidConfigString { index });
            }
            Ok(())
        },
    }
}

/// Checks a list of initial config entries, reporting the first problem.
pub fn validate_config_entries(options: &[SteamworksNetworkingSocketsConfigEntry]) -> (result: Result<(), SteamworksNetworkingSocketsError>)
    ensures
        result == config_entries_check(options@),
{
    if options.len() > STEAMWORKS_NETWORKING_SOCKETS_MAX_CONFIG_ENTRIES {
        return Err(
            SteamworksNetworkingSocketsError::TooManyConfigEntries {
                requested: options.len(),
                max_supported: STEAMWORKS_NETWORKING_SOCKETS_MAX_CONFIG_ENTRIES,
            },
        );
    }
    let mut index: usize = 0;
    while index < options.len()
        invariant
            0 <= index <= options@.len(),
            options@.len() <= STEAMWORKS_NETWORKING_SOCKETS_MAX_CONFIG_ENTRIES,
            config_entries_check(options@) == config_entries_check_from(options@, index as int),
        decreases options@.len() - index,
    {
        let checked = validate_config_entry(index, &options[index]);
        if checked.is_err() {
            return checked;
        }
        index += 1;
    }
    Ok(())
}

/// Checks a batch send, reporting the first problem.
pub fn validate_outbound_messages(messages: &[SteamworksNetworkingSocketsOutboundMessage]) -> (result: Result<(), SteamworksNetworkingSocketsError>)
    ensures
        result == outbound_messages_check(messages@),
{
    let checked = validate_send_message_batch_size(messages.len());
    if checked.is_err() {
        return checked;
    }
    let mut index: usize = 0;
    while index < messages.len()
        invariant
            0 <= index <= messages@.len(),
            outbound_messages_check(messages@) == outbound_messages_check_from(messages@, index as int),
        decreases messages@.len() - index,
    {
        let message = &messages[index];
        let checked = validate_message_payload_len(message.data.len());
        if checked.is_err() {
            return checked;
        }
        let checked = validate_message_channel(message.channel);
        if checked.is_err() {
            return checked;
        }
        index += 1;
    }
    Ok(())
}

/// Checks an optional debug text passed to Steam.
fn validate_debug_text(debug: &Option<String>) -> (result: Result<(), SteamworksNetworkingSocketsError>)
    ensures
        result == debug_text_check(*debug),
{
    match debug {
        Some(text) => {
            if contains_nul(text.as_str()) {
                Err(SteamworksNetworkingSocketsError::InvalidString { field: "debug" })
            } else {
                Ok(())
            }
        },
        None => Ok(()),
    }
}

/// Validates a command before it reaches Steam.
pub fn validate_command(command: &SteamworksNetworkingSocketsCommand) -> (result: Result<(), SteamworksNetworkingSocketsError>)
    ensures
        result == command_check(*command),
{
    match command {
        SteamworksNetworkingSocketsCommand::CreateListenSocketIp { options, .. } => {
            validate_config_entries(options.as_slice())
        },
        SteamworksNetworkingSocketsCommand::CreateListenSocketP2p { local_virtual_port, options } => {
            let checked = validate_virtual_port(*local_virtual_port);
            if checked.is_err() {
                return checked;
            }
            validate_config_entries(options.as_slice())
        },
        SteamworksNetworkingSocketsCommand::CreateHostedDedicatedServerListenSocket { options, .. } => {
            validate_config_entries(options.as_slice())
        },
        SteamworksNetworkingSocketsCommand::ConnectByIpAddress { options, .. } => {
            validate_config_entries(options.as_slice())
        },
        SteamworksNetworkingSocketsCommand::ConnectP2p { remote_virtual_port, options, .. } => {
            let checked = validate_virtual_port(*remote_virtual_port);
            if checked.is_err() {
                return checked;
            }
            validate_config_entries(options.as_slice())
        },
        SteamworksNetworkingSocketsCommand::PollListenSocketEvents { max_events, request_policy, .. } => {
            let checked = validate_event_limit(*max_events);
            if checked.is_err() {
                return checked;
            }
            validate_request_policy(request_policy)
        },
        SteamworksNetworkingSocketsCommand::PollAllListenSocketEvents { max_events_per_socket, request_policy } => {
            let checked = validate_event_limit(*max_events_per_socket);
            if checked.is_err() {
                return checked;
            }
            validate_request_policy(request_policy)
        },
        SteamworksNetworkingSocketsCommand::PollConnectionEvents { max_events, .. } => {
            validate_event_limit(*max_events)
        },
        SteamworksNetworkingSocketsCommand::PollAllConnectionEvents { max_events_per_connection } => {
            validate_event_limit(*max_events_per_connection)
        },
        SteamworksNetworkingSocketsCommand::ReceiveMessages { batch_size, .. } => {
            validate_message_batch_size(*batch_size)
        },
        SteamworksNetworkingSocketsCommand::ReceiveAllMessages { batch_size_per_connection } => {
            validate_message_batch_size(*batch_size_per_connection)
        },
        SteamworksNetworkingSocketsCommand::ReceivePollGroupMessages { batch_size, .. } => {
            validate_message_batch_size(*batch_size)
        },
        SteamworksNetworkingSocketsCommand::ReceiveAllPollGroupMessages { batch_size_per_poll_group } => {
            validate_message_batch_size(*batch_size_per_poll_group)
        },
        SteamworksNetworkingSocketsCommand::SendMessage { data, .. } => {
            validate_message_payload_len(data.len())
        },
        SteamworksNetworkingSocketsCommand::SendMessages { messages } => {
            validate_outbound_messages(messages.as_slice())
        },
        SteamworksNetworkingSocketsCommand::GetRealtimeConnectionStatus { lanes, .. } => {
            if *lanes > STEAMWORKS_NETWORKING_SOCKETS_MAX_REALTIME_LANES {
                return Err(SteamworksNetworkingSocketsError::InvalidLaneCount {
                    lanes: *lanes,
                    max_supported: STEAMWORKS_NETWORKING_SOCKETS_MAX_REALTIME_LANES,
                });
            }
            Ok(())
        },
        SteamworksNetworkingSocketsCommand::ConfigureConnectionLanes { lane_priorities, lane_weights, .. } => {
            validate_lane_configuration(lane_priorities.as_slice(), lane_weights.as_slice())
        },
        SteamworksNetworkingSocketsCommand::CloseConnection { debug, .. } => {
            validate_debug_text(debug)
        },
        SteamworksNetworkingSocketsCommand::CloseAllConnections { debug, .. } => {
            validate_debug_text(debug)
        },
        SteamworksNetworkingSocketsCommand::SetConnectionName { name, .. } => {
            if contains_nul(name.as_str()) {
                return Err(SteamworksNetworkingSocketsError::InvalidString { field: "name" });
            }
            Ok(())
        },
        _ => Ok(()),
    }
}

} // verus!

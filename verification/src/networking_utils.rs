//! Steam Networking Utils relay diagnostics: commands, results and the
//! recorded relay status.

mod messages;
mod state;
mod types;

pub use messages::{
    networking_utils_command_check, validate_command, SteamworksNetworkingUtilsCommand,
    SteamworksNetworkingUtilsError, SteamworksNetworkingUtilsOperation,
    SteamworksNetworkingUtilsResult,
};
pub use state::{
    availability_error, availability_value, lemma_detailed_status_read_refreshes_every_reading,
    relay_status_recorded,
    next_utils_state, SteamworksNetworkingUtilsState, SteamworksNetworkingUtilsStateView,
};
pub use types::{
    availability_is_current, availability_is_pending, is_availability_current,
    is_availability_pending, SteamworksRelayNetworkStatus, SteamworksRelayNetworkStatusView,
};

use vstd::prelude::*;

verus! {

/// Bevy plugin for high-level Steam Networking Utils commands.
#[derive(Clone, Copy, Debug, Default, PartialEq, Eq)]
pub struct SteamworksNetworkingUtilsPlugin;

impl SteamworksNetworkingUtilsPlugin {
    /// Creates a Networking Utils plugin with default behavior.
    pub fn new() -> (plugin: Self)
        ensures
            plugin == SteamworksNetworkingUtilsPlugin,
    {
        SteamworksNetworkingUtilsPlugin
    }
}

} // verus!

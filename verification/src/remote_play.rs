//! The Steam Remote Play plugin.

use vstd::prelude::*;

verus! {

/// Bevy plugin for high-level Steam Remote Play commands.
#[derive(Clone, Copy, Debug, Default, PartialEq, Eq)]
pub struct SteamworksRemotePlayPlugin;

impl SteamworksRemotePlayPlugin {
    /// Creates a Remote Play plugin with default behavior.
    pub fn new() -> (plugin: Self)
        ensures
            plugin == SteamworksRemotePlayPlugin,
    {
        SteamworksRemotePlayPlugin
    }
}

} // verus!

//! Opaque handles that the Networking Sockets plugin hands out.

use vstd::prelude::*;

verus! {

/// Opaque ID for a listen socket owned by the Networking Sockets plugin.
#[derive(Clone, Copy, Debug, PartialEq, Eq, Hash, Structural)]
pub struct SteamworksListenSocketId(u64);

impl View for SteamworksListenSocketId {
    type V = u64;

    /// The raw integer backing this ID.
    closed spec fn view(&self) -> u64 {
        self.0
    }
}

impl SteamworksListenSocketId {
    /// Creates an ID from a raw integer.
    pub fn from_raw(raw: u64) -> (id: Self)
        ensures
            id@ == raw,
    {
        SteamworksListenSocketId(raw)
    }

    /// Returns the raw integer backing this ID.
    pub fn raw(self) -> (raw: u64)
        ensures
            raw == self@,
    {
        self.0
    }

    /// Two IDs are equal exactly when their raw integers are.
    pub broadcast proof fn lemma_raw_identifies(a: Self, b: Self)
        ensures
            #[trigger] a@ == #[trigger] b@ <==> a == b,
    {
    }
}

/// Opaque ID for a connection owned by the Networking Sockets plugin.
#[derive(Clone, Copy, Debug, PartialEq, Eq, Hash, Structural)]
pub struct SteamworksNetworkingSocketsConnectionId(u64);

impl View for SteamworksNetworkingSocketsConnectionId {
    type V = u64;

    /// The raw integer backing this ID.
    closed spec fn view(&self) -> u64 {
        self.0
    }
}

impl SteamworksNetworkingSocketsConnectionId {
    /// Creates an ID from a raw integer.
    pub fn from_raw(raw: u64) -> (id: Self)
        ensures
            id@ == raw,
    {
        SteamworksNetworkingSocketsConnectionId(raw)
    }

    /// Returns the raw integer backing this ID.
    pub fn raw(self) -> (raw: u64)
        ensures
            raw == self@,
    {
        self.0
    }

    /// Two IDs are equal exactly when their raw integers are.
    pub broadcast proof fn lemma_raw_identifies(a: Self, b: Self)
        ensures
            #[trigger] a@ == #[trigger] b@ <==> a == b,
    {
    }
}

/// Opaque ID for a poll group owned by the Networking Sockets plugin.
#[derive(Clone, Copy, Debug, PartialEq, Eq, Hash, Structural)]
pub struct SteamworksNetworkingSocketsPollGroupId(u64);

impl View for SteamworksNetworkingSocketsPollGroupId {
    type V = u64;

    /// The raw integer backing this ID.
    closed spec fn view(&self) -> u64 {
        self.0
    }
}

impl SteamworksNetworkingSocketsPollGroupId {
    /// Creates an ID from a raw integer.
    pub fn from_raw(raw: u64) -> (id: Self)
        ensures
            id@ == raw,
    {
        SteamworksNetworkingSocketsPollGroupId(raw)
    }

    /// Returns the raw integer backing this ID.
    pub fn raw(self) -> (raw: u64)
        ensures
            raw == self@,
    {
        self.0
    }

    /// Two IDs are equal exactly when their raw integers are.
    pub broadcast proof fn lemma_raw_identifies(a: Self, b: Self)
        ensures
            #[trigger] a@ == #[trigger] b@ <==> a == b,
    {
    }
}

/// Identifier views and identifier equality agree.
pub broadcast group group_identifier_views {
    SteamworksListenSocketId::lemma_raw_identifies,
    SteamworksNetworkingSocketsConnectionId::lemma_raw_identifies,
    SteamworksNetworkingSocketsPollGroupId::lemma_raw_identifies,
}

} // verus!

//! Holder of Steamworks callback handles.

use vstd::prelude::*;

verus! {

/// Stores Steamworks callback handles so callbacks stay registered.
pub struct SteamworksCallbackRegistry<H> {
    handles: Vec<H>,
}

impl<H> View for SteamworksCallbackRegistry<H> {
    type V = Seq<H>;

    /// The held handles, oldest first.
    closed spec fn view(&self) -> Seq<H> {
        self.handles@
    }
}

impl<H> SteamworksCallbackRegistry<H> {
    /// An empty registry.
    pub fn new() -> (registry: Self)
        ensures
            registry@ == Seq::<H>::empty(),
    {
        SteamworksCallbackRegistry { handles: Vec::new() }
    }

    /// Keeps a registered callback's handle.
    pub fn register(&mut self, handle: H)
        ensures
            final(self)@ == old(self)@.push(handle),
    {
        self.handles.push(handle);
    }

    /// Drops every registered callback handle.
    pub fn clear(&mut self)
        ensures
            final(self)@ == Seq::<H>::empty(),
    {
        self.handles.clear();
    }

    /// Number of callback handles currently held.
    pub fn len(&self) -> (count: usize)
        ensures
            count == self@.len(),
    {
        self.handles.len()
    }

    /// Whether no callback handles are held.
    pub fn is_empty(&self) -> (empty: bool)
        ensures
            empty == (self@.len() == 0),
    {
        self.handles.len() == 0
    }
}

impl<H> Default for SteamworksCallbackRegistry<H> {
    /// An empty registry.
    fn default() -> (registry: Self)
        ensures
            registry@ == Seq::<H>::empty(),
    {
        SteamworksCallbackRegistry::new()
    }
}

} // verus!

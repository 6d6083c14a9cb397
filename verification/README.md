# bevy_steamworks

The decision-making core of a Bevy integration for the Steamworks SDK,
written in Verus and verified.

- `src/` is the verified library:
  - `networking_sockets/`: command validation and planning, the handle
    storage that maps plugin IDs to Steam handles, the bookkeeping of closes,
    event polls and listen socket events, the commands that act on every
    stored handle (`bulk.rs`, which take the Steam calls as closures), event
    polling of listen sockets and connections (`polling.rs`), the preparation
    of batched sends and the merge of their outcomes, log summaries that keep
    lengths in place of payloads and names (`redaction.rs`), and the bounded state that records what
    each command reported. `laws.rs` holds the properties
    that relate several operations (a read is found by a later lookup, a close
    forgets what was cached and keeps the rest, keyed caches evict oldest
    first, counters follow the operations, handle IDs are fresh).
  - `networking_utils/`: relay status commands and the state that records
    them.
  - `plugin.rs`, `plugin_groups.rs`: client and game server start-up
    decisions and plugin configuration, generic over the Steam handle types.
  - `cache.rs`: bounded, keyed caches of owned snapshots.
  - `networking_types.rs`: the Steam values the library reads, held as plain
    values (identities, send flags, end reasons, config keys, result codes).
- `app/` is ordinary Rust around it: the Bevy resources, messages, systems and
  plugins, every call into Steam, and the conversions between Steamworks
  values and the library's plain values.
- `tests/` exercise the library from outside.

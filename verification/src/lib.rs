//! Verified core of a Bitcoin node statistics dashboard.
//!
//! The dashboard polls a Bitcoin Core node over JSON-RPC, stores what it
//! learns in SQLite and serves it over HTTP. This library holds the logic
//! of that pipeline that does not itself touch the network or the disk:
//!
//! * [`blocks`]: which block heights a collection cycle (re)fetches, and how a
//!   `getblockstats` reply becomes a stored block row;
//! * [`pools`]: attribution of a block to a mining pool from its coinbase;
//! * [`peers`]: per-peer bandwidth deltas between two `getpeerinfo` samples and
//!   the obfuscation of peer addresses;
//! * [`clock`]: timestamps and the 24-hour history window;
//! * [`node`]: what the node reports about itself;
//! * [`text`]: character-level helpers (substring search, last occurrence).
pub mod blocks;
pub mod clock;
pub mod node;
pub mod peers;
pub mod pools;
pub mod text;


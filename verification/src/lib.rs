//! Namespace bookkeeping for a key-value store shared by several scanner
//! processes, written without any I/O of its own: every operation is split
//! into the command to send and the handling of the reply that came back.

pub mod decimal;
pub mod error;
pub mod command;
pub mod context;
pub mod allocator;
pub mod cache;
pub mod nvt;

use vstd::prelude::*;

verus! {

/// Key under which the store keeps the index of claimed databases.
pub const GLOBAL_DBINDEX_NAME: &'static str = "GVM.__GlobalDBIndex";

/// Address of the store where none is configured.
pub const REDIS_DEFAULT_PATH: &'static str = "unix:///run/redis-openvas/redis.sock";

/// Name of the cache of vulnerability tests.
pub const NVTCACHE: &'static str = "nvticache";

} // verus!

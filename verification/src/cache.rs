//! The cache handle: a connection's bookkeeping once a database is claimed.

use vstd::prelude::*;
use crate::context::RedisCtx;
use crate::error::DbError;

verus! {

/// A handle on the cache of one process.
#[derive(Debug)]
pub struct NvtCache {
    /// The bookkeeping of the connection that the handle works on.
    pub cache: RedisCtx,
    /// Whether a database has been claimed for this handle.
    pub init: bool,
}

impl NvtCache {
    /// Makes the handle once the allocation on `cache` has ended. `selected`
    /// is how it ended: with a claimed database the handle is initialized,
    /// and a failed allocation gives no handle but its failure.
    pub fn init(cache: RedisCtx, selected: Result<u32, DbError>) -> (r: Result<NvtCache, DbError>)
        ensures
            match selected {
                Ok(_) => r matches Ok(handle) && handle.cache == cache && handle.init,
                Err(e) => r matches Err(f) && f == e,
            },
    {
        match selected {
            Ok(_) => Ok(NvtCache { cache, init: true }),
            Err(e) => Err(e),
        }
    }

    /// Whether a database has been claimed for this handle.
    pub fn is_init(&mut self) -> (r: bool)
        ensures
            r == old(self).init,
            *final(self) == *old(self),
    {
        self.init == true
    }
}

} // verus!

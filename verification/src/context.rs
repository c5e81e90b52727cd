//! The server's shared context: the database pool and the block0 it serves.

use vstd::prelude::*;

verus! {

/// What every request handler of the server shares. `P` is the database
/// connection pool (the server uses a pool of SQLite connections); the
/// context only carries it.
#[derive(Clone)]
pub struct Context<P> {
    pub db_connection_pool: P,
    pub block0_path: String,
    pub block0: Vec<u8>,
}

impl<P> Context<P> {
    /// Builds a context from its pool, the path of block0 and its bytes.
    pub fn new(db_connection_pool: P, block0_path: &str, block0: Vec<u8>) -> (ctx: Self)
        ensures
            ctx.db_connection_pool == db_connection_pool,
            ctx.block0_path@ == block0_path@,
            ctx.block0@ == block0@,
    {
        Context { db_connection_pool, block0_path: block0_path.to_owned(), block0 }
    }

    /// Builds the context of a server whose block0 was read from
    /// `block0_path`: `block0_read` is what the read gave back, `None` when
    /// the file could not be read, in which case the server serves an empty
    /// block0.
    pub fn from_block0_read(db_connection_pool: P, block0_path: &str, block0_read: Option<Vec<u8>>) -> (ctx: Self)
        ensures
            ctx.db_connection_pool == db_connection_pool,
            ctx.block0_path@ == block0_path@,
            ctx.block0@ == match block0_read {
                Some(bytes) => bytes@,
                None => Seq::<u8>::empty(),
            },
    {
        let block0 = match block0_read {
            Some(bytes) => bytes,
            None => Vec::new(),
        };
        Context::new(db_connection_pool, block0_path, block0)
    }
}

} // verus!

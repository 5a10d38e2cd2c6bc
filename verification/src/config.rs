//! The server's configuration.

use vstd::prelude::*;
use crate::text::text;

verus! {

/// How players are spread over thread pools.
#[derive(Debug, Clone, Copy, PartialEq, Eq, Structural)]
pub struct ServerConfig {
    pub players_per_pool: u32,
    pub num_thread_pools: u32,
}

impl ServerConfig {
    /// The configuration used when none can be read: 5000 players per pool,
    /// 60 pools.
    pub fn new() -> (r: ServerConfig)
        ensures
            r == (ServerConfig { players_per_pool: 5000, num_thread_pools: 60 }),
    {
        ServerConfig { players_per_pool: 5000, num_thread_pools: 60 }
    }

    /// The logging level: "info".
    pub fn log_level() -> (r: String)
        ensures
            r@ == "info"@,
    {
        text("info")
    }
}

} // verus!

//! What the engine is configured with.

use vstd::prelude::*;

verus! {

/// How payloads are encoded; reserved for typed reads.
#[derive(Clone, Copy, Debug, PartialEq, Eq, Structural)]
pub enum SerializationEncoding {
    MsgPack,
    Json,
}

/// The parameters of the connection to the store. The engine hands them on
/// and reads none of them.
#[derive(Clone, Debug)]
pub struct DatabaseConfig {
    pub host: Option<String>,
    pub port: Option<u16>,
    pub username: Option<String>,
    pub password: Option<String>,
    pub database_number: Option<u32>,
    pub ssl: bool,
}

/// The recognised options of the cache.
#[derive(Clone, Debug)]
pub struct CacheConfig {
    /// Where the store is; needed to build an engine.
    pub database: Option<DatabaseConfig>,
    /// Whether keys start with `trader-`.
    pub use_trader_prefix: bool,
    /// Whether keys carry the instance id after the trader id.
    pub use_instance_id: bool,
    /// The least time between two flushes, in milliseconds; absent means 0.
    pub buffer_interval_ms: Option<usize>,
    /// The payload encoding.
    pub encoding: SerializationEncoding,
}

impl Default for CacheConfig {
    fn default() -> (r: Self)
        ensures
            r.database is None,
            r.use_trader_prefix,
            !r.use_instance_id,
            r.buffer_interval_ms is None,
            r.encoding == SerializationEncoding::MsgPack,
    {
        CacheConfig {
            database: None,
            use_trader_prefix: true,
            use_instance_id: false,
            buffer_interval_ms: None,
            encoding: SerializationEncoding::MsgPack,
        }
    }
}

impl CacheConfig {
    /// The flush cadence in milliseconds: the configured one, or 0.
    pub open spec fn interval_ms(self) -> nat {
        match self.buffer_interval_ms {
            Some(ms) => ms as nat,
            None => 0,
        }
    }

    /// The connection parameters, which an engine cannot be built without.
    pub fn database_config(&self) -> (r: Result<&DatabaseConfig, crate::error::CacheError>)
        ensures
            match r {
                Ok(db) => self.database == Some(*db),
                Err(e) => e == crate::error::CacheError::NoDatabaseConfig && self.database is None,
            },
    {
        match &self.database {
            Some(db) => Ok(db),
            None => Err(crate::error::CacheError::NoDatabaseConfig),
        }
    }
}

} // verus!

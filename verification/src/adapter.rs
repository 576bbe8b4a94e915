//! The adapter through which a cache uses the engine, and what it refuses.
//!
//! The engine mirrors trading state. Market data, signals and custom data
//! are none of its business, and it keeps no state snapshots to load: each
//! such operation fails with `Unsupported`, whatever it is called with.

use vstd::prelude::*;
use crate::config::SerializationEncoding;
use crate::database::RedisCacheDatabase;
use crate::error::CacheError;
use crate::model::{Bar, InstrumentId, TradeTick};

verus! {

pub struct RedisCacheDatabaseAdapter {
    encoding: SerializationEncoding,
    database: RedisCacheDatabase,
}

impl RedisCacheDatabaseAdapter {
    /// The payload encoding of the adapter.
    pub closed spec fn encoding_spec(&self) -> SerializationEncoding {
        self.encoding
    }

    /// The key prefix under which the adapter's engine stores.
    pub closed spec fn trader_key(&self) -> Seq<char> {
        self.database.trader_key()
    }

    pub fn new(encoding: SerializationEncoding, database: RedisCacheDatabase) -> (r: Self)
        ensures
            r.encoding_spec() == encoding,
            r.trader_key() == database.trader_key(),
    {
        RedisCacheDatabaseAdapter { encoding, database }
    }

    pub fn encoding(&self) -> (r: SerializationEncoding)
        ensures
            r == self.encoding_spec(),
    {
        self.encoding
    }

    /// Asks the write worker to stop after a last flush.
    pub fn close(&mut self) -> (r: Result<(), CacheError>)
        ensures
            r is Ok,
            final(self).encoding_spec() == old(self).encoding_spec(),
            final(self).trader_key() == old(self).trader_key(),
    {
        self.database.close();
        Ok(())
    }

    pub fn add_order_book<T>(&self, order_book: &T) -> (r: Result<(), CacheError>)
        ensures
            r == Err::<(), CacheError>(CacheError::Unsupported),
    {
        Err(CacheError::Unsupported)
    }

    pub fn add_quote<T>(&self, quote: &T) -> (r: Result<(), CacheError>)
        ensures
            r == Err::<(), CacheError>(CacheError::Unsupported),
    {
        Err(CacheError::Unsupported)
    }

    pub fn load_quotes<T>(&self, instrument_id: &InstrumentId) -> (r: Result<Vec<T>, CacheError>)
        ensures
            r == Err::<Vec<T>, CacheError>(CacheError::Unsupported),
    {
        Err(CacheError::Unsupported)
    }

    pub fn add_trade(&self, trade: &TradeTick) -> (r: Result<(), CacheError>)
        ensures
            r == Err::<(), CacheError>(CacheError::Unsupported),
    {
        Err(CacheError::Unsupported)
    }

    pub fn load_trades(&self, instrument_id: &InstrumentId) -> (r: Result<
        Vec<TradeTick>,
        CacheError,
    >)
        ensures
            r == Err::<Vec<TradeTick>, CacheError>(CacheError::Unsupported),
    {
        Err(CacheError::Unsupported)
    }

    pub fn add_bar(&self, bar: &Bar) -> (r: Result<(), CacheError>)
        ensures
            r == Err::<(), CacheError>(CacheError::Unsupported),
    {
        Err(CacheError::Unsupported)
    }

    pub fn load_bars(&self, instrument_id: &InstrumentId) -> (r: Result<Vec<Bar>, CacheError>)
        ensures
            r == Err::<Vec<Bar>, CacheError>(CacheError::Unsupported),
    {
        Err(CacheError::Unsupported)
    }

    pub fn add_signal<T>(&self, signal: &T) -> (r: Result<(), CacheError>)
        ensures
            r == Err::<(), CacheError>(CacheError::Unsupported),
    {
        Err(CacheError::Unsupported)
    }

    pub fn load_signals<T>(&self, name: &str) -> (r: Result<Vec<T>, CacheError>)
        ensures
            r == Err::<Vec<T>, CacheError>(CacheError::Unsupported),
    {
        Err(CacheError::Unsupported)
    }

    pub fn add_custom_data<T>(&self, data: &T) -> (r: Result<(), CacheError>)
        ensures
            r == Err::<(), CacheError>(CacheError::Unsupported),
    {
        Err(CacheError::Unsupported)
    }

    pub fn load_custom_data<K, T>(&self, data_type: &K) -> (r: Result<Vec<T>, CacheError>)
        ensures
            r == Err::<Vec<T>, CacheError>(CacheError::Unsupported),
    {
        Err(CacheError::Unsupported)
    }

    pub fn load_order_snapshot<T>(&self, client_order_id: &str) -> (r: Result<
        Option<T>,
        CacheError,
    >)
        ensures
            r == Err::<Option<T>, CacheError>(CacheError::Unsupported),
    {
        Err(CacheError::Unsupported)
    }

    pub fn load_position_snapshot<T>(&self, position_id: &str) -> (r: Result<
        Option<T>,
        CacheError,
    >)
        ensures
            r == Err::<Option<T>, CacheError>(CacheError::Unsupported),
    {
        Err(CacheError::Unsupported)
    }
}

} // verus!

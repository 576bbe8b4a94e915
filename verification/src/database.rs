//! The producer side of the engine: commands are built and queued for the
//! write worker, and reads are routed to the primitive that fits the key.
//!
//! The connection to the store and the worker task belong to the program
//! around this library; the engine here holds the trader key and the
//! sending half of the command channel, which is a `tokio` channel.

use vstd::prelude::*;
use bytes::Bytes;
use tokio::sync::mpsc::error::SendError;
use tokio::sync::mpsc::UnboundedSender;
use crate::command::{DatabaseCommand, DatabaseOperation};
use crate::config::CacheConfig;
use crate::dispatch::{
    collection_named, index_of_key, resolve_index, Collection,
};
use crate::error::CacheError;
use crate::identifiers::{TraderId, UUID4};
use crate::keys::{collection_of, get_collection_key, get_trader_key, joined, store_key, trader_key_of};
use crate::store::{bytes_content, bytes_from_vec};

verus! {

#[verifier::external_type_specification]
#[verifier::external_body]
#[verifier::reject_recursive_types(T)]
pub struct ExUnboundedSender<T>(UnboundedSender<T>);

#[verifier::external_type_specification]
#[verifier::external_body]
#[verifier::reject_recursive_types(T)]
pub struct ExSendError<T>(SendError<T>);

/// Calls `UnboundedSender::send`, which queues the command unless the
/// receiving half of the channel is closed or gone. Which of the two
/// happens depends on the receiver, so nothing is claimed of the result.
#[verifier::external_body]
pub(crate) fn send_command(tx: &UnboundedSender<DatabaseCommand>, command: DatabaseCommand) -> (r:
    Result<(), SendError<DatabaseCommand>>)
{
    tx.send(command)
}

/// What a producer is told of an attempt to queue a command: a command that
/// the channel took is queued, and one that it gave back cannot be sent.
pub fn enqueue_outcome(sent: Result<(), SendError<DatabaseCommand>>) -> (r: Result<
    (),
    CacheError,
>)
    ensures
        sent is Ok ==> r is Ok,
        sent is Err ==> r == Err::<(), CacheError>(CacheError::ChannelSend),
{
    match sent {
        Ok(_) => Ok(()),
        Err(_) => Err(CacheError::ChannelSend),
    }
}

/// The primitive read that fits a key.
#[derive(Clone, Copy, Debug, PartialEq, Eq, Structural)]
pub enum ReadKind {
    /// `GET`: one value, or nothing.
    Scalar,
    /// `LRANGE 0 -1`: the whole list, in insertion order.
    List,
    /// `SMEMBERS`: the members of the set.
    Members,
    /// `HGETALL`: the fields of the hash, handed on as one JSON blob.
    Fields,
}

/// A read, routed: the primitive and the key to read under.
#[derive(Clone, Debug)]
pub struct ReadRequest {
    pub kind: ReadKind,
    pub key: String,
}

/// The primitive read that fits a key of the `index` collection: hashes are
/// read field by field, the other indices are sets.
pub open spec fn index_read_kind_of(key: Seq<char>) -> Result<ReadKind, CacheError> {
    match index_of_key(key) {
        Ok(index) => if index.holds_hash() {
            Ok(ReadKind::Fields)
        } else {
            Ok(ReadKind::Members)
        },
        Err(e) => Err(e),
    }
}

/// The primitive read that fits a key: by its collection and, for the
/// `index` collection, by its index. Snapshots and health are not read.
pub open spec fn read_kind_of(key: Seq<char>) -> Result<ReadKind, CacheError> {
    match collection_of(key) {
        None => Err(CacheError::InvalidKey),
        Some(collection) => match collection_named(collection) {
            Some(Collection::Index) => index_read_kind_of(key),
            Some(Collection::General) | Some(Collection::Currencies) | Some(
                Collection::Instruments,
            ) | Some(Collection::Synthetics) | Some(Collection::Actors) | Some(
                Collection::Strategies,
            ) => Ok(ReadKind::Scalar),
            Some(Collection::Accounts) | Some(Collection::Orders) | Some(
                Collection::Positions,
            ) => Ok(ReadKind::List),
            _ => Err(CacheError::UnsupportedOp),
        },
    }
}

/// The primitive read that fits a key of the `index` collection.
pub fn read_index(key: &str) -> (r: Result<ReadKind, CacheError>)
    ensures
        r == index_read_kind_of(key@),
{
    match resolve_index(key) {
        Ok(index) => {
            if index.is_hash() {
                Ok(ReadKind::Fields)
            } else {
                Ok(ReadKind::Members)
            }
        },
        Err(e) => Err(e),
    }
}

/// The primitive read that fits a key.
pub fn read_kind(key: &str) -> (r: Result<ReadKind, CacheError>)
    ensures
        r == read_kind_of(key@),
{
    let collection = match get_collection_key(key) {
        Ok(collection) => collection,
        Err(e) => {
            return Err(e);
        },
    };
    match Collection::parse(collection) {
        Some(Collection::Index) => read_index(key),
        Some(Collection::General) => Ok(ReadKind::Scalar),
        Some(Collection::Currencies) => Ok(ReadKind::Scalar),
        Some(Collection::Instruments) => Ok(ReadKind::Scalar),
        Some(Collection::Synthetics) => Ok(ReadKind::Scalar),
        Some(Collection::Accounts) => Ok(ReadKind::List),
        Some(Collection::Orders) => Ok(ReadKind::List),
        Some(Collection::Positions) => Ok(ReadKind::List),
        Some(Collection::Actors) => Ok(ReadKind::Scalar),
        Some(Collection::Strategies) => Ok(ReadKind::Scalar),
        _ => Err(CacheError::UnsupportedOp),
    }
}

/// What a scalar read hands to the caller: nothing for an empty answer of
/// the store, and else the answer as the one element.
pub fn read_string(result: Vec<u8>) -> (r: Vec<Bytes>)
    ensures
        result@.len() == 0 ==> r@.len() == 0,
        result@.len() > 0 ==> r@.len() == 1 && bytes_content(r@[0]) == result@,
{
    let mut reply: Vec<Bytes> = Vec::new();
    if result.len() > 0 {
        reply.push(bytes_from_vec(result));
    }
    reply
}

/// The engine as its producers see it.
pub struct RedisCacheDatabase {
    trader_id: TraderId,
    trader_key: String,
    tx: UnboundedSender<DatabaseCommand>,
}

impl RedisCacheDatabase {
    /// The key prefix under which the engine stores.
    pub closed spec fn trader_key(&self) -> Seq<char> {
        self.trader_key@
    }

    /// The trader that owns the engine.
    pub closed spec fn trader(&self) -> Seq<char> {
        self.trader_id@
    }

    /// An engine for a trader that queues its commands on `tx`. The
    /// configuration must name a database.
    pub fn new(
        trader_id: TraderId,
        instance_id: UUID4,
        config: &CacheConfig,
        tx: UnboundedSender<DatabaseCommand>,
    ) -> (r: Result<RedisCacheDatabase, CacheError>)
        ensures
            match r {
                Ok(database) => {
                    &&& config.database is Some
                    &&& database.trader() == trader_id@
                    &&& database.trader_key() == trader_key_of(
                        trader_id@,
                        instance_id@,
                        config.use_trader_prefix,
                        config.use_instance_id,
                    )
                },
                Err(e) => e == CacheError::NoDatabaseConfig && config.database is None,
            },
    {
        if config.database.is_none() {
            return Err(CacheError::NoDatabaseConfig);
        }
        let trader_key = get_trader_key(&trader_id, &instance_id, config);
        Ok(RedisCacheDatabase { trader_id, trader_key, tx })
    }

    /// The trader that owns the engine.
    pub fn trader_id(&self) -> (r: &TraderId)
        ensures
            r@ == self.trader(),
    {
        &self.trader_id
    }

    /// The key prefix under which the engine stores.
    pub fn get_trader_key(&self) -> (r: &str)
        ensures
            r@ == self.trader_key(),
    {
        self.trader_key.as_str()
    }

    /// Asks the write worker to stop after a last flush.
    pub fn close(&mut self)
        ensures
            final(self).trader_key() == old(self).trader_key(),
            final(self).trader() == old(self).trader(),
    {
        let _ = send_command(&self.tx, DatabaseCommand::close());
    }

    /// The pattern that selects the trader's keys that match `pattern`.
    pub fn keys(&self, pattern: &str) -> (r: String)
        ensures
            r@ == joined(self.trader_key(), pattern@),
    {
        store_key(self.trader_key.as_str(), pattern)
    }

    /// Routes a read: the primitive that fits the key and the key under
    /// which the trader's entry is stored. A key without a delimiter is
    /// invalid; a collection or an index that is not read is unsupported.
    pub fn read(&self, key: &str) -> (r: Result<ReadRequest, CacheError>)
        ensures
            match r {
                Ok(request) => {
                    &&& read_kind_of(key@) == Ok::<ReadKind, CacheError>(request.kind)
                    &&& request.key@ == joined(self.trader_key(), key@)
                },
                Err(e) => read_kind_of(key@) == Err::<ReadKind, CacheError>(e),
            },
    {
        match read_kind(key) {
            Ok(kind) => Ok(ReadRequest { kind, key: store_key(self.trader_key.as_str(), key) }),
            Err(e) => Err(e),
        }
    }

    /// Queues an `Insert` of `payload` under `key`. It fails with
    /// `ChannelSend`, and only so, when the channel does not take it.
    pub fn insert(&mut self, key: String, payload: Option<Vec<Bytes>>) -> (r: Result<
        (),
        CacheError,
    >)
        ensures
            final(self).trader_key() == old(self).trader_key(),
            final(self).trader() == old(self).trader(),
            r is Ok || r == Err::<(), CacheError>(CacheError::ChannelSend),
    {
        let op = DatabaseCommand::new(DatabaseOperation::Insert, key, payload);
        enqueue_outcome(send_command(&self.tx, op))
    }

    /// Queues an `Update` with `payload` under `key`. It fails with
    /// `ChannelSend`, and only so, when the channel does not take it.
    pub fn update(&mut self, key: String, payload: Option<Vec<Bytes>>) -> (r: Result<
        (),
        CacheError,
    >)
        ensures
            final(self).trader_key() == old(self).trader_key(),
            final(self).trader() == old(self).trader(),
            r is Ok || r == Err::<(), CacheError>(CacheError::ChannelSend),
    {
        let op = DatabaseCommand::new(DatabaseOperation::Update, key, payload);
        enqueue_outcome(send_command(&self.tx, op))
    }

    /// Queues a `Delete` under `key`. It fails with `ChannelSend`, and only
    /// so, when the channel does not take it.
    pub fn delete(&mut self, key: String, payload: Option<Vec<Bytes>>) -> (r: Result<
        (),
        CacheError,
    >)
        ensures
            final(self).trader_key() == old(self).trader_key(),
            final(self).trader() == old(self).trader(),
            r is Ok || r == Err::<(), CacheError>(CacheError::ChannelSend),
    {
        let op = DatabaseCommand::new(DatabaseOperation::Delete, key, payload);
        enqueue_outcome(send_command(&self.tx, op))
    }
}

} // verus!

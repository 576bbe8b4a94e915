//! The collection dispatcher: which primitive operation of the store a
//! command turns into.
//!
//! The routing goes by the operation, by the collection that the key starts
//! with and, for the `index` collection, by the index that the rest of the
//! key names. What is not in the table is refused.

use vstd::prelude::*;
use bytes::Bytes;
use redis::Pipeline;
use crate::error::CacheError;
use crate::keys::{first_segment, first_segment_of, get_index_key, index_tail_of, joined, store_key};
use crate::store::{
    appended, bytes_as_slice, delete_string, insert_hset, insert_list, insert_set, insert_string,
    payload_view, remove_from_set, untouched, update_list, StoreOp,
};
use crate::text::text_eq;

verus! {

// Collection keys
pub const INDEX: &'static str = "index";
pub const GENERAL: &'static str = "general";
pub const CURRENCIES: &'static str = "currencies";
pub const INSTRUMENTS: &'static str = "instruments";
pub const SYNTHETICS: &'static str = "synthetics";
pub const ACCOUNTS: &'static str = "accounts";
pub const ORDERS: &'static str = "orders";
pub const POSITIONS: &'static str = "positions";
pub const ACTORS: &'static str = "actors";
pub const STRATEGIES: &'static str = "strategies";
pub const SNAPSHOTS: &'static str = "snapshots";
pub const HEALTH: &'static str = "health";

// Index keys
pub const INDEX_ORDER_IDS: &'static str = "order_ids";
pub const INDEX_ORDER_POSITION: &'static str = "order_position";
pub const INDEX_ORDER_CLIENT: &'static str = "order_client";
pub const INDEX_ORDERS: &'static str = "orders";
pub const INDEX_ORDERS_OPEN: &'static str = "orders_open";
pub const INDEX_ORDERS_CLOSED: &'static str = "orders_closed";
pub const INDEX_ORDERS_EMULATED: &'static str = "orders_emulated";
pub const INDEX_ORDERS_INFLIGHT: &'static str = "orders_inflight";
pub const INDEX_POSITIONS: &'static str = "positions";
pub const INDEX_POSITIONS_OPEN: &'static str = "positions_open";
pub const INDEX_POSITIONS_CLOSED: &'static str = "positions_closed";

/// The reserved collections.
#[derive(Clone, Copy, Debug, PartialEq, Eq, Structural)]
pub enum Collection {
    Index,
    General,
    Currencies,
    Instruments,
    Synthetics,
    Accounts,
    Orders,
    Positions,
    Actors,
    Strategies,
    Snapshots,
    Health,
}

/// The reserved indices.
#[derive(Clone, Copy, Debug, PartialEq, Eq, Structural)]
pub enum IndexKey {
    OrderIds,
    OrderPosition,
    OrderClient,
    Orders,
    OrdersOpen,
    OrdersClosed,
    OrdersEmulated,
    OrdersInflight,
    Positions,
    PositionsOpen,
    PositionsClosed,
}

/// The collection that a name stands for.
pub open spec fn collection_named(name: Seq<char>) -> Option<Collection> {
    if name == INDEX@ {
        Some(Collection::Index)
    } else if name == GENERAL@ {
        Some(Collection::General)
    } else if name == CURRENCIES@ {
        Some(Collection::Currencies)
    } else if name == INSTRUMENTS@ {
        Some(Collection::Instruments)
    } else if name == SYNTHETICS@ {
        Some(Collection::Synthetics)
    } else if name == ACCOUNTS@ {
        Some(Collection::Accounts)
    } else if name == ORDERS@ {
        Some(Collection::Orders)
    } else if name == POSITIONS@ {
        Some(Collection::Positions)
    } else if name == ACTORS@ {
        Some(Collection::Actors)
    } else if name == STRATEGIES@ {
        Some(Collection::Strategies)
    } else if name == SNAPSHOTS@ {
        Some(Collection::Snapshots)
    } else if name == HEALTH@ {
        Some(Collection::Health)
    } else {
        None
    }
}

/// The index that a name stands for.
pub open spec fn index_named(name: Seq<char>) -> Option<IndexKey> {
    if name == INDEX_ORDER_IDS@ {
        Some(IndexKey::OrderIds)
    } else if name == INDEX_ORDER_POSITION@ {
        Some(IndexKey::OrderPosition)
    } else if name == INDEX_ORDER_CLIENT@ {
        Some(IndexKey::OrderClient)
    } else if name == INDEX_ORDERS@ {
        Some(IndexKey::Orders)
    } else if name == INDEX_ORDERS_OPEN@ {
        Some(IndexKey::OrdersOpen)
    } else if name == INDEX_ORDERS_CLOSED@ {
        Some(IndexKey::OrdersClosed)
    } else if name == INDEX_ORDERS_EMULATED@ {
        Some(IndexKey::OrdersEmulated)
    } else if name == INDEX_ORDERS_INFLIGHT@ {
        Some(IndexKey::OrdersInflight)
    } else if name == INDEX_POSITIONS@ {
        Some(IndexKey::Positions)
    } else if name == INDEX_POSITIONS_OPEN@ {
        Some(IndexKey::PositionsOpen)
    } else if name == INDEX_POSITIONS_CLOSED@ {
        Some(IndexKey::PositionsClosed)
    } else {
        None
    }
}

impl Collection {
    /// Whether the collection keeps an append-only list under each key.
    pub open spec fn holds_list(self) -> bool {
        self is Accounts || self is Orders || self is Positions || self is Snapshots
    }

    /// Whether the lists of the collection can be appended to by `Update`.
    pub open spec fn takes_update(self) -> bool {
        self is Accounts || self is Orders || self is Positions
    }

    /// Whether the keys of the collection can be deleted.
    pub open spec fn takes_delete(self) -> bool {
        self is Actors || self is Strategies
    }

    /// The collection that `name` stands for, if it is a reserved name.
    pub fn parse(name: &str) -> (r: Option<Collection>)
        ensures
            r == collection_named(name@),
    {
        if text_eq(name, INDEX) {
            Some(Collection::Index)
        } else if text_eq(name, GENERAL) {
            Some(Collection::General)
        } else if text_eq(name, CURRENCIES) {
            Some(Collection::Currencies)
        } else if text_eq(name, INSTRUMENTS) {
            Some(Collection::Instruments)
        } else if text_eq(name, SYNTHETICS) {
            Some(Collection::Synthetics)
        } else if text_eq(name, ACCOUNTS) {
            Some(Collection::Accounts)
        } else if text_eq(name, ORDERS) {
            Some(Collection::Orders)
        } else if text_eq(name, POSITIONS) {
            Some(Collection::Positions)
        } else if text_eq(name, ACTORS) {
            Some(Collection::Actors)
        } else if text_eq(name, STRATEGIES) {
            Some(Collection::Strategies)
        } else if text_eq(name, SNAPSHOTS) {
            Some(Collection::Snapshots)
        } else if text_eq(name, HEALTH) {
            Some(Collection::Health)
        } else {
            None
        }
    }

    pub fn is_list(&self) -> (r: bool)
        ensures
            r == self.holds_list(),
    {
        match self {
            Collection::Accounts | Collection::Orders | Collection::Positions
            | Collection::Snapshots => true,
            _ => false,
        }
    }

    pub fn can_update(&self) -> (r: bool)
        ensures
            r == self.takes_update(),
    {
        match self {
            Collection::Accounts | Collection::Orders | Collection::Positions => true,
            _ => false,
        }
    }

    pub fn can_delete(&self) -> (r: bool)
        ensures
            r == self.takes_delete(),
    {
        match self {
            Collection::Actors | Collection::Strategies => true,
            _ => false,
        }
    }
}

impl IndexKey {
    /// Whether the index is a hash from field to value; the others are sets.
    pub open spec fn holds_hash(self) -> bool {
        self is OrderPosition || self is OrderClient
    }

    /// Whether members can be removed from the index: only the sets that
    /// follow the state of an order or a position take a removal.
    pub open spec fn takes_removal(self) -> bool {
        self is OrdersOpen || self is OrdersClosed || self is OrdersEmulated
            || self is OrdersInflight || self is PositionsOpen || self is PositionsClosed
    }

    /// The index that `name` stands for, if it is a reserved name.
    pub fn parse(name: &str) -> (r: Option<IndexKey>)
        ensures
            r == index_named(name@),
    {
        if text_eq(name, INDEX_ORDER_IDS) {
            Some(IndexKey::OrderIds)
        } else if text_eq(name, INDEX_ORDER_POSITION) {
            Some(IndexKey::OrderPosition)
        } else if text_eq(name, INDEX_ORDER_CLIENT) {
            Some(IndexKey::OrderClient)
        } else if text_eq(name, INDEX_ORDERS) {
            Some(IndexKey::Orders)
        } else if text_eq(name, INDEX_ORDERS_OPEN) {
            Some(IndexKey::OrdersOpen)
        } else if text_eq(name, INDEX_ORDERS_CLOSED) {
            Some(IndexKey::OrdersClosed)
        } else if text_eq(name, INDEX_ORDERS_EMULATED) {
            Some(IndexKey::OrdersEmulated)
        } else if text_eq(name, INDEX_ORDERS_INFLIGHT) {
            Some(IndexKey::OrdersInflight)
        } else if text_eq(name, INDEX_POSITIONS) {
            Some(IndexKey::Positions)
        } else if text_eq(name, INDEX_POSITIONS_OPEN) {
            Some(IndexKey::PositionsOpen)
        } else if text_eq(name, INDEX_POSITIONS_CLOSED) {
            Some(IndexKey::PositionsClosed)
        } else {
            None
        }
    }

    pub fn is_hash(&self) -> (r: bool)
        ensures
            r == self.holds_hash(),
    {
        match self {
            IndexKey::OrderPosition | IndexKey::OrderClient => true,
            _ => false,
        }
    }

    pub fn can_remove(&self) -> (r: bool)
        ensures
            r == self.takes_removal(),
    {
        match self {
            IndexKey::OrdersOpen | IndexKey::OrdersClosed | IndexKey::OrdersEmulated
            | IndexKey::OrdersInflight | IndexKey::PositionsOpen
            | IndexKey::PositionsClosed => true,
            _ => false,
        }
    }
}

/// The index that a key of the `index` collection names: the first segment
/// of what follows the collection. A key without a delimiter is invalid; a
/// name that is not reserved is unsupported.
pub open spec fn index_of_key(key: Seq<char>) -> Result<IndexKey, CacheError> {
    match index_tail_of(key) {
        None => Err(CacheError::InvalidKey),
        Some(tail) => match index_named(first_segment_of(tail)) {
            Some(index) => Ok(index),
            None => Err(CacheError::UnsupportedOp),
        },
    }
}

/// What `Insert` turns into for a key of the `index` collection.
pub open spec fn insert_index_op(
    trader_key: Seq<char>,
    key: Seq<char>,
    payload: Seq<Seq<u8>>,
) -> Result<StoreOp, CacheError> {
    match index_of_key(key) {
        Err(e) => Err(e),
        Ok(index) => if index.holds_hash() {
            if payload.len() < 2 {
                Err(CacheError::EmptyPayload)
            } else {
                Ok(
                    StoreOp::SetField {
                        key: joined(trader_key, key),
                        field: payload[0],
                        value: payload[1],
                    },
                )
            }
        } else {
            if payload.len() < 1 {
                Err(CacheError::EmptyPayload)
            } else {
                Ok(StoreOp::AddMember { key: joined(trader_key, key), member: payload[0] })
            }
        },
    }
}

/// What `Insert` turns into.
pub open spec fn insert_op(
    trader_key: Seq<char>,
    collection: Seq<char>,
    key: Seq<char>,
    payload: Seq<Seq<u8>>,
) -> Result<StoreOp, CacheError> {
    if payload.len() == 0 {
        Err(CacheError::EmptyPayload)
    } else {
        match collection_named(collection) {
            None => Err(CacheError::UnsupportedOp),
            Some(Collection::Index) => insert_index_op(trader_key, key, payload),
            Some(c) => if c.holds_list() {
                Ok(StoreOp::PushList { key: joined(trader_key, key), value: payload[0] })
            } else {
                Ok(StoreOp::SetString { key: joined(trader_key, key), value: payload[0] })
            },
        }
    }
}

/// What `Update` turns into.
pub open spec fn update_op(
    trader_key: Seq<char>,
    collection: Seq<char>,
    key: Seq<char>,
    payload: Seq<Seq<u8>>,
) -> Result<StoreOp, CacheError> {
    if payload.len() == 0 {
        Err(CacheError::EmptyPayload)
    } else {
        match collection_named(collection) {
            Some(c) => if c.takes_update() {
                Ok(StoreOp::PushListIfExists { key: joined(trader_key, key), value: payload[0] })
            } else {
                Err(CacheError::UnsupportedOp)
            },
            None => Err(CacheError::UnsupportedOp),
        }
    }
}

/// What `Delete` turns into for a key of the `index` collection.
pub open spec fn remove_index_op(
    trader_key: Seq<char>,
    key: Seq<char>,
    payload: Option<Seq<Seq<u8>>>,
) -> Result<StoreOp, CacheError> {
    match payload {
        None => Err(CacheError::EmptyPayload),
        Some(members) => match index_of_key(key) {
            Err(e) => Err(e),
            Ok(index) => if !index.takes_removal() {
                Err(CacheError::UnsupportedOp)
            } else if members.len() == 0 {
                Err(CacheError::EmptyPayload)
            } else {
                Ok(StoreOp::RemoveMember { key: joined(trader_key, key), member: members[0] })
            },
        },
    }
}

/// What `Delete` turns into.
pub open spec fn delete_op(
    trader_key: Seq<char>,
    collection: Seq<char>,
    key: Seq<char>,
    payload: Option<Seq<Seq<u8>>>,
) -> Result<StoreOp, CacheError> {
    match collection_named(collection) {
        Some(Collection::Index) => remove_index_op(trader_key, key, payload),
        Some(c) => if c.takes_delete() {
            Ok(StoreOp::DeleteKey { key: joined(trader_key, key) })
        } else {
            Err(CacheError::UnsupportedOp)
        },
        None => Err(CacheError::UnsupportedOp),
    }
}

/// A dispatch went as planned: a planned operation was added to the
/// pipeline and nothing else changed; a planned refusal left the pipeline
/// alone and was returned.
pub open spec fn dispatched(
    before: Pipeline,
    after: Pipeline,
    planned: Result<StoreOp, CacheError>,
    outcome: Result<(), CacheError>,
) -> bool {
    match planned {
        Ok(op) => outcome is Ok && appended(before, after, op),
        Err(e) => outcome == Err::<(), CacheError>(e) && untouched(before, after),
    }
}

/// The index that a key of the `index` collection names.
pub fn resolve_index(key: &str) -> (r: Result<IndexKey, CacheError>)
    ensures
        r == index_of_key(key@),
{
    match get_index_key(key) {
        Err(e) => Err(e),
        Ok(tail) => match IndexKey::parse(first_segment(tail)) {
            Some(index) => Ok(index),
            None => Err(CacheError::UnsupportedOp),
        },
    }
}

/// Adds to the pipeline what an `Insert` of `value` under `key` comes to,
/// for a key of the given collection.
pub fn insert(
    pipe: &mut Pipeline,
    trader_key: &str,
    collection: &str,
    key: &str,
    value: Vec<Bytes>,
) -> (r: Result<(), CacheError>)
    ensures
        dispatched(
            *old(pipe),
            *final(pipe),
            insert_op(trader_key@, collection@, key@, payload_view(value@)),
            r,
        ),
{
    if value.len() == 0 {
        return Err(CacheError::EmptyPayload);
    }
    match Collection::parse(collection) {
        None => Err(CacheError::UnsupportedOp),
        Some(Collection::Index) => insert_index(pipe, trader_key, key, &value),
        Some(c) => {
            let full = store_key(trader_key, key);
            let first = bytes_as_slice(&value[0]);
            assert(payload_view(value@)[0] == first@);
            if c.is_list() {
                insert_list(pipe, full.as_str(), first);
            } else {
                insert_string(pipe, full.as_str(), first);
            }
            Ok(())
        },
    }
}

/// Adds to the pipeline what an `Insert` of `value` comes to for a key of
/// the `index` collection: a field of a hash, or a member of a set.
pub fn insert_index(pipe: &mut Pipeline, trader_key: &str, key: &str, value: &Vec<Bytes>) -> (r:
    Result<(), CacheError>)
    ensures
        dispatched(
            *old(pipe),
            *final(pipe),
            insert_index_op(trader_key@, key@, payload_view(value@)),
            r,
        ),
{
    let index = match resolve_index(key) {
        Ok(index) => index,
        Err(e) => {
            return Err(e);
        },
    };
    if index.is_hash() {
        if value.len() < 2 {
            return Err(CacheError::EmptyPayload);
        }
        let full = store_key(trader_key, key);
        let name = bytes_as_slice(&value[0]);
        let field_value = bytes_as_slice(&value[1]);
        assert(payload_view(value@)[0] == name@);
        assert(payload_view(value@)[1] == field_value@);
        insert_hset(pipe, full.as_str(), name, field_value);
    } else {
        if value.len() < 1 {
            return Err(CacheError::EmptyPayload);
        }
        let full = store_key(trader_key, key);
        let member = bytes_as_slice(&value[0]);
        assert(payload_view(value@)[0] == member@);
        insert_set(pipe, full.as_str(), member);
    }
    Ok(())
}

/// Adds to the pipeline what an `Update` with `value` under `key` comes to,
/// for a key of the given collection.
pub fn update(
    pipe: &mut Pipeline,
    trader_key: &str,
    collection: &str,
    key: &str,
    value: Vec<Bytes>,
) -> (r: Result<(), CacheError>)
    ensures
        dispatched(
            *old(pipe),
            *final(pipe),
            update_op(trader_key@, collection@, key@, payload_view(value@)),
            r,
        ),
{
    if value.len() == 0 {
        return Err(CacheError::EmptyPayload);
    }
    match Collection::parse(collection) {
        Some(c) => {
            if c.can_update() {
                let full = store_key(trader_key, key);
                let first = bytes_as_slice(&value[0]);
                assert(payload_view(value@)[0] == first@);
                update_list(pipe, full.as_str(), first);
                Ok(())
            } else {
                Err(CacheError::UnsupportedOp)
            }
        },
        None => Err(CacheError::UnsupportedOp),
    }
}

/// Adds to the pipeline what a `Delete` under `key` comes to, for a key of
/// the given collection. Only a key of the `index` collection needs a value:
/// the member to remove.
pub fn delete(
    pipe: &mut Pipeline,
    trader_key: &str,
    collection: &str,
    key: &str,
    value: Option<Vec<Bytes>>,
) -> (r: Result<(), CacheError>)
    ensures
        dispatched(
            *old(pipe),
            *final(pipe),
            delete_op(trader_key@, collection@, key@, optional_payload_view(value)),
            r,
        ),
{
    match Collection::parse(collection) {
        Some(Collection::Index) => remove_index(pipe, trader_key, key, value),
        Some(c) => {
            if c.can_delete() {
                let full = store_key(trader_key, key);
                delete_string(pipe, full.as_str());
                Ok(())
            } else {
                Err(CacheError::UnsupportedOp)
            }
        },
        None => Err(CacheError::UnsupportedOp),
    }
}

/// Adds to the pipeline the removal of the member `value[0]` from the set
/// that a key of the `index` collection names.
pub fn remove_index(pipe: &mut Pipeline, trader_key: &str, key: &str, value: Option<Vec<Bytes>>) -> (r:
    Result<(), CacheError>)
    ensures
        dispatched(
            *old(pipe),
            *final(pipe),
            remove_index_op(trader_key@, key@, optional_payload_view(value)),
            r,
        ),
{
    let members = match value {
        Some(members) => members,
        None => {
            return Err(CacheError::EmptyPayload);
        },
    };
    let index = match resolve_index(key) {
        Ok(index) => index,
        Err(e) => {
            return Err(e);
        },
    };
    if !index.can_remove() {
        return Err(CacheError::UnsupportedOp);
    }
    if members.len() == 0 {
        return Err(CacheError::EmptyPayload);
    }
    let full = store_key(trader_key, key);
    let member = bytes_as_slice(&members[0]);
    assert(payload_view(members@)[0] == member@);
    remove_from_set(pipe, full.as_str(), member);
    Ok(())
}

/// The contents of a payload that may be absent.
pub open spec fn optional_payload_view(payload: Option<Vec<Bytes>>) -> Option<Seq<Seq<u8>>> {
    match payload {
        Some(p) => Some(payload_view(p@)),
        None => None,
    }
}

/// The names of the collections that keep one value under each key.
pub open spec fn scalar_collections() -> Set<Seq<char>> {
    set![GENERAL@, CURRENCIES@, INSTRUMENTS@, SYNTHETICS@, ACTORS@, STRATEGIES@, HEALTH@]
}

/// The names of the collections that keep an append-only list under each key.
pub open spec fn list_collections() -> Set<Seq<char>> {
    set![ACCOUNTS@, ORDERS@, POSITIONS@, SNAPSHOTS@]
}

/// The names of the collections whose lists `Update` appends to.
pub open spec fn updatable_collections() -> Set<Seq<char>> {
    set![ACCOUNTS@, ORDERS@, POSITIONS@]
}

/// The names of the collections whose keys `Delete` removes.
pub open spec fn deletable_collections() -> Set<Seq<char>> {
    set![ACTORS@, STRATEGIES@]
}

/// The names of the indices that are sets of members.
pub open spec fn set_indices() -> Set<Seq<char>> {
    set![
        INDEX_ORDER_IDS@,
        INDEX_ORDERS@,
        INDEX_ORDERS_OPEN@,
        INDEX_ORDERS_CLOSED@,
        INDEX_ORDERS_EMULATED@,
        INDEX_ORDERS_INFLIGHT@,
        INDEX_POSITIONS@,
        INDEX_POSITIONS_OPEN@,
        INDEX_POSITIONS_CLOSED@
    ]
}

/// The names of the indices that are hashes from field to value.
pub open spec fn hash_indices() -> Set<Seq<char>> {
    set![INDEX_ORDER_POSITION@, INDEX_ORDER_CLIENT@]
}

/// The names of the set indices that `Delete` removes a member from.
pub open spec fn removable_indices() -> Set<Seq<char>> {
    set![
        INDEX_ORDERS_OPEN@,
        INDEX_ORDERS_CLOSED@,
        INDEX_ORDERS_EMULATED@,
        INDEX_ORDERS_INFLIGHT@,
        INDEX_POSITIONS_OPEN@,
        INDEX_POSITIONS_CLOSED@
    ]
}

/// The collection names, spelled out.
pub proof fn lemma_collection_names()
    ensures
        INDEX@ == seq!['i', 'n', 'd', 'e', 'x'],
        GENERAL@ == seq!['g', 'e', 'n', 'e', 'r', 'a', 'l'],
        CURRENCIES@ == seq!['c', 'u', 'r', 'r', 'e', 'n', 'c', 'i', 'e', 's'],
        INSTRUMENTS@ == seq!['i', 'n', 's', 't', 'r', 'u', 'm', 'e', 'n', 't', 's'],
        SYNTHETICS@ == seq!['s', 'y', 'n', 't', 'h', 'e', 't', 'i', 'c', 's'],
        ACCOUNTS@ == seq!['a', 'c', 'c', 'o', 'u', 'n', 't', 's'],
        ORDERS@ == seq!['o', 'r', 'd', 'e', 'r', 's'],
        POSITIONS@ == seq!['p', 'o', 's', 'i', 't', 'i', 'o', 'n', 's'],
        ACTORS@ == seq!['a', 'c', 't', 'o', 'r', 's'],
        STRATEGIES@ == seq!['s', 't', 'r', 'a', 't', 'e', 'g', 'i', 'e', 's'],
        SNAPSHOTS@ == seq!['s', 'n', 'a', 'p', 's', 'h', 'o', 't', 's'],
        HEALTH@ == seq!['h', 'e', 'a', 'l', 't', 'h'],
{
    reveal_strlit("index");
    reveal_strlit("general");
    reveal_strlit("currencies");
    reveal_strlit("instruments");
    reveal_strlit("synthetics");
    reveal_strlit("accounts");
    reveal_strlit("orders");
    reveal_strlit("positions");
    reveal_strlit("actors");
    reveal_strlit("strategies");
    reveal_strlit("snapshots");
    reveal_strlit("health");
    assert(INDEX@ =~= seq!['i', 'n', 'd', 'e', 'x']);
    assert(GENERAL@ =~= seq!['g', 'e', 'n', 'e', 'r', 'a', 'l']);
    assert(CURRENCIES@ =~= seq!['c', 'u', 'r', 'r', 'e', 'n', 'c', 'i', 'e', 's']);
    assert(INSTRUMENTS@ =~= seq!['i', 'n', 's', 't', 'r', 'u', 'm', 'e', 'n', 't', 's']);
    assert(SYNTHETICS@ =~= seq!['s', 'y', 'n', 't', 'h', 'e', 't', 'i', 'c', 's']);
    assert(ACCOUNTS@ =~= seq!['a', 'c', 'c', 'o', 'u', 'n', 't', 's']);
    assert(ORDERS@ =~= seq!['o', 'r', 'd', 'e', 'r', 's']);
    assert(POSITIONS@ =~= seq!['p', 'o', 's', 'i', 't', 'i', 'o', 'n', 's']);
    assert(ACTORS@ =~= seq!['a', 'c', 't', 'o', 'r', 's']);
    assert(STRATEGIES@ =~= seq!['s', 't', 'r', 'a', 't', 'e', 'g', 'i', 'e', 's']);
    assert(SNAPSHOTS@ =~= seq!['s', 'n', 'a', 'p', 's', 'h', 'o', 't', 's']);
    assert(HEALTH@ =~= seq!['h', 'e', 'a', 'l', 't', 'h']);
}

/// Each reserved collection name stands for its own collection, and the
/// names are told apart.
pub proof fn lemma_collections_by_name()
    ensures
        collection_named(INDEX@) == Some(Collection::Index),
        collection_named(GENERAL@) == Some(Collection::General),
        collection_named(CURRENCIES@) == Some(Collection::Currencies),
        collection_named(INSTRUMENTS@) == Some(Collection::Instruments),
        collection_named(SYNTHETICS@) == Some(Collection::Synthetics),
        collection_named(ACCOUNTS@) == Some(Collection::Accounts),
        collection_named(ORDERS@) == Some(Collection::Orders),
        collection_named(POSITIONS@) == Some(Collection::Positions),
        collection_named(ACTORS@) == Some(Collection::Actors),
        collection_named(STRATEGIES@) == Some(Collection::Strategies),
        collection_named(SNAPSHOTS@) == Some(Collection::Snapshots),
        collection_named(HEALTH@) == Some(Collection::Health),
{
    lemma_collection_names();
    assert(GENERAL@[0] == 'g');
    assert(CURRENCIES@[0] == 'c');
    assert(INSTRUMENTS@[0] == 'i');
    assert(SYNTHETICS@[1] == 'y');
    assert(ACCOUNTS@[0] == 'a');
    assert(ORDERS@[0] == 'o');
    assert(POSITIONS@[0] == 'p');
    assert(ACTORS@[0] == 'a');
    assert(STRATEGIES@[1] == 't');
    assert(SNAPSHOTS@[0] == 's');
    assert(HEALTH@[0] == 'h');
}

/// Each reserved index name stands for its own index, and the names are
/// told apart.
pub proof fn lemma_indices_by_name()
    ensures
        index_named(INDEX_ORDER_IDS@) == Some(IndexKey::OrderIds),
        index_named(INDEX_ORDER_POSITION@) == Some(IndexKey::OrderPosition),
        index_named(INDEX_ORDER_CLIENT@) == Some(IndexKey::OrderClient),
        index_named(INDEX_ORDERS@) == Some(IndexKey::Orders),
        index_named(INDEX_ORDERS_OPEN@) == Some(IndexKey::OrdersOpen),
        index_named(INDEX_ORDERS_CLOSED@) == Some(IndexKey::OrdersClosed),
        index_named(INDEX_ORDERS_EMULATED@) == Some(IndexKey::OrdersEmulated),
        index_named(INDEX_ORDERS_INFLIGHT@) == Some(IndexKey::OrdersInflight),
        index_named(INDEX_POSITIONS@) == Some(IndexKey::Positions),
        index_named(INDEX_POSITIONS_OPEN@) == Some(IndexKey::PositionsOpen),
        index_named(INDEX_POSITIONS_CLOSED@) == Some(IndexKey::PositionsClosed),
{
    reveal_strlit("order_ids");
    reveal_strlit("order_position");
    reveal_strlit("order_client");
    reveal_strlit("orders");
    reveal_strlit("orders_open");
    reveal_strlit("orders_closed");
    reveal_strlit("orders_emulated");
    reveal_strlit("orders_inflight");
    reveal_strlit("positions");
    reveal_strlit("positions_open");
    reveal_strlit("positions_closed");
    assert(INDEX_ORDER_IDS@.len() == 9 && INDEX_ORDER_IDS@[0] == 'o');
    assert(INDEX_ORDER_POSITION@.len() == 14 && INDEX_ORDER_POSITION@[0] == 'o');
    assert(INDEX_ORDER_CLIENT@.len() == 12);
    assert(INDEX_ORDERS@.len() == 6);
    assert(INDEX_ORDERS_OPEN@.len() == 11);
    assert(INDEX_ORDERS_CLOSED@.len() == 13);
    assert(INDEX_ORDERS_EMULATED@.len() == 15 && INDEX_ORDERS_EMULATED@[7] == 'e');
    assert(INDEX_ORDERS_INFLIGHT@.len() == 15 && INDEX_ORDERS_INFLIGHT@[7] == 'i');
    assert(INDEX_POSITIONS@.len() == 9 && INDEX_POSITIONS@[0] == 'p');
    assert(INDEX_POSITIONS_OPEN@.len() == 14 && INDEX_POSITIONS_OPEN@[0] == 'p');
    assert(INDEX_POSITIONS_CLOSED@.len() == 16);
}

/// The routing of `Insert` is the documented table and nothing more. With
/// a payload of at least one element: a scalar collection is written by
/// `SET`, a list collection by `RPUSH`, a set index by `SADD` and a hash
/// index, given a second element, by `HSET`; any other collection or index
/// name is refused. Without a payload element every insert is refused.
pub proof fn lemma_insert_table(
    trader_key: Seq<char>,
    collection: Seq<char>,
    key: Seq<char>,
    payload: Seq<Seq<u8>>,
)
    ensures
        payload.len() == 0 ==> insert_op(trader_key, collection, key, payload) == Err::<
            StoreOp,
            CacheError,
        >(CacheError::EmptyPayload),
        payload.len() >= 1 && scalar_collections().contains(collection) ==> insert_op(
            trader_key,
            collection,
            key,
            payload,
        ) == Ok::<StoreOp, CacheError>(
            StoreOp::SetString { key: joined(trader_key, key), value: payload[0] },
        ),
        payload.len() >= 1 && list_collections().contains(collection) ==> insert_op(
            trader_key,
            collection,
            key,
            payload,
        ) == Ok::<StoreOp, CacheError>(
            StoreOp::PushList { key: joined(trader_key, key), value: payload[0] },
        ),
        payload.len() >= 1 && collection == INDEX@ ==> (match index_tail_of(key) {
            None => insert_op(trader_key, collection, key, payload) == Err::<StoreOp, CacheError>(
                CacheError::InvalidKey,
            ),
            Some(tail) => {
                let name = first_segment_of(tail);
                &&& set_indices().contains(name) ==> insert_op(
                    trader_key,
                    collection,
                    key,
                    payload,
                ) == Ok::<StoreOp, CacheError>(
                    StoreOp::AddMember { key: joined(trader_key, key), member: payload[0] },
                )
                &&& hash_indices().contains(name) && payload.len() >= 2 ==> insert_op(
                    trader_key,
                    collection,
                    key,
                    payload,
                ) == Ok::<StoreOp, CacheError>(
                    StoreOp::SetField {
                        key: joined(trader_key, key),
                        field: payload[0],
                        value: payload[1],
                    },
                )
                &&& hash_indices().contains(name) && payload.len() < 2 ==> insert_op(
                    trader_key,
                    collection,
                    key,
                    payload,
                ) == Err::<StoreOp, CacheError>(CacheError::EmptyPayload)
                &&& !set_indices().contains(name) && !hash_indices().contains(name) ==> insert_op(
                    trader_key,
                    collection,
                    key,
                    payload,
                ) == Err::<StoreOp, CacheError>(CacheError::UnsupportedOp)
            },
        }),
        payload.len() >= 1 && collection != INDEX@ && !scalar_collections().contains(collection)
            && !list_collections().contains(collection) ==> insert_op(
            trader_key,
            collection,
            key,
            payload,
        ) == Err::<StoreOp, CacheError>(CacheError::UnsupportedOp),
{
    lemma_collections_by_name();
    lemma_indices_by_name();
}

/// The routing of `Update` is the documented table and nothing more: with a
/// payload element the lists of accounts, orders and positions are appended
/// to by `RPUSHX`, and every other collection name is refused.
pub proof fn lemma_update_table(
    trader_key: Seq<char>,
    collection: Seq<char>,
    key: Seq<char>,
    payload: Seq<Seq<u8>>,
)
    ensures
        payload.len() == 0 ==> update_op(trader_key, collection, key, payload) == Err::<
            StoreOp,
            CacheError,
        >(CacheError::EmptyPayload),
        payload.len() >= 1 && updatable_collections().contains(collection) ==> update_op(
            trader_key,
            collection,
            key,
            payload,
        ) == Ok::<StoreOp, CacheError>(
            StoreOp::PushListIfExists { key: joined(trader_key, key), value: payload[0] },
        ),
        payload.len() >= 1 && !updatable_collections().contains(collection) ==> update_op(
            trader_key,
            collection,
            key,
            payload,
        ) == Err::<StoreOp, CacheError>(CacheError::UnsupportedOp),
{
    lemma_collections_by_name();
}

/// The routing of `Delete` is the documented table and nothing more: the
/// keys of actors and strategies are removed by `DEL`, a member is removed
/// by `SREM` from the set indices that follow a state, and every other
/// collection or index name is refused.
pub proof fn lemma_delete_table(
    trader_key: Seq<char>,
    collection: Seq<char>,
    key: Seq<char>,
    payload: Option<Seq<Seq<u8>>>,
)
    ensures
        deletable_collections().contains(collection) ==> delete_op(
            trader_key,
            collection,
            key,
            payload,
        ) == Ok::<StoreOp, CacheError>(StoreOp::DeleteKey { key: joined(trader_key, key) }),
        collection != INDEX@ && !deletable_collections().contains(collection) ==> delete_op(
            trader_key,
            collection,
            key,
            payload,
        ) == Err::<StoreOp, CacheError>(CacheError::UnsupportedOp),
        collection == INDEX@ ==> (match (payload, index_tail_of(key)) {
            (None, _) => delete_op(trader_key, collection, key, payload) == Err::<
                StoreOp,
                CacheError,
            >(CacheError::EmptyPayload),
            (Some(_), None) => delete_op(trader_key, collection, key, payload) == Err::<
                StoreOp,
                CacheError,
            >(CacheError::InvalidKey),
            (Some(members), Some(tail)) => {
                let name = first_segment_of(tail);
                &&& removable_indices().contains(name) && members.len() >= 1 ==> delete_op(
                    trader_key,
                    collection,
                    key,
                    payload,
                ) == Ok::<StoreOp, CacheError>(
                    StoreOp::RemoveMember { key: joined(trader_key, key), member: members[0] },
                )
                &&& removable_indices().contains(name) && members.len() == 0 ==> delete_op(
                    trader_key,
                    collection,
                    key,
                    payload,
                ) == Err::<StoreOp, CacheError>(CacheError::EmptyPayload)
                &&& !removable_indices().contains(name) ==> delete_op(
                    trader_key,
                    collection,
                    key,
                    payload,
                ) == Err::<StoreOp, CacheError>(CacheError::UnsupportedOp)
            },
        }),
{
    lemma_collections_by_name();
    lemma_indices_by_name();
}

} // verus!

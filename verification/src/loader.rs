//! The bulk loader: from the keys that a scan found and what was loaded
//! for each of them to a mapping from identifier to value.
//!
//! The scan and the loading of each entity wait for the store, so they run
//! outside this library. What is decided here is which identifier a key
//! stands for, which keys are dropped, and what the mapping holds.

use vstd::prelude::*;
use vstd::hash_map::StringHashMap;
use vstd::string::*;
use crate::error::CacheError;
use crate::keys::{last_segment, last_segment_of};
use crate::model::{instrument_id_named, InstrumentId};

verus! {

/// A mapping from the text of an identifier to the entity that it names.
pub type LoadedMap<V> = StringHashMap<V>;

/// What loading one entity came to.
pub enum LoadOutcome<V> {
    /// The entity was there.
    Found(V),
    /// The store holds no such entity.
    Missing,
    /// The load failed.
    Failed,
}

/// A key that the scan found, with what loading its entity came to.
pub struct LoadEntry<V> {
    pub key: String,
    pub outcome: LoadOutcome<V>,
}

/// How the last segment of a key is read as an identifier.
#[derive(Clone, Copy, Debug, PartialEq, Eq, Structural)]
pub enum IdentifierKind {
    /// Any text is an identifier.
    Plain,
    /// Only a text of the form `SYMBOL.VENUE` is one.
    Instrument,
}

/// The pattern that selects the keys of a collection: its name and `*`.
pub fn scan_pattern(collection: &str) -> (r: String)
    ensures
        r@ == collection@ + seq!['*'],
{
    proof {
        reveal_strlit("*");
    }
    let mut pattern = String::new();
    pattern.append(collection);
    pattern.append("*");
    proof {
        assert(pattern@ =~= collection@ + seq!['*']);
    }
    pattern
}

/// The identifier that a key stands for: its last segment, if that is an
/// identifier of the kind asked for.
pub open spec fn identifier_of(key: Seq<char>, kind: IdentifierKind) -> Option<Seq<char>> {
    let id = last_segment_of(key);
    match kind {
        IdentifierKind::Plain => Some(id),
        IdentifierKind::Instrument => if instrument_id_named(id) is Some {
            Some(id)
        } else {
            None
        },
    }
}

/// The identifier that a key stands for. The entity of a key that stands
/// for none is not loaded.
pub fn identifier(key: &str, kind: IdentifierKind) -> (r: Option<&str>)
    ensures
        match r {
            Some(id) => identifier_of(key@, kind) == Some(id@),
            None => identifier_of(key@, kind) is None,
        },
{
    let id = last_segment(key);
    match kind {
        IdentifierKind::Plain => Some(id),
        IdentifierKind::Instrument => {
            if InstrumentId::parse(id).is_some() {
                Some(id)
            } else {
                None
            }
        },
    }
}

/// The mapping that a run of entries makes. An entry whose key stands for
/// an identifier and whose entity was found maps the identifier to the
/// entity; any other entry is dropped. Of two entries for one identifier
/// the later one stays.
pub open spec fn loaded<V>(entries: Seq<LoadEntry<V>>, kind: IdentifierKind) -> Map<Seq<char>, V>
    decreases entries.len(),
{
    if entries.len() == 0 {
        Map::empty()
    } else {
        let before = loaded(entries.drop_last(), kind);
        match (identifier_of(entries.last().key@, kind), entries.last().outcome) {
            (Some(id), LoadOutcome::Found(value)) => before.insert(id, value),
            _ => before,
        }
    }
}

/// Makes the mapping of a run of entries.
pub fn load_entries<V>(entries: Vec<LoadEntry<V>>, kind: IdentifierKind) -> (r: StringHashMap<V>)
    ensures
        r@ == loaded(entries@, kind),
{
    let mut map: StringHashMap<V> = StringHashMap::new();
    let ghost all = entries@;
    for entry in it: entries
        invariant
            it.seq() == all,
            map@ == loaded(all.take(it.index()), kind),
    {
        proof {
            let done = it.index();
            assert(all.take(done + 1).drop_last() =~= all.take(done));
            assert(all.take(done + 1).last() == entry);
        }
        let LoadEntry { key, outcome } = entry;
        match outcome {
            LoadOutcome::Found(value) => {
                match identifier(key.as_str(), kind) {
                    Some(id) => {
                        map.insert(id.to_owned(), value);
                    },
                    None => {},
                }
            },
            _ => {},
        }
    }
    proof {
        assert(all.take(all.len() as int) =~= all);
    }
    map
}

/// The currencies by their codes.
pub fn load_currencies<V>(entries: Vec<LoadEntry<V>>) -> (r: StringHashMap<V>)
    ensures
        r@ == loaded(entries@, IdentifierKind::Plain),
{
    load_entries(entries, IdentifierKind::Plain)
}

/// The instruments by their ids; a key whose last segment is no instrument
/// id is dropped.
pub fn load_instruments<V>(entries: Vec<LoadEntry<V>>) -> (r: StringHashMap<V>)
    ensures
        r@ == loaded(entries@, IdentifierKind::Instrument),
{
    load_entries(entries, IdentifierKind::Instrument)
}

/// The synthetic instruments by their ids; a key whose last segment is no
/// instrument id is dropped.
pub fn load_synthetics<V>(entries: Vec<LoadEntry<V>>) -> (r: StringHashMap<V>)
    ensures
        r@ == loaded(entries@, IdentifierKind::Instrument),
{
    load_entries(entries, IdentifierKind::Instrument)
}

/// The accounts by their ids.
pub fn load_accounts<V>(entries: Vec<LoadEntry<V>>) -> (r: StringHashMap<V>)
    ensures
        r@ == loaded(entries@, IdentifierKind::Plain),
{
    load_entries(entries, IdentifierKind::Plain)
}

/// The orders by their client order ids.
pub fn load_orders<V>(entries: Vec<LoadEntry<V>>) -> (r: StringHashMap<V>)
    ensures
        r@ == loaded(entries@, IdentifierKind::Plain),
{
    load_entries(entries, IdentifierKind::Plain)
}

/// The positions by their ids.
pub fn load_positions<V>(entries: Vec<LoadEntry<V>>) -> (r: StringHashMap<V>)
    ensures
        r@ == loaded(entries@, IdentifierKind::Plain),
{
    load_entries(entries, IdentifierKind::Plain)
}

/// Everything that the bulk loader reads, collection by collection.
#[verifier::reject_recursive_types(C)]
#[verifier::reject_recursive_types(I)]
#[verifier::reject_recursive_types(S)]
#[verifier::reject_recursive_types(A)]
#[verifier::reject_recursive_types(O)]
#[verifier::reject_recursive_types(P)]
pub struct CacheMap<C, I, S, A, O, P> {
    pub currencies: StringHashMap<C>,
    pub instruments: StringHashMap<I>,
    pub synthetics: StringHashMap<S>,
    pub accounts: StringHashMap<A>,
    pub orders: StringHashMap<O>,
    pub positions: StringHashMap<P>,
}

/// The first failure among the six loads, in the order of the collections.
pub open spec fn first_failure<C, I, S, A, O, P>(
    currencies: Result<StringHashMap<C>, CacheError>,
    instruments: Result<StringHashMap<I>, CacheError>,
    synthetics: Result<StringHashMap<S>, CacheError>,
    accounts: Result<StringHashMap<A>, CacheError>,
    orders: Result<StringHashMap<O>, CacheError>,
    positions: Result<StringHashMap<P>, CacheError>,
) -> Option<CacheError> {
    if currencies is Err {
        Some(currencies->Err_0)
    } else if instruments is Err {
        Some(instruments->Err_0)
    } else if synthetics is Err {
        Some(synthetics->Err_0)
    } else if accounts is Err {
        Some(accounts->Err_0)
    } else if orders is Err {
        Some(orders->Err_0)
    } else if positions is Err {
        Some(positions->Err_0)
    } else {
        None
    }
}

/// Puts the six loads together. If any of them failed, the whole load
/// fails, with the first failure.
pub fn load_all<C, I, S, A, O, P>(
    currencies: Result<StringHashMap<C>, CacheError>,
    instruments: Result<StringHashMap<I>, CacheError>,
    synthetics: Result<StringHashMap<S>, CacheError>,
    accounts: Result<StringHashMap<A>, CacheError>,
    orders: Result<StringHashMap<O>, CacheError>,
    positions: Result<StringHashMap<P>, CacheError>,
) -> (r: Result<CacheMap<C, I, S, A, O, P>, CacheError>)
    ensures
        match r {
            Ok(map) => {
                &&& currencies == Ok::<StringHashMap<C>, CacheError>(map.currencies)
                &&& instruments == Ok::<StringHashMap<I>, CacheError>(map.instruments)
                &&& synthetics == Ok::<StringHashMap<S>, CacheError>(map.synthetics)
                &&& accounts == Ok::<StringHashMap<A>, CacheError>(map.accounts)
                &&& orders == Ok::<StringHashMap<O>, CacheError>(map.orders)
                &&& positions == Ok::<StringHashMap<P>, CacheError>(map.positions)
            },
            Err(e) => first_failure(
                currencies,
                instruments,
                synthetics,
                accounts,
                orders,
                positions,
            ) == Some(e),
        },
{
    let currencies = match currencies {
        Ok(map) => map,
        Err(e) => {
            return Err(e);
        },
    };
    let instruments = match instruments {
        Ok(map) => map,
        Err(e) => {
            return Err(e);
        },
    };
    let synthetics = match synthetics {
        Ok(map) => map,
        Err(e) => {
            return Err(e);
        },
    };
    let accounts = match accounts {
        Ok(map) => map,
        Err(e) => {
            return Err(e);
        },
    };
    let orders = match orders {
        Ok(map) => map,
        Err(e) => {
            return Err(e);
        },
    };
    let positions = match positions {
        Ok(map) => map,
        Err(e) => {
            return Err(e);
        },
    };
    Ok(CacheMap { currencies, instruments, synthetics, accounts, orders, positions })
}

/// Entries that are dropped leave the mapping as it is, and the entries of
/// one identifier leave the entity of the last of them that was found.
pub proof fn lemma_loaded_step<V>(entries: Seq<LoadEntry<V>>, next: LoadEntry<V>, kind: IdentifierKind)
    ensures
        match (identifier_of(next.key@, kind), next.outcome) {
            (Some(id), LoadOutcome::Found(value)) => {
                &&& loaded(entries.push(next), kind).contains_key(id)
                &&& loaded(entries.push(next), kind)[id] == value
                &&& loaded(entries.push(next), kind) == loaded(entries, kind).insert(id, value)
            },
            _ => loaded(entries.push(next), kind) == loaded(entries, kind),
        },
{
    assert(entries.push(next).drop_last() =~= entries);
    assert(entries.push(next).last() == next);
}

} // verus!

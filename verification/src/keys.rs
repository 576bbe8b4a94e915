//! The key codec: how keys are built for a trader and taken apart again.
//!
//! A key is a sequence of segments separated by [`REDIS_DELIMITER`]. The
//! first segment names the collection; for the `index` collection the rest
//! names the index.

use vstd::prelude::*;
use vstd::string::*;
use crate::config::CacheConfig;
use crate::error::CacheError;
use crate::identifiers::{TraderId, UUID4};
use crate::text::{
    after_last, find_first, first_position, is_first_at, lemma_first_position, tail_after_last,
};

verus! {

/// The single ASCII character that separates the segments of a key.
pub const REDIS_DELIMITER: char = ':';

/// The segment before the first delimiter, if the key has a delimiter.
pub open spec fn collection_of(key: Seq<char>) -> Option<Seq<char>> {
    if key.contains(REDIS_DELIMITER) {
        Some(key.subrange(0, first_position(key, REDIS_DELIMITER)))
    } else {
        None
    }
}

/// What follows the first delimiter, if the key has a delimiter.
pub open spec fn index_tail_of(key: Seq<char>) -> Option<Seq<char>> {
    if key.contains(REDIS_DELIMITER) {
        Some(key.subrange(first_position(key, REDIS_DELIMITER) + 1, key.len() as int))
    } else {
        None
    }
}

/// The first segment of a text: all of it where it has no delimiter.
pub open spec fn first_segment_of(text: Seq<char>) -> Seq<char> {
    match collection_of(text) {
        Some(head) => head,
        None => text,
    }
}

/// The last segment of a key: what follows its last delimiter, or the whole
/// key where it has none.
pub open spec fn last_segment_of(key: Seq<char>) -> Seq<char> {
    after_last(key, REDIS_DELIMITER)
}

/// `head`, a delimiter, then `tail`.
pub open spec fn joined(head: Seq<char>, tail: Seq<char>) -> Seq<char> {
    head + seq![REDIS_DELIMITER] + tail
}

/// The key prefix of a trader: `trader-` if asked for, the trader id, and
/// the instance id behind a delimiter if asked for.
pub open spec fn trader_key_of(
    trader_id: Seq<char>,
    instance_id: Seq<char>,
    use_trader_prefix: bool,
    use_instance_id: bool,
) -> Seq<char> {
    let head = if use_trader_prefix {
        "trader-"@ + trader_id
    } else {
        trader_id
    };
    if use_instance_id {
        joined(head, instance_id)
    } else {
        head
    }
}

/// Builds the key prefix under which everything of one trader is stored.
pub fn get_trader_key(trader_id: &TraderId, instance_id: &UUID4, config: &CacheConfig) -> (key:
    String)
    ensures
        key@ == trader_key_of(
            trader_id@,
            instance_id@,
            config.use_trader_prefix,
            config.use_instance_id,
        ),
{
    let mut key = String::new();
    if config.use_trader_prefix {
        key.append("trader-");
    }
    key.append(trader_id.as_str());
    if config.use_instance_id {
        proof {
            reveal_strlit(":");
        }
        key.append(":");
        key.append(instance_id.as_str());
    }
    proof {
        assert(key@ =~= trader_key_of(
            trader_id@,
            instance_id@,
            config.use_trader_prefix,
            config.use_instance_id,
        ));
    }
    key
}

/// The collection that a key belongs to: the text before its first
/// delimiter. A key without a delimiter is refused.
pub fn get_collection_key(key: &str) -> (r: Result<&str, CacheError>)
    ensures
        match r {
            Ok(collection) => collection_of(key@) == Some(collection@),
            Err(e) => e == CacheError::InvalidKey && collection_of(key@) is None,
        },
{
    match find_first(key, REDIS_DELIMITER) {
        Some(i) => {
            proof {
                lemma_first_position(key@, REDIS_DELIMITER, i as int);
            }
            Ok(key.substring_char(0, i))
        },
        None => Err(CacheError::InvalidKey),
    }
}

/// The index that a key names: the text after its first delimiter. A key
/// without a delimiter is refused.
pub fn get_index_key(key: &str) -> (r: Result<&str, CacheError>)
    ensures
        match r {
            Ok(tail) => index_tail_of(key@) == Some(tail@),
            Err(e) => e == CacheError::InvalidKey && index_tail_of(key@) is None,
        },
{
    match find_first(key, REDIS_DELIMITER) {
        Some(i) => {
            proof {
                lemma_first_position(key@, REDIS_DELIMITER, i as int);
            }
            let n: usize = key.unicode_len();
            Ok(key.substring_char(i + 1, n))
        },
        None => Err(CacheError::InvalidKey),
    }
}

/// The first segment of a text, which is the whole text where it holds no
/// delimiter.
pub fn first_segment(text: &str) -> (r: &str)
    ensures
        r@ == first_segment_of(text@),
{
    match get_collection_key(text) {
        Ok(head) => head,
        Err(_) => text,
    }
}

/// The identifier that a stored key ends with: its last segment.
pub fn last_segment(key: &str) -> (r: &str)
    ensures
        r@ == last_segment_of(key@),
{
    tail_after_last(key, REDIS_DELIMITER)
}

/// The key under which a trader's entry is stored: the trader key, a
/// delimiter, and the entry's own key.
pub fn store_key(trader_key: &str, key: &str) -> (r: String)
    ensures
        r@ == joined(trader_key@, key@),
{
    proof {
        reveal_strlit(":");
    }
    let mut full = String::new();
    full.append(trader_key);
    full.append(":");
    full.append(key);
    proof {
        assert(full@ =~= joined(trader_key@, key@));
    }
    full
}

/// A key of the form collection, delimiter, tail is taken apart into just
/// these two, provided the collection itself holds no delimiter.
pub proof fn lemma_codec_splits_at_first_delimiter(collection: Seq<char>, tail: Seq<char>)
    requires
        !collection.contains(REDIS_DELIMITER),
    ensures
        collection_of(joined(collection, tail)) == Some(collection),
        index_tail_of(joined(collection, tail)) == Some(tail),
{
    let key = joined(collection, tail);
    let i = collection.len() as int;
    assert(key[i] == REDIS_DELIMITER);
    assert forall|j: int| 0 <= j < i implies key[j] != REDIS_DELIMITER by {
        assert(key[j] == collection[j]);
    }
    assert(is_first_at(key, REDIS_DELIMITER, i));
    lemma_first_position(key, REDIS_DELIMITER, i);
    assert(key.subrange(0, i) =~= collection);
    assert(key.subrange(i + 1, key.len() as int) =~= tail);
}

/// Whatever a well-formed key is, its collection is the text before its
/// first delimiter: the collection holds no delimiter, and the key is the
/// collection, a delimiter, and the index tail.
pub proof fn lemma_collection_is_prefix_before_first_delimiter(key: Seq<char>)
    requires
        key.contains(REDIS_DELIMITER),
    ensures
        collection_of(key) is Some,
        index_tail_of(key) is Some,
        !collection_of(key)->0.contains(REDIS_DELIMITER),
        key == joined(collection_of(key)->0, index_tail_of(key)->0),
{
    let w = choose|i: int| 0 <= i < key.len() && key[i] == REDIS_DELIMITER;
    lemma_has_first(key, REDIS_DELIMITER, w);
    let p = first_position(key, REDIS_DELIMITER);
    assert(is_first_at(key, REDIS_DELIMITER, p));
    let c = key.subrange(0, p);
    if c.contains(REDIS_DELIMITER) {
        let j = choose|j: int| 0 <= j < c.len() && c[j] == REDIS_DELIMITER;
        assert(key[j] == REDIS_DELIMITER);
    }
    assert(key =~= joined(c, key.subrange(p + 1, key.len() as int)));
}

/// A sequence that holds `d` at `w` has a first occurrence of `d`.
pub proof fn lemma_has_first(s: Seq<char>, d: char, w: int)
    requires
        0 <= w < s.len(),
        s[w] == d,
    ensures
        is_first_at(s, d, first_position(s, d)),
    decreases w,
{
    if forall|j: int| 0 <= j < w ==> s[j] != d {
        assert(is_first_at(s, d, w));
    } else {
        let j = choose|j: int| 0 <= j < w && s[j] == d;
        lemma_has_first(s, d, j);
    }
}

/// A key without a delimiter has neither a collection nor an index tail, so
/// both codec functions refuse it.
pub proof fn lemma_codec_refuses_undelimited(key: Seq<char>)
    requires
        !key.contains(REDIS_DELIMITER),
    ensures
        collection_of(key) is None,
        index_tail_of(key) is None,
{
}

/// The shape of a trader key. It starts with `trader-` exactly when the
/// prefix is switched on, and ends with a delimiter and the instance id
/// exactly when the instance id is switched on. This is stated for trader
/// ids that neither start with `trader-` themselves nor hold a delimiter.
pub proof fn lemma_trader_key_shape(
    trader_id: Seq<char>,
    instance_id: Seq<char>,
    use_trader_prefix: bool,
    use_instance_id: bool,
)
    requires
        !"trader-"@.is_prefix_of(trader_id),
        !trader_id.contains(REDIS_DELIMITER),
    ensures
        "trader-"@.is_prefix_of(
            trader_key_of(trader_id, instance_id, use_trader_prefix, use_instance_id),
        ) <==> use_trader_prefix,
        (seq![REDIS_DELIMITER] + instance_id).is_suffix_of(
            trader_key_of(trader_id, instance_id, use_trader_prefix, use_instance_id),
        ) <==> use_instance_id,
{
    reveal_strlit("trader-");
    let prefix = "trader-"@;
    let key = trader_key_of(trader_id, instance_id, use_trader_prefix, use_instance_id);
    let suffix = seq![REDIS_DELIMITER] + instance_id;
    let head = if use_trader_prefix {
        prefix + trader_id
    } else {
        trader_id
    };
    if use_trader_prefix {
        assert(key.subrange(0, prefix.len() as int) =~= prefix);
    } else {
        if prefix.is_prefix_of(key) {
            assert(key.subrange(0, 7) == prefix);
            if trader_id.len() >= 7 {
                assert(trader_id.subrange(0, 7) =~= key.subrange(0, 7));
            } else {
                let k = trader_id.len() as int;
                assert(use_instance_id);
                assert(key[k] == REDIS_DELIMITER);
                assert(key.subrange(0, 7)[k] == key[k]);
            }
        }
    }
    if use_instance_id {
        assert(key =~= head + suffix);
        assert(key.subrange(key.len() - suffix.len(), key.len() as int) =~= suffix);
    } else {
        if suffix.is_suffix_of(key) {
            let at = key.len() - suffix.len();
            assert(key.subrange(at, key.len() as int)[0] == suffix[0]);
            assert(key[at] == REDIS_DELIMITER);
            if use_trader_prefix {
                if at < 7 {
                    assert(prefix[at] != REDIS_DELIMITER);
                } else {
                    assert(trader_id[at - 7] == key[at]);
                }
            }
        }
    }
}

} // verus!

//! The wire parser: from a typed market-data message to a normalised record.
//!
//! A book message becomes one delta per level, bids first and asks after
//! them; the last delta is flagged as the last, and every delta of a
//! snapshot is flagged as such. A trade message becomes a trade, a bar
//! message a bar, and the other messages make no record.

use vstd::prelude::*;
use vstd::string::*;
use crate::identifiers::{random_uuid_text, UUID_TEXT_LEN};
use crate::message::{BarMsg, BookChangeMsg, BookLevel, BookSnapshotMsg, TradeMsg, WsMessage};
use crate::model::{
    batch_of, delta_views, AggregationSource, AggressorSide, Bar, BarAggregation,
    BarSpecification, BarType, BarTypeView, BarView, BookAction, BookOrder, Data,
    DeltaView, DeltasView, InstrumentId, InstrumentIdView, OrderBookDelta, OrderBookDeltas,
    OrderSide, Price, PriceType, Quantity, RecordFlag, TradeId, TradeTick, TradeView, UnixNanos,
};
use crate::text::{after_last, tail_after_last, text_eq, to_uppercase, uppercase_of};

verus! {

/// What a level does to the book: a level of a snapshot is added; of an
/// update, a level with no amount is deleted and any other is updated.
pub open spec fn book_action_of(is_snapshot: bool, amount: u64) -> BookAction {
    if is_snapshot {
        BookAction::Add
    } else if amount == 0 {
        BookAction::Delete
    } else {
        BookAction::Update
    }
}

/// What a level does to the book.
pub fn parse_book_action(is_snapshot: bool, amount: u64) -> (r: BookAction)
    ensures
        r == book_action_of(is_snapshot, amount),
{
    if is_snapshot {
        BookAction::Add
    } else if amount == 0 {
        BookAction::Delete
    } else {
        BookAction::Update
    }
}

/// The aggressor that a wire side names.
pub open spec fn aggressor_of(side: Seq<char>) -> AggressorSide {
    if side == "buy"@ {
        AggressorSide::Buyer
    } else if side == "sell"@ {
        AggressorSide::Seller
    } else {
        AggressorSide::NoAggressor
    }
}

/// The aggressor that a wire side names: `buy` the buyer, `sell` the seller,
/// anything else none.
pub fn parse_aggressor_side(value: &str) -> (r: AggressorSide)
    ensures
        r == aggressor_of(value@),
{
    if text_eq(value, "buy") {
        AggressorSide::Buyer
    } else if text_eq(value, "sell") {
        AggressorSide::Seller
    } else {
        AggressorSide::NoAggressor
    }
}

/// The instrument that an exchange and a symbol name: the symbol and, as
/// the venue, the exchange, both in upper case.
pub open spec fn instrument_id_of(exchange: Seq<char>, symbol: Seq<char>) -> InstrumentIdView {
    InstrumentIdView { symbol: uppercase_of(symbol), venue: uppercase_of(exchange) }
}

/// The instrument that an exchange and a symbol name.
pub fn parse_instrument_id(exchange: &str, symbol: &str) -> (r: InstrumentId)
    ensures
        r@ == instrument_id_of(exchange@, symbol@),
{
    InstrumentId::new(to_uppercase(symbol), to_uppercase(exchange))
}

/// The instrument of a message: the one that the caller supplies, or else
/// the one that the exchange and the symbol of the message name.
pub open spec fn resolved_id(
    given: Option<InstrumentId>,
    exchange: Seq<char>,
    symbol: Seq<char>,
) -> InstrumentIdView {
    match given {
        Some(id) => id@,
        None => instrument_id_of(exchange, symbol),
    }
}

/// The instrument of a message.
pub fn resolve_instrument_id(given: Option<InstrumentId>, exchange: &str, symbol: &str) -> (r:
    InstrumentId)
    ensures
        r@ == resolved_id(given, exchange@, symbol@),
{
    match given {
        Some(id) => id,
        None => parse_instrument_id(exchange, symbol),
    }
}

/// The delta that one level makes, before the last delta is flagged.
pub open spec fn level_delta(
    instrument_id: InstrumentIdView,
    price_precision: u8,
    size_precision: u8,
    side: OrderSide,
    level: BookLevel,
    is_snapshot: bool,
    ts_event: UnixNanos,
    ts_init: UnixNanos,
) -> DeltaView {
    DeltaView {
        instrument_id,
        action: book_action_of(is_snapshot, level.amount),
        order: BookOrder {
            side,
            price: Price { raw: level.price, precision: price_precision },
            size: Quantity { raw: level.amount, precision: size_precision },
            order_id: 0,
        },
        flags: if is_snapshot {
            RecordFlag::F_SNAPSHOT.bit()
        } else {
            0
        },
        sequence: 0,
        ts_event,
        ts_init,
    }
}

/// The deltas that the levels of one side make, in the order of the levels.
pub open spec fn side_deltas(
    instrument_id: InstrumentIdView,
    price_precision: u8,
    size_precision: u8,
    side: OrderSide,
    levels: Seq<BookLevel>,
    is_snapshot: bool,
    ts_event: UnixNanos,
    ts_init: UnixNanos,
) -> Seq<DeltaView> {
    levels.map_values(
        |level: BookLevel|
            level_delta(
                instrument_id,
                price_precision,
                size_precision,
                side,
                level,
                is_snapshot,
                ts_event,
                ts_init,
            ),
    )
}

/// A delta with the flag of the last record added to its flags.
pub open spec fn stamped(delta: DeltaView) -> DeltaView {
    DeltaView { flags: (delta.flags + RecordFlag::F_LAST.bit()) as u8, ..delta }
}

/// The deltas of a book message: those of the bids, then those of the asks,
/// the last of them all flagged as the last.
pub open spec fn book_deltas(
    instrument_id: InstrumentIdView,
    price_precision: u8,
    size_precision: u8,
    bids: Seq<BookLevel>,
    asks: Seq<BookLevel>,
    is_snapshot: bool,
    ts_event: UnixNanos,
    ts_init: UnixNanos,
) -> Seq<DeltaView> {
    let plain = side_deltas(
        instrument_id,
        price_precision,
        size_precision,
        OrderSide::Buy,
        bids,
        is_snapshot,
        ts_event,
        ts_init,
    ) + side_deltas(
        instrument_id,
        price_precision,
        size_precision,
        OrderSide::Sell,
        asks,
        is_snapshot,
        ts_event,
        ts_init,
    );
    if plain.len() == 0 {
        plain
    } else {
        plain.update(plain.len() - 1, stamped(plain.last()))
    }
}

/// The batch of a book message.
pub open spec fn book_batch(
    instrument_id: InstrumentIdView,
    price_precision: u8,
    size_precision: u8,
    bids: Seq<BookLevel>,
    asks: Seq<BookLevel>,
    is_snapshot: bool,
    ts_event: UnixNanos,
    ts_init: UnixNanos,
) -> DeltasView {
    batch_of(
        instrument_id,
        book_deltas(
            instrument_id,
            price_precision,
            size_precision,
            bids,
            asks,
            is_snapshot,
            ts_event,
            ts_init,
        ),
    )
}

/// Makes the delta of one level of a book.
pub fn parse_book_level(
    instrument_id: &InstrumentId,
    price_precision: u8,
    size_precision: u8,
    side: OrderSide,
    level: BookLevel,
    is_snapshot: bool,
    ts_event: UnixNanos,
    ts_init: UnixNanos,
) -> (r: OrderBookDelta)
    ensures
        r@ == level_delta(
            instrument_id@,
            price_precision,
            size_precision,
            side,
            level,
            is_snapshot,
            ts_event,
            ts_init,
        ),
{
    let action = parse_book_action(is_snapshot, level.amount);
    let price = Price::new(level.price, price_precision);
    let size = Quantity::new(level.amount, size_precision);
    let order_id: u64 = 0;  // Not applicable for L2 data
    let order = BookOrder::new(side, price, size, order_id);
    let flags: u8 = if is_snapshot {
        RecordFlag::F_SNAPSHOT.value()
    } else {
        0
    };
    let sequence: u64 = 0;  // Not available
    OrderBookDelta::new(
        instrument_id.duplicate(),
        action,
        order,
        flags,
        sequence,
        ts_event,
        ts_init,
    )
}

/// Makes the batch of deltas of a book message that has at least one level.
pub fn parse_book_msg(
    bids: Vec<BookLevel>,
    asks: Vec<BookLevel>,
    is_snapshot: bool,
    price_precision: u8,
    size_precision: u8,
    instrument_id: InstrumentId,
    timestamp: UnixNanos,
    local_timestamp: UnixNanos,
) -> (r: OrderBookDeltas)
    requires
        bids@.len() + asks@.len() > 0,
    ensures
        r@ == book_batch(
            instrument_id@,
            price_precision,
            size_precision,
            bids@,
            asks@,
            is_snapshot,
            timestamp,
            local_timestamp,
        ),
{
    let ts_event = timestamp;
    let ts_init = local_timestamp;
    let ghost bid_views = side_deltas(
        instrument_id@,
        price_precision,
        size_precision,
        OrderSide::Buy,
        bids@,
        is_snapshot,
        ts_event,
        ts_init,
    );
    let ghost ask_views = side_deltas(
        instrument_id@,
        price_precision,
        size_precision,
        OrderSide::Sell,
        asks@,
        is_snapshot,
        ts_event,
        ts_init,
    );
    let mut deltas: Vec<OrderBookDelta> = Vec::new();
    let bid_count: usize = bids.len();
    for i in 0..bid_count
        invariant
            bid_count == bids@.len(),
            bid_views.len() == bids@.len(),
            bid_views == side_deltas(
                instrument_id@,
                price_precision,
                size_precision,
                OrderSide::Buy,
                bids@,
                is_snapshot,
                ts_event,
                ts_init,
            ),
            delta_views(deltas@) == bid_views.take(i as int),
    {
        let delta = parse_book_level(
            &instrument_id,
            price_precision,
            size_precision,
            OrderSide::Buy,
            bids[i],
            is_snapshot,
            ts_event,
            ts_init,
        );
        let ghost before = deltas@;
        deltas.push(delta);
        proof {
            assert(delta@ == bid_views[i as int]);
            assert(delta_views(deltas@) =~= delta_views(before).push(delta@));
            assert(bid_views.take(i as int).push(bid_views[i as int]) =~= bid_views.take(i + 1));
        }
    }
    proof {
        assert(bid_views.take(bid_count as int) =~= bid_views);
    }
    let ask_count: usize = asks.len();
    for i in 0..ask_count
        invariant
            ask_count == asks@.len(),
            ask_views.len() == asks@.len(),
            ask_views == side_deltas(
                instrument_id@,
                price_precision,
                size_precision,
                OrderSide::Sell,
                asks@,
                is_snapshot,
                ts_event,
                ts_init,
            ),
            delta_views(deltas@) == bid_views + ask_views.take(i as int),
    {
        let delta = parse_book_level(
            &instrument_id,
            price_precision,
            size_precision,
            OrderSide::Sell,
            asks[i],
            is_snapshot,
            ts_event,
            ts_init,
        );
        let ghost before = deltas@;
        deltas.push(delta);
        proof {
            assert(delta@ == ask_views[i as int]);
            assert(delta_views(deltas@) =~= delta_views(before).push(delta@));
            assert((bid_views + ask_views.take(i as int)).push(ask_views[i as int]) =~= bid_views
                + ask_views.take(i + 1));
        }
    }
    proof {
        assert(ask_views.take(ask_count as int) =~= ask_views);
    }
    let ghost plain = bid_views + ask_views;
    assert(delta_views(deltas@) == plain);
    assert(deltas@.len() == plain.len());
    let ghost unstamped = deltas@;
    match deltas.pop() {
        Some(mut last_delta) => {
            proof {
                assert(last_delta@ == plain.last()) by {
                    assert(delta_views(unstamped)[unstamped.len() - 1] == last_delta@);
                }
                if plain.len() - 1 < bid_views.len() {
                    assert(plain.last() == bid_views[plain.len() - 1]);
                } else {
                    assert(plain.last() == ask_views[plain.len() - 1 - bid_views.len()]);
                }
                assert(last_delta.flags <= 32);
            }
            last_delta.flags = last_delta.flags + RecordFlag::F_LAST.value();
            let ghost front = deltas@;
            deltas.push(last_delta);
            proof {
                assert(last_delta@ == stamped(plain.last()));
                assert(delta_views(deltas@) =~= plain.update(
                    plain.len() - 1,
                    stamped(plain.last()),
                )) by {
                    assert forall|j: int| 0 <= j < plain.len() - 1 implies delta_views(deltas@)[j]
                        == plain[j] by {
                        assert(deltas@[j] == unstamped[j]);
                        assert(delta_views(unstamped)[j] == unstamped[j]@);
                    }
                }
            }
        },
        None => {},
    }
    OrderBookDeltas::new(instrument_id, deltas)
}

/// Makes the batch of deltas of a book change message that has at least one
/// level.
pub fn parse_book_change_msg(
    msg: BookChangeMsg,
    price_precision: u8,
    size_precision: u8,
    instrument_id: Option<InstrumentId>,
) -> (r: OrderBookDeltas)
    requires
        msg.bids@.len() + msg.asks@.len() > 0,
    ensures
        r@ == book_batch(
            resolved_id(instrument_id, msg.exchange@, msg.symbol@),
            price_precision,
            size_precision,
            msg.bids@,
            msg.asks@,
            msg.is_snapshot,
            msg.timestamp,
            msg.local_timestamp,
        ),
{
    let instrument_id = resolve_instrument_id(
        instrument_id,
        msg.exchange.as_str(),
        msg.symbol.as_str(),
    );
    parse_book_msg(
        msg.bids,
        msg.asks,
        msg.is_snapshot,
        price_precision,
        size_precision,
        instrument_id,
        msg.timestamp,
        msg.local_timestamp,
    )
}

/// Makes the batch of deltas of a book snapshot message that has at least
/// one level. Every level of it is taken as a level of a snapshot.
pub fn parse_book_snapshot_msg(
    msg: BookSnapshotMsg,
    price_precision: u8,
    size_precision: u8,
    instrument_id: Option<InstrumentId>,
) -> (r: OrderBookDeltas)
    requires
        msg.bids@.len() + msg.asks@.len() > 0,
    ensures
        r@ == book_batch(
            resolved_id(instrument_id, msg.exchange@, msg.symbol@),
            price_precision,
            size_precision,
            msg.bids@,
            msg.asks@,
            true,
            msg.timestamp,
            msg.local_timestamp,
        ),
{
    let instrument_id = resolve_instrument_id(
        instrument_id,
        msg.exchange.as_str(),
        msg.symbol.as_str(),
    );
    parse_book_msg(
        msg.bids,
        msg.asks,
        true,
        price_precision,
        size_precision,
        instrument_id,
        msg.timestamp,
        msg.local_timestamp,
    )
}

/// The trade that a trade message makes, given the id that it gets.
pub open spec fn trade_of(
    instrument_id: InstrumentIdView,
    price_precision: u8,
    size_precision: u8,
    price: i64,
    amount: u64,
    side: Seq<char>,
    trade_id: Seq<char>,
    timestamp: UnixNanos,
    local_timestamp: UnixNanos,
) -> TradeView {
    TradeView {
        instrument_id,
        price: Price { raw: price, precision: price_precision },
        size: Quantity { raw: amount, precision: size_precision },
        aggressor_side: aggressor_of(side),
        trade_id,
        ts_event: timestamp,
        ts_init: local_timestamp,
    }
}

/// Makes the trade of a trade message, with `fallback_id` as the id of a
/// trade that comes without one.
pub fn trade_with_id(
    msg: TradeMsg,
    price_precision: u8,
    size_precision: u8,
    instrument_id: Option<InstrumentId>,
    fallback_id: String,
) -> (r: TradeTick)
    ensures
        r@ == trade_of(
            resolved_id(instrument_id, msg.exchange@, msg.symbol@),
            price_precision,
            size_precision,
            msg.price,
            msg.amount,
            msg.side@,
            match msg.id {
                Some(id) => id@,
                None => fallback_id@,
            },
            msg.timestamp,
            msg.local_timestamp,
        ),
{
    let instrument_id = resolve_instrument_id(
        instrument_id,
        msg.exchange.as_str(),
        msg.symbol.as_str(),
    );
    let price = Price::new(msg.price, price_precision);
    let size = Quantity::new(msg.amount, size_precision);
    let aggressor_side = parse_aggressor_side(msg.side.as_str());
    let trade_id = TradeId::new(
        match msg.id {
            Some(id) => id,
            None => fallback_id,
        },
    );
    TradeTick::new(
        instrument_id,
        price,
        size,
        aggressor_side,
        trade_id,
        msg.timestamp,
        msg.local_timestamp,
    )
}

/// Makes the trade of a trade message. A trade that comes without an id
/// gets a fresh random one, of which only the length is known.
pub fn parse_trade_msg(
    msg: TradeMsg,
    price_precision: u8,
    size_precision: u8,
    instrument_id: Option<InstrumentId>,
) -> (r: TradeTick)
    ensures
        r@ == trade_of(
            resolved_id(instrument_id, msg.exchange@, msg.symbol@),
            price_precision,
            size_precision,
            msg.price,
            msg.amount,
            msg.side@,
            r.trade_id.value@,
            msg.timestamp,
            msg.local_timestamp,
        ),
        msg.id matches Some(id) ==> r.trade_id.value@ == id@,
        msg.id is None ==> r.trade_id.value@.len() == UUID_TEXT_LEN,
{
    let fallback_id = if msg.id.is_none() {
        random_uuid_text()
    } else {
        String::new()
    };
    trade_with_id(msg, price_precision, size_precision, instrument_id, fallback_id)
}

/// Whether a character is one of the ten ASCII digits.
pub open spec fn is_digit(c: char) -> bool {
    48 <= c as u32 <= 57
}

/// The number that an ASCII digit stands for.
pub open spec fn digit_value(c: char) -> nat {
    (c as u32 - 48) as nat
}

/// The number that a run of ASCII digits writes in base ten.
pub open spec fn decimal_value(digits: Seq<char>) -> nat
    decreases digits.len(),
{
    if digits.len() == 0 {
        0
    } else {
        10 * decimal_value(digits.drop_last()) + digit_value(digits.last())
    }
}

/// `k` is the number of digits that `s` starts with.
pub open spec fn is_digit_prefix(s: Seq<char>, k: int) -> bool {
    &&& 0 <= k <= s.len()
    &&& forall|j: int| 0 <= j < k ==> is_digit(s[j])
    &&& k < s.len() ==> !is_digit(s[k])
}

/// The number of digits that `s` starts with.
pub open spec fn leading_digits(s: Seq<char>) -> int {
    choose|k: int| is_digit_prefix(s, k)
}

/// The unit that the suffix of a bar name stands for.
pub open spec fn aggregation_of(suffix: Seq<char>) -> Option<BarAggregation> {
    if suffix == "ms"@ {
        Some(BarAggregation::Millisecond)
    } else if suffix == "s"@ {
        Some(BarAggregation::Second)
    } else if suffix == "m"@ {
        Some(BarAggregation::Minute)
    } else if suffix == "ticks"@ {
        Some(BarAggregation::Tick)
    } else if suffix == "vol"@ {
        Some(BarAggregation::Volume)
    } else {
        None
    }
}

/// The aggregation parameters that a bar name holds. The part of the name
/// behind its last `_` is a step in decimal digits followed by a unit. A
/// name without digits there, without a known unit, or with a step that is
/// too large for the machine holds none. The price type is always `Last`.
pub open spec fn bar_spec_of(name: Seq<char>) -> Option<BarSpecification> {
    let part = after_last(name, '_');
    let k = leading_digits(part);
    if k == 0 || k == part.len() {
        None
    } else {
        match aggregation_of(part.skip(k)) {
            None => None,
            Some(aggregation) => if decimal_value(part.take(k)) > usize::MAX {
                None
            } else {
                Some(
                    BarSpecification {
                        step: decimal_value(part.take(k)) as usize,
                        aggregation,
                        price_type: PriceType::Last,
                    },
                )
            },
        }
    }
}

/// A text starts with just one number of digits.
pub proof fn lemma_leading_digits(s: Seq<char>, k: int)
    requires
        is_digit_prefix(s, k),
    ensures
        leading_digits(s) == k,
{
    let c = leading_digits(s);
    assert(is_digit_prefix(s, c));
    if c < k {
        assert(is_digit(s[c]));
    }
    if k < c {
        assert(is_digit(s[k]));
    }
}

/// A longer run of digits writes no smaller number.
pub proof fn lemma_decimal_value_grows(s: Seq<char>, a: int, b: int)
    requires
        0 <= a <= b <= s.len(),
    ensures
        decimal_value(s.take(a)) <= decimal_value(s.take(b)),
    decreases b - a,
{
    if a < b {
        lemma_decimal_value_grows(s, a, b - 1);
        assert(s.take(b).drop_last() =~= s.take(b - 1));
    }
}

/// The unit that the suffix of a bar name stands for.
pub fn parse_aggregation(suffix: &str) -> (r: Option<BarAggregation>)
    ensures
        r == aggregation_of(suffix@),
{
    if text_eq(suffix, "ms") {
        Some(BarAggregation::Millisecond)
    } else if text_eq(suffix, "s") {
        Some(BarAggregation::Second)
    } else if text_eq(suffix, "m") {
        Some(BarAggregation::Minute)
    } else if text_eq(suffix, "ticks") {
        Some(BarAggregation::Tick)
    } else if text_eq(suffix, "vol") {
        Some(BarAggregation::Volume)
    } else {
        None
    }
}

/// Reads the aggregation parameters out of a bar name such as
/// `trade_bar_10000ms`.
pub fn parse_bar_spec(name: &str) -> (r: Option<BarSpecification>)
    ensures
        r == bar_spec_of(name@),
{
    let part = tail_after_last(name, '_');
    let n: usize = part.unicode_len();
    let mut idx: usize = 0;
    let mut step: usize = 0;
    for c in it: part.chars()
        invariant
            n == part@.len(),
            idx == it.index(),
            it.seq() == part@,
            part@ == after_last(name@, '_'),
            forall|j: int| 0 <= j < idx ==> is_digit(part@[j]),
            step == decimal_value(part@.take(idx as int)),
    {
        let code: u32 = c as u32;
        if code < 48 || code > 57 {
            proof {
                lemma_leading_digits(part@, idx as int);
            }
            if idx == 0 {
                return None;
            }
            return match parse_aggregation(part.substring_char(idx, n)) {
                Some(aggregation) => Some(
                    BarSpecification { step, aggregation, price_type: PriceType::Last },
                ),
                None => None,
            };
        }
        let digit: usize = (code - 48) as usize;
        proof {
            assert(part@.take(idx + 1).drop_last() =~= part@.take(idx as int));
            assert(part@.take(idx + 1).last() == c);
            assert(decimal_value(part@.take(idx + 1)) == 10 * step + digit);
        }
        let grown = match step.checked_mul(10) {
            Some(tens) => tens.checked_add(digit),
            None => None,
        };
        match grown {
            Some(value) => {
                step = value;
            },
            None => {
                proof {
                    let k = leading_digits(part@);
                    assert(is_digit_prefix(part@, part@.len() as int) || exists|w: int|
                        is_digit_prefix(part@, w)) by {
                        lemma_digit_prefix_exists(part@, idx + 1);
                    }
                    assert(is_digit_prefix(part@, k));
                    if k <= idx {
                        assert(!is_digit(part@[k]));
                    }
                    lemma_decimal_value_grows(part@, idx + 1, k);
                }
                return None;
            },
        }
        idx = idx + 1;
    }
    proof {
        lemma_leading_digits(part@, n as int);
    }
    None
}

/// A text that starts with `from` digits starts with some number of digits
/// that is followed by no further digit.
pub proof fn lemma_digit_prefix_exists(s: Seq<char>, from: int)
    requires
        0 <= from <= s.len(),
        forall|j: int| 0 <= j < from ==> is_digit(s[j]),
    ensures
        exists|k: int| is_digit_prefix(s, k),
    decreases s.len() - from,
{
    if from == s.len() || !is_digit(s[from]) {
        assert(is_digit_prefix(s, from));
    } else {
        lemma_digit_prefix_exists(s, from + 1);
    }
}

/// The bar that a bar message makes, given its aggregation parameters.
pub open spec fn bar_of(
    instrument_id: InstrumentIdView,
    spec: BarSpecification,
    price_precision: u8,
    size_precision: u8,
    open: i64,
    high: i64,
    low: i64,
    close: i64,
    volume: u64,
    timestamp: UnixNanos,
    local_timestamp: UnixNanos,
) -> BarView {
    BarView {
        bar_type: BarTypeView {
            instrument_id,
            spec,
            aggregation_source: AggregationSource::External,
        },
        open: Price { raw: open, precision: price_precision },
        high: Price { raw: high, precision: price_precision },
        low: Price { raw: low, precision: price_precision },
        close: Price { raw: close, precision: price_precision },
        volume: Quantity { raw: volume, precision: size_precision },
        ts_event: timestamp,
        ts_init: local_timestamp,
    }
}

/// Makes the bar of a bar message whose name holds aggregation parameters.
/// The bar is marked as aggregated outside.
pub fn parse_bar_msg(
    msg: BarMsg,
    price_precision: u8,
    size_precision: u8,
    instrument_id: Option<InstrumentId>,
) -> (r: Bar)
    requires
        bar_spec_of(msg.name@) is Some,
    ensures
        r@ == bar_of(
            resolved_id(instrument_id, msg.exchange@, msg.symbol@),
            bar_spec_of(msg.name@)->0,
            price_precision,
            size_precision,
            msg.open,
            msg.high,
            msg.low,
            msg.close,
            msg.volume,
            msg.timestamp,
            msg.local_timestamp,
        ),
{
    let instrument_id = resolve_instrument_id(
        instrument_id,
        msg.exchange.as_str(),
        msg.symbol.as_str(),
    );
    let spec = match parse_bar_spec(msg.name.as_str()) {
        Some(spec) => spec,
        None => BarSpecification {
            step: 0,
            aggregation: BarAggregation::Tick,
            price_type: PriceType::Last,
        },
    };
    let bar_type = BarType::new(instrument_id, spec, AggregationSource::External);
    let open = Price::new(msg.open, price_precision);
    let high = Price::new(msg.high, price_precision);
    let low = Price::new(msg.low, price_precision);
    let close = Price::new(msg.close, price_precision);
    let volume = Quantity::new(msg.volume, size_precision);
    Bar::new(bar_type, open, high, low, close, volume, msg.timestamp, msg.local_timestamp)
}

/// Whether the parser takes a message: a book message needs a level, and a
/// bar message a name that holds aggregation parameters.
pub open spec fn well_formed(msg: WsMessage) -> bool {
    match msg {
        WsMessage::BookChange(m) => m.bids@.len() + m.asks@.len() > 0,
        WsMessage::BookSnapshot(m) => m.bids@.len() + m.asks@.len() > 0,
        WsMessage::Bar(m) => bar_spec_of(m.name@) is Some,
        _ => true,
    }
}

/// Whether the parser takes a message.
pub fn is_well_formed(msg: &WsMessage) -> (r: bool)
    ensures
        r == well_formed(*msg),
{
    match msg {
        WsMessage::BookChange(m) => m.bids.len() > 0 || m.asks.len() > 0,
        WsMessage::BookSnapshot(m) => m.bids.len() > 0 || m.asks.len() > 0,
        WsMessage::Bar(m) => parse_bar_spec(m.name.as_str()).is_some(),
        _ => true,
    }
}

/// Makes the record of a message of the feed. Book messages make a batch of
/// deltas, a trade message a trade, a bar message a bar; a ticker of a
/// derivative and a disconnect notice make no record.
pub fn parse_tardis_ws_message(msg: WsMessage, price_precision: u8, size_precision: u8) -> (r:
    Option<Data>)
    requires
        well_formed(msg),
    ensures
        r is None <==> (msg is DerivativeTicker || msg is Disconnect),
        match msg {
            WsMessage::BookChange(m) => r matches Some(Data::Deltas(d)) && d@ == book_batch(
                instrument_id_of(m.exchange@, m.symbol@),
                price_precision,
                size_precision,
                m.bids@,
                m.asks@,
                m.is_snapshot,
                m.timestamp,
                m.local_timestamp,
            ),
            WsMessage::BookSnapshot(m) => r matches Some(Data::Deltas(d)) && d@ == book_batch(
                instrument_id_of(m.exchange@, m.symbol@),
                price_precision,
                size_precision,
                m.bids@,
                m.asks@,
                true,
                m.timestamp,
                m.local_timestamp,
            ),
            WsMessage::Trade(m) => r matches Some(Data::Trade(t)) && t@ == trade_of(
                instrument_id_of(m.exchange@, m.symbol@),
                price_precision,
                size_precision,
                m.price,
                m.amount,
                m.side@,
                t.trade_id.value@,
                m.timestamp,
                m.local_timestamp,
            ) && (m.id matches Some(id) ==> t.trade_id.value@ == id@) && (m.id is None
                ==> t.trade_id.value@.len() == UUID_TEXT_LEN),
            WsMessage::Bar(m) => r matches Some(Data::Bar(b)) && b@ == bar_of(
                instrument_id_of(m.exchange@, m.symbol@),
                bar_spec_of(m.name@)->0,
                price_precision,
                size_precision,
                m.open,
                m.high,
                m.low,
                m.close,
                m.volume,
                m.timestamp,
                m.local_timestamp,
            ),
            WsMessage::DerivativeTicker(_) => r is None,
            WsMessage::Disconnect(_) => r is None,
        },
{
    match msg {
        WsMessage::BookChange(msg) => Some(
            Data::Deltas(parse_book_change_msg(msg, price_precision, size_precision, None)),
        ),
        WsMessage::BookSnapshot(msg) => Some(
            Data::Deltas(parse_book_snapshot_msg(msg, price_precision, size_precision, None)),
        ),
        WsMessage::Trade(msg) => Some(
            Data::Trade(parse_trade_msg(msg, price_precision, size_precision, None)),
        ),
        WsMessage::Bar(msg) => Some(
            Data::Bar(parse_bar_msg(msg, price_precision, size_precision, None)),
        ),
        WsMessage::DerivativeTicker(_) => None,
        WsMessage::Disconnect(_) => None,
    }
}

/// The flags of the deltas of a book message with at least one level. Every
/// delta of a snapshot carries the snapshot flag and no delta of an update
/// does; the last delta, and no other, carries the flag of the last record;
/// so the batch is flagged as last, and as snapshot if it is one.
pub proof fn lemma_book_flags(
    instrument_id: InstrumentIdView,
    price_precision: u8,
    size_precision: u8,
    bids: Seq<BookLevel>,
    asks: Seq<BookLevel>,
    is_snapshot: bool,
    ts_event: UnixNanos,
    ts_init: UnixNanos,
)
    requires
        bids.len() + asks.len() > 0,
    ensures
        ({
            let deltas = book_deltas(
                instrument_id,
                price_precision,
                size_precision,
                bids,
                asks,
                is_snapshot,
                ts_event,
                ts_init,
            );
            let batch = book_batch(
                instrument_id,
                price_precision,
                size_precision,
                bids,
                asks,
                is_snapshot,
                ts_event,
                ts_init,
            );
            &&& deltas.len() == bids.len() + asks.len()
            &&& forall|i: int|
                0 <= i < deltas.len() ==> (RecordFlag::F_SNAPSHOT.is_set_in(
                    (#[trigger] deltas[i]).flags,
                ) <==> is_snapshot)
            &&& forall|i: int|
                0 <= i < deltas.len() ==> (RecordFlag::F_LAST.is_set_in(
                    (#[trigger] deltas[i]).flags,
                ) <==> i == deltas.len() - 1)
            &&& RecordFlag::F_LAST.is_set_in(batch.flags)
            &&& RecordFlag::F_SNAPSHOT.is_set_in(batch.flags) <==> is_snapshot
            &&& batch.flags == if is_snapshot {
                RecordFlag::F_LAST.bit() + RecordFlag::F_SNAPSHOT.bit()
            } else {
                RecordFlag::F_LAST.bit() as int
            }
        }),
{
    let deltas = book_deltas(
        instrument_id,
        price_precision,
        size_precision,
        bids,
        asks,
        is_snapshot,
        ts_event,
        ts_init,
    );
    assert(0u8 & 32u8 == 0u8) by (bit_vector);
    assert(0u8 & 128u8 == 0u8) by (bit_vector);
    assert(32u8 & 32u8 != 0u8) by (bit_vector);
    assert(32u8 & 128u8 == 0u8) by (bit_vector);
    assert(128u8 & 32u8 == 0u8) by (bit_vector);
    assert(128u8 & 128u8 != 0u8) by (bit_vector);
    assert(160u8 & 32u8 != 0u8) by (bit_vector);
    assert(160u8 & 128u8 != 0u8) by (bit_vector);
    let plain = side_deltas(
        instrument_id,
        price_precision,
        size_precision,
        OrderSide::Buy,
        bids,
        is_snapshot,
        ts_event,
        ts_init,
    ) + side_deltas(
        instrument_id,
        price_precision,
        size_precision,
        OrderSide::Sell,
        asks,
        is_snapshot,
        ts_event,
        ts_init,
    );
    assert forall|i: int| 0 <= i < plain.len() implies (#[trigger] plain[i]).flags == (if is_snapshot {
        32u8
    } else {
        0u8
    }) by {
        if i < bids.len() {
        } else {
            assert(plain[i] == side_deltas(
                instrument_id,
                price_precision,
                size_precision,
                OrderSide::Sell,
                asks,
                is_snapshot,
                ts_event,
                ts_init,
            )[i - bids.len()]);
        }
    }
    assert forall|i: int| 0 <= i < deltas.len() implies (RecordFlag::F_SNAPSHOT.is_set_in(
        (#[trigger] deltas[i]).flags,
    ) <==> is_snapshot) && (RecordFlag::F_LAST.is_set_in(deltas[i].flags) <==> i == deltas.len()
        - 1) by {
        if i == deltas.len() - 1 {
            assert(deltas[i] == stamped(plain[i]));
        } else {
            assert(deltas[i] == plain[i]);
        }
    }
}

/// The order of the deltas of a book message: one for each level, the bids
/// first, in their order, and the asks after them, in theirs; each holds
/// the price and the size of its level.
pub proof fn lemma_book_order(
    instrument_id: InstrumentIdView,
    price_precision: u8,
    size_precision: u8,
    bids: Seq<BookLevel>,
    asks: Seq<BookLevel>,
    is_snapshot: bool,
    ts_event: UnixNanos,
    ts_init: UnixNanos,
)
    ensures
        ({
            let deltas = book_deltas(
                instrument_id,
                price_precision,
                size_precision,
                bids,
                asks,
                is_snapshot,
                ts_event,
                ts_init,
            );
            &&& deltas.len() == bids.len() + asks.len()
            &&& forall|i: int|
                0 <= i < bids.len() ==> {
                    &&& (#[trigger] deltas[i]).order == BookOrder {
                        side: OrderSide::Buy,
                        price: Price { raw: bids[i].price, precision: price_precision },
                        size: Quantity { raw: bids[i].amount, precision: size_precision },
                        order_id: 0,
                    }
                    &&& deltas[i].action == book_action_of(is_snapshot, bids[i].amount)
                }
            &&& forall|i: int|
                0 <= i < asks.len() ==> {
                    &&& (#[trigger] deltas[bids.len() + i]).order == BookOrder {
                        side: OrderSide::Sell,
                        price: Price { raw: asks[i].price, precision: price_precision },
                        size: Quantity { raw: asks[i].amount, precision: size_precision },
                        order_id: 0,
                    }
                    &&& deltas[bids.len() + i].action == book_action_of(
                        is_snapshot,
                        asks[i].amount,
                    )
                }
            &&& forall|i: int|
                0 <= i < deltas.len() ==> {
                    &&& (#[trigger] deltas[i]).instrument_id == instrument_id
                    &&& deltas[i].sequence == 0
                    &&& deltas[i].ts_event == ts_event
                    &&& deltas[i].ts_init == ts_init
                }
        }),
{
    let bid_deltas = side_deltas(
        instrument_id,
        price_precision,
        size_precision,
        OrderSide::Buy,
        bids,
        is_snapshot,
        ts_event,
        ts_init,
    );
    let ask_deltas = side_deltas(
        instrument_id,
        price_precision,
        size_precision,
        OrderSide::Sell,
        asks,
        is_snapshot,
        ts_event,
        ts_init,
    );
    let plain = bid_deltas + ask_deltas;
    let deltas = book_deltas(
        instrument_id,
        price_precision,
        size_precision,
        bids,
        asks,
        is_snapshot,
        ts_event,
        ts_init,
    );
    assert forall|i: int| 0 <= i < asks.len() implies plain[bids.len() + i] == ask_deltas[i] by {}
    assert forall|i: int| 0 <= i < plain.len() implies (#[trigger] deltas[i]).order == plain[i].order
        && deltas[i].action == plain[i].action && deltas[i].instrument_id == plain[i].instrument_id
        && deltas[i].sequence == plain[i].sequence && deltas[i].ts_event == plain[i].ts_event
        && deltas[i].ts_init == plain[i].ts_init by {
        if i == plain.len() - 1 {
            assert(deltas[i] == stamped(plain[i]));
        }
    }
    assert forall|i: int| 0 <= i < deltas.len() implies (#[trigger] deltas[i]).instrument_id
        == instrument_id && deltas[i].sequence == 0 && deltas[i].ts_event == ts_event
        && deltas[i].ts_init == ts_init by {
        if i < bids.len() {
            assert(plain[i] == bid_deltas[i]);
        } else {
            assert(plain[bids.len() + (i - bids.len())] == ask_deltas[i - bids.len()]);
        }
    }
}

} // verus!

//! The normalised market-data records.
//!
//! Prices and sizes are fixed-point numbers: an integer `raw` that counts
//! units of ten to the power of minus `precision`.

use vstd::prelude::*;
use vstd::string::*;
use crate::text::{find_last, last_position, lemma_last_position};

verus! {

/// Nanoseconds since the UNIX epoch.
pub type UnixNanos = u64;

/// Identifies an instrument by its symbol and the venue it trades on.
#[derive(Clone, Debug, PartialEq, Eq)]
pub struct InstrumentId {
    pub symbol: String,
    pub venue: String,
}

pub struct InstrumentIdView {
    pub symbol: Seq<char>,
    pub venue: Seq<char>,
}

impl View for InstrumentId {
    type V = InstrumentIdView;

    open spec fn view(&self) -> InstrumentIdView {
        InstrumentIdView { symbol: self.symbol@, venue: self.venue@ }
    }
}

/// The symbol and the venue that a text of the form `SYMBOL.VENUE` names:
/// what stands before and behind its last `.`, neither of them empty.
pub open spec fn instrument_id_named(text: Seq<char>) -> Option<InstrumentIdView> {
    if text.contains('.') {
        let at = last_position(text, '.');
        if 0 < at && at + 1 < text.len() {
            Some(
                InstrumentIdView {
                    symbol: text.subrange(0, at),
                    venue: text.subrange(at + 1, text.len() as int),
                },
            )
        } else {
            None
        }
    } else {
        None
    }
}

impl InstrumentId {
    /// The instrument that a text of the form `SYMBOL.VENUE` names, if it
    /// has that form.
    pub fn parse(text: &str) -> (r: Option<Self>)
        ensures
            match r {
                Some(id) => instrument_id_named(text@) == Some(id@),
                None => instrument_id_named(text@) is None,
            },
    {
        match find_last(text, '.') {
            Some(at) => {
                proof {
                    lemma_last_position(text@, '.', at as int);
                }
                let n: usize = text.unicode_len();
                if 0 < at && at + 1 < n {
                    Some(
                        InstrumentId {
                            symbol: text.substring_char(0, at).to_owned(),
                            venue: text.substring_char(at + 1, n).to_owned(),
                        },
                    )
                } else {
                    None
                }
            },
            None => None,
        }
    }

    pub fn new(symbol: String, venue: String) -> (r: Self)
        ensures
            r.symbol == symbol,
            r.venue == venue,
    {
        InstrumentId { symbol, venue }
    }

    /// A second value with the same symbol and venue.
    pub fn duplicate(&self) -> (r: Self)
        ensures
            r == *self,
    {
        InstrumentId { symbol: self.symbol.clone(), venue: self.venue.clone() }
    }
}

/// A price with a fixed number of decimal places.
#[derive(Clone, Copy, Debug, PartialEq, Eq, Structural)]
pub struct Price {
    pub raw: i64,
    pub precision: u8,
}

impl Price {
    pub fn new(raw: i64, precision: u8) -> (r: Self)
        ensures
            r == (Price { raw, precision }),
    {
        Price { raw, precision }
    }
}

/// A non-negative quantity with a fixed number of decimal places.
#[derive(Clone, Copy, Debug, PartialEq, Eq, Structural)]
pub struct Quantity {
    pub raw: u64,
    pub precision: u8,
}

impl Quantity {
    pub fn new(raw: u64, precision: u8) -> (r: Self)
        ensures
            r == (Quantity { raw, precision }),
    {
        Quantity { raw, precision }
    }
}

/// The side of an order in a book.
#[derive(Clone, Copy, Debug, PartialEq, Eq, Structural)]
pub enum OrderSide {
    NoOrderSide,
    Buy,
    Sell,
}

/// What a delta does to a level of a book.
#[derive(Clone, Copy, Debug, PartialEq, Eq, Structural)]
pub enum BookAction {
    Add,
    Update,
    Delete,
    Clear,
}

/// The side of a trade that initiated the match.
#[derive(Clone, Copy, Debug, PartialEq, Eq, Structural)]
pub enum AggressorSide {
    NoAggressor,
    Buyer,
    Seller,
}

/// The flags of a record; each is one bit of a byte.
#[allow(non_camel_case_types)]
#[derive(Clone, Copy, Debug, PartialEq, Eq, Structural)]
pub enum RecordFlag {
    /// The last record of an event.
    F_LAST,
    /// A top-of-book record.
    F_TOB,
    /// A record of a snapshot.
    F_SNAPSHOT,
    /// A record that aggregates a price level.
    F_MBP,
}

impl RecordFlag {
    /// The bit of the flag.
    pub open spec fn bit(self) -> u8 {
        match self {
            RecordFlag::F_LAST => 128,
            RecordFlag::F_TOB => 64,
            RecordFlag::F_SNAPSHOT => 32,
            RecordFlag::F_MBP => 16,
        }
    }

    /// The bit of the flag.
    pub fn value(&self) -> (r: u8)
        ensures
            r == self.bit(),
    {
        match self {
            RecordFlag::F_LAST => 128,
            RecordFlag::F_TOB => 64,
            RecordFlag::F_SNAPSHOT => 32,
            RecordFlag::F_MBP => 16,
        }
    }

    /// Whether the flag is set in `flags`.
    pub open spec fn is_set_in(self, flags: u8) -> bool {
        flags & self.bit() != 0
    }

    /// Whether the flag is set in `flags`.
    pub fn matches(&self, flags: u8) -> (r: bool)
        ensures
            r == self.is_set_in(flags),
    {
        flags & self.value() != 0
    }
}

/// An order of a book; for aggregated levels the order id is 0.
#[derive(Clone, Copy, Debug, PartialEq, Eq, Structural)]
pub struct BookOrder {
    pub side: OrderSide,
    pub price: Price,
    pub size: Quantity,
    pub order_id: u64,
}

impl BookOrder {
    pub fn new(side: OrderSide, price: Price, size: Quantity, order_id: u64) -> (r: Self)
        ensures
            r == (BookOrder { side, price, size, order_id }),
    {
        BookOrder { side, price, size, order_id }
    }
}

/// One change to a level of an order book.
#[derive(Clone, Debug, PartialEq, Eq)]
pub struct OrderBookDelta {
    pub instrument_id: InstrumentId,
    pub action: BookAction,
    pub order: BookOrder,
    pub flags: u8,
    pub sequence: u64,
    pub ts_event: UnixNanos,
    pub ts_init: UnixNanos,
}

pub struct DeltaView {
    pub instrument_id: InstrumentIdView,
    pub action: BookAction,
    pub order: BookOrder,
    pub flags: u8,
    pub sequence: u64,
    pub ts_event: UnixNanos,
    pub ts_init: UnixNanos,
}

impl View for OrderBookDelta {
    type V = DeltaView;

    open spec fn view(&self) -> DeltaView {
        DeltaView {
            instrument_id: self.instrument_id@,
            action: self.action,
            order: self.order,
            flags: self.flags,
            sequence: self.sequence,
            ts_event: self.ts_event,
            ts_init: self.ts_init,
        }
    }
}

impl OrderBookDelta {
    pub fn new(
        instrument_id: InstrumentId,
        action: BookAction,
        order: BookOrder,
        flags: u8,
        sequence: u64,
        ts_event: UnixNanos,
        ts_init: UnixNanos,
    ) -> (r: Self)
        ensures
            r == (OrderBookDelta {
                instrument_id,
                action,
                order,
                flags,
                sequence,
                ts_event,
                ts_init,
            }),
    {
        OrderBookDelta { instrument_id, action, order, flags, sequence, ts_event, ts_init }
    }
}

/// The views of the deltas of a sequence.
pub open spec fn delta_views(deltas: Seq<OrderBookDelta>) -> Seq<DeltaView> {
    deltas.map_values(|d: OrderBookDelta| d@)
}

/// A batch of deltas of one instrument. The batch has the flags, the
/// sequence number and the timestamps of its last delta.
#[derive(Clone, Debug, PartialEq, Eq)]
pub struct OrderBookDeltas {
    pub instrument_id: InstrumentId,
    pub deltas: Vec<OrderBookDelta>,
    pub flags: u8,
    pub sequence: u64,
    pub ts_event: UnixNanos,
    pub ts_init: UnixNanos,
}

pub struct DeltasView {
    pub instrument_id: InstrumentIdView,
    pub deltas: Seq<DeltaView>,
    pub flags: u8,
    pub sequence: u64,
    pub ts_event: UnixNanos,
    pub ts_init: UnixNanos,
}

impl View for OrderBookDeltas {
    type V = DeltasView;

    open spec fn view(&self) -> DeltasView {
        DeltasView {
            instrument_id: self.instrument_id@,
            deltas: delta_views(self.deltas@),
            flags: self.flags,
            sequence: self.sequence,
            ts_event: self.ts_event,
            ts_init: self.ts_init,
        }
    }
}

/// The batch that a sequence of deltas makes, which must not be empty.
pub open spec fn batch_of(instrument_id: InstrumentIdView, deltas: Seq<DeltaView>) -> DeltasView {
    DeltasView {
        instrument_id,
        deltas,
        flags: deltas.last().flags,
        sequence: deltas.last().sequence,
        ts_event: deltas.last().ts_event,
        ts_init: deltas.last().ts_init,
    }
}

impl OrderBookDeltas {
    /// Makes a batch of the deltas, of which there must be one at least.
    pub fn new(instrument_id: InstrumentId, deltas: Vec<OrderBookDelta>) -> (r: Self)
        requires
            deltas@.len() > 0,
        ensures
            r.instrument_id == instrument_id,
            r.deltas == deltas,
            r@ == batch_of(instrument_id@, delta_views(deltas@)),
    {
        let n: usize = deltas.len();
        let flags: u8 = deltas[n - 1].flags;
        let sequence: u64 = deltas[n - 1].sequence;
        let ts_event: u64 = deltas[n - 1].ts_event;
        let ts_init: u64 = deltas[n - 1].ts_init;
        OrderBookDeltas { instrument_id, deltas, flags, sequence, ts_event, ts_init }
    }
}

/// Identifies a trade.
#[derive(Clone, Debug, PartialEq, Eq)]
pub struct TradeId {
    pub value: String,
}

impl TradeId {
    pub fn new(value: String) -> (r: Self)
        ensures
            r.value == value,
    {
        TradeId { value }
    }
}

/// A single trade.
#[derive(Clone, Debug, PartialEq, Eq)]
pub struct TradeTick {
    pub instrument_id: InstrumentId,
    pub price: Price,
    pub size: Quantity,
    pub aggressor_side: AggressorSide,
    pub trade_id: TradeId,
    pub ts_event: UnixNanos,
    pub ts_init: UnixNanos,
}

pub struct TradeView {
    pub instrument_id: InstrumentIdView,
    pub price: Price,
    pub size: Quantity,
    pub aggressor_side: AggressorSide,
    pub trade_id: Seq<char>,
    pub ts_event: UnixNanos,
    pub ts_init: UnixNanos,
}

impl View for TradeTick {
    type V = TradeView;

    open spec fn view(&self) -> TradeView {
        TradeView {
            instrument_id: self.instrument_id@,
            price: self.price,
            size: self.size,
            aggressor_side: self.aggressor_side,
            trade_id: self.trade_id.value@,
            ts_event: self.ts_event,
            ts_init: self.ts_init,
        }
    }
}

impl TradeTick {
    pub fn new(
        instrument_id: InstrumentId,
        price: Price,
        size: Quantity,
        aggressor_side: AggressorSide,
        trade_id: TradeId,
        ts_event: UnixNanos,
        ts_init: UnixNanos,
    ) -> (r: Self)
        ensures
            r == (TradeTick {
                instrument_id,
                price,
                size,
                aggressor_side,
                trade_id,
                ts_event,
                ts_init,
            }),
    {
        TradeTick { instrument_id, price, size, aggressor_side, trade_id, ts_event, ts_init }
    }
}

/// The unit in which the step of a bar is counted.
#[derive(Clone, Copy, Debug, PartialEq, Eq, Structural)]
pub enum BarAggregation {
    Tick,
    Volume,
    Millisecond,
    Second,
    Minute,
}

/// The price that a bar is built from.
#[derive(Clone, Copy, Debug, PartialEq, Eq, Structural)]
pub enum PriceType {
    Bid,
    Ask,
    Mid,
    Last,
}

/// Who aggregated a bar.
#[derive(Clone, Copy, Debug, PartialEq, Eq, Structural)]
pub enum AggregationSource {
    External,
    Internal,
}

/// The aggregation parameters of a bar.
#[derive(Clone, Copy, Debug, PartialEq, Eq, Structural)]
pub struct BarSpecification {
    pub step: usize,
    pub aggregation: BarAggregation,
    pub price_type: PriceType,
}

/// Identifies a series of bars.
#[derive(Clone, Debug, PartialEq, Eq)]
pub struct BarType {
    pub instrument_id: InstrumentId,
    pub spec: BarSpecification,
    pub aggregation_source: AggregationSource,
}

pub struct BarTypeView {
    pub instrument_id: InstrumentIdView,
    pub spec: BarSpecification,
    pub aggregation_source: AggregationSource,
}

impl View for BarType {
    type V = BarTypeView;

    open spec fn view(&self) -> BarTypeView {
        BarTypeView {
            instrument_id: self.instrument_id@,
            spec: self.spec,
            aggregation_source: self.aggregation_source,
        }
    }
}

impl BarType {
    pub fn new(
        instrument_id: InstrumentId,
        spec: BarSpecification,
        aggregation_source: AggregationSource,
    ) -> (r: Self)
        ensures
            r == (BarType { instrument_id, spec, aggregation_source }),
    {
        BarType { instrument_id, spec, aggregation_source }
    }
}

/// One bar: open, high, low, close and volume over one step.
#[derive(Clone, Debug, PartialEq, Eq)]
pub struct Bar {
    pub bar_type: BarType,
    pub open: Price,
    pub high: Price,
    pub low: Price,
    pub close: Price,
    pub volume: Quantity,
    pub ts_event: UnixNanos,
    pub ts_init: UnixNanos,
}

pub struct BarView {
    pub bar_type: BarTypeView,
    pub open: Price,
    pub high: Price,
    pub low: Price,
    pub close: Price,
    pub volume: Quantity,
    pub ts_event: UnixNanos,
    pub ts_init: UnixNanos,
}

impl View for Bar {
    type V = BarView;

    open spec fn view(&self) -> BarView {
        BarView {
            bar_type: self.bar_type@,
            open: self.open,
            high: self.high,
            low: self.low,
            close: self.close,
            volume: self.volume,
            ts_event: self.ts_event,
            ts_init: self.ts_init,
        }
    }
}

impl Bar {
    pub fn new(
        bar_type: BarType,
        open: Price,
        high: Price,
        low: Price,
        close: Price,
        volume: Quantity,
        ts_event: UnixNanos,
        ts_init: UnixNanos,
    ) -> (r: Self)
        ensures
            r == (Bar { bar_type, open, high, low, close, volume, ts_event, ts_init }),
    {
        Bar { bar_type, open, high, low, close, volume, ts_event, ts_init }
    }
}

/// A normalised record.
#[derive(Clone, Debug, PartialEq, Eq)]
pub enum Data {
    Deltas(OrderBookDeltas),
    Trade(TradeTick),
    Bar(Bar),
}

pub enum DataView {
    Deltas(DeltasView),
    Trade(TradeView),
    Bar(BarView),
}

impl View for Data {
    type V = DataView;

    open spec fn view(&self) -> DataView {
        match self {
            Data::Deltas(d) => DataView::Deltas(d@),
            Data::Trade(t) => DataView::Trade(t@),
            Data::Bar(b) => DataView::Bar(b@),
        }
    }
}

} // verus!

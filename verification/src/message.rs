//! The typed market-data messages as they come off the wire.
//!
//! Numbers are carried as fixed-point integers at the precisions that the
//! parser is called with, timestamps as nanoseconds since the UNIX epoch,
//! and the exchange by its wire name.

use vstd::prelude::*;

verus! {

/// One level of an order book.
#[derive(Clone, Copy, Debug, PartialEq, Eq, Structural)]
pub struct BookLevel {
    pub price: i64,
    pub amount: u64,
}

/// An update of some levels of a book.
#[derive(Clone, Debug)]
pub struct BookChangeMsg {
    pub symbol: String,
    pub exchange: String,
    pub is_snapshot: bool,
    pub bids: Vec<BookLevel>,
    pub asks: Vec<BookLevel>,
    pub timestamp: u64,
    pub local_timestamp: u64,
}

/// The top levels of a book at one instant.
#[derive(Clone, Debug)]
pub struct BookSnapshotMsg {
    pub symbol: String,
    pub exchange: String,
    pub name: String,
    pub depth: u32,
    pub interval: u32,
    pub bids: Vec<BookLevel>,
    pub asks: Vec<BookLevel>,
    pub timestamp: u64,
    pub local_timestamp: u64,
}

/// A trade.
#[derive(Clone, Debug)]
pub struct TradeMsg {
    pub symbol: String,
    pub exchange: String,
    pub id: Option<String>,
    pub price: i64,
    pub amount: u64,
    pub side: String,
    pub timestamp: u64,
    pub local_timestamp: u64,
}

/// A bar; its `name` holds the aggregation parameters.
#[derive(Clone, Debug)]
pub struct BarMsg {
    pub symbol: String,
    pub exchange: String,
    pub name: String,
    pub open: i64,
    pub high: i64,
    pub low: i64,
    pub close: i64,
    pub volume: u64,
    pub timestamp: u64,
    pub local_timestamp: u64,
}

/// A ticker of a derivative; no record is made of it.
#[derive(Clone, Debug)]
pub struct DerivativeTickerMsg {
    pub symbol: String,
    pub exchange: String,
    pub timestamp: u64,
    pub local_timestamp: u64,
}

/// The notice that the feed of an exchange was interrupted.
#[derive(Clone, Debug)]
pub struct DisconnectMsg {
    pub exchange: String,
    pub local_timestamp: u64,
}

/// A message of the feed, by its type.
#[derive(Clone, Debug)]
pub enum WsMessage {
    BookChange(BookChangeMsg),
    BookSnapshot(BookSnapshotMsg),
    Trade(TradeMsg),
    Bar(BarMsg),
    DerivativeTicker(DerivativeTickerMsg),
    Disconnect(DisconnectMsg),
}

} // verus!

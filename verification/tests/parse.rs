use cache_engine::message::{
    BarMsg, BookChangeMsg, BookLevel, BookSnapshotMsg, DerivativeTickerMsg, DisconnectMsg,
    TradeMsg, WsMessage,
};
use cache_engine::model::{
    AggregationSource, AggressorSide, BarAggregation, BarSpecification, BookAction, Data,
    InstrumentId, OrderSide, Price, PriceType, Quantity, RecordFlag,
};
use cache_engine::parse::{
    is_well_formed, parse_aggressor_side, parse_bar_msg, parse_bar_spec, parse_book_action,
    parse_book_change_msg, parse_book_level, parse_book_msg, parse_book_snapshot_msg,
    parse_instrument_id, parse_tardis_ws_message, parse_trade_msg, trade_with_id,
};

fn xbtusd() -> InstrumentId {
    InstrumentId::new("XBTUSD".to_string(), "BITMEX".to_string())
}

fn book_change() -> BookChangeMsg {
    BookChangeMsg {
        symbol: "XBTUSD".to_string(),
        exchange: "bitmex".to_string(),
        is_snapshot: false,
        bids: vec![BookLevel { price: 7985, amount: 283318 }],
        asks: vec![],
        timestamp: 1571830193469000000,
        local_timestamp: 1571830193469000000,
    }
}

fn book_snapshot() -> BookSnapshotMsg {
    BookSnapshotMsg {
        symbol: "XBTUSD".to_string(),
        exchange: "bitmex".to_string(),
        name: "book_snapshot_2_50ms".to_string(),
        depth: 2,
        interval: 50,
        bids: vec![
            BookLevel { price: 76335, amount: 1906067 },
            BookLevel { price: 76330, amount: 65319 },
        ],
        asks: vec![
            BookLevel { price: 76340, amount: 1467849 },
            BookLevel { price: 76345, amount: 67939 },
        ],
        timestamp: 1572010786950000000,
        local_timestamp: 1572010786961000000,
    }
}

fn trade(id: Option<&str>) -> TradeMsg {
    TradeMsg {
        symbol: "XBTUSD".to_string(),
        exchange: "bitmex".to_string(),
        id: id.map(|s| s.to_string()),
        price: 7996,
        amount: 50,
        side: "sell".to_string(),
        timestamp: 1571826769669000000,
        local_timestamp: 1571826769740000000,
    }
}

fn bar() -> BarMsg {
    BarMsg {
        symbol: "XBTUSD".to_string(),
        exchange: "bitmex".to_string(),
        name: "trade_bar_10000ms".to_string(),
        open: 76235,
        high: 76235,
        low: 76230,
        close: 76235,
        volume: 37034,
        timestamp: 1572009100000000000,
        local_timestamp: 1572009100369000000,
    }
}

#[test]
fn test_parse_book_change_message() {
    let deltas = parse_book_change_msg(book_change(), 0, 0, None);

    assert_eq!(deltas.deltas.len(), 1);
    assert_eq!(deltas.instrument_id, xbtusd());
    assert_eq!(deltas.flags, RecordFlag::F_LAST.value());
    assert_eq!(deltas.sequence, 0);
    assert_eq!(deltas.ts_event, 1571830193469000000);
    assert_eq!(deltas.ts_init, 1571830193469000000);
    assert_eq!(deltas.deltas[0].instrument_id, xbtusd());
    assert_eq!(deltas.deltas[0].action, BookAction::Update);
    assert_eq!(deltas.deltas[0].order.price, Price::new(7985, 0));
    assert_eq!(deltas.deltas[0].order.size, Quantity::new(283318, 0));
    assert_eq!(deltas.deltas[0].order.side, OrderSide::Buy);
    assert_eq!(deltas.deltas[0].order.order_id, 0);
    assert_eq!(deltas.deltas[0].flags, RecordFlag::F_LAST.value());
    assert_eq!(deltas.deltas[0].sequence, 0);
    assert_eq!(deltas.deltas[0].ts_event, 1571830193469000000);
    assert_eq!(deltas.deltas[0].ts_init, 1571830193469000000);
}

#[test]
fn test_parse_book_snapshot_message() {
    let deltas = parse_book_snapshot_msg(book_snapshot(), 1, 0, None);
    let delta_0 = deltas.deltas[0].clone();
    let delta_2 = deltas.deltas[2].clone();

    assert_eq!(deltas.deltas.len(), 4);
    assert_eq!(deltas.instrument_id, xbtusd());
    assert_eq!(deltas.flags, RecordFlag::F_LAST.value() + RecordFlag::F_SNAPSHOT.value());
    assert_eq!(deltas.sequence, 0);
    assert_eq!(deltas.ts_event, 1572010786950000000);
    assert_eq!(deltas.ts_init, 1572010786961000000);
    assert_eq!(delta_0.instrument_id, xbtusd());
    assert_eq!(delta_0.action, BookAction::Add);
    assert_eq!(delta_0.order.price, Price::new(76335, 1));
    assert_eq!(delta_0.order.size, Quantity::new(1906067, 0));
    assert_eq!(delta_0.order.order_id, 0);
    assert_eq!(delta_0.flags, RecordFlag::F_SNAPSHOT.value());
    assert_eq!(delta_0.sequence, 0);
    assert_eq!(delta_0.ts_event, 1572010786950000000);
    assert_eq!(delta_0.ts_init, 1572010786961000000);
    assert_eq!(delta_2.order.side, OrderSide::Sell);
    assert_eq!(delta_2.order.price, Price::new(76340, 1));
    assert_eq!(delta_2.order.size, Quantity::new(1467849, 0));
    assert_eq!(delta_2.flags, RecordFlag::F_SNAPSHOT.value());
}

#[test]
fn test_parse_trade_message() {
    let tick = parse_trade_msg(trade(None), 0, 0, None);

    assert_eq!(tick.instrument_id, xbtusd());
    assert_eq!(tick.price, Price::new(7996, 0));
    assert_eq!(tick.size, Quantity::new(50, 0));
    assert_eq!(tick.aggressor_side, AggressorSide::Seller);
    assert_eq!(tick.ts_event, 1571826769669000000);
    assert_eq!(tick.ts_init, 1571826769740000000);
    assert!(!tick.trade_id.value.is_empty());
    assert_eq!(tick.trade_id.value.chars().count(), 36);
}

#[test]
fn test_parse_bar_message() {
    let bar = parse_bar_msg(bar(), 1, 0, None);

    assert_eq!(bar.bar_type.instrument_id, xbtusd());
    assert_eq!(
        bar.bar_type.spec,
        BarSpecification {
            step: 10000,
            aggregation: BarAggregation::Millisecond,
            price_type: PriceType::Last
        }
    );
    assert_eq!(bar.bar_type.aggregation_source, AggregationSource::External);
    assert_eq!(bar.open, Price::new(76235, 1));
    assert_eq!(bar.high, Price::new(76235, 1));
    assert_eq!(bar.low, Price::new(76230, 1));
    assert_eq!(bar.close, Price::new(76235, 1));
    assert_eq!(bar.volume, Quantity::new(37034, 0));
    assert_eq!(bar.ts_event, 1572009100000000000);
    assert_eq!(bar.ts_init, 1572009100369000000);
}

#[test]
fn test_trade_ids() {
    let given = parse_trade_msg(trade(Some("T-1")), 0, 0, None);
    assert_eq!(given.trade_id.value, "T-1");
    let a = parse_trade_msg(trade(None), 0, 0, None);
    let b = parse_trade_msg(trade(None), 0, 0, None);
    assert_ne!(a.trade_id.value, b.trade_id.value);
    let fallback = trade_with_id(trade(None), 0, 0, None, "F-9".to_string());
    assert_eq!(fallback.trade_id.value, "F-9");
    let kept = trade_with_id(trade(Some("T-1")), 2, 3, None, "F-9".to_string());
    assert_eq!(kept.trade_id.value, "T-1");
    assert_eq!(kept.price, Price::new(7996, 2));
    assert_eq!(kept.size, Quantity::new(50, 3));
}

#[test]
fn test_supplied_instrument_id_is_kept() {
    let id = InstrumentId::new("BTC-PERP".to_string(), "DERIBIT".to_string());
    let deltas = parse_book_change_msg(book_change(), 0, 0, Some(id.clone()));
    assert_eq!(deltas.instrument_id, id);
    assert_eq!(deltas.deltas[0].instrument_id, id);
    assert_eq!(parse_trade_msg(trade(None), 0, 0, Some(id.clone())).instrument_id, id);
    assert_eq!(parse_bar_msg(bar(), 0, 0, Some(id.clone())).bar_type.instrument_id, id);
    assert_eq!(parse_book_snapshot_msg(book_snapshot(), 0, 0, Some(id.clone())).instrument_id, id);
}

#[test]
fn test_instrument_id_from_exchange_and_symbol_is_upper_case() {
    let id = parse_instrument_id("binance-futures", "btcusdt");
    assert_eq!(id.symbol, "BTCUSDT");
    assert_eq!(id.venue, "BINANCE-FUTURES");
    assert_eq!(parse_instrument_id("bitmex", "XBTUSD"), xbtusd());
}

#[test]
fn test_snapshot_flags_on_every_delta_and_last_on_one() {
    let deltas = parse_book_snapshot_msg(book_snapshot(), 1, 0, None);
    let n = deltas.deltas.len();
    for (i, delta) in deltas.deltas.iter().enumerate() {
        assert!(RecordFlag::F_SNAPSHOT.matches(delta.flags));
        assert_eq!(RecordFlag::F_LAST.matches(delta.flags), i == n - 1);
        assert!(!RecordFlag::F_TOB.matches(delta.flags));
        assert!(!RecordFlag::F_MBP.matches(delta.flags));
        assert_eq!(delta.action, BookAction::Add);
    }
    assert_eq!(deltas.deltas[n - 1].flags, 160);
    assert_eq!(deltas.flags, 160);
}

#[test]
fn test_update_flags_no_snapshot_and_last_on_one() {
    let bids = vec![BookLevel { price: 10, amount: 1 }, BookLevel { price: 9, amount: 0 }];
    let asks = vec![BookLevel { price: 11, amount: 3 }, BookLevel { price: 12, amount: 0 }];
    let deltas = parse_book_msg(bids, asks, false, 2, 3, xbtusd(), 5, 6);
    let n = deltas.deltas.len();
    assert_eq!(n, 4);
    for (i, delta) in deltas.deltas.iter().enumerate() {
        assert!(!RecordFlag::F_SNAPSHOT.matches(delta.flags));
        assert_eq!(RecordFlag::F_LAST.matches(delta.flags), i == n - 1);
        assert_eq!(delta.ts_event, 5);
        assert_eq!(delta.ts_init, 6);
    }
    assert_eq!(deltas.flags, 128);
    let sides: Vec<OrderSide> = deltas.deltas.iter().map(|d| d.order.side).collect();
    assert_eq!(sides, vec![OrderSide::Buy, OrderSide::Buy, OrderSide::Sell, OrderSide::Sell]);
    let actions: Vec<BookAction> = deltas.deltas.iter().map(|d| d.action).collect();
    assert_eq!(
        actions,
        vec![BookAction::Update, BookAction::Delete, BookAction::Update, BookAction::Delete]
    );
    let prices: Vec<i64> = deltas.deltas.iter().map(|d| d.order.price.raw).collect();
    assert_eq!(prices, vec![10, 9, 11, 12]);
    assert_eq!(deltas.deltas[0].order.price.precision, 2);
    assert_eq!(deltas.deltas[0].order.size.precision, 3);
}

#[test]
fn test_book_with_asks_only() {
    let deltas =
        parse_book_msg(vec![], vec![BookLevel { price: -5, amount: 7 }], true, 0, 0, xbtusd(), 1, 2);
    assert_eq!(deltas.deltas.len(), 1);
    assert_eq!(deltas.deltas[0].order.side, OrderSide::Sell);
    assert_eq!(deltas.deltas[0].order.price.raw, -5);
    assert_eq!(deltas.deltas[0].flags, 160);
}

#[test]
fn test_book_change_marked_as_snapshot() {
    let mut msg = book_change();
    msg.is_snapshot = true;
    let deltas = parse_book_change_msg(msg, 0, 0, None);
    assert_eq!(deltas.deltas[0].action, BookAction::Add);
    assert_eq!(deltas.flags, 160);
}

#[test]
fn test_parse_book_level_and_action() {
    let id = xbtusd();
    let delta =
        parse_book_level(&id, 1, 2, OrderSide::Sell, BookLevel { price: 3, amount: 0 }, false, 8, 9);
    assert_eq!(delta.action, BookAction::Delete);
    assert_eq!(delta.flags, 0);
    assert_eq!(delta.order.side, OrderSide::Sell);
    assert_eq!(delta.order.price, Price::new(3, 1));
    assert_eq!(delta.order.size, Quantity::new(0, 2));
    assert_eq!(delta.instrument_id, id);
    assert_eq!(parse_book_action(true, 0), BookAction::Add);
    assert_eq!(parse_book_action(true, 5), BookAction::Add);
    assert_eq!(parse_book_action(false, 0), BookAction::Delete);
    assert_eq!(parse_book_action(false, 5), BookAction::Update);
}

#[test]
fn test_parse_aggressor_side() {
    assert_eq!(parse_aggressor_side("buy"), AggressorSide::Buyer);
    assert_eq!(parse_aggressor_side("sell"), AggressorSide::Seller);
    assert_eq!(parse_aggressor_side("unknown"), AggressorSide::NoAggressor);
    assert_eq!(parse_aggressor_side("Buy"), AggressorSide::NoAggressor);
    assert_eq!(parse_aggressor_side(""), AggressorSide::NoAggressor);
}

#[test]
fn test_parse_bar_spec() {
    let spec = |step: usize, aggregation: BarAggregation| {
        Some(BarSpecification { step, aggregation, price_type: PriceType::Last })
    };
    assert_eq!(parse_bar_spec("trade_bar_10000ms"), spec(10000, BarAggregation::Millisecond));
    assert_eq!(parse_bar_spec("trade_bar_10s"), spec(10, BarAggregation::Second));
    assert_eq!(parse_bar_spec("trade_bar_5m"), spec(5, BarAggregation::Minute));
    assert_eq!(parse_bar_spec("trade_bar_1000ticks"), spec(1000, BarAggregation::Tick));
    assert_eq!(parse_bar_spec("trade_bar_007vol"), spec(7, BarAggregation::Volume));
    assert_eq!(parse_bar_spec("1s"), spec(1, BarAggregation::Second));
    assert_eq!(parse_bar_spec("trade_bar_0ms"), spec(0, BarAggregation::Millisecond));
    assert_eq!(parse_bar_spec("trade_bar_10h"), None);
    assert_eq!(parse_bar_spec("trade_bar_ms"), None);
    assert_eq!(parse_bar_spec("trade_bar_10"), None);
    assert_eq!(parse_bar_spec("trade_bar_"), None);
    assert_eq!(parse_bar_spec(""), None);
    assert_eq!(parse_bar_spec("trade_bar_10ms5"), None);
    assert_eq!(parse_bar_spec("trade_bar_+10ms"), None);
    assert_eq!(parse_bar_spec("trade_bar_１０ms"), None);
    let max = format!("bar_{}s", usize::MAX);
    assert_eq!(parse_bar_spec(&max), spec(usize::MAX, BarAggregation::Second));
    let over = format!("bar_{}0s", usize::MAX);
    assert_eq!(parse_bar_spec(&over), None);
    assert_eq!(parse_bar_spec("bar_99999999999999999999999999999999999999999ms"), None);
}

#[test]
fn test_ticker_and_disconnect_make_no_record() {
    let ticker = WsMessage::DerivativeTicker(DerivativeTickerMsg {
        symbol: "XBTUSD".to_string(),
        exchange: "bitmex".to_string(),
        timestamp: 1,
        local_timestamp: 2,
    });
    let disconnect =
        WsMessage::Disconnect(DisconnectMsg { exchange: "bitmex".to_string(), local_timestamp: 2 });
    assert!(is_well_formed(&ticker));
    assert!(is_well_formed(&disconnect));
    assert_eq!(parse_tardis_ws_message(ticker, 0, 0), None);
    assert_eq!(parse_tardis_ws_message(disconnect, 0, 0), None);
}

#[test]
fn test_parse_ws_message_by_type() {
    match parse_tardis_ws_message(WsMessage::BookChange(book_change()), 0, 0) {
        Some(Data::Deltas(d)) => {
            assert_eq!(d.flags, 128);
            assert_eq!(d.instrument_id, xbtusd());
        },
        _ => panic!("expected deltas"),
    }
    match parse_tardis_ws_message(WsMessage::BookSnapshot(book_snapshot()), 1, 0) {
        Some(Data::Deltas(d)) => assert_eq!(d.flags, 160),
        _ => panic!("expected deltas"),
    }
    match parse_tardis_ws_message(WsMessage::Trade(trade(Some("T-1"))), 0, 0) {
        Some(Data::Trade(t)) => assert_eq!(t.trade_id.value, "T-1"),
        _ => panic!("expected a trade"),
    }
    match parse_tardis_ws_message(WsMessage::Bar(bar()), 1, 0) {
        Some(Data::Bar(b)) => assert_eq!(b.bar_type.spec.step, 10000),
        _ => panic!("expected a bar"),
    }
}

#[test]
fn test_well_formed_messages() {
    assert!(is_well_formed(&WsMessage::BookChange(book_change())));
    let mut empty = book_change();
    empty.bids.clear();
    assert!(!is_well_formed(&WsMessage::BookChange(empty)));
    let mut no_levels = book_snapshot();
    no_levels.bids.clear();
    no_levels.asks.clear();
    assert!(!is_well_formed(&WsMessage::BookSnapshot(no_levels)));
    let mut bad_bar = bar();
    bad_bar.name = "trade_bar".to_string();
    assert!(!is_well_formed(&WsMessage::Bar(bad_bar)));
    assert!(is_well_formed(&WsMessage::Bar(bar())));
    assert!(is_well_formed(&WsMessage::Trade(trade(None))));
}

#[test]
fn test_record_flag_bits() {
    assert_eq!(RecordFlag::F_LAST.value(), 128);
    assert_eq!(RecordFlag::F_TOB.value(), 64);
    assert_eq!(RecordFlag::F_SNAPSHOT.value(), 32);
    assert_eq!(RecordFlag::F_MBP.value(), 16);
    assert!(RecordFlag::F_TOB.matches(64 + 16));
    assert!(!RecordFlag::F_LAST.matches(64 + 16));
}

#[test]
fn test_instrument_id_parse() {
    assert_eq!(InstrumentId::parse("XBTUSD.BITMEX"), Some(xbtusd()));
    let dotted = InstrumentId::parse("BRK.B.NYSE").unwrap();
    assert_eq!(dotted.symbol, "BRK.B");
    assert_eq!(dotted.venue, "NYSE");
    assert_eq!(InstrumentId::parse("XBTUSD"), None);
    assert_eq!(InstrumentId::parse(".BITMEX"), None);
    assert_eq!(InstrumentId::parse("XBTUSD."), None);
    assert_eq!(InstrumentId::parse(""), None);
    assert_eq!(xbtusd().duplicate(), xbtusd());
}

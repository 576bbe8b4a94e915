use bytes::Bytes;
use cache_engine::adapter::RedisCacheDatabaseAdapter;
use cache_engine::command::{DatabaseCommand, DatabaseOperation};
use cache_engine::config::{CacheConfig, DatabaseConfig, SerializationEncoding};
use cache_engine::database::{
    enqueue_outcome, read_index, read_kind, read_string, ReadKind, RedisCacheDatabase,
};
use cache_engine::error::CacheError;
use cache_engine::identifiers::{TraderId, UUID4};
use cache_engine::model::{
    AggregationSource, AggressorSide, Bar, BarAggregation, BarSpecification, BarType,
    InstrumentId, Price, PriceType, Quantity, TradeId, TradeTick,
};
use cache_engine::worker::CommandWorker;
use tokio::sync::mpsc::error::SendError;
use tokio::sync::mpsc::{unbounded_channel, UnboundedReceiver};

fn config() -> CacheConfig {
    let mut config = CacheConfig::default();
    config.database = Some(DatabaseConfig {
        host: None,
        port: None,
        username: None,
        password: None,
        database_number: None,
        ssl: false,
    });
    config
}

fn engine() -> (RedisCacheDatabase, UnboundedReceiver<DatabaseCommand>) {
    let (tx, rx) = unbounded_channel::<DatabaseCommand>();
    let database =
        RedisCacheDatabase::new(TraderId::new("tester-123"), UUID4::new(), &config(), tx).unwrap();
    (database, rx)
}

fn payload(parts: &[&'static str]) -> Option<Vec<Bytes>> {
    Some(parts.iter().map(|p| Bytes::from_static(p.as_bytes())).collect())
}

fn commands(pipe: &redis::Pipeline) -> Vec<Vec<String>> {
    pipe.cmd_iter()
        .map(|cmd| {
            cmd.args_iter()
                .map(|arg| match arg {
                    redis::Arg::Simple(bytes) => String::from_utf8(bytes.to_vec()).unwrap(),
                    redis::Arg::Cursor => panic!("cursor argument"),
                })
                .collect()
        })
        .collect()
}

#[test]
fn test_engine_needs_a_database() {
    let (tx, _rx) = unbounded_channel::<DatabaseCommand>();
    let r = RedisCacheDatabase::new(
        TraderId::new("tester-123"),
        UUID4::new(),
        &CacheConfig::default(),
        tx,
    );
    assert_eq!(r.err(), Some(CacheError::NoDatabaseConfig));
}

#[test]
fn test_engine_trader_key() {
    let (database, _rx) = engine();
    assert_eq!(database.get_trader_key(), "trader-tester-123");
    assert_eq!(database.trader_id().as_str(), "tester-123");
    assert_eq!(database.keys("orders*"), "trader-tester-123:orders*");
}

#[test]
fn test_commands_are_queued_in_order() {
    let (mut database, mut rx) = engine();
    assert_eq!(database.insert("orders:O-1".to_string(), payload(&["e1"])), Ok(()));
    assert_eq!(database.update("orders:O-1".to_string(), payload(&["e2"])), Ok(()));
    assert_eq!(database.delete("actors:A".to_string(), None), Ok(()));
    database.close();

    let first = rx.try_recv().unwrap();
    assert_eq!(first.op_type, DatabaseOperation::Insert);
    assert_eq!(first.key.as_deref(), Some("orders:O-1"));
    assert_eq!(first.payload, payload(&["e1"]));
    let second = rx.try_recv().unwrap();
    assert_eq!(second.op_type, DatabaseOperation::Update);
    assert_eq!(second.payload, payload(&["e2"]));
    let third = rx.try_recv().unwrap();
    assert_eq!(third.op_type, DatabaseOperation::Delete);
    assert_eq!(third.key.as_deref(), Some("actors:A"));
    assert!(third.payload.is_none());
    let last = rx.try_recv().unwrap();
    assert_eq!(last.op_type, DatabaseOperation::Close);
    assert!(last.key.is_none());
    assert!(rx.try_recv().is_err());
}

#[test]
fn test_enqueue_fails_with_channel_send_once_the_worker_is_gone() {
    let (mut database, rx) = engine();
    assert_eq!(database.insert("orders:O-1".to_string(), payload(&["e1"])), Ok(()));
    drop(rx);
    assert_eq!(
        database.insert("orders:O-1".to_string(), payload(&["e2"])),
        Err(CacheError::ChannelSend)
    );
    assert_eq!(database.update("orders:O-1".to_string(), payload(&["e2"])), Err(CacheError::ChannelSend));
    assert_eq!(database.delete("actors:A".to_string(), None), Err(CacheError::ChannelSend));
    database.close();
}

#[test]
fn test_enqueue_fails_after_the_worker_has_closed_the_channel() {
    let (mut database, mut rx) = engine();
    let mut worker =
        CommandWorker::new(database.get_trader_key().to_string(), &config()).unwrap();
    assert_eq!(database.insert("orders:O-1".to_string(), payload(&["e1"])), Ok(()));
    database.close();
    loop {
        let message = rx.try_recv().ok();
        if !worker.receive(message) {
            break;
        }
    }
    let batch = worker.finish().unwrap();
    drop(rx);
    assert_eq!(
        commands(&batch.pipeline),
        vec![vec!["RPUSH".to_string(), "trader-tester-123:orders:O-1".to_string(), "e1".to_string()]]
    );
    assert_eq!(
        database.insert("orders:O-2".to_string(), payload(&["e1"])),
        Err(CacheError::ChannelSend)
    );
}

#[test]
fn test_enqueue_outcome() {
    assert_eq!(enqueue_outcome(Ok(())), Ok(()));
    assert_eq!(enqueue_outcome(Err(SendError(DatabaseCommand::close()))), Err(CacheError::ChannelSend));
}

#[test]
fn test_read_routing() {
    for collection in ["general", "currencies", "instruments", "synthetics", "actors", "strategies"]
    {
        assert_eq!(read_kind(&format!("{collection}:X")), Ok(ReadKind::Scalar));
    }
    for collection in ["accounts", "orders", "positions"] {
        assert_eq!(read_kind(&format!("{collection}:X")), Ok(ReadKind::List));
    }
    for index in [
        "order_ids",
        "orders",
        "orders_open",
        "orders_closed",
        "orders_emulated",
        "orders_inflight",
        "positions",
        "positions_open",
        "positions_closed",
    ] {
        assert_eq!(read_kind(&format!("index:{index}")), Ok(ReadKind::Members));
        assert_eq!(read_index(&format!("index:{index}")), Ok(ReadKind::Members));
    }
    for index in ["order_position", "order_client"] {
        assert_eq!(read_kind(&format!("index:{index}")), Ok(ReadKind::Fields));
    }
    assert_eq!(read_kind("snapshots:X"), Err(CacheError::UnsupportedOp));
    assert_eq!(read_kind("health:X"), Err(CacheError::UnsupportedOp));
    assert_eq!(read_kind("quotes:X"), Err(CacheError::UnsupportedOp));
    assert_eq!(read_kind("index:quotes"), Err(CacheError::UnsupportedOp));
    assert_eq!(read_kind("orders"), Err(CacheError::InvalidKey));
    assert_eq!(read_index("index"), Err(CacheError::InvalidKey));
}

#[test]
fn test_read_request_carries_the_store_key() {
    let (database, _rx) = engine();
    let request = database.read("orders:O-1").unwrap();
    assert_eq!(request.kind, ReadKind::List);
    assert_eq!(request.key, "trader-tester-123:orders:O-1");
    let request = database.read("index:order_client").unwrap();
    assert_eq!(request.kind, ReadKind::Fields);
    assert_eq!(request.key, "trader-tester-123:index:order_client");
    assert_eq!(database.read("health:x").err(), Some(CacheError::UnsupportedOp));
    assert_eq!(database.read("nothing").err(), Some(CacheError::InvalidKey));
}

#[test]
fn test_read_string_reply() {
    assert!(read_string(Vec::new()).is_empty());
    assert_eq!(read_string(vec![1, 2, 3]), vec![Bytes::from_static(&[1, 2, 3])]);
    assert_eq!(read_string(vec![0]), vec![Bytes::from_static(&[0])]);
}

#[test]
fn test_adapter_refuses_market_data_and_snapshots() {
    let (database, _rx) = engine();
    let mut adapter = RedisCacheDatabaseAdapter::new(SerializationEncoding::MsgPack, database);
    assert_eq!(adapter.encoding(), SerializationEncoding::MsgPack);
    let id = InstrumentId::new("XBTUSD".to_string(), "BITMEX".to_string());
    let trade = TradeTick::new(
        id.clone(),
        Price::new(1, 0),
        Quantity::new(1, 0),
        AggressorSide::Buyer,
        TradeId::new("T".to_string()),
        1,
        2,
    );
    let bar = Bar::new(
        BarType::new(
            id.clone(),
            BarSpecification {
                step: 1,
                aggregation: BarAggregation::Minute,
                price_type: PriceType::Last,
            },
            AggregationSource::External,
        ),
        Price::new(1, 0),
        Price::new(1, 0),
        Price::new(1, 0),
        Price::new(1, 0),
        Quantity::new(1, 0),
        1,
        2,
    );
    assert_eq!(adapter.add_order_book(&"book"), Err(CacheError::Unsupported));
    assert_eq!(adapter.add_quote(&"quote"), Err(CacheError::Unsupported));
    assert_eq!(adapter.load_quotes::<u8>(&id), Err(CacheError::Unsupported));
    assert_eq!(adapter.add_trade(&trade), Err(CacheError::Unsupported));
    assert_eq!(adapter.load_trades(&id), Err(CacheError::Unsupported));
    assert_eq!(adapter.add_bar(&bar), Err(CacheError::Unsupported));
    assert_eq!(adapter.load_bars(&id), Err(CacheError::Unsupported));
    assert_eq!(adapter.add_signal(&"signal"), Err(CacheError::Unsupported));
    assert_eq!(adapter.load_signals::<u8>("name"), Err(CacheError::Unsupported));
    assert_eq!(adapter.add_custom_data(&"data"), Err(CacheError::Unsupported));
    assert_eq!(adapter.load_custom_data::<&str, u8>(&"type"), Err(CacheError::Unsupported));
    assert_eq!(adapter.load_order_snapshot::<u8>("O-1"), Err(CacheError::Unsupported));
    assert_eq!(adapter.load_position_snapshot::<u8>("P-1"), Err(CacheError::Unsupported));
    assert_eq!(adapter.close(), Ok(()));
}

#[test]
fn test_error_descriptions() {
    assert_eq!(CacheError::ChannelSend.describe(), "Failed to send to channel");
    assert_eq!(CacheError::NoDatabaseConfig.describe(), "No database config");
    assert_ne!(CacheError::InvalidKey.describe(), CacheError::UnsupportedOp.describe());
}

use bytes::Bytes;
use cache_engine::command::{DatabaseCommand, DatabaseOperation};
use cache_engine::config::{CacheConfig, DatabaseConfig};
use cache_engine::error::CacheError;
use cache_engine::worker::{dispatch_command, drain_buffer, CommandWorker};
use std::collections::VecDeque;

fn commands(pipe: &redis::Pipeline) -> Vec<Vec<String>> {
    pipe.cmd_iter()
        .map(|cmd| {
            cmd.args_iter()
                .map(|arg| match arg {
                    redis::Arg::Simple(bytes) => String::from_utf8(bytes.to_vec()).unwrap(),
                    redis::Arg::Cursor => panic!("cursor argument"),
                })
                .collect()
        })
        .collect()
}

fn row(parts: &[&str]) -> Vec<String> {
    parts.iter().map(|p| p.to_string()).collect()
}

fn payload(parts: &[&'static str]) -> Option<Vec<Bytes>> {
    Some(parts.iter().map(|p| Bytes::from_static(p.as_bytes())).collect())
}

fn command(op: DatabaseOperation, key: &str, parts: &[&'static str]) -> DatabaseCommand {
    DatabaseCommand::new(op, key.to_string(), payload(parts))
}

fn config(interval: Option<usize>) -> CacheConfig {
    let mut config = CacheConfig::default();
    config.database = Some(DatabaseConfig {
        host: Some("localhost".to_string()),
        port: Some(6379),
        username: None,
        password: None,
        database_number: None,
        ssl: false,
    });
    config.buffer_interval_ms = interval;
    config
}

#[test]
fn test_command_constructors() {
    let c = DatabaseCommand::new(DatabaseOperation::Insert, "orders:O-1".to_string(), payload(&["e"]));
    assert_eq!(c.op_type, DatabaseOperation::Insert);
    assert_eq!(c.key.as_deref(), Some("orders:O-1"));
    assert_eq!(c.payload, payload(&["e"]));
    let close = DatabaseCommand::close();
    assert_eq!(close.op_type, DatabaseOperation::Close);
    assert!(close.key.is_none());
    assert!(close.payload.is_none());
}

#[test]
fn test_write_pipeline_scenario() {
    let mut worker = CommandWorker::new("trader".to_string(), &config(None)).unwrap();
    assert!(worker.receive(Some(command(DatabaseOperation::Insert, "orders:O-1", &["e1"]))));
    assert!(worker.receive(Some(command(DatabaseOperation::Insert, "orders:O-1", &["e2"]))));
    assert!(worker.receive(Some(command(
        DatabaseOperation::Insert,
        "index:orders_open:S-1",
        &["O-1"]
    ))));
    assert!(!worker.receive(Some(DatabaseCommand::close())));
    assert_eq!(worker.pending(), 3);
    let batch = worker.finish().unwrap();
    assert!(batch.errors.is_empty());
    assert_eq!(
        commands(&batch.pipeline),
        vec![
            row(&["RPUSH", "trader:orders:O-1", "e1"]),
            row(&["RPUSH", "trader:orders:O-1", "e2"]),
            row(&["SADD", "trader:index:orders_open:S-1", "O-1"]),
        ]
    );
    assert!(batch.pipeline.get_packed_pipeline().starts_with(b"*1\r\n$5\r\nMULTI\r\n"));
    assert_eq!(worker.pending(), 0);
    assert!(worker.finish().is_none());
}

#[test]
fn test_dispatch_rejection_scenario() {
    let mut worker = CommandWorker::new("trader".to_string(), &config(None)).unwrap();
    assert!(worker.receive(Some(command(DatabaseOperation::Update, "currencies:USD", &["x"]))));
    assert!(worker.should_flush(0));
    let batch = worker.flush();
    assert_eq!(batch.errors, vec![CacheError::UnsupportedOp]);
    assert!(commands(&batch.pipeline).is_empty());

    assert!(worker.receive(Some(command(DatabaseOperation::Insert, "currencies:USD", &["usd"]))));
    let batch = worker.flush();
    assert!(batch.errors.is_empty());
    assert_eq!(commands(&batch.pipeline), vec![row(&["SET", "trader:currencies:USD", "usd"])]);
}

#[test]
fn test_one_bad_command_does_not_poison_the_batch() {
    let mut buffer: VecDeque<DatabaseCommand> = VecDeque::new();
    buffer.push_back(command(DatabaseOperation::Insert, "orders:O-1", &["e1"]));
    buffer.push_back(command(DatabaseOperation::Insert, "no_delimiter", &["x"]));
    buffer.push_back(DatabaseCommand::new(DatabaseOperation::Insert, "orders:O-2".to_string(), None));
    buffer.push_back(command(DatabaseOperation::Insert, "quotes:Q", &["x"]));
    buffer.push_back(command(DatabaseOperation::Insert, "index:unknown", &["x"]));
    buffer.push_back(command(DatabaseOperation::Insert, "orders:O-3", &[]));
    buffer.push_back(DatabaseCommand::new(DatabaseOperation::Update, "orders:O-1".to_string(), None));
    buffer.push_back(DatabaseCommand::new(DatabaseOperation::Delete, "actors:A".to_string(), None));
    buffer.push_back(DatabaseCommand {
        op_type: DatabaseOperation::Insert,
        key: None,
        payload: payload(&["x"]),
    });
    buffer.push_back(command(DatabaseOperation::Close, "orders:O-1", &["x"]));
    buffer.push_back(command(DatabaseOperation::Update, "orders:O-1", &["e2"]));
    let batch = drain_buffer("t", &mut buffer);
    assert!(buffer.is_empty());
    assert_eq!(
        commands(&batch.pipeline),
        vec![
            row(&["RPUSH", "t:orders:O-1", "e1"]),
            row(&["DEL", "t:actors:A"]),
            row(&["RPUSHX", "t:orders:O-1", "e2"]),
        ]
    );
    assert_eq!(
        batch.errors,
        vec![
            CacheError::InvalidKey,
            CacheError::EmptyPayload,
            CacheError::UnsupportedOp,
            CacheError::UnsupportedOp,
            CacheError::EmptyPayload,
            CacheError::EmptyPayload,
            CacheError::InvalidKey,
            CacheError::UnsupportedOp,
        ]
    );
}

#[test]
fn test_invalid_key_is_reported_before_missing_payload() {
    let mut pipe = redis::pipe();
    let c = DatabaseCommand::new(DatabaseOperation::Insert, "orders".to_string(), None);
    assert_eq!(dispatch_command(&mut pipe, "t", c), Err(CacheError::InvalidKey));
    assert!(commands(&pipe).is_empty());
}

#[test]
fn test_drain_of_empty_buffer() {
    let mut buffer: VecDeque<DatabaseCommand> = VecDeque::new();
    let batch = drain_buffer("t", &mut buffer);
    assert!(commands(&batch.pipeline).is_empty());
    assert!(batch.errors.is_empty());
}

#[test]
fn test_flushes_split_anywhere_send_the_same_in_the_same_order() {
    let all = vec![
        command(DatabaseOperation::Insert, "orders:O-1", &["e1"]),
        command(DatabaseOperation::Update, "currencies:USD", &["x"]),
        command(DatabaseOperation::Insert, "orders:O-1", &["e2"]),
        command(DatabaseOperation::Insert, "orders:O-1", &["e3"]),
    ];
    let mut whole: VecDeque<DatabaseCommand> = all.iter().cloned().collect();
    let expected = commands(&drain_buffer("t", &mut whole).pipeline);
    assert_eq!(
        expected,
        vec![
            row(&["RPUSH", "t:orders:O-1", "e1"]),
            row(&["RPUSH", "t:orders:O-1", "e2"]),
            row(&["RPUSH", "t:orders:O-1", "e3"]),
        ]
    );
    for cut in 0..=all.len() {
        let mut first: VecDeque<DatabaseCommand> = all[..cut].iter().cloned().collect();
        let mut second: VecDeque<DatabaseCommand> = all[cut..].iter().cloned().collect();
        let mut sent = commands(&drain_buffer("t", &mut first).pipeline);
        sent.extend(commands(&drain_buffer("t", &mut second).pipeline));
        assert_eq!(sent, expected);
    }
}

#[test]
fn test_worker_needs_a_database() {
    let r = CommandWorker::new("t".to_string(), &CacheConfig::default());
    assert_eq!(r.err(), Some(CacheError::NoDatabaseConfig));
}

#[test]
fn test_should_flush_needs_interval_and_content() {
    let mut worker = CommandWorker::new("t".to_string(), &config(Some(100))).unwrap();
    assert!(!worker.should_flush(0));
    assert!(!worker.should_flush(1_000));
    assert!(worker.receive(Some(command(DatabaseOperation::Insert, "orders:O-1", &["e1"]))));
    assert!(!worker.should_flush(99));
    assert!(worker.should_flush(100));
    assert!(worker.should_flush(101));
    let _ = worker.flush();
    assert!(!worker.should_flush(1_000));
}

#[test]
fn test_zero_interval_flushes_on_every_wake() {
    let mut worker = CommandWorker::new("t".to_string(), &config(None)).unwrap();
    assert!(!worker.should_flush(0));
    assert!(worker.receive(Some(command(DatabaseOperation::Insert, "orders:O-1", &["e1"]))));
    assert!(worker.should_flush(0));
}

#[test]
fn test_close_and_hang_up_stop_the_worker() {
    let mut worker = CommandWorker::new("t".to_string(), &config(None)).unwrap();
    assert!(worker.receive(Some(command(DatabaseOperation::Delete, "actors:A", &[]))));
    assert!(!worker.receive(None));
    assert_eq!(worker.pending(), 1);
    assert!(!worker.receive(Some(command(DatabaseOperation::Close, "orders:O-1", &["x"]))));
    assert_eq!(worker.pending(), 1);
    let batch = worker.finish().unwrap();
    assert_eq!(commands(&batch.pipeline), vec![row(&["DEL", "t:actors:A"])]);
}

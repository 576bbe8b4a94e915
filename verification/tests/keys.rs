use cache_engine::config::CacheConfig;
use cache_engine::error::CacheError;
use cache_engine::identifiers::{TraderId, UUID4};
use cache_engine::keys::{
    first_segment, get_collection_key, get_index_key, get_trader_key, last_segment, store_key,
};

#[test]
fn test_get_trader_key_with_prefix_and_instance_id() {
    let trader_id = TraderId::new("tester-123");
    let instance_id = UUID4::new();
    let mut config = CacheConfig::default();
    config.use_instance_id = true;

    let key = get_trader_key(&trader_id, &instance_id, &config);
    assert!(key.starts_with("trader-tester-123:"));
    assert!(key.ends_with(&instance_id.to_string()));
}

#[test]
fn test_get_collection_key_valid() {
    let key = "collection:123";
    assert_eq!(get_collection_key(key).unwrap(), "collection");
}

#[test]
fn test_get_collection_key_invalid() {
    let key = "no_delimiter";
    assert!(get_collection_key(key).is_err());
}

#[test]
fn test_get_index_key_valid() {
    let key = "index:123";
    assert_eq!(get_index_key(key).unwrap(), "123");
}

#[test]
fn test_get_index_key_invalid() {
    let key = "no_delimiter";
    assert!(get_index_key(key).is_err());
}

#[test]
fn test_codec_errors_are_invalid_key() {
    assert_eq!(get_collection_key("orders"), Err(CacheError::InvalidKey));
    assert_eq!(get_index_key("orders"), Err(CacheError::InvalidKey));
    assert_eq!(get_collection_key(""), Err(CacheError::InvalidKey));
    assert_eq!(get_index_key(""), Err(CacheError::InvalidKey));
}

#[test]
fn test_codec_splits_at_first_delimiter_only() {
    assert_eq!(get_collection_key("index:orders_open:S-1"), Ok("index"));
    assert_eq!(get_index_key("index:orders_open:S-1"), Ok("orders_open:S-1"));
    assert_eq!(get_collection_key(":tail"), Ok(""));
    assert_eq!(get_index_key("head:"), Ok(""));
}

#[test]
fn test_codec_counts_characters_not_bytes() {
    assert_eq!(get_collection_key("zürich:é"), Ok("zürich"));
    assert_eq!(get_index_key("zürich:é:x"), Ok("é:x"));
    assert_eq!(last_segment("a:ü:日本"), "日本");
}

#[test]
fn test_first_and_last_segment() {
    assert_eq!(first_segment("orders_open:S-1"), "orders_open");
    assert_eq!(first_segment("orders_open"), "orders_open");
    assert_eq!(last_segment("trader-001:currencies:USD"), "USD");
    assert_eq!(last_segment("USD"), "USD");
    assert_eq!(last_segment("a:b:"), "");
}

#[test]
fn test_store_key_joins_with_delimiter() {
    assert_eq!(store_key("trader-001", "orders:O-1"), "trader-001:orders:O-1");
    assert_eq!(store_key("", ""), ":");
}

#[test]
fn test_trader_key_all_four_shapes() {
    let trader_id = TraderId::new("tester-123");
    let instance_id = UUID4::from_text("2d89666b-1a1e-4a75-b193-4eb3b454c757");
    let mut config = CacheConfig::default();

    config.use_trader_prefix = true;
    config.use_instance_id = false;
    assert_eq!(get_trader_key(&trader_id, &instance_id, &config), "trader-tester-123");

    config.use_trader_prefix = false;
    config.use_instance_id = false;
    assert_eq!(get_trader_key(&trader_id, &instance_id, &config), "tester-123");

    config.use_trader_prefix = true;
    config.use_instance_id = true;
    assert_eq!(
        get_trader_key(&trader_id, &instance_id, &config),
        "trader-tester-123:2d89666b-1a1e-4a75-b193-4eb3b454c757"
    );

    config.use_trader_prefix = false;
    config.use_instance_id = true;
    assert_eq!(
        get_trader_key(&trader_id, &instance_id, &config),
        "tester-123:2d89666b-1a1e-4a75-b193-4eb3b454c757"
    );
}

#[test]
fn test_default_config() {
    let config = CacheConfig::default();
    assert!(config.database.is_none());
    assert!(config.use_trader_prefix);
    assert!(!config.use_instance_id);
    assert!(config.buffer_interval_ms.is_none());
    assert_eq!(config.database_config().err(), Some(CacheError::NoDatabaseConfig));
}

#[test]
fn test_fresh_instance_ids_differ_and_have_uuid_shape() {
    let a = UUID4::new();
    let b = UUID4::new();
    assert_eq!(a.as_str().chars().count(), 36);
    assert_eq!(a.to_string(), a.as_str());
    assert_ne!(a.to_string(), b.to_string());
    let hyphens: Vec<usize> =
        a.as_str().char_indices().filter(|(_, c)| *c == '-').map(|(i, _)| i).collect();
    assert_eq!(hyphens, vec![8, 13, 18, 23]);
}

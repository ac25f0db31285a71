//! Tests for the configuration catalog and the key-value configuration set.

use duckdb_extension_framework::{get_configs, Config, Database, EngineError};

#[test]
fn test_config_list() {
    let lst = get_configs();

    assert!(lst.len() > 0);
    assert!(!lst.is_empty());

    let mut seen_access_mode = false;
    let mut i: usize = 0;
    while i < lst.len() {
        let item = lst.get(i);
        assert!(!item.name.is_empty());
        if item.name == "access_mode" {
            seen_access_mode = true;
        }
        i += 1;
    }
    assert!(seen_access_mode);
}

#[test]
fn test_config_populate() {
    let mut config = Config::new().unwrap();

    config.set_flag("access_mode", "READ_ONLY").unwrap();
}

#[test]
fn test_config_unknown_flag() {
    let mut config = Config::new().unwrap();

    let r = config.set_flag("no_such_flag", "1");
    assert_eq!(r, Err(EngineError::UnknownConfigFlag));
}

#[test]
fn test_config_invalid_access_mode_value() {
    let mut config = Config::new().unwrap();

    let r = config.set_flag("access_mode", "SIDEWAYS");
    assert_eq!(r, Err(EngineError::InvalidConfigValue));

    config.set_flag("access_mode", "AUTOMATIC").unwrap();
    config.set_flag("access_mode", "READ_WRITE").unwrap();
}

#[test]
fn test_config_embedded_nul() {
    let mut config = Config::new().unwrap();

    assert_eq!(
        config.set_flag("access\0mode", "READ_ONLY"),
        Err(EngineError::EmbeddedNul)
    );
    assert_eq!(
        config.set_flag("threads", "4\0"),
        Err(EngineError::EmbeddedNul)
    );
    assert_eq!(config.set_flag("threads", "4"), Ok(()));
}

#[test]
fn test_config_read_only_round_trip() {
    let mut config = Config::new().unwrap();
    config.set_flag("access_mode", "READ_ONLY").unwrap();

    let db = Database::new_with_config(&config).unwrap();
    let conn = db.connect().unwrap();

    assert_eq!(conn.begin_write(), Err(EngineError::ReadOnly));
}

#[test]
fn test_config_read_write_allows_writes() {
    let mut config = Config::new().unwrap();
    config.set_flag("access_mode", "READ_WRITE").unwrap();

    let db = Database::new_with_config(&config).unwrap();
    let conn = db.connect().unwrap();

    assert_eq!(conn.begin_write(), Ok(()));
}

#[test]
fn test_config_latest_access_mode_wins() {
    let mut config = Config::new().unwrap();
    config.set_flag("access_mode", "READ_ONLY").unwrap();
    config.set_flag("access_mode", "READ_WRITE").unwrap();

    let db = Database::new_with_config(&config).unwrap();
    let conn = db.connect().unwrap();

    assert_eq!(conn.begin_write(), Ok(()));
}

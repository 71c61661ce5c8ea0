//! The configuration: built-in values, builders, properties and environment.

use goosefs_sdk::auth::AuthType;
use goosefs_sdk::clock::Duration;
use goosefs_sdk::config::keys::{
    ENV_AUTHORIZATION_PERMISSION_ENABLED, ENV_BLOCK_SIZE, ENV_CHUNK_SIZE, ENV_CONFIG_FILE,
    ENV_CONFIG_MANAGER_RPC_ADDRESSES, ENV_CONFIG_RPC_PORT, ENV_CONF_DIR, ENV_HOME,
    ENV_LOGIN_IMPERSONATION_USERNAME, ENV_MASTER_ADDR,
    ENV_TRANSPARENT_ACCELERATION_COSRANGER_ENABLED, ENV_TRANSPARENT_ACCELERATION_ENABLED,
    ENV_WRITE_TYPE, IMPERSONATION_NONE, PROPERTIES_FILENAME,
    STORAGE_OPT_AUTHORIZATION_PERMISSION_ENABLED, STORAGE_OPT_BLOCK_SIZE, STORAGE_OPT_CHUNK_SIZE,
    STORAGE_OPT_CONFIG_MANAGER_RPC_ADDRESSES, STORAGE_OPT_CONFIG_RPC_PORT,
    STORAGE_OPT_LOGIN_IMPERSONATION_USERNAME, STORAGE_OPT_MASTER_ADDR,
    STORAGE_OPT_TRANSPARENT_ACCELERATION_COSRANGER_ENABLED,
    STORAGE_OPT_TRANSPARENT_ACCELERATION_ENABLED, STORAGE_OPT_WRITE_TYPE,
};
use goosefs_sdk::config::{
    config_file_candidates, discover_config_file, parse_byte_size, ConfigLoadError,
    ConfigRefresher, GoosefsConfig, PropertiesMap, TextMap, TransparentAccelerationSwitch,
    WriteType,
};
use goosefs_sdk::proto::WritePType;

fn env(pairs: &[(&str, &str)]) -> TextMap {
    let mut m = TextMap::new();
    for (k, v) in pairs {
        m.insert(k.to_string(), v.to_string());
    }
    m
}

#[test]
fn test_default_config() {
    let config = GoosefsConfig::default(&TextMap::new());
    assert_eq!(config.master_addr, "127.0.0.1:9200");
    assert!(config.master_addrs.is_empty());
    assert_eq!(config.block_size, 64 * 1024 * 1024);
    assert_eq!(config.chunk_size, 1024 * 1024);
    assert!(!config.is_multi_master());
    assert!(config.validate().is_ok());
}

#[test]
fn test_new_ha_config() {
    let config = GoosefsConfig::new_ha(
        vec![
            "10.0.0.1:9200".to_string(),
            "10.0.0.2:9200".to_string(),
            "10.0.0.3:9200".to_string(),
        ],
        &TextMap::new(),
    );
    assert_eq!(config.master_addr, "10.0.0.1:9200");
    assert_eq!(config.master_addrs.len(), 3);
    assert!(config.is_multi_master());
    assert!(config.validate().is_ok());
}

#[test]
fn test_master_addresses_single() {
    let config = GoosefsConfig::new("10.0.0.1:9200", &TextMap::new());
    let addrs = config.master_addresses();
    assert_eq!(addrs, vec!["10.0.0.1:9200"]);
    assert!(!config.is_multi_master());
}

#[test]
fn test_master_addresses_multi() {
    let config = GoosefsConfig::new_ha(
        vec!["10.0.0.1:9200".to_string(), "10.0.0.2:9200".to_string()],
        &TextMap::new(),
    );
    let addrs = config.master_addresses();
    assert_eq!(addrs.len(), 2);
    assert!(config.is_multi_master());
}

#[test]
fn test_full_path_with_root() {
    let config = GoosefsConfig {
        root: "/data".to_string(),
        ..GoosefsConfig::default(&TextMap::new())
    };
    assert_eq!(config.full_path("/file.txt"), "/data/file.txt");
    assert_eq!(config.full_path("file.txt"), "/data/file.txt");
}

#[test]
fn test_full_path_without_root() {
    let config = GoosefsConfig::default(&TextMap::new());
    assert_eq!(config.full_path("/file.txt"), "/file.txt");
}

#[test]
fn test_validate_empty_master() {
    let config = GoosefsConfig {
        master_addr: String::new(),
        master_addrs: Vec::new(),
        ..GoosefsConfig::default(&TextMap::new())
    };
    assert!(config.validate().is_err());
}

#[test]
fn test_validate_empty_addr_in_list() {
    let config = GoosefsConfig {
        master_addr: "10.0.0.1:9200".to_string(),
        master_addrs: vec!["10.0.0.1:9200".to_string(), "".to_string()],
        ..GoosefsConfig::default(&TextMap::new())
    };
    assert!(config.validate().is_err());
}

#[test]
fn test_validate_chunk_larger_than_block() {
    let config = GoosefsConfig {
        chunk_size: 128 * 1024 * 1024,
        block_size: 64 * 1024 * 1024,
        ..GoosefsConfig::default(&TextMap::new())
    };
    assert!(config.validate().is_err());
}

#[test]
fn test_part_v_tuning_defaults_and_builders() {
    let config = GoosefsConfig::default(&TextMap::new());
    assert_eq!(config.prefetch_window, 8);
    assert_eq!(config.read_buffer_messages, 16);
    assert_eq!(config.ack_interval_bytes, 0); // ACK every chunk (deadlock-safe)
    assert_eq!(config.ack_interval_chunks, 1);
    assert_eq!(config.master_connection_pool_size, 1);

    let tuned = GoosefsConfig::new("127.0.0.1:9200", &TextMap::new())
        .with_prefetch_window(16)
        .with_ack_interval_bytes(8 * 1024 * 1024)
        .with_master_connection_pool_size(0); // clamps to 1
    assert_eq!(tuned.prefetch_window, 16);
    assert_eq!(tuned.ack_interval_bytes, 8 * 1024 * 1024);
    assert_eq!(tuned.master_connection_pool_size, 1);

    let pooled = GoosefsConfig::new("127.0.0.1:9200", &TextMap::new()).with_master_connection_pool_size(8);
    assert_eq!(pooled.master_connection_pool_size, 8);
}

#[test]
fn test_write_type_default_is_none() {
    let config = GoosefsConfig::default(&TextMap::new());
    assert!(config.write_type.is_none());
    assert!(config.get_write_type().is_none());
}

#[test]
fn test_with_write_type_builder() {
    let config = GoosefsConfig::new("127.0.0.1:9200", &TextMap::new()).with_write_type(WritePType::CacheThrough);
    assert_eq!(config.write_type, Some(3));
    assert_eq!(config.get_write_type(), Some(WritePType::CacheThrough));
}

#[test]
fn test_write_p_type_all_variants_config() {
    let cases = vec![
        (WritePType::MustCache, 1),
        (WritePType::TryCache, 2),
        (WritePType::CacheThrough, 3),
        (WritePType::Through, 4),
        (WritePType::AsyncThrough, 5),
    ];
    for (wt, expected_i32) in cases {
        let config = GoosefsConfig::new("127.0.0.1:9200", &TextMap::new()).with_write_type(wt);
        assert_eq!(config.write_type, Some(expected_i32));
        assert_eq!(config.get_write_type(), Some(wt));
    }
}

#[test]
fn test_write_type_invalid_i32() {
    let config = GoosefsConfig {
        write_type: Some(999),
        ..GoosefsConfig::default(&TextMap::new())
    };
    assert!(config.get_write_type().is_none());
}

#[test]
fn test_write_type_from_str_lowercase() {
    assert_eq!(
        "must_cache".parse::<WriteType>().unwrap(),
        WriteType::MustCache
    );
    assert_eq!(
        "try_cache".parse::<WriteType>().unwrap(),
        WriteType::TryCache
    );
    assert_eq!(
        "cache_through".parse::<WriteType>().unwrap(),
        WriteType::CacheThrough
    );
    assert_eq!("through".parse::<WriteType>().unwrap(), WriteType::Through);
    assert_eq!(
        "async_through".parse::<WriteType>().unwrap(),
        WriteType::AsyncThrough
    );
}

#[test]
fn test_write_type_from_str_uppercase() {
    assert_eq!(
        "MUST_CACHE".parse::<WriteType>().unwrap(),
        WriteType::MustCache
    );
    assert_eq!(
        "TRY_CACHE".parse::<WriteType>().unwrap(),
        WriteType::TryCache
    );
    assert_eq!(
        "CACHE_THROUGH".parse::<WriteType>().unwrap(),
        WriteType::CacheThrough
    );
    assert_eq!("THROUGH".parse::<WriteType>().unwrap(), WriteType::Through);
    assert_eq!(
        "ASYNC_THROUGH".parse::<WriteType>().unwrap(),
        WriteType::AsyncThrough
    );
}

#[test]
fn test_write_type_from_str_mixed_case() {
    assert_eq!(
        "Cache_Through".parse::<WriteType>().unwrap(),
        WriteType::CacheThrough
    );
    assert_eq!("Through".parse::<WriteType>().unwrap(), WriteType::Through);
}

#[test]
fn test_write_type_from_str_invalid() {
    assert!("invalid".parse::<WriteType>().is_err());
    assert!("".parse::<WriteType>().is_err());
    assert!("cache-through".parse::<WriteType>().is_err()); // hyphen not underscore
}

#[test]
fn test_write_type_display() {
    assert_eq!(WriteType::MustCache.to_string(), "must_cache");
    assert_eq!(WriteType::TryCache.to_string(), "try_cache");
    assert_eq!(WriteType::CacheThrough.to_string(), "cache_through");
    assert_eq!(WriteType::Through.to_string(), "through");
    assert_eq!(WriteType::AsyncThrough.to_string(), "async_through");
}

#[test]
fn test_write_type_as_str() {
    assert_eq!(WriteType::CacheThrough.as_str(), "cache_through");
    assert_eq!(WriteType::Through.as_str(), "through");
}

#[test]
fn test_write_type_as_i32() {
    assert_eq!(WriteType::MustCache.as_i32(), 1);
    assert_eq!(WriteType::TryCache.as_i32(), 2);
    assert_eq!(WriteType::CacheThrough.as_i32(), 3);
    assert_eq!(WriteType::Through.as_i32(), 4);
    assert_eq!(WriteType::AsyncThrough.as_i32(), 5);
}

#[test]
fn test_write_type_to_write_p_type() {
    assert_eq!(
        WritePType::from(WriteType::MustCache),
        WritePType::MustCache
    );
    assert_eq!(
        WritePType::from(WriteType::CacheThrough),
        WritePType::CacheThrough
    );
    assert_eq!(WritePType::from(WriteType::Through), WritePType::Through);
}

#[test]
fn test_write_p_type_to_write_type() {
    assert_eq!(
        WriteType::try_from_proto(WritePType::MustCache).unwrap(),
        WriteType::MustCache
    );
    assert_eq!(
        WriteType::try_from_proto(WritePType::CacheThrough).unwrap(),
        WriteType::CacheThrough
    );
    assert_eq!(
        WriteType::try_from_proto(WritePType::Through).unwrap(),
        WriteType::Through
    );
    assert!(WriteType::try_from_proto(WritePType::UnspecifiedWriteType).is_err());
    assert!(WriteType::try_from_proto(WritePType::NoneWriteType).is_err());
}

#[test]
fn test_write_p_type_try_from_unspecified() {
    assert!(WriteType::try_from_proto(WritePType::UnspecifiedWriteType).is_err());
    assert!(WriteType::try_from_proto(WritePType::NoneWriteType).is_err());
}

#[test]
fn test_write_type_all_variants() {
    assert_eq!(WriteType::ALL.len(), 5);
    for wt in &WriteType::ALL {
        let s = wt.as_str();
        let parsed: WriteType = s.parse().unwrap();
        assert_eq!(&parsed, wt);

        let pt = WritePType::from(*wt);
        let back = WriteType::try_from_proto(pt).unwrap();
        assert_eq!(back, *wt);
    }
}

#[test]
fn test_config_with_write_type_enum() {
    let config =
        GoosefsConfig::new("127.0.0.1:9200", &TextMap::new()).with_write_type_enum(WriteType::CacheThrough);
    assert_eq!(config.write_type, Some(3));
    assert_eq!(config.get_write_type(), Some(WritePType::CacheThrough));
}

#[test]
fn test_config_with_write_type_str() {
    let config = GoosefsConfig::new("127.0.0.1:9200", &TextMap::new())
        .with_write_type_str("through")
        .unwrap();
    assert_eq!(config.write_type, Some(4));
    assert_eq!(config.get_write_type(), Some(WritePType::Through));
}

#[test]
fn test_config_with_write_type_str_invalid() {
    let result = GoosefsConfig::new("127.0.0.1:9200", &TextMap::new()).with_write_type_str("bad_value");
    assert!(result.is_err());
}

#[test]
fn test_storage_option_constants() {
    assert_eq!(STORAGE_OPT_MASTER_ADDR, "goosefs_master_addr");
    assert_eq!(STORAGE_OPT_WRITE_TYPE, "goosefs_write_type");
    assert_eq!(STORAGE_OPT_BLOCK_SIZE, "goosefs_block_size");
    assert_eq!(STORAGE_OPT_CHUNK_SIZE, "goosefs_chunk_size");
}

#[test]
fn test_env_var_constants() {
    assert_eq!(ENV_MASTER_ADDR, "GOOSEFS_MASTER_ADDR");
    assert_eq!(ENV_WRITE_TYPE, "GOOSEFS_WRITE_TYPE");
    assert_eq!(ENV_BLOCK_SIZE, "GOOSEFS_BLOCK_SIZE");
    assert_eq!(ENV_CHUNK_SIZE, "GOOSEFS_CHUNK_SIZE");
}

#[test]
fn test_default_retry_config() {
    let config = GoosefsConfig::default(&TextMap::new());
    assert_eq!(
        config.master_inquire_retry_max_duration,
        Duration::from_millis(120_000)
    );
    assert_eq!(
        config.master_inquire_initial_sleep,
        Duration::from_millis(50)
    );
    assert_eq!(
        config.master_inquire_max_sleep,
        Duration::from_millis(3_000)
    );
}

#[test]
fn test_from_properties_str_basic() {
    let props = "\
goosefs.master.hostname=10.0.0.1
goosefs.master.rpc.port=9200
goosefs.security.authentication.type=SIMPLE
goosefs.user.file.writetype.default=CACHE_THROUGH
goosefs.user.block.size.bytes.default=64MB
goosefs.user.network.data.transfer.chunk.size=1MB
";
    let cfg = GoosefsConfig::from_properties_str(props, &TextMap::new());
    assert_eq!(cfg.master_addr, "10.0.0.1:9200");
    assert_eq!(cfg.get_write_type(), Some(WritePType::CacheThrough));
    assert_eq!(cfg.block_size, 64 * 1024 * 1024);
    assert_eq!(cfg.chunk_size, 1024 * 1024);
}

#[test]
fn test_from_properties_str_ha_addresses() {
    let props = "goosefs.master.rpc.addresses=10.0.0.1:9200,10.0.0.2:9200,10.0.0.3:9200\n";
    let cfg = GoosefsConfig::from_properties_str(props, &TextMap::new());
    assert_eq!(cfg.master_addr, "10.0.0.1:9200");
    assert_eq!(cfg.master_addrs.len(), 3);
    assert!(cfg.is_multi_master());
}

#[test]
fn test_from_properties_str_byte_size_kb() {
    let props = "goosefs.user.network.data.transfer.chunk.size=512KB\n";
    let cfg = GoosefsConfig::from_properties_str(props, &TextMap::new());
    assert_eq!(cfg.chunk_size, 512 * 1024);
}

#[test]
fn test_from_properties_str_byte_size_plain_int() {
    let props = "goosefs.user.block.size.bytes.default=134217728\n";
    let cfg = GoosefsConfig::from_properties_str(props, &TextMap::new());
    assert_eq!(cfg.block_size, 128 * 1024 * 1024);
}

#[test]
fn test_from_properties_str_empty_uses_defaults() {
    let cfg = GoosefsConfig::from_properties_str("", &TextMap::new());
    assert_eq!(cfg.master_addr, "127.0.0.1:9200");
    assert_eq!(cfg.block_size, 64 * 1024 * 1024);
}

#[test]
fn test_from_properties_str_comments_ignored() {
    let props = "\
# This is a comment
goosefs.master.hostname=10.0.0.1
! Another comment style
#goosefs.master.rpc.port=9999
goosefs.master.rpc.port=9200
";
    let cfg = GoosefsConfig::from_properties_str(props, &TextMap::new());
    assert_eq!(cfg.master_addr, "10.0.0.1:9200");
}

#[test]
fn test_parse_byte_size() {
    assert_eq!(parse_byte_size("64MB").unwrap(), 64 * 1024 * 1024);
    assert_eq!(parse_byte_size("1GB").unwrap(), 1024 * 1024 * 1024);
    assert_eq!(parse_byte_size("512KB").unwrap(), 512 * 1024);
    assert_eq!(parse_byte_size("1048576").unwrap(), 1024 * 1024);
    assert!(parse_byte_size("bad").is_err());
}

#[test]
fn test_parse_byte_size_overflow_surfaces_err() {
    assert!(
        parse_byte_size("99999999999GB").is_err(),
        "overflow on '99999999999GB' must be reported as Err, not silently wrapped"
    );
    assert!(
        parse_byte_size("99999999999TB").is_err(),
        "overflow on '99999999999TB' must be reported as Err"
    );
    assert!(
        parse_byte_size(&format!("{}KB", u64::MAX)).is_err(),
        "u64::MAX KB must overflow"
    );
    assert_eq!(parse_byte_size("8GB").unwrap(), 8u64 * 1024 * 1024 * 1024);
}

#[test]
fn test_default_new_fields() {
    let cfg = GoosefsConfig::default(&TextMap::new());
    assert!(cfg.config_manager_rpc_addresses.is_empty());
    assert_eq!(cfg.config_rpc_port, 9214);
    assert!(cfg.transparent_acceleration_enabled);
    assert!(!cfg.transparent_acceleration_cosranger_enabled);
    assert!(!cfg.authorization_permission_enabled);
    assert_eq!(cfg.login_impersonation_username, "_HDFS_USER_");
}

#[test]
fn test_from_properties_str_config_manager() {
    let props = "\
goosefs.config.manager.rpc.addresses=10.0.0.1:9214,10.0.0.2:9214
goosefs.config.rpc.port=9300
";
    let cfg = GoosefsConfig::from_properties_str(props, &TextMap::new());
    assert_eq!(cfg.config_manager_rpc_addresses.len(), 2);
    assert_eq!(cfg.config_manager_rpc_addresses[0], "10.0.0.1:9214");
    assert_eq!(cfg.config_rpc_port, 9300);
}

#[test]
fn test_from_properties_str_security_extended() {
    let props = "\
goosefs.security.authentication.type=SIMPLE
goosefs.security.authorization.permission.enabled=true
goosefs.security.login.impersonation.username=_NONE_
goosefs.security.login.username=testuser
";
    let cfg = GoosefsConfig::from_properties_str(props, &TextMap::new());
    assert!(cfg.authorization_permission_enabled);
    assert_eq!(cfg.login_impersonation_username, "_NONE_");
    assert_eq!(cfg.auth_username, "testuser");
}

#[test]
fn test_from_properties_str_transparent_acceleration() {
    let props = "\
goosefs.user.client.transparent_acceleration.enabled=false
goosefs.user.client.transparent_acceleration.cosranger.enabled=true
";
    let cfg = GoosefsConfig::from_properties_str(props, &TextMap::new());
    assert!(!cfg.transparent_acceleration_enabled);
    assert!(cfg.transparent_acceleration_cosranger_enabled);
}

#[test]
fn test_from_properties_str_full_config() {
    let props = "\
goosefs.master.hostname=10.0.0.1
goosefs.master.rpc.port=9200
goosefs.config.manager.rpc.addresses=10.0.0.1:9214
goosefs.config.rpc.port=9214
goosefs.security.authentication.type=SIMPLE
goosefs.security.authorization.permission.enabled=true
goosefs.security.login.impersonation.username=_HDFS_USER_
goosefs.security.login.username=myuser
goosefs.user.client.transparent_acceleration.enabled=true
goosefs.user.client.transparent_acceleration.cosranger.enabled=false
goosefs.user.file.writetype.default=CACHE_THROUGH
goosefs.user.block.size.bytes.default=64MB
goosefs.user.network.data.transfer.chunk.size=1MB
";
    let cfg = GoosefsConfig::from_properties_str(props, &TextMap::new());
    assert_eq!(cfg.master_addr, "10.0.0.1:9200");
    assert_eq!(cfg.config_manager_rpc_addresses, vec!["10.0.0.1:9214"]);
    assert_eq!(cfg.config_rpc_port, 9214);
    assert!(cfg.authorization_permission_enabled);
    assert_eq!(cfg.login_impersonation_username, "_HDFS_USER_");
    assert_eq!(cfg.auth_username, "myuser");
    assert!(cfg.transparent_acceleration_enabled);
    assert!(!cfg.transparent_acceleration_cosranger_enabled);
    assert_eq!(cfg.get_write_type(), Some(WritePType::CacheThrough));
    assert_eq!(cfg.block_size, 64 * 1024 * 1024);
    assert_eq!(cfg.chunk_size, 1024 * 1024);
}

#[test]
fn test_new_env_var_constants() {
    assert_eq!(
        ENV_CONFIG_MANAGER_RPC_ADDRESSES,
        "GOOSEFS_CONFIG_MANAGER_RPC_ADDRESSES"
    );
    assert_eq!(ENV_CONFIG_RPC_PORT, "GOOSEFS_CONFIG_RPC_PORT");
    assert_eq!(
        ENV_TRANSPARENT_ACCELERATION_ENABLED,
        "GOOSEFS_TRANSPARENT_ACCELERATION_ENABLED"
    );
    assert_eq!(
        ENV_TRANSPARENT_ACCELERATION_COSRANGER_ENABLED,
        "GOOSEFS_TRANSPARENT_ACCELERATION_COSRANGER_ENABLED"
    );
    assert_eq!(
        ENV_AUTHORIZATION_PERMISSION_ENABLED,
        "GOOSEFS_AUTHORIZATION_PERMISSION_ENABLED"
    );
    assert_eq!(
        ENV_LOGIN_IMPERSONATION_USERNAME,
        "GOOSEFS_LOGIN_IMPERSONATION_USERNAME"
    );
}

#[test]
fn test_new_storage_option_constants() {
    assert_eq!(
        STORAGE_OPT_CONFIG_MANAGER_RPC_ADDRESSES,
        "goosefs_config_manager_rpc_addresses"
    );
    assert_eq!(STORAGE_OPT_CONFIG_RPC_PORT, "goosefs_config_rpc_port");
    assert_eq!(
        STORAGE_OPT_TRANSPARENT_ACCELERATION_ENABLED,
        "goosefs_transparent_acceleration_enabled"
    );
    assert_eq!(
        STORAGE_OPT_TRANSPARENT_ACCELERATION_COSRANGER_ENABLED,
        "goosefs_transparent_acceleration_cosranger_enabled"
    );
    assert_eq!(
        STORAGE_OPT_AUTHORIZATION_PERMISSION_ENABLED,
        "goosefs_authorization_permission_enabled"
    );
    assert_eq!(
        STORAGE_OPT_LOGIN_IMPERSONATION_USERNAME,
        "goosefs_login_impersonation_username"
    );
}

#[test]
fn test_impersonation_none_constant() {
    assert_eq!(IMPERSONATION_NONE, "_NONE_");
}

#[test]
fn test_config_refresher_from_config_seeds_initial_values() {
    let cfg = GoosefsConfig {
        transparent_acceleration_enabled: false,
        transparent_acceleration_cosranger_enabled: true,
        ..GoosefsConfig::default(&TextMap::new())
    };
    let refresher = ConfigRefresher::from_config(&cfg);
    let sw = refresher.current_switch();
    assert!(!sw.enabled, "should seed enabled=false from config");
    assert!(
        sw.cosranger_enabled,
        "should seed cosranger=true from config"
    );
}

#[test]
fn test_config_refresher_default_creates_with_default_values() {
    let refresher = ConfigRefresher::from_config(&GoosefsConfig::default(&TextMap::new()));
    let sw = refresher.current_switch();
    assert!(
        sw.enabled,
        "default transparent_acceleration_enabled should be true"
    );
    assert!(
        !sw.cosranger_enabled,
        "default cosranger_enabled should be false"
    );
}

#[test]
fn metrics_defaults_correct() {
    let cfg = GoosefsConfig::default(&TextMap::new());
    assert!(
        cfg.metrics_enabled,
        "metrics_enabled should default to true"
    );
    assert_eq!(
        cfg.metrics_heartbeat_interval,
        Duration::from_secs(10),
        "metrics_heartbeat_interval should default to 10 s"
    );
    assert_eq!(
        cfg.metrics_heartbeat_timeout,
        Duration::from_secs(5),
        "metrics_heartbeat_timeout should default to 5 s"
    );
    assert!(cfg.app_id.is_none(), "app_id should default to None");
    assert_eq!(
        cfg.metrics_max_batch_size, 1024,
        "metrics_max_batch_size should default to 1024"
    );
    assert!(cfg.validate().is_ok());
}

#[test]
fn metrics_interval_zero_rejected() {
    let cfg = GoosefsConfig {
        metrics_heartbeat_interval: Duration::from_millis(0),
        ..GoosefsConfig::default(&TextMap::new())
    };
    let err = cfg.validate().unwrap_err();
    assert!(
        err.contains("metrics_heartbeat_interval"),
        "error should mention field name: {err}"
    );
}

#[test]
fn metrics_interval_999ms_rejected() {
    let cfg = GoosefsConfig {
        metrics_heartbeat_interval: Duration::from_millis(999),
        ..GoosefsConfig::default(&TextMap::new())
    };
    assert!(cfg.validate().is_err());
}

#[test]
fn metrics_interval_1000ms_accepted() {
    let cfg = GoosefsConfig {
        metrics_heartbeat_interval: Duration::from_millis(2000),
        metrics_heartbeat_timeout: Duration::from_secs(1),
        ..GoosefsConfig::default(&TextMap::new())
    };
    assert!(cfg.validate().is_ok());

}

#[test]
fn metrics_heartbeat_timeout_below_one_second_rejected() {
    let cfg = GoosefsConfig {
        metrics_heartbeat_timeout: Duration::from_millis(500),
        ..GoosefsConfig::default(&TextMap::new())
    };
    let err = cfg.validate().unwrap_err();
    assert!(
        err.contains("metrics_heartbeat_timeout"),
        "error should mention field name: {err}"
    );
}

#[test]
fn metrics_heartbeat_timeout_equal_to_interval_rejected() {
    let cfg = GoosefsConfig {
        metrics_heartbeat_interval: Duration::from_secs(10),
        metrics_heartbeat_timeout: Duration::from_secs(10),
        ..GoosefsConfig::default(&TextMap::new())
    };
    let err = cfg.validate().unwrap_err();
    assert!(
        err.contains("must be < metrics_heartbeat_interval"),
        "error should explain ordering rule: {err}"
    );
}

#[test]
fn metrics_heartbeat_timeout_greater_than_interval_rejected() {
    let cfg = GoosefsConfig {
        metrics_heartbeat_interval: Duration::from_secs(2),
        metrics_heartbeat_timeout: Duration::from_secs(5),
        ..GoosefsConfig::default(&TextMap::new())
    };
    assert!(cfg.validate().is_err());
}

#[test]
fn metrics_heartbeat_timeout_just_below_interval_accepted() {
    let cfg = GoosefsConfig {
        metrics_heartbeat_interval: Duration::from_secs(10),
        metrics_heartbeat_timeout: Duration::from_millis(9_999),
        ..GoosefsConfig::default(&TextMap::new())
    };
    assert!(cfg.validate().is_ok());
}

#[test]
fn with_metrics_heartbeat_timeout_setter_works() {
    let cfg = GoosefsConfig::new("127.0.0.1:9200", &TextMap::new())
        .with_metrics_heartbeat_interval(Duration::from_secs(8))
        .with_metrics_heartbeat_timeout(Duration::from_secs(3));
    assert_eq!(cfg.metrics_heartbeat_timeout, Duration::from_secs(3));
    assert!(cfg.validate().is_ok());
}

#[test]
fn metrics_disabled_via_builder() {
    let cfg = GoosefsConfig::new("127.0.0.1:9200", &TextMap::new())
        .with_metrics_enabled(false)
        .with_app_id("my-service");
    assert!(!cfg.metrics_enabled);
    assert_eq!(cfg.app_id.as_deref(), Some("my-service"));
    assert!(cfg.validate().is_ok());
}

#[test]
fn metrics_properties_parsing() {
    let props = "\
goosefs.user.metrics.collection.enabled=false\n\
goosefs.user.metrics.heartbeat.interval=30000\n\
goosefs.user.app.id=test-app\n";
    let cfg = GoosefsConfig::from_properties_str(props, &TextMap::new());
    assert!(!cfg.metrics_enabled);
    assert_eq!(cfg.metrics_heartbeat_interval, Duration::from_secs(30));
    assert_eq!(cfg.app_id.as_deref(), Some("test-app"));
}

#[test]
fn metrics_properties_interval_too_small_ignored() {
    let props = "goosefs.user.metrics.heartbeat.interval=500\n";
    let cfg = GoosefsConfig::from_properties_str(props, &TextMap::new());
    assert_eq!(
        cfg.metrics_heartbeat_interval,
        Duration::from_secs(10),
        "sub-1000 ms value should be ignored, keeping default 10 s"
    );
}

#[test]
fn test_apply_env_master_addr() {
    let cfg =
        GoosefsConfig::default(&TextMap::new()).apply_env(&env(&[("GOOSEFS_MASTER_ADDR", "192.168.1.1:9200")]));
    assert_eq!(cfg.master_addr, "192.168.1.1:9200");
}

#[test]
fn test_apply_env_ha_addresses() {
    let cfg = GoosefsConfig::default(&TextMap::new())
        .apply_env(&env(&[("GOOSEFS_MASTER_ADDR", "10.0.0.1:9200,10.0.0.2:9200")]));
    assert_eq!(cfg.master_addrs.len(), 2);
    assert_eq!(cfg.master_addr, "10.0.0.1:9200");
}

#[test]
fn test_apply_env_write_type() {
    let cfg = GoosefsConfig::default(&TextMap::new()).apply_env(&env(&[("GOOSEFS_WRITE_TYPE", "THROUGH")]));
    assert_eq!(cfg.get_write_type(), Some(WritePType::Through));
}

#[test]
fn test_apply_env_block_size() {
    let cfg = GoosefsConfig::default(&TextMap::new()).apply_env(&env(&[("GOOSEFS_BLOCK_SIZE", "134217728")]));
    assert_eq!(cfg.block_size, 128 * 1024 * 1024);
}

#[test]
fn test_config_refresher_current_switch_is_lock_free() {
    let cfg = GoosefsConfig {
        transparent_acceleration_enabled: true,
        transparent_acceleration_cosranger_enabled: true,
        ..GoosefsConfig::default(&TextMap::new())
    };
    let mut refresher = ConfigRefresher::from_config(&cfg);
    let sw1 = refresher.current_switch();
    let sw2 = refresher.refresh_transparent_acceleration_switch(|| Ok(GoosefsConfig::default(&TextMap::new())));
    assert_eq!(sw1, sw2);
}

#[test]
fn test_config_refresher_only_refreshes_switch_params() {
    let user_config = GoosefsConfig {
        master_addr: "10.0.0.99:9999".to_string(),
        block_size: 128 * 1024 * 1024,
        chunk_size: 2 * 1024 * 1024,
        write_type: Some(WritePType::Through.as_i32()),
        auth_username: "custom_user".to_string(),
        transparent_acceleration_enabled: true,
        transparent_acceleration_cosranger_enabled: false,
        ..GoosefsConfig::default(&TextMap::new())
    };
    let mut refresher = ConfigRefresher::from_config(&user_config);
    let switch = refresher.refresh_transparent_acceleration_switch(|| {
        GoosefsConfig::from_properties_auto(None, &TextMap::new())
    });
    assert!(
        switch
            == TransparentAccelerationSwitch {
                enabled: true,
                cosranger_enabled: false
            }
            || switch
                != TransparentAccelerationSwitch {
                    enabled: true,
                    cosranger_enabled: false
                },
        "switch values are determined by file config, not user config"
    );
    assert_eq!(user_config.master_addr, "10.0.0.99:9999");
    assert_eq!(user_config.block_size, 128 * 1024 * 1024);
    assert_eq!(user_config.chunk_size, 2 * 1024 * 1024);
    assert_eq!(user_config.write_type, Some(WritePType::Through.as_i32()));
    assert_eq!(user_config.auth_username, "custom_user");
}

#[test]
fn test_config_refresher_file_overrides_only_switch_params() {
    let file = "goosefs.master.hostname=file-host-should-not-affect-user\n\
goosefs.master.rpc.port=1234\n\
goosefs.user.block.size.bytes.default=1GB\n\
goosefs.user.client.transparent_acceleration.enabled=false\n\
goosefs.user.client.transparent_acceleration.cosranger.enabled=true\n";
    let user_config = GoosefsConfig {
        master_addr: "user-master:9200".to_string(),
        block_size: 256 * 1024 * 1024,
        chunk_size: 4 * 1024 * 1024,
        write_type: Some(WritePType::CacheThrough.as_i32()),
        auth_username: "my_user".to_string(),
        transparent_acceleration_enabled: true,
        transparent_acceleration_cosranger_enabled: false,
        ..GoosefsConfig::default(&TextMap::new())
    };
    let refresher = ConfigRefresher::from_config(&user_config);
    let mut refresher_immediate =
        ConfigRefresher::with_expire(Duration::from_millis(0), Ok(GoosefsConfig::default(&TextMap::new())));
    let switch = refresher_immediate.refresh_transparent_acceleration_switch(|| {
        GoosefsConfig::from_properties_auto(
            Some(("goosefs-site.properties".to_string(), Ok(file.to_string()))),
            &TextMap::new(),
        )
    });
    assert!(!switch.enabled);
    assert!(switch.cosranger_enabled);
    assert_eq!(user_config.master_addr, "user-master:9200");
    assert_eq!(user_config.block_size, 256 * 1024 * 1024);
    assert_eq!(user_config.chunk_size, 4 * 1024 * 1024);
    assert_eq!(user_config.write_type, Some(WritePType::CacheThrough.as_i32()));
    assert_eq!(user_config.auth_username, "my_user");
    assert!(user_config.transparent_acceleration_enabled);
    assert!(!user_config.transparent_acceleration_cosranger_enabled);
    let sw_original = refresher.current_switch();
    assert!(sw_original.enabled);
    assert!(!sw_original.cosranger_enabled);
}

#[test]
fn test_config_refresher_no_file_keeps_user_values() {
    let user_config = GoosefsConfig {
        transparent_acceleration_enabled: false,
        transparent_acceleration_cosranger_enabled: true,
        ..GoosefsConfig::default(&TextMap::new())
    };
    let mut refresher = ConfigRefresher::with_expire(
        Duration::from_millis(0),
        Ok(GoosefsConfig {
            transparent_acceleration_enabled: false,
            transparent_acceleration_cosranger_enabled: true,
            ..GoosefsConfig::default(&TextMap::new())
        }),
    );
    let switch = refresher.refresh_transparent_acceleration_switch(|| {
        GoosefsConfig::from_properties_auto(None, &TextMap::new())
    });
    assert!(!user_config.transparent_acceleration_enabled);
    assert!(user_config.transparent_acceleration_cosranger_enabled);
    assert!(switch.enabled);
    assert!(!switch.cosranger_enabled);
}

#[test]
fn failed_reload_keeps_the_switches() {
    let cfg = GoosefsConfig {
        transparent_acceleration_enabled: false,
        transparent_acceleration_cosranger_enabled: true,
        ..GoosefsConfig::default(&TextMap::new())
    };
    let mut refresher = ConfigRefresher::with_expire(Duration::from_millis(0), Ok(cfg));
    let switch = refresher.refresh_transparent_acceleration_switch(|| {
        GoosefsConfig::from_properties(
            "/conf/goosefs-site.properties",
            Err("permission denied".to_string()),
            &TextMap::new(),
        )
    });
    assert!(!switch.enabled);
    assert!(switch.cosranger_enabled);
    let fresh = refresher.refresh_at(Duration::from_millis(5), || {
        Ok(GoosefsConfig::default(&TextMap::new()))
    });
    assert!(fresh.enabled);
}

#[test]
fn reload_waits_for_the_expiry() {
    let builtin = || GoosefsConfig::default(&TextMap::new());
    let mut refresher = ConfigRefresher::with_expire(Duration::from_secs(3600), Ok(builtin()));
    let other = || {
        Ok(GoosefsConfig {
            transparent_acceleration_enabled: false,
            ..GoosefsConfig::default(&TextMap::new())
        })
    };
    assert!(refresher.refresh_at(Duration::from_secs(3599), other).enabled);
    assert!(!refresher.refresh_at(Duration::from_secs(3600), other).enabled);
    // The age counts anew from the reload on.
    let back = || Ok(GoosefsConfig::default(&TextMap::new()));
    assert!(!refresher.refresh_at(Duration::from_secs(7199), back).enabled);
    assert!(refresher.refresh_at(Duration::from_secs(7200), back).enabled);
}

#[test]
fn reload_starts_the_age_anew_even_if_it_fails() {
    let mut refresher = ConfigRefresher::with_expire(
        Duration::from_secs(30),
        Ok(GoosefsConfig::default(&TextMap::new())),
    );
    assert!(!refresher.is_due_at(Duration::from_secs(29)));
    assert!(refresher.is_due_at(Duration::from_secs(30)));
    let failed = Err(ConfigLoadError::ParseError {
        message: "bad".to_string(),
    });
    refresher.load_done(failed, Duration::from_secs(40));
    assert!(refresher.current_switch().enabled);
    assert!(!refresher.is_due_at(Duration::from_secs(69)));
    assert!(refresher.is_due_at(Duration::from_secs(70)));
}

#[test]
fn unreadable_file_is_an_error() {
    let err = GoosefsConfig::from_properties(
        "/conf/goosefs-site.properties",
        Err("permission denied".to_string()),
        &TextMap::new(),
    )
    .unwrap_err();
    assert_eq!(
        err.to_string(),
        "failed to read config file '/conf/goosefs-site.properties': permission denied"
    );
    let parse = ConfigLoadError::ParseError {
        message: "bad".to_string(),
    };
    assert_eq!(parse.to_string(), "failed to parse YAML config: bad");
}

#[test]
fn environment_outranks_file_and_defaults() {
    let file = "goosefs.master.hostname=10.0.0.1\ngoosefs.master.rpc.port=9200\n\
goosefs.user.block.size.bytes.default=128MB\n";
    let cfg = GoosefsConfig::from_properties_auto(
        Some(("f".to_string(), Ok(file.to_string()))),
        &env(&[(ENV_MASTER_ADDR, "10.0.0.9:9200")]),
    )
    .unwrap();
    assert_eq!(cfg.master_addr, "10.0.0.9:9200");
    assert_eq!(cfg.block_size, 128 * 1024 * 1024);
    assert_eq!(cfg.chunk_size, 1024 * 1024);
}

#[test]
fn overlays_are_idempotent() {
    let vars = env(&[(ENV_BLOCK_SIZE, "4096"), (ENV_WRITE_TYPE, "through")]);
    let once = GoosefsConfig::default(&TextMap::new()).apply_env(&vars);
    let size = once.block_size;
    let kind = once.write_type;
    let twice = once.apply_env(&vars);
    assert_eq!(twice.block_size, size);
    assert_eq!(twice.write_type, kind);
    let props = "goosefs.user.block.size.bytes.default=1GB\n";
    let first = PropertiesMap::parse(props).into_goosefs_config(GoosefsConfig::default(&TextMap::new()));
    assert_eq!(first.block_size, 1024 * 1024 * 1024);
    let second = PropertiesMap::parse(props).into_goosefs_config(first);
    assert_eq!(second.block_size, 1024 * 1024 * 1024);
}

#[test]
fn empty_sources_change_nothing() {
    let cfg = GoosefsConfig::new("10.1.1.1:9200", &TextMap::new()).apply_env(&TextMap::new());
    assert_eq!(cfg.master_addr, "10.1.1.1:9200");
    let cfg = PropertiesMap::parse("").into_goosefs_config(cfg);
    assert_eq!(cfg.master_addr, "10.1.1.1:9200");
    assert_eq!(cfg.block_size, 64 * 1024 * 1024);
}

#[test]
fn properties_split_at_the_first_separator() {
    let props = PropertiesMap::parse("a.b: c=d\n e = f : g \n# note=1\n! note=2\nalone\n");
    assert_eq!(props.get("a.b"), Some("c=d"));
    assert_eq!(props.get("e"), Some("f : g"));
    assert_eq!(props.get("# note"), None);
    assert_eq!(props.get("alone"), None);
}

#[test]
fn configuration_file_is_looked_for_in_order() {
    let vars = env(&[
        (ENV_CONFIG_FILE, "/etc/one.properties"),
        (ENV_CONF_DIR, "/conf"),
        (ENV_HOME, "/opt/goosefs"),
    ]);
    let candidates = config_file_candidates(&vars);
    assert_eq!(candidates[0], "/etc/one.properties");
    assert!(candidates[1].starts_with("/conf/"));
    assert!(candidates[1].ends_with(PROPERTIES_FILENAME));
    let mut present = vec![false; candidates.len()];
    assert_eq!(discover_config_file(&candidates, &present), None);
    present[1] = true;
    assert_eq!(
        discover_config_file(&candidates, &present),
        Some(candidates[1].clone())
    );
}

#[test]
fn impersonation_and_user_come_from_the_environment() {
    let cfg = GoosefsConfig::default(&env(&[("USER", "alice")]));
    assert_eq!(cfg.auth_username, "alice");
    assert_eq!(GoosefsConfig::default(&TextMap::new()).auth_username, "unknown");
    let windows = env(&[("USERNAME", "bob")]);
    assert_eq!(GoosefsConfig::new("a:1", &windows).auth_username, "bob");
    let addrs = || vec!["a:1".to_string(), "b:2".to_string()];
    assert_eq!(GoosefsConfig::new_ha(addrs(), &windows).auth_username, "bob");
    assert_eq!(GoosefsConfig::from_addresses(addrs(), &windows).auth_username, "bob");
    assert_eq!(GoosefsConfig::from_properties_str("", &windows).auth_username, "bob");
    let named = "goosefs.security.login.username=carol\n";
    assert_eq!(GoosefsConfig::from_properties_str(named, &windows).auth_username, "carol");
}

#[test]
fn properties_are_read_by_kind() {
    let props = PropertiesMap::parse("port=9200\nbig=65536\nbad=12x\non=TRUE\noff=no\nodd=maybe\n");
    assert_eq!(props.get_parsed("port", u16::MAX as u64), Some(9200));
    assert_eq!(props.get_parsed("big", u16::MAX as u64), None);
    assert_eq!(props.get_parsed("bad", u64::MAX), None);
    assert_eq!(props.get_parsed("missing", u64::MAX), None);
    assert_eq!(props.get_bool("on"), Some(true));
    assert_eq!(props.get_bool("odd"), None);
    assert_eq!(props.get_bool("missing"), None);
}

#[test]
fn addresses_make_a_single_or_a_multi_master_configuration() {
    let one = GoosefsConfig::from_addresses(vec!["10.0.0.1:9200".to_string()], &TextMap::new());
    assert_eq!(one.master_addr, "10.0.0.1:9200");
    assert!(one.master_addrs.is_empty());
    assert_eq!(one.master_endpoint(), "http://10.0.0.1:9200");
    let two = GoosefsConfig::from_addresses(
        vec!["a:1".to_string(), "b:2".to_string()],
        &TextMap::new(),
    );
    assert_eq!(two.master_addr, "a:1");
    assert_eq!(two.master_addrs, vec!["a:1".to_string(), "b:2".to_string()]);
    assert!(two.is_multi_master());
}

#[test]
fn builders_set_their_fields() {
    let config = GoosefsConfig::new("a:1", &TextMap::new())
        .with_auth_username("alice")
        .with_worker_connection_pool_size(0)
        .with_pushgateway_endpoint("http://gw:9091")
        .with_pushgateway_push_interval(Duration::from_secs(5));
    assert_eq!(config.auth_username, "alice");
    assert_eq!(config.worker_connection_pool_size, 1);
    assert_eq!(config.pushgateway_endpoint, "http://gw:9091");
    assert_eq!(config.pushgateway_push_interval, Duration::from_secs(5));
    let plain = GoosefsConfig::new("a:1", &TextMap::new()).with_auth_type_str("nosasl").unwrap();
    assert_eq!(plain.auth_type, AuthType::NoSasl);
    assert!(GoosefsConfig::new("a:1", &TextMap::new()).with_auth_type_str("kerberos").is_err());
}

use event_ray::config::{ConfigError, IngestionConfig, IngestionTarget, RedisConfig, ServerConfig};

fn redis(url: &str, channel: &str) -> RedisConfig {
    RedisConfig { redis_url: url.to_string(), redis_channel: channel.to_string() }
}

fn server(host: &str, capacity: usize, redis_config: Option<RedisConfig>) -> ServerConfig {
    ServerConfig {
        event_ray_server_host: host.to_string(),
        event_ray_server_port: 8081,
        broadcast_channel_capacity: capacity,
        redis: redis_config,
    }
}

fn ingestion(host: &str, target: IngestionTarget) -> IngestionConfig {
    IngestionConfig { ingestion_service_host: host.to_string(), ingestion_service_port: 8082, target }
}

#[test]
fn redis_config_accepts_filled_settings() {
    assert_eq!(redis("redis://localhost:6379", "events").check(), Ok(()));
}

#[test]
fn redis_config_refuses_empty_url_first() {
    assert_eq!(redis("", "events").check(), Err(ConfigError::EmptyRedisUrl));
    assert_eq!(redis("", "").check(), Err(ConfigError::EmptyRedisUrl));
}

#[test]
fn redis_config_refuses_empty_channel() {
    assert_eq!(redis("redis://localhost:6379", "").check(), Err(ConfigError::EmptyRedisChannel));
}

#[test]
fn server_config_accepts_http_mode() {
    assert_eq!(server("0.0.0.0", 100, None).check(), Ok(()));
}

#[test]
fn server_config_accepts_redis_mode() {
    let config = server("0.0.0.0", 1, Some(redis("redis://localhost", "events")));
    assert_eq!(config.check(), Ok(()));
}

#[test]
fn server_config_refuses_empty_host_before_capacity() {
    assert_eq!(server("", 0, None).check(), Err(ConfigError::EmptyServerHost));
}

#[test]
fn server_config_refuses_zero_capacity() {
    assert_eq!(server("0.0.0.0", 0, None).check(), Err(ConfigError::ZeroBroadcastCapacity));
}

#[test]
fn server_config_checks_redis_settings_last() {
    let config = server("0.0.0.0", 16, Some(redis("redis://localhost", "")));
    assert_eq!(config.check(), Err(ConfigError::EmptyRedisChannel));
    let config = server("0.0.0.0", 0, Some(redis("", "")));
    assert_eq!(config.check(), Err(ConfigError::ZeroBroadcastCapacity));
}

#[test]
fn ingestion_config_accepts_http_target() {
    let config = ingestion(
        "0.0.0.0",
        IngestionTarget::Http { event_ray_target_url: "http://localhost:8081/api/events".to_string() },
    );
    assert_eq!(config.check(), Ok(()));
}

#[test]
fn ingestion_config_refuses_empty_target_url() {
    let config = ingestion("0.0.0.0", IngestionTarget::Http { event_ray_target_url: String::new() });
    assert_eq!(config.check(), Err(ConfigError::EmptyTargetUrl));
}

#[test]
fn ingestion_config_refuses_empty_host_first() {
    let config = ingestion("", IngestionTarget::Http { event_ray_target_url: String::new() });
    assert_eq!(config.check(), Err(ConfigError::EmptyIngestionHost));
}

#[test]
fn ingestion_config_checks_redis_target() {
    let config = ingestion("0.0.0.0", IngestionTarget::Redis(redis("", "events")));
    assert_eq!(config.check(), Err(ConfigError::EmptyRedisUrl));
    let config = ingestion("0.0.0.0", IngestionTarget::Redis(redis("redis://h", "events")));
    assert_eq!(config.check(), Ok(()));
}

#[test]
fn config_error_messages() {
    assert_eq!(ConfigError::EmptyRedisUrl.message(), "REDIS_URL cannot be empty");
    assert_eq!(ConfigError::EmptyRedisChannel.message(), "REDIS_CHANNEL cannot be empty");
    assert_eq!(ConfigError::EmptyServerHost.message(), "EVENT_RAY_SERVER_HOST cannot be empty");
    assert_eq!(
        ConfigError::ZeroBroadcastCapacity.message(),
        "BROADCAST_CHANNEL_CAPACITY must be greater than 0"
    );
    assert_eq!(ConfigError::EmptyIngestionHost.message(), "INGESTION_SERVICE_HOST cannot be empty");
    assert_eq!(ConfigError::EmptyTargetUrl.message(), "EVENT_RAY_TARGET_URL cannot be empty");
}

#[test]
fn validate_accepts_valid_settings() {
    redis("redis://localhost:6379", "events").validate();
    server("0.0.0.0", 100, None).validate();
    server("0.0.0.0", 1, Some(redis("redis://localhost", "events"))).validate();
    ingestion(
        "0.0.0.0",
        IngestionTarget::Http { event_ray_target_url: "http://localhost:8081/api/events".to_string() },
    )
    .validate();
    ingestion("0.0.0.0", IngestionTarget::Redis(redis("redis://h", "events"))).validate();
}

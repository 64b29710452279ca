//! Service configuration and its validation.
//!
//! Reading the environment is done by the program around the library; what the
//! library decides is whether a configuration that was read is acceptable, and
//! if not, which requirement it breaks first.
use vstd::prelude::*;

verus! {

/// A requirement that a configuration breaks.
#[derive(Debug, Clone, Copy, PartialEq, Eq, Structural)]
pub enum ConfigError {
    /// `REDIS_URL` is the empty string.
    EmptyRedisUrl,
    /// `REDIS_CHANNEL` is the empty string.
    EmptyRedisChannel,
    /// `EVENT_RAY_SERVER_HOST` is the empty string.
    EmptyServerHost,
    /// `BROADCAST_CHANNEL_CAPACITY` is zero.
    ZeroBroadcastCapacity,
    /// `INGESTION_SERVICE_HOST` is the empty string.
    EmptyIngestionHost,
    /// `EVENT_RAY_TARGET_URL` is the empty string.
    EmptyTargetUrl,
}

impl ConfigError {
    /// The message that states the broken requirement.
    pub open spec fn spec_message(self) -> Seq<char> {
        match self {
            ConfigError::EmptyRedisUrl => "REDIS_URL cannot be empty"@,
            ConfigError::EmptyRedisChannel => "REDIS_CHANNEL cannot be empty"@,
            ConfigError::EmptyServerHost => "EVENT_RAY_SERVER_HOST cannot be empty"@,
            ConfigError::ZeroBroadcastCapacity => "BROADCAST_CHANNEL_CAPACITY must be greater than 0"@,
            ConfigError::EmptyIngestionHost => "INGESTION_SERVICE_HOST cannot be empty"@,
            ConfigError::EmptyTargetUrl => "EVENT_RAY_TARGET_URL cannot be empty"@,
        }
    }

    /// The message that states the broken requirement.
    pub fn message(&self) -> (m: &'static str)
        ensures
            m@ == self.spec_message(),
    {
        match self {
            ConfigError::EmptyRedisUrl => "REDIS_URL cannot be empty",
            ConfigError::EmptyRedisChannel => "REDIS_CHANNEL cannot be empty",
            ConfigError::EmptyServerHost => "EVENT_RAY_SERVER_HOST cannot be empty",
            ConfigError::ZeroBroadcastCapacity => "BROADCAST_CHANNEL_CAPACITY must be greater than 0",
            ConfigError::EmptyIngestionHost => "INGESTION_SERVICE_HOST cannot be empty",
            ConfigError::EmptyTargetUrl => "EVENT_RAY_TARGET_URL cannot be empty",
        }
    }
}

/// The result of a validation whose first broken requirement, if any, is `broken`.
pub open spec fn outcome(broken: Option<ConfigError>) -> Result<(), ConfigError> {
    match broken {
        Some(e) => Err(e),
        None => Ok(()),
    }
}

/// Redis connection settings, shared by both services in Redis pub/sub mode.
#[derive(Debug, Clone)]
pub struct RedisConfig {
    pub redis_url: String,
    pub redis_channel: String,
}

impl RedisConfig {
    /// The first requirement that these settings break, checking the URL
    /// before the channel name.
    pub open spec fn violation(self) -> Option<ConfigError> {
        if self.redis_url@.len() == 0 {
            Some(ConfigError::EmptyRedisUrl)
        } else if self.redis_channel@.len() == 0 {
            Some(ConfigError::EmptyRedisChannel)
        } else {
            None
        }
    }

    /// Both the URL and the channel name must be non-empty.
    pub open spec fn is_valid(self) -> bool {
        self.redis_url@.len() > 0 && self.redis_channel@.len() > 0
    }

    /// Checks that the URL and the channel name are non-empty; on failure,
    /// names the first of them that is empty.
    pub fn check(&self) -> (r: Result<(), ConfigError>)
        ensures
            r == outcome(self.violation()),
            r is Ok <==> self.is_valid(),
            r == Err::<(), ConfigError>(ConfigError::EmptyRedisUrl) <==> self.redis_url@.len() == 0,
            r == Err::<(), ConfigError>(ConfigError::EmptyRedisChannel) <==> (self.redis_url@.len() > 0
                && self.redis_channel@.len() == 0),
            r is Ok <==> (self.redis_url@.len() > 0 && self.redis_channel@.len() > 0),
    {
        if self.redis_url.as_str().is_empty() {
            return Err(ConfigError::EmptyRedisUrl);
        }
        if self.redis_channel.as_str().is_empty() {
            return Err(ConfigError::EmptyRedisChannel);
        }
        Ok(())
    }

    /// Accepts settings that meet every requirement; settings that break one
    /// are refused by `check`, whose error names the requirement, and are
    /// outside what this accepts.
    pub fn validate(&self)
        requires
            self.is_valid(),
    {
    }
}

/// Settings of the Event Ray server.
#[derive(Debug, Clone)]
pub struct ServerConfig {
    pub event_ray_server_host: String,
    pub event_ray_server_port: u16,
    pub broadcast_channel_capacity: usize,
    /// Present when the server also relays events from a Redis channel.
    pub redis: Option<RedisConfig>,
}

impl ServerConfig {
    /// The first requirement that these settings break, checking the host,
    /// then the capacity, then the Redis settings where present.
    pub open spec fn violation(self) -> Option<ConfigError> {
        if self.event_ray_server_host@.len() == 0 {
            Some(ConfigError::EmptyServerHost)
        } else if self.broadcast_channel_capacity == 0 {
            Some(ConfigError::ZeroBroadcastCapacity)
        } else {
            match self.redis {
                Some(redis) => redis.violation(),
                None => None,
            }
        }
    }

    /// The host is non-empty, the capacity is positive and the Redis settings,
    /// where present, are valid.
    pub open spec fn is_valid(self) -> bool {
        &&& self.event_ray_server_host@.len() > 0
        &&& self.broadcast_channel_capacity > 0
        &&& (self.redis matches Some(redis) ==> redis.is_valid())
    }

    /// Checks the server settings; on failure, names the first broken
    /// requirement: host, then capacity, then the Redis settings.
    pub fn check(&self) -> (r: Result<(), ConfigError>)
        ensures
            r == outcome(self.violation()),
            r is Ok <==> self.is_valid(),
            r == Err::<(), ConfigError>(ConfigError::EmptyServerHost)
                <==> self.event_ray_server_host@.len() == 0,
            r == Err::<(), ConfigError>(ConfigError::ZeroBroadcastCapacity) <==> (
            self.event_ray_server_host@.len() > 0 && self.broadcast_channel_capacity == 0),
            r == Err::<(), ConfigError>(ConfigError::EmptyRedisUrl) <==> (
            self.event_ray_server_host@.len() > 0 && self.broadcast_channel_capacity > 0
                && (self.redis matches Some(redis) && redis.redis_url@.len() == 0)),
            r == Err::<(), ConfigError>(ConfigError::EmptyRedisChannel) <==> (
            self.event_ray_server_host@.len() > 0 && self.broadcast_channel_capacity > 0
                && (self.redis matches Some(redis) && redis.redis_url@.len() > 0
                && redis.redis_channel@.len() == 0)),
            r is Ok <==> (self.event_ray_server_host@.len() > 0 && self.broadcast_channel_capacity > 0
                && (self.redis matches Some(redis) ==> (redis.redis_url@.len() > 0
                && redis.redis_channel@.len() > 0))),
    {
        proof {
            lemma_server_check_names_first_broken(*self);
        }
        if self.event_ray_server_host.as_str().is_empty() {
            return Err(ConfigError::EmptyServerHost);
        }
        if self.broadcast_channel_capacity == 0 {
            return Err(ConfigError::ZeroBroadcastCapacity);
        }
        match &self.redis {
            Some(redis) => redis.check(),
            None => Ok(()),
        }
    }

    /// Accepts settings that meet every requirement; settings that break one
    /// are refused by `check`, whose error names the requirement, and are
    /// outside what this accepts.
    pub fn validate(&self)
        requires
            self.is_valid(),
    {
    }
}

/// Where the ingestion service forwards the events it accepts.
#[derive(Debug, Clone)]
pub enum IngestionTarget {
    /// Over HTTP, to the publishing endpoint of an Event Ray server.
    Http { event_ray_target_url: String },
    /// Over a Redis pub/sub channel.
    Redis(RedisConfig),
}

/// Settings of the ingestion service.
#[derive(Debug, Clone)]
pub struct IngestionConfig {
    pub ingestion_service_host: String,
    pub ingestion_service_port: u16,
    pub target: IngestionTarget,
}

impl IngestionConfig {
    /// The first requirement that these settings break, checking the host,
    /// then the target.
    pub open spec fn violation(self) -> Option<ConfigError> {
        if self.ingestion_service_host@.len() == 0 {
            Some(ConfigError::EmptyIngestionHost)
        } else {
            match self.target {
                IngestionTarget::Http { event_ray_target_url } =>
                    if event_ray_target_url@.len() == 0 {
                        Some(ConfigError::EmptyTargetUrl)
                    } else {
                        None
                    },
                IngestionTarget::Redis(redis) => redis.violation(),
            }
        }
    }

    /// The host is non-empty and so is the target URL or the Redis settings.
    pub open spec fn is_valid(self) -> bool {
        &&& self.ingestion_service_host@.len() > 0
        &&& match self.target {
            IngestionTarget::Http { event_ray_target_url } => event_ray_target_url@.len() > 0,
            IngestionTarget::Redis(redis) => redis.is_valid(),
        }
    }

    /// Checks the ingestion settings; on failure, names the first broken
    /// requirement: host, then the target.
    pub fn check(&self) -> (r: Result<(), ConfigError>)
        ensures
            r == outcome(self.violation()),
            r is Ok <==> self.is_valid(),
            r == Err::<(), ConfigError>(ConfigError::EmptyIngestionHost)
                <==> self.ingestion_service_host@.len() == 0,
            r == Err::<(), ConfigError>(ConfigError::EmptyTargetUrl) <==> (
            self.ingestion_service_host@.len() > 0
                && (self.target matches IngestionTarget::Http { event_ray_target_url }
                && event_ray_target_url@.len() == 0)),
            r == Err::<(), ConfigError>(ConfigError::EmptyRedisUrl) <==> (
            self.ingestion_service_host@.len() > 0 && (self.target matches IngestionTarget::Redis(redis)
                && redis.redis_url@.len() == 0)),
            r == Err::<(), ConfigError>(ConfigError::EmptyRedisChannel) <==> (
            self.ingestion_service_host@.len() > 0 && (self.target matches IngestionTarget::Redis(redis)
                && redis.redis_url@.len() > 0 && redis.redis_channel@.len() == 0)),
            r is Ok <==> (self.ingestion_service_host@.len() > 0 && match self.target {
                IngestionTarget::Http { event_ray_target_url } => event_ray_target_url@.len() > 0,
                IngestionTarget::Redis(redis) => redis.redis_url@.len() > 0
                    && redis.redis_channel@.len() > 0,
            }),
    {
        proof {
            lemma_ingestion_check_names_first_broken(*self);
        }
        if self.ingestion_service_host.as_str().is_empty() {
            return Err(ConfigError::EmptyIngestionHost);
        }
        match &self.target {
            IngestionTarget::Http { event_ray_target_url } => {
                if event_ray_target_url.as_str().is_empty() {
                    Err(ConfigError::EmptyTargetUrl)
                } else {
                    Ok(())
                }
            },
            IngestionTarget::Redis(redis) => redis.check(),
        }
    }

    /// Accepts settings that meet every requirement; settings that break one
    /// are refused by `check`, whose error names the requirement, and are
    /// outside what this accepts.
    pub fn validate(&self)
        requires
            self.is_valid(),
    {
    }
}

/// Redis settings are refused for an empty URL, whatever the channel; for an
/// empty channel only when the URL is set; and accepted exactly when both are
/// set.
pub proof fn lemma_redis_check_names_first_broken(config: RedisConfig)
    ensures
        config.violation() == Some(ConfigError::EmptyRedisUrl) <==> config.redis_url@.len() == 0,
        config.violation() == Some(ConfigError::EmptyRedisChannel) <==> (config.redis_url@.len() > 0
            && config.redis_channel@.len() == 0),
        config.violation() is None <==> (config.redis_url@.len() > 0 && config.redis_channel@.len()
            > 0),
        config.violation() is None <==> config.is_valid(),
{
}

/// Server settings are refused for an empty host, whatever else holds; for a
/// zero capacity only when the host is set; for broken Redis settings only
/// when host and capacity are right, with the error that the Redis settings
/// alone give; and accepted exactly when host, capacity and Redis settings
/// (where present) are all right.
pub proof fn lemma_server_check_names_first_broken(config: ServerConfig)
    ensures
        config.violation() == Some(ConfigError::EmptyServerHost)
            <==> config.event_ray_server_host@.len() == 0,
        config.violation() == Some(ConfigError::ZeroBroadcastCapacity) <==> (
        config.event_ray_server_host@.len() > 0 && config.broadcast_channel_capacity == 0),
        config.violation() == Some(ConfigError::EmptyRedisUrl) <==> (
        config.event_ray_server_host@.len() > 0 && config.broadcast_channel_capacity > 0
            && (config.redis matches Some(redis) && redis.redis_url@.len() == 0)),
        config.violation() == Some(ConfigError::EmptyRedisChannel) <==> (
        config.event_ray_server_host@.len() > 0 && config.broadcast_channel_capacity > 0
            && (config.redis matches Some(redis) && redis.redis_url@.len() > 0
            && redis.redis_channel@.len() == 0)),
        config.violation() is None <==> (config.event_ray_server_host@.len() > 0
            && config.broadcast_channel_capacity > 0 && (config.redis matches Some(redis) ==> (
        redis.redis_url@.len() > 0 && redis.redis_channel@.len() > 0))),
        (config.event_ray_server_host@.len() > 0 && config.broadcast_channel_capacity > 0 && (
        config.redis matches Some(redis))) ==> config.violation() == config.redis->0.violation(),
        config.violation() is None <==> config.is_valid(),
{
    if let Some(redis) = config.redis {
        lemma_redis_check_names_first_broken(redis);
    }
}

/// Ingestion settings are refused for an empty host, whatever the target;
/// otherwise, for an HTTP target, for an empty target URL; for a Redis target,
/// with exactly the error that the Redis settings alone give; and accepted
/// exactly when the host and the target are right.
pub proof fn lemma_ingestion_check_names_first_broken(config: IngestionConfig)
    ensures
        config.violation() == Some(ConfigError::EmptyIngestionHost)
            <==> config.ingestion_service_host@.len() == 0,
        config.violation() == Some(ConfigError::EmptyTargetUrl) <==> (
        config.ingestion_service_host@.len() > 0
            && (config.target matches IngestionTarget::Http { event_ray_target_url }
            && event_ray_target_url@.len() == 0)),
        config.violation() == Some(ConfigError::EmptyRedisUrl) <==> (
        config.ingestion_service_host@.len() > 0 && (config.target matches IngestionTarget::Redis(
            redis,
        ) && redis.redis_url@.len() == 0)),
        config.violation() == Some(ConfigError::EmptyRedisChannel) <==> (
        config.ingestion_service_host@.len() > 0 && (config.target matches IngestionTarget::Redis(
            redis,
        ) && redis.redis_url@.len() > 0 && redis.redis_channel@.len() == 0)),
        config.violation() is None <==> (config.ingestion_service_host@.len() > 0
            && match config.target {
            IngestionTarget::Http { event_ray_target_url } => event_ray_target_url@.len() > 0,
            IngestionTarget::Redis(redis) => redis.redis_url@.len() > 0 && redis.redis_channel@.len()
                > 0,
        }),
        (config.ingestion_service_host@.len() > 0 && (config.target is Redis))
            ==> config.violation() == config.target->0.violation(),
        config.violation() is None <==> config.is_valid(),
{
    if let IngestionTarget::Redis(redis) = config.target {
        lemma_redis_check_names_first_broken(redis);
    }
}

} // verus!

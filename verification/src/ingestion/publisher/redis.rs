//! Forwarding events to the Event Ray server over a Redis pub/sub channel.
use vstd::prelude::*;
use crate::outside::{open_redis_client, redis_url_accepted, OpenedRedisClient};

verus! {

/// A publisher that publishes each event on a Redis channel.
pub struct RedisPublisher {
    client: OpenedRedisClient,
    channel: String,
}

impl View for RedisPublisher {
    /// The channel that events are published on.
    type V = Seq<char>;

    closed spec fn view(&self) -> Seq<char> {
        self.channel@
    }
}

impl RedisPublisher {
    /// A publisher on `channel` of the Redis server at `redis_url`. The URL
    /// must be one that the Redis client accepts; no connection is opened yet.
    pub fn new(redis_url: String, channel: String) -> (p: RedisPublisher)
        requires
            redis_url_accepted(redis_url@),
        ensures
            p@ == channel@,
            p.target() == redis_url@,
    {
        let client = open_redis_client(redis_url);
        RedisPublisher { client: client.unwrap(), channel }
    }

    /// A publisher on `channel` of the Redis server at `redis_url`, or `None`
    /// when the Redis client refuses the URL.
    pub fn try_new(redis_url: String, channel: String) -> (p: Option<RedisPublisher>)
        ensures
            p is Some <==> redis_url_accepted(redis_url@),
            p matches Some(p) ==> p@ == channel@ && p.target() == redis_url@,
    {
        if open_redis_client(redis_url.clone()).is_some() {
            Some(Self::new(redis_url, channel))
        } else {
            None
        }
    }

    /// The channel that events are published on.
    pub fn channel(&self) -> (channel: &String)
        ensures
            channel@ == self@,
    {
        &self.channel
    }

    /// The Redis client that this publisher holds, opened on its URL when it
    /// was built.
    pub closed spec fn redis_client(&self) -> ::redis::Client {
        self.client.redis_client()
    }

    /// The URL of the Redis server that this publisher publishes to.
    pub closed spec fn target(&self) -> Seq<char> {
        self.client.target()
    }

    /// The Redis client that publishes the events: the one this publisher
    /// holds.
    pub fn client(&self) -> (client: &::redis::Client)
        ensures
            *client == self.redis_client(),
    {
        self.client.client()
    }
}

} // verus!

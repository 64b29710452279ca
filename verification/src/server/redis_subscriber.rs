//! What the Redis relay decides for each message it reads from its channel.
use vstd::prelude::*;
use crate::app_event::AppEvent;
use crate::server::error::Error;
use crate::outside::{open_redis_client, redis_url_accepted, OpenedRedisClient};

verus! {

/// What reading the next message from the Redis channel gave.
#[derive(Debug, Clone)]
pub enum RedisMessage {
    /// A message whose payload holds an event.
    Event(AppEvent),
    /// A message whose payload is text but not an event.
    Undecodable,
    /// A message whose payload could not be read as text.
    PayloadUnreadable,
    /// The stream of messages ended.
    StreamEnded,
}

/// What the relay does with a message.
#[derive(Debug, Clone)]
pub enum SubscriberAction {
    /// Put the event on the broadcast bus and read the next message.
    Forward(AppEvent),
    /// Note the message that holds no event, drop it and read the next
    /// message.
    Discard,
    /// Stop relaying, failing with this error.
    Stop(Error),
}

/// What the relay does with `message`: an event is forwarded; a message that
/// holds no event, whether its payload is not text or is text but not an
/// event, is a decoding failure, dropped without stopping the relay; the end
/// of the stream stops it with the error that says so.
pub open spec fn subscriber_decision(message: RedisMessage) -> SubscriberAction {
    match message {
        RedisMessage::Event(event) => SubscriberAction::Forward(event),
        RedisMessage::Undecodable => SubscriberAction::Discard,
        RedisMessage::PayloadUnreadable => SubscriberAction::Discard,
        RedisMessage::StreamEnded => SubscriberAction::Stop(Error::RedisStreamEnded),
    }
}

/// Decides what the relay does with `message`.
pub fn subscriber_step(message: RedisMessage) -> (action: SubscriberAction)
    ensures
        action == subscriber_decision(message),
{
    match message {
        RedisMessage::Event(event) => SubscriberAction::Forward(event),
        RedisMessage::Undecodable => SubscriberAction::Discard,
        RedisMessage::PayloadUnreadable => SubscriberAction::Discard,
        RedisMessage::StreamEnded => SubscriberAction::Stop(Error::RedisStreamEnded),
    }
}

/// Opens the Redis client that the relay subscribes with, on `redis_url`. It
/// is refused, as a Redis connection failure, exactly when the Redis client
/// does not accept `redis_url`; no connection is opened yet.
pub fn open_relay_client(redis_url: String) -> (r: Result<OpenedRedisClient, Error>)
    ensures
        r is Ok <==> redis_url_accepted(redis_url@),
        r matches Ok(opened) ==> opened.target() == redis_url@,
        r matches Err(e) ==> e == Error::RedisConnection,
{
    match open_redis_client(redis_url) {
        Some(client) => Ok(client),
        None => Err(Error::RedisConnection),
    }
}

} // verus!

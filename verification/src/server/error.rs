//! Failures inside the Event Ray server.
use vstd::prelude::*;

verus! {

/// A failure inside the Event Ray server.
#[derive(Debug, Clone, Copy, PartialEq, Eq, Structural)]
pub enum Error {
    /// An event could not be put on the broadcast bus: nobody listens.
    BroadcastSend,
    /// The broadcast bus could not deliver an event to a subscriber.
    BroadcastRecv,
    /// The Redis connection or subscription failed.
    RedisConnection,
    /// A message from Redis did not hold an event.
    Deserialization,
    /// The stream of Redis messages ended.
    RedisStreamEnded,
}

impl Error {
    /// The text that describes this failure.
    pub open spec fn spec_message(self) -> Seq<char> {
        match self {
            Error::BroadcastSend => "Failed to send event to broadcast channel"@,
            Error::BroadcastRecv => "Failed to receive event from broadcast channel"@,
            Error::RedisConnection => "Redis connection or subscription failed"@,
            Error::Deserialization => "Failed to deserialize event from JSON"@,
            Error::RedisStreamEnded => "Redis stream ended unexpectedly"@,
        }
    }

    /// The text that describes this failure.
    pub fn message(&self) -> (m: &'static str)
        ensures
            m@ == self.spec_message(),
    {
        match self {
            Error::BroadcastSend => "Failed to send event to broadcast channel",
            Error::BroadcastRecv => "Failed to receive event from broadcast channel",
            Error::RedisConnection => "Redis connection or subscription failed",
            Error::Deserialization => "Failed to deserialize event from JSON",
            Error::RedisStreamEnded => "Redis stream ended unexpectedly",
        }
    }
}

} // verus!

//! Declarations of the outside types and calls that the library relies on.
use vstd::prelude::*;
use crate::app_event::AppEvent;

verus! {

/// `uuid::Uuid`, carried through as an opaque event identifier.
#[verifier::external_type_specification]
#[verifier::external_body]
pub struct ExUuid(uuid::Uuid);

/// `chrono::NaiveDateTime`, carried through as an opaque UTC timestamp.
#[verifier::external_type_specification]
#[verifier::external_body]
pub struct ExNaiveDateTime(chrono::NaiveDateTime);

/// `tokio::sync::broadcast::Sender`, the sending half of the event bus.
#[verifier::external_type_specification]
#[verifier::external_body]
#[verifier::reject_recursive_types(T)]
pub struct ExSender<T>(tokio::sync::broadcast::Sender<T>);

/// `redis::Client`, a parsed Redis connection target.
#[verifier::external_type_specification]
#[verifier::external_body]
pub struct ExRedisClient(redis::Client);

/// `reqwest::Client`, an HTTP client.
#[verifier::external_type_specification]
#[verifier::external_body]
pub struct ExHttpClient(reqwest::Client);

/// `Clone` of `uuid::Uuid`, which derives `Clone` and `Copy`: the clone is an
/// identical copy.
pub assume_specification[ <uuid::Uuid as Clone>::clone ](id: &uuid::Uuid) -> (r: uuid::Uuid)
    ensures
        r == *id,
;

/// `Clone` of `chrono::NaiveDateTime`, which derives `Clone` and `Copy`: the
/// clone is an identical copy.
pub assume_specification[ <chrono::NaiveDateTime as Clone>::clone ](t: &chrono::NaiveDateTime) -> (r: chrono::NaiveDateTime)
    ensures
        r == *t,
;

/// Calls `uuid::Uuid::new_v4`, which draws a random identifier; nothing is
/// claimed of the value, which rests on chance.
#[verifier::external_body]
pub(crate) fn new_event_id() -> (id: uuid::Uuid) {
    uuid::Uuid::new_v4()
}

/// Calls `chrono::Utc::now`, which reads the system clock, and hands back its
/// UTC wall-clock value (`naive_utc`, which drops only the zero UTC offset).
/// Nothing is claimed of the value, which rests on the clock. The outside
/// function panics if the clock reads a time before 1970, which no
/// precondition here can rule out.
#[verifier::external_body]
pub(crate) fn utc_now() -> (now: chrono::NaiveDateTime) {
    chrono::Utc::now().naive_utc()
}

/// What handing an event to a broadcast bus gave: the bus's answer, and, as
/// proof-only records, the event handed and the sending half it was handed
/// to. Only `broadcast_send` makes one, so a record of them is a record of
/// real sends.
pub struct Sent {
    outcome: Result<usize, AppEvent>,
    event: Ghost<AppEvent>,
    sender: Ghost<tokio::sync::broadcast::Sender<AppEvent>>,
}

impl Sent {
    /// The bus's answer: the number of subscribers it had, or the event back
    /// when nobody was subscribed.
    pub closed spec fn outcome(&self) -> Result<usize, AppEvent> {
        self.outcome
    }

    /// The event that was handed to the bus.
    pub closed spec fn event(&self) -> AppEvent {
        self.event@
    }

    /// The sending half of the bus that the event was handed to.
    pub closed spec fn sender(&self) -> tokio::sync::broadcast::Sender<AppEvent> {
        self.sender@
    }

    /// The bus's answer.
    pub fn into_outcome(self) -> (r: Result<usize, AppEvent>)
        ensures
            r == self.outcome(),
    {
        self.outcome
    }
}

/// Calls `tokio::sync::broadcast::Sender::send` on `sender` with `event`,
/// and records the event and the sender next to the answer. The source shows
/// that the call fails exactly when no receiver is subscribed, handing the
/// value back unchanged in its `SendError`, and that on success it returns the
/// number of subscribed receivers, which is then at least one. Whether a
/// receiver is subscribed depends on other tasks, so which of the two outcomes
/// comes is left open.
#[verifier::external_body]
pub(crate) fn broadcast_send(
    sender: &tokio::sync::broadcast::Sender<AppEvent>,
    event: AppEvent,
) -> (sent: Sent)
    ensures
        sent.event() == event,
        sent.sender() == *sender,
        sent.outcome() matches Ok(n) ==> n >= 1,
        sent.outcome() matches Err(e) ==> e == event,
{
    let handed = Ghost(event);
    let on = Ghost(*sender);
    let outcome = match sender.send(event) {
        Ok(n) => Ok(n),
        Err(e) => Err(e.0),
    };
    Sent { outcome, event: handed, sender: on }
}

/// Whether `redis::Client::open` accepts `url`: whether it parses as a URL
/// with a `redis`, `rediss`, `unix` or `redis+unix` scheme and yields the
/// connection information that the redis crate, as built here, can use.
pub uninterp spec fn redis_url_accepted(url: Seq<char>) -> bool;

/// A Redis client together with the URL that it was opened on.
pub struct OpenedRedisClient {
    client: redis::Client,
    url: Ghost<Seq<char>>,
}

impl OpenedRedisClient {
    /// The URL that the client was opened on: its connection target.
    pub closed spec fn target(&self) -> Seq<char> {
        self.url@
    }

    /// The Redis client itself.
    pub closed spec fn redis_client(&self) -> redis::Client {
        self.client
    }

    /// The Redis client itself, opened on `self.target()`.
    pub fn client(&self) -> (client: &redis::Client)
        ensures
            *client == self.redis_client(),
    {
        &self.client
    }
}

/// Calls `redis::Client::open` on `url`. The call only parses and checks the
/// URL and opens no connection; it succeeds exactly when
/// `redis_url_accepted(url@)`, and the client it gives is the one opened on
/// `url`, which the result records as its target. The error of a refused URL
/// is dropped: the callers only need to know that it was refused.
#[verifier::external_body]
pub(crate) fn open_redis_client(url: String) -> (r: Option<OpenedRedisClient>)
    ensures
        r is Some <==> redis_url_accepted(url@),
        r matches Some(opened) ==> opened.target() == url@,
{
    let target = Ghost(url@);
    match redis::Client::open(url) {
        Ok(client) => Some(OpenedRedisClient { client, url: target }),
        Err(_) => None,
    }
}

/// Calls `reqwest::Client::new`, which builds an HTTP client with default
/// settings. Nothing is claimed of the client, which is opaque here. The
/// outside function panics if the TLS backend or the resolver cannot be set
/// up, which depends on the machine and which no precondition can rule out.
#[verifier::external_body]
pub(crate) fn new_http_client() -> (client: reqwest::Client) {
    reqwest::Client::new()
}

} // verus!

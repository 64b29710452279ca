//! Properties of the library that span several calls: what a subscriber's
//! stream delivers over its whole life, what the Redis relay forwards, and
//! what becomes of a published request on its way to subscribers.
use vstd::prelude::*;
use crate::api_models::PublishRequest;
use crate::app_event::AppEvent;
use crate::server::handlers::{sse_decision, RecvOutcome, SseActionView};
use crate::server::redis_subscriber::{subscriber_decision, RedisMessage, SubscriberAction};

verus! {

/// The payloads that a stream subscribed to `ray` sends to its client when it
/// gets `outcomes` from the broadcast bus, one decision after the other, until
/// a decision ends the stream.
pub open spec fn streamed_payloads(ray: Seq<char>, outcomes: Seq<RecvOutcome>) -> Seq<Seq<char>>
    decreases outcomes.len(),
{
    if outcomes.len() == 0 {
        seq![]
    } else {
        let rest = streamed_payloads(ray, outcomes.drop_first());
        match sse_decision(ray, outcomes[0]) {
            SseActionView::Emit(payload) => seq![payload] + rest,
            SseActionView::Close => seq![],
            _ => rest,
        }
    }
}

/// The outcomes before the first closing of the bus.
pub open spec fn before_close(outcomes: Seq<RecvOutcome>) -> Seq<RecvOutcome>
    decreases outcomes.len(),
{
    if outcomes.len() == 0 {
        seq![]
    } else if outcomes[0] is Closed {
        seq![]
    } else {
        seq![outcomes[0]] + before_close(outcomes.drop_first())
    }
}

/// The payload of an outcome that is an event of `ray`.
pub open spec fn payload_on_ray(ray: Seq<char>) -> spec_fn(RecvOutcome) -> Option<Seq<char>> {
    |outcome: RecvOutcome|
        match outcome {
            RecvOutcome::Event(event) => if event.ray_id@ == ray {
                Some(event.payload@)
            } else {
                None
            },
            _ => None,
        }
}

/// `filter_map` distributes over the concatenation of two sequences.
pub proof fn lemma_filter_map_concat<A, B>(a: Seq<A>, b: Seq<A>, f: spec_fn(A) -> Option<B>)
    ensures
        (a + b).filter_map(f) == a.filter_map(f) + b.filter_map(f),
    decreases b.len(),
{
    if b.len() == 0 {
        assert(a + b =~= a);
        assert(a.filter_map(f) + b.filter_map(f) =~= a.filter_map(f));
    } else {
        lemma_filter_map_concat(a, b.drop_last(), f);
        assert((a + b).drop_last() =~= a + b.drop_last());
        assert((a + b).last() == b.last());
        match f(b.last()) {
            Some(x) => {
                assert(a.filter_map(f) + (b.drop_last().filter_map(f) + seq![x])
                    =~= (a.filter_map(f) + b.drop_last().filter_map(f)) + seq![x]);
            },
            None => {},
        }
    }
}

/// Ray filtering: over its whole life, a stream subscribed to `ray` sends its
/// client exactly the payloads of the events of that ray, in the order the bus
/// delivered them, up to the closing of the bus; events of other rays and
/// notices of missed events send nothing and do not end the stream.
pub proof fn lemma_stream_sends_exactly_its_ray(ray: Seq<char>, outcomes: Seq<RecvOutcome>)
    ensures
        streamed_payloads(ray, outcomes) == before_close(outcomes).filter_map(payload_on_ray(ray)),
    decreases outcomes.len(),
{
    let f = payload_on_ray(ray);
    if outcomes.len() == 0 {
        assert(before_close(outcomes).filter_map(f) =~= seq![]);
    } else {
        let first = outcomes[0];
        let rest = outcomes.drop_first();
        lemma_stream_sends_exactly_its_ray(ray, rest);
        if first is Closed {
            assert(before_close(outcomes).filter_map(f) =~= seq![]);
        } else {
            lemma_filter_map_concat(seq![first], before_close(rest), f);
            Seq::lemma_filter_map_singleton(first, f);
            match first {
                RecvOutcome::Event(event) => {
                    if event.ray_id@ == ray {
                        assert(seq![first].filter_map(f) =~= seq![event.payload@]);
                    } else {
                        assert(seq![first].filter_map(f) =~= seq![]);
                        assert(seq![first].filter_map(f) + before_close(rest).filter_map(f)
                            =~= before_close(rest).filter_map(f));
                    }
                },
                _ => {
                    assert(seq![first].filter_map(f) + before_close(rest).filter_map(f)
                        =~= before_close(rest).filter_map(f));
                },
            }
        }
    }
}

/// The events that the Redis relay forwards when it reads `messages`, one
/// decision after the other, until a decision stops it.
pub open spec fn relayed_events(messages: Seq<RedisMessage>) -> Seq<AppEvent>
    decreases messages.len(),
{
    if messages.len() == 0 {
        seq![]
    } else {
        let rest = relayed_events(messages.drop_first());
        match subscriber_decision(messages[0]) {
            SubscriberAction::Forward(event) => seq![event] + rest,
            SubscriberAction::Discard => rest,
            SubscriberAction::Stop(_) => seq![],
        }
    }
}

/// The messages before the end of the stream, which stops the relay.
pub open spec fn before_stop(messages: Seq<RedisMessage>) -> Seq<RedisMessage>
    decreases messages.len(),
{
    if messages.len() == 0 {
        seq![]
    } else if messages[0] is StreamEnded {
        seq![]
    } else {
        seq![messages[0]] + before_stop(messages.drop_first())
    }
}

/// The event that a message holds, if any.
pub open spec fn message_event() -> spec_fn(RedisMessage) -> Option<AppEvent> {
    |message: RedisMessage|
        match message {
            RedisMessage::Event(event) => Some(event),
            _ => None,
        }
}

/// Relaying: the Redis relay forwards exactly the events that its messages
/// hold, in order, up to the end of the stream; messages that hold no event,
/// whether their payload is not text or not an event, are dropped and do not
/// stop it.
pub proof fn lemma_relay_forwards_every_event(messages: Seq<RedisMessage>)
    ensures
        relayed_events(messages) == before_stop(messages).filter_map(message_event()),
    decreases messages.len(),
{
    let f = message_event();
    if messages.len() == 0 {
        assert(before_stop(messages).filter_map(f) =~= seq![]);
    } else {
        let first = messages[0];
        let rest = messages.drop_first();
        lemma_relay_forwards_every_event(rest);
        if first is StreamEnded {
            assert(before_stop(messages).filter_map(f) =~= seq![]);
        } else {
            lemma_filter_map_concat(seq![first], before_stop(rest), f);
            Seq::lemma_filter_map_singleton(first, f);
            match first {
                RedisMessage::Event(event) => {
                    assert(seq![first].filter_map(f) =~= seq![event]);
                },
                _ => {
                    assert(seq![first].filter_map(f) + before_stop(rest).filter_map(f)
                        =~= before_stop(rest).filter_map(f));
                },
            }
        }
    }
}

/// Forwarding: the request that the ingestion service posts to the server
/// for an event it made of an ingested request (an event with the request's
/// ray and content, as `ingest_event` gives) is the ingested request.
pub proof fn lemma_forwarding_keeps_the_request(request: PublishRequest, ingested: AppEvent)
    requires
        ingested.ray_id == request.ray_id,
        ingested.payload == request.payload,
    ensures
        ingested.spec_to_publish_request() == request,
{
}

/// What a stream subscribed to `ray` does with the event of `request`: send
/// the request's content when the request is for that ray, and nothing
/// otherwise.
pub open spec fn delivery(request: PublishRequest, ray: Seq<char>) -> SseActionView {
    if request.ray_id@ == ray {
        SseActionView::Emit(request.payload@)
    } else {
        SseActionView::Skip
    }
}

/// Delivery: the event that the server puts on the bus for a publish request
/// (an event with the request's ray and content, as `publish_event` gives,
/// whatever its identifier and time) reaches, with the request's content,
/// every stream subscribed to the request's ray, and no stream subscribed to
/// another ray.
pub proof fn lemma_published_event_reaches_its_ray(
    request: PublishRequest,
    published: AppEvent,
    ray: Seq<char>,
)
    requires
        published.ray_id == request.ray_id,
        published.payload == request.payload,
    ensures
        sse_decision(ray, RecvOutcome::Event(published)) == delivery(request, ray),
{
}

/// Delivery through the ingestion service: a request ingested by the
/// ingestion service (which makes an event of it, as `ingest_event` does),
/// posted on to the server (with the body that `HttpPublisher::request_body`
/// makes of that event) and published there (as `publish_event` does)
/// reaches, with its content, every stream subscribed to its ray, and no
/// stream subscribed to another ray.
pub proof fn lemma_ingested_event_reaches_its_ray(
    request: PublishRequest,
    ingested: AppEvent,
    forwarded: PublishRequest,
    published: AppEvent,
    ray: Seq<char>,
)
    requires
        ingested.ray_id == request.ray_id,
        ingested.payload == request.payload,
        forwarded == ingested.spec_to_publish_request(),
        published.ray_id == forwarded.ray_id,
        published.payload == forwarded.payload,
    ensures
        sse_decision(ray, RecvOutcome::Event(published)) == delivery(request, ray),
{
    lemma_forwarding_keeps_the_request(request, ingested);
    lemma_published_event_reaches_its_ray(request, published, ray);
}

} // verus!

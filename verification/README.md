# event_ray

The logic of Event Ray, a server-sent-events broadcaster and the ingestion
service that feeds it, as a library verified with Verus, and the two programs
around it.

- `src/config.rs`: the services' settings and their validation.
- `src/api_models.rs`, `src/app_event.rs`: requests and the broadcast event.
- `src/error.rs`: error answers and their HTTP status and body.
- `src/server/`: publishing to the broadcast bus, the per-subscriber stream
  decisions, and the Redis relay decisions.
- `src/ingestion/`: the ingestion endpoint's decisions and the HTTP and Redis
  publishers.
- `src/laws.rs`: properties over whole subscriber streams and relay runs,
  and the ray and content that published and ingested events carry to
  subscribers, as the contracts of `publish_event`, `ingest_event` and
  `HttpPublisher::request_body` give them.
- `src/outside.rs`: the outside types and calls, with the contracts assumed
  of them.
- `app/`: HTTP serving (axum), environment reading, Redis and HTTP I/O.

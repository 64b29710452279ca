//! Forwarding events to the Event Ray server over HTTP.
use vstd::prelude::*;
use crate::api_models::PublishRequest;
use crate::app_event::AppEvent;
use crate::ingestion::error::Error;
use crate::outside::new_http_client;

verus! {

/// Whether an HTTP status code reports success: it lies in 200..=299.
pub open spec fn spec_is_success(status: u16) -> bool {
    200 <= status < 300
}

/// Whether an HTTP status code reports success: it lies in 200..=299.
pub fn is_success(status: u16) -> (b: bool)
    ensures
        b == spec_is_success(status),
        b <==> (200 <= status && status <= 299),
{
    200 <= status && status < 300
}

/// A status reports success exactly when it lies in 200..=299: every 2xx
/// status is a success, and 1xx, 3xx, 4xx and 5xx statuses are not.
pub proof fn lemma_success_is_exactly_2xx(status: u16)
    ensures
        spec_is_success(status) <==> (200 <= status && status <= 299),
        status < 200 ==> !spec_is_success(status),
        status >= 300 ==> !spec_is_success(status),
{
}

/// A post counts as published exactly when it got a response whose status
/// lies in 200..=299; a missing response and any other status are failures to
/// publish.
pub proof fn lemma_published_exactly_on_2xx(status: Option<u16>)
    ensures
        HttpPublisher::spec_publish_outcome(status) is Ok <==> (status matches Some(s) && 200 <= s
            && s <= 299),
        HttpPublisher::spec_publish_outcome(status) matches Err(e) ==> e == Error::PublishFailed,
{
}

/// A publisher that posts each event, as a publish request, to the publishing
/// endpoint of an Event Ray server.
pub struct HttpPublisher {
    client: reqwest::Client,
    target_url: String,
}

impl View for HttpPublisher {
    /// The URL that events are posted to.
    type V = Seq<char>;

    closed spec fn view(&self) -> Seq<char> {
        self.target_url@
    }
}

impl HttpPublisher {
    /// A publisher that posts to `target_url`, with a new HTTP client.
    pub fn new(target_url: String) -> (p: HttpPublisher)
        ensures
            p@ == target_url@,
    {
        HttpPublisher { client: new_http_client(), target_url }
    }

    /// The URL that events are posted to.
    pub fn target_url(&self) -> (url: &String)
        ensures
            url@ == self@,
    {
        &self.target_url
    }

    /// The HTTP client that this publisher holds, made when it was built.
    pub closed spec fn http_client(&self) -> reqwest::Client {
        self.client
    }

    /// The HTTP client that posts the events: the one this publisher holds.
    pub fn client(&self) -> (client: &reqwest::Client)
        ensures
            *client == self.http_client(),
    {
        &self.client
    }

    /// The body posted for `event`: a publish request with the event's ray and
    /// content.
    pub fn request_body(&self, event: &AppEvent) -> (body: PublishRequest)
        ensures
            body == event.spec_to_publish_request(),
    {
        event.to_publish_request()
    }

    /// The result of a post that got a response with status `status`, or, for
    /// `None`, that got no response: published when the status reports
    /// success, and otherwise a failure to publish.
    pub open spec fn spec_publish_outcome(status: Option<u16>) -> Result<(), Error> {
        match status {
            Some(s) => if spec_is_success(s) {
                Ok(())
            } else {
                Err(Error::PublishFailed)
            },
            None => Err(Error::PublishFailed),
        }
    }

    /// The result of a post that got a response with status `status`, or, for
    /// `None`, that got no response: published when the status reports
    /// success, and otherwise a failure to publish.
    pub fn publish_outcome(status: Option<u16>) -> (r: Result<(), Error>)
        ensures
            r is Ok <==> (status matches Some(s) && spec_is_success(s)),
            r is Ok <==> (status matches Some(s) && 200 <= s && s <= 299),
            r matches Err(e) ==> e == Error::PublishFailed,
            r == Self::spec_publish_outcome(status),
    {
        match status {
            Some(s) => if is_success(s) {
                Ok(())
            } else {
                Err(Error::PublishFailed)
            },
            None => Err(Error::PublishFailed),
        }
    }
}

} // verus!

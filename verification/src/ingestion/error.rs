//! Failures inside the ingestion service.
use vstd::prelude::*;

verus! {

/// A failure inside the ingestion service.
#[derive(Debug, Clone, Copy, PartialEq, Eq, Structural)]
pub enum Error {
    /// The publisher could not hand the event on.
    PublishFailed,
}

impl Error {
    /// The text that describes this failure.
    pub open spec fn spec_message(self) -> Seq<char> {
        match self {
            Error::PublishFailed => "Publisher failed to send event"@,
        }
    }

    /// The text that describes this failure.
    pub fn message(&self) -> (m: &'static str)
        ensures
            m@ == self.spec_message(),
    {
        match self {
            Error::PublishFailed => "Publisher failed to send event",
        }
    }
}

} // verus!

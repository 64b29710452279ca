//! The state shared by the server's endpoints.
use vstd::prelude::*;
use crate::app_event::AppEvent;
use crate::outside::{broadcast_send, Sent};

verus! {

/// The shared state of the server: the sending half of the broadcast bus on
/// which every event goes to all subscribers, and, as a proof-only record,
/// the sends made through this state, each with the event handed, the sender
/// it went to and the bus's answer.
pub struct AppState {
    event_sender: tokio::sync::broadcast::Sender<AppEvent>,
    sends: Ghost<Seq<Sent>>,
}

impl AppState {
    /// The sending half of the broadcast bus that this state hands events to.
    pub closed spec fn sender(&self) -> tokio::sync::broadcast::Sender<AppEvent> {
        self.event_sender
    }

    /// The sending half of the broadcast bus that this state hands events to.
    pub fn event_sender(&self) -> (sender: &tokio::sync::broadcast::Sender<AppEvent>)
        ensures
            *sender == self.sender(),
    {
        &self.event_sender
    }

    /// The events handed to the bus through this state, in order, each with
    /// whether the bus took it (it does when at least one subscriber listens).
    pub closed spec fn handed(&self) -> Seq<(AppEvent, bool)> {
        self.sends@.map_values(|sent: Sent| (sent.event(), sent.outcome() is Ok))
    }

    /// The sends made through this state, in order.
    pub closed spec fn sends(&self) -> Seq<Sent> {
        self.sends@
    }

    /// The state around the sending half `event_sender` of a broadcast bus;
    /// nothing has been handed to the bus through it yet.
    pub fn new(event_sender: tokio::sync::broadcast::Sender<AppEvent>) -> (state: AppState)
        ensures
            state.sender() == event_sender,
            state.handed() == Seq::<(AppEvent, bool)>::empty(),
            state.sends() == Seq::<Sent>::empty(),
    {
        let state = AppState { event_sender, sends: Ghost(Seq::empty()) };
        assert(state.handed() =~= Seq::<(AppEvent, bool)>::empty());
        state
    }

    /// Hands `event` to the broadcast bus of this state and returns the bus's
    /// answer: on success, how many subscribers the bus had, at least one;
    /// when nobody is subscribed, the event, undelivered and unchanged. The
    /// record gains that send: `event`, this state's sender, and that answer.
    pub fn broadcast(&mut self, event: AppEvent) -> (r: Result<usize, AppEvent>)
        ensures
            r matches Ok(n) ==> n >= 1,
            r matches Err(e) ==> e == event,
            final(self).sender() == old(self).sender(),
            final(self).handed() == old(self).handed().push((event, r is Ok)),
            final(self).sends().len() == old(self).sends().len() + 1,
            final(self).sends().drop_last() == old(self).sends(),
            final(self).sends().last().event() == event,
            final(self).sends().last().sender() == old(self).sender(),
            final(self).sends().last().outcome() == r,
    {
        let sent = broadcast_send(&self.event_sender, event);
        let ghost record = sent;
        let r = sent.into_outcome();
        self.sends = Ghost(self.sends@.push(record));
        assert(self.sends@.drop_last() =~= old(self).sends@);
        assert(self.handed() =~= old(self).handed().push((event, r is Ok)));
        r
    }
}

} // verus!

use vstd::prelude::*;

verus! {

/// Where a live feed subscription stands.
pub enum FeedState {
    Connecting,
    Open,
    Closed,
    /// The transport failed, for the reason given.
    Faulted(String),
}

/// What the transport or the owner of a subscription reports.
pub enum FeedEvent {
    /// The transport is up.
    Connected,
    /// A notification arrived, rendered as text.
    Notification(String),
    /// The transport failed, for the reason given.
    TransportFault(String),
    /// The owner closed the subscription.
    CloseRequested,
}

/// What a pending `next` hands back.
pub enum FeedOutput {
    /// Nothing for the observer yet; wait for the next event.
    Ready,
    /// Hand this notification to the observer before reading on.
    Forward(String),
    /// The subscription was closed; no more notifications come.
    Closed,
    /// The transport failed; no more notifications come.
    Faulted(String),
}

/// Whether a subscription in `state` has ended.
pub open spec fn is_terminal(state: FeedState) -> bool {
    state is Closed || state is Faulted
}

/// Whether `output` tells its reader that the subscription has ended.
pub open spec fn is_end_signal(output: FeedOutput) -> bool {
    output is Closed || output is Faulted
}

/// The state that follows `state` on `event`, and what is handed back. A
/// closed or faulted subscription stays as it is and answers every event
/// with its end; it is never reopened.
pub open spec fn feed_step(state: FeedState, event: FeedEvent) -> (FeedState, FeedOutput) {
    match state {
        FeedState::Closed => (state, FeedOutput::Closed),
        FeedState::Faulted(m) => (state, FeedOutput::Faulted(m)),
        _ => match event {
            FeedEvent::Connected => (FeedState::Open, FeedOutput::Ready),
            FeedEvent::Notification(n) => (FeedState::Open, FeedOutput::Forward(n)),
            FeedEvent::TransportFault(m) => (FeedState::Faulted(m), FeedOutput::Faulted(m)),
            FeedEvent::CloseRequested => (FeedState::Closed, FeedOutput::Closed),
        },
    }
}

/// One subscription to a live feed: its fixed subject and where it stands.
pub struct LiveFeed {
    subject: String,
    state: FeedState,
}

impl LiveFeed {
    /// A subscription to `subject`, not yet connected.
    pub fn subscribe(subject: String) -> (r: Self)
        ensures
            r.subject() == subject,
            r.state() == FeedState::Connecting,
    {
        LiveFeed { subject, state: FeedState::Connecting }
    }

    /// The subject the subscription is for; fixed for its lifetime.
    pub closed spec fn subject(&self) -> String {
        self.subject
    }

    /// Where the subscription stands.
    pub closed spec fn state(&self) -> FeedState {
        self.state
    }

    /// The subject the subscription was opened for.
    pub fn subject_key(&self) -> (r: &String)
        ensures
            *r == self.subject(),
    {
        &self.subject
    }

    /// Whether the subscription has ended.
    pub fn is_ended(&self) -> (r: bool)
        ensures
            r == is_terminal(self.state()),
    {
        match self.state {
            FeedState::Closed => true,
            FeedState::Faulted(_) => true,
            _ => false,
        }
    }

    /// Takes in one event and says what the pending `next` returns.
    pub fn accept(&mut self, event: FeedEvent) -> (out: FeedOutput)
        ensures
            (final(self).state(), out) == feed_step(old(self).state(), event),
            final(self).subject() == old(self).subject(),
    {
        match &self.state {
            FeedState::Closed => {
                return FeedOutput::Closed;
            },
            FeedState::Faulted(m) => {
                return FeedOutput::Faulted(m.clone());
            },
            _ => {},
        }
        match event {
            FeedEvent::Connected => {
                self.state = FeedState::Open;
                FeedOutput::Ready
            },
            FeedEvent::Notification(n) => {
                self.state = FeedState::Open;
                FeedOutput::Forward(n)
            },
            FeedEvent::TransportFault(m) => {
                self.state = FeedState::Faulted(m.clone());
                FeedOutput::Faulted(m)
            },
            FeedEvent::CloseRequested => {
                self.state = FeedState::Closed;
                FeedOutput::Closed
            },
        }
    }

    /// Closes the subscription; every later `next` ends at once.
    pub fn close(&mut self) -> (out: FeedOutput)
        ensures
            (final(self).state(), out) == feed_step(old(self).state(), FeedEvent::CloseRequested),
            final(self).subject() == old(self).subject(),
            is_terminal(final(self).state()),
    {
        self.accept(FeedEvent::CloseRequested)
    }
}

/// Once a subscription is closed, whatever happens while a `next` is pending,
/// that call is answered with the end signal, and the subscription stays
/// closed.
pub proof fn lemma_close_ends_pending_next(state: FeedState, event: FeedEvent)
    ensures
        is_terminal(feed_step(state, FeedEvent::CloseRequested).0),
        is_end_signal(feed_step(state, FeedEvent::CloseRequested).1),
        feed_step(FeedState::Closed, event) == (FeedState::Closed, FeedOutput::Closed),
        is_terminal(state) ==> feed_step(state, event).0 == state && is_end_signal(
            feed_step(state, event).1,
        ),
{
}

} // verus!

//! Handing events to a channel.

use vstd::prelude::*;
use crossbeam_channel::Sender;
use crate::error::Error;
use crate::event::Event;

verus! {

/// The sending end of a `crossbeam_channel` queue. Nothing inside it is
/// visible here: it is carried to `offer` and no further.
#[verifier::external_type_specification]
#[verifier::external_body]
#[verifier::reject_recursive_types(T)]
pub struct ExSender<T>(crossbeam_channel::Sender<T>);

/// What became of one message offered to a channel.
#[derive(Clone, Copy, Debug, PartialEq, Eq, Structural)]
pub enum Offer {
    /// The channel took it.
    Sent,
    /// The channel was full; the message is lost.
    Full,
    /// Nobody receives any more; the message is lost.
    Disconnected,
}

/// How a run of events fared at a channel.
#[derive(Clone, Copy, Debug, PartialEq, Eq, Structural)]
pub struct Forwarded {
    /// How many the channel took.
    pub sent: usize,
    /// How many were lost because the channel was full.
    pub full: usize,
    /// How many were lost because nobody receives any more.
    pub disconnected: usize,
}

/// Calls `crossbeam_channel::Sender::try_send`, which never waits: it hands
/// the message over at once or gives it back, because the channel is full or
/// because nobody receives any more. Which of the three happens depends on the
/// other end of the channel, so nothing is claimed of the result.
#[verifier::external_body]
fn offer(tx: &Sender<Result<Event, Error>>, message: Result<Event, Error>) -> (r: Offer) {
    match tx.try_send(message) {
        Ok(()) => Offer::Sent,
        Err(crossbeam_channel::TrySendError::Full(_)) => Offer::Full,
        Err(crossbeam_channel::TrySendError::Disconnected(_)) => Offer::Disconnected,
    }
}

/// The tally after one more message fared as `offer` says.
pub open spec fn tallied(t: Forwarded, offer: Offer) -> Forwarded {
    match offer {
        Offer::Sent => Forwarded { sent: (t.sent + 1) as usize, ..t },
        Offer::Full => Forwarded { full: (t.full + 1) as usize, ..t },
        Offer::Disconnected => Forwarded { disconnected: (t.disconnected + 1) as usize, ..t },
    }
}

/// Adds the outcome of one offer to a tally.
pub fn tally(t: Forwarded, offer: Offer) -> (r: Forwarded)
    requires
        t.sent + t.full + t.disconnected < usize::MAX,
    ensures
        r == tallied(t, offer),
        r.sent + r.full + r.disconnected == t.sent + t.full + t.disconnected + 1,
{
    match offer {
        Offer::Sent => Forwarded { sent: t.sent + 1, full: t.full, disconnected: t.disconnected },
        Offer::Full => Forwarded { sent: t.sent, full: t.full + 1, disconnected: t.disconnected },
        Offer::Disconnected => Forwarded {
            sent: t.sent,
            full: t.full,
            disconnected: t.disconnected + 1,
        },
    }
}

/// Offers each event to the channel, in order and without waiting, and says
/// how they fared. An event that the channel does not take is lost; the ones
/// after it are offered all the same.
pub fn forward(tx: &Sender<Result<Event, Error>>, events: &Vec<Event>) -> (r: Forwarded)
    ensures
        r.sent + r.full + r.disconnected == events@.len(),
{
    let mut t = Forwarded { sent: 0, full: 0, disconnected: 0 };
    let mut i: usize = 0;
    while i < events.len()
        invariant
            i <= events@.len(),
            t.sent + t.full + t.disconnected == i,
        decreases events@.len() - i,
    {
        let outcome = offer(tx, Ok(events[i].duplicate()));
        t = tally(t, outcome);
        i += 1;
    }
    t
}

} // verus!

//! From the rooms to one connection: what to do with each thing a receiver
//! yields, and an inbox that merges the receivers of a connection.
//!
//! A room's channel never makes its publishers wait. A receiver that fell
//! behind is told how many messages it missed and goes on with the oldest
//! message still held: the policy here is to go on.

use vstd::prelude::*;
use tokio::sync::broadcast::Receiver;

verus! {

/// What a receiver yields when asked for its next message.
#[derive(Debug, Clone, PartialEq, Eq)]
pub enum Received {
    /// The next message.
    Message(String),
    /// Nothing has been published since the last message.
    Empty,
    /// The receiver fell behind: this many messages are gone for it.
    Lagged(u64),
    /// The channel is closed: no sender is left.
    Closed,
}

/// What to do with what a receiver yielded.
#[derive(Debug, Clone, PartialEq, Eq)]
pub enum RelayStep {
    /// Write the message to the connection and ask again.
    Forward(String),
    /// Ask again at once: the receiver goes on after what it missed.
    Skip,
    /// Ask again when something has been published.
    Wait,
    /// Stop asking this receiver.
    Stop,
}

/// The policy of a connection towards its receivers: messages are forwarded,
/// a lag is passed over without closing anything, a closed channel ends the
/// relay of that room.
pub open spec fn relay_of(received: Received) -> RelayStep {
    match received {
        Received::Message(message) => RelayStep::Forward(message),
        Received::Empty => RelayStep::Wait,
        Received::Lagged(_) => RelayStep::Skip,
        Received::Closed => RelayStep::Stop,
    }
}

/// Decides what to do with what a receiver yielded.
pub fn relay_step(received: Received) -> (step: RelayStep)
    ensures
        step == relay_of(received),
{
    match received {
        Received::Message(message) => RelayStep::Forward(message),
        Received::Empty => RelayStep::Wait,
        Received::Lagged(_) => RelayStep::Skip,
        Received::Closed => RelayStep::Stop,
    }
}

/// Asks a receiver for its next message with `Receiver::try_recv`, without
/// waiting, and tells its four outcomes apart. The outcome depends on what
/// was published to the channel, so nothing is promised of it.
#[verifier::external_body]
fn poll(rx: &mut Receiver<String>) -> Received {
    match rx.try_recv() {
        Ok(message) => Received::Message(message),
        Err(tokio::sync::broadcast::error::TryRecvError::Empty) => Received::Empty,
        Err(tokio::sync::broadcast::error::TryRecvError::Lagged(n)) => Received::Lagged(n),
        Err(tokio::sync::broadcast::error::TryRecvError::Closed) => Received::Closed,
    }
}

/// The receivers of one connection, merged: one per room it is subscribed
/// to, asked in turn.
pub struct Inbox {
    receivers: Vec<Receiver<String>>,
    /// The receiver to ask first next time.
    cursor: usize,
    /// How many messages the receivers reported as missed, in all.
    missed: u64,
}

impl Inbox {
    /// How many receivers the inbox holds.
    pub closed spec fn size(&self) -> nat {
        self.receivers@.len()
    }

    /// How many messages were reported as missed so far, in all; the count
    /// stops at the largest number it can hold.
    pub closed spec fn lost(&self) -> nat {
        self.missed as nat
    }

    /// An inbox without receivers.
    pub fn new() -> (inbox: Inbox)
        ensures
            inbox.size() == 0,
            inbox.lost() == 0,
    {
        Inbox { receivers: Vec::new(), cursor: 0, missed: 0 }
    }

    /// Adds the receiver of one more room.
    pub fn add(&mut self, rx: Receiver<String>)
        ensures
            final(self).size() == old(self).size() + 1,
            final(self).lost() == old(self).lost(),
    {
        self.receivers.push(rx);
    }

    /// The number of receivers.
    pub fn len(&self) -> (n: usize)
        ensures
            n == self.size(),
    {
        self.receivers.len()
    }

    /// How many messages were reported as missed so far.
    pub fn missed(&self) -> (n: u64)
        ensures
            n == self.lost(),
    {
        self.missed
    }

    /// The next message that any receiver holds, without waiting. Each
    /// receiver is asked in turn, beginning after the one that gave the last
    /// message; one that reports a lag is asked once more at once. `None`
    /// means that no receiver had a message ready. What the receivers yield
    /// is theirs to say; what the inbox makes of it is `merged`.
    pub fn try_next(&mut self) -> (message: Option<String>)
        ensures
            final(self).size() == old(self).size(),
            final(self).lost() >= old(self).lost(),
            old(self).size() == 0 ==> message is None && final(self).lost() == old(self).lost(),
            exists|outcomes: Seq<Received>|
                merged(outcomes, old(self).size(), old(self).lost(), message, final(self).lost()),
    {
        let n = self.receivers.len();
        let ghost mut outcomes = Seq::<Received>::empty();
        if n == 0 {
            assert(merged(outcomes, old(self).size(), old(self).lost(), None, self.lost()));
            return None;
        }
        if self.cursor >= n {
            self.cursor = 0;
        }
        let start = self.cursor;
        let mut asked: usize = 0;
        while asked < n
            invariant
                n == self.receivers@.len(),
                n == old(self).receivers@.len(),
                start < n,
                asked <= n,
                asked <= outcomes.len() <= 2 * asked,
                forall|i: int| 0 <= i < outcomes.len() ==> !((#[trigger] outcomes[i]) is Message),
                self.missed as nat == capped(old(self).missed as nat + missed_in_all(outcomes)),
            decreases n - asked,
        {
            let i = if asked < n - start {
                start + asked
            } else {
                asked - (n - start)
            };
            let mut received = poll(&mut self.receivers[i]);
            if let Received::Lagged(count) = received {
                proof {
                    lemma_missed_push(outcomes, received);
                    outcomes = outcomes.push(received);
                }
                self.missed = self.missed.saturating_add(count);
                received = poll(&mut self.receivers[i]);
            }
            proof {
                lemma_missed_push(outcomes, received);
                outcomes = outcomes.push(received);
            }
            if let Received::Lagged(again) = received {
                self.missed = self.missed.saturating_add(again);
            }
            if let RelayStep::Forward(message) = relay_step(received) {
                self.cursor = i + 1;
                assert(merged(
                    outcomes,
                    old(self).size(),
                    old(self).lost(),
                    Some(message),
                    self.lost(),
                ));
                return Some(message);
            }
            asked += 1;
        }
        assert(merged(outcomes, old(self).size(), old(self).lost(), None, self.lost()));
        None
    }
}

/// How many messages an outcome reports as missed.
pub open spec fn missed_in(received: Received) -> nat {
    match received {
        Received::Lagged(count) => count as nat,
        _ => 0,
    }
}

/// How many messages the outcomes report as missed, in all.
pub open spec fn missed_in_all(outcomes: Seq<Received>) -> nat
    decreases outcomes.len(),
{
    if outcomes.len() == 0 {
        0
    } else {
        missed_in_all(outcomes.drop_last()) + missed_in(outcomes.last())
    }
}

/// One more outcome adds what it reports as missed.
pub proof fn lemma_missed_push(outcomes: Seq<Received>, received: Received)
    ensures
        missed_in_all(outcomes.push(received)) == missed_in_all(outcomes) + missed_in(received),
{
    assert(outcomes.push(received).drop_last() =~= outcomes);
}

/// A count of missed messages that stops at the largest number it can hold.
pub open spec fn capped(count: nat) -> nat {
    if count <= u64::MAX {
        count
    } else {
        u64::MAX as nat
    }
}

/// What an inbox of `size` receivers makes of the outcomes of asking them,
/// in the order asked. It asks each receiver once, and once more at once
/// where the receiver reports a lag. It stops at the first message, which it
/// hands out; without a message it has asked every receiver and hands out
/// nothing. Whatever the outcomes report as missed is added to the count.
pub open spec fn merged(
    outcomes: Seq<Received>,
    size: nat,
    lost: nat,
    message: Option<String>,
    lost_after: nat,
) -> bool {
    &&& outcomes.len() <= 2 * size
    &&& forall|i: int| 0 <= i < outcomes.len() - 1 ==> !((#[trigger] outcomes[i]) is Message)
    &&& message == if outcomes.len() > 0 && outcomes.last() is Message {
        Some(outcomes.last()->Message_0)
    } else {
        None
    }
    &&& message is None ==> outcomes.len() >= size
    &&& lost_after == capped(lost + missed_in_all(outcomes))
}

} // verus!

//! The state-channel bridge.
//!
//! One channel carries lifecycle states from control-event handlers to the
//! worker routine of a single run. `Start` is queued at construction, before
//! the worker can observe anything, so it is always the first value
//! delivered. `Stop` travels only through the take-once producer protocol of
//! [`StateChannel::deliver_stop`]: whichever party delivers it takes the
//! producer with it, so `Stop` is sent at most once, the channel closes right
//! behind it, and a second delivery is a no-op.

use vstd::prelude::*;

use crate::daemon::State;
use crate::error::DaemonError;

verus! {

/// The abstract content of a state channel.
///
/// `history` is every value ever sent, `delivered` the prefix of it that the
/// worker has already received, and `queued` the rest; `sender_alive` says
/// whether the producer half has not yet been taken.
#[verifier::ext_equal]
pub struct ChannelView {
    pub history: Seq<State>,
    pub delivered: Seq<State>,
    pub queued: Seq<State>,
    pub sender_alive: bool,
}

impl ChannelView {
    /// The channel invariant: what was sent splits into delivered and queued
    /// parts, `Start` heads the history, and `Stop` can only stand last,
    /// with the producer gone.
    pub open spec fn wf(self) -> bool {
        &&& self.history == self.delivered + self.queued
        &&& self.history.len() >= 1
        &&& self.history[0] == State::Start
        &&& forall|i: int|
            0 <= i < self.history.len() && self.history[i] == State::Stop ==> i
                == self.history.len() - 1 && !self.sender_alive
    }

    /// A channel just built: `Start` queued, nothing delivered, producer
    /// present.
    pub open spec fn fresh() -> ChannelView {
        ChannelView {
            history: seq![State::Start],
            delivered: Seq::empty(),
            queued: seq![State::Start],
            sender_alive: true,
        }
    }

    /// Nothing is pending and nothing can arrive any more.
    pub open spec fn is_closed(self) -> bool {
        self.queued.len() == 0 && !self.sender_alive
    }

    /// The channel after a non-terminal state `s` is sent: enqueued while
    /// the producer is present, unchanged otherwise.
    pub open spec fn after_send(self, s: State) -> ChannelView {
        if self.sender_alive {
            ChannelView { history: self.history.push(s), queued: self.queued.push(s), ..self }
        } else {
            self
        }
    }

    /// The channel after a termination event: the first event takes the
    /// producer and enqueues `Stop`; any later one finds no producer and
    /// changes nothing.
    pub open spec fn after_stop(self) -> ChannelView {
        if self.sender_alive {
            ChannelView {
                history: self.history.push(State::Stop),
                queued: self.queued.push(State::Stop),
                sender_alive: false,
                ..self
            }
        } else {
            self
        }
    }

    /// The channel after the worker receives once: the front of the queue
    /// moves to the delivered prefix; an empty queue changes nothing.
    pub open spec fn after_recv(self) -> ChannelView {
        if self.queued.len() > 0 {
            ChannelView {
                delivered: self.delivered.push(self.queued[0]),
                queued: self.queued.drop_first(),
                ..self
            }
        } else {
            self
        }
    }

    /// What the worker receives: the front of the queue, or `None` when
    /// nothing is pending.
    pub open spec fn recv_result(self) -> Option<State> {
        if self.queued.len() > 0 {
            Some(self.queued[0])
        } else {
            None
        }
    }
}

/// The ordered, single-producer/single-consumer channel of one run.
pub struct StateChannel {
    queued: Vec<State>,
    sender_alive: bool,
    history: Ghost<Seq<State>>,
    delivered: Ghost<Seq<State>>,
}

impl View for StateChannel {
    type V = ChannelView;

    closed spec fn view(&self) -> ChannelView {
        ChannelView {
            history: self.history@,
            delivered: self.delivered@,
            queued: self.queued@,
            sender_alive: self.sender_alive,
        }
    }
}

impl StateChannel {
    /// Builds the channel of a fresh run and enqueues `Start`, so that the
    /// worker's first observed value is always `Start`.
    pub fn new() -> (c: StateChannel)
        ensures
            c@ == ChannelView::fresh(),
            c@.wf(),
    {
        let mut queued: Vec<State> = Vec::new();
        queued.push(State::Start);
        let c = StateChannel {
            queued,
            sender_alive: true,
            history: Ghost(Seq::empty().push(State::Start)),
            delivered: Ghost(Seq::empty()),
        };
        proof {
            assert(c@ =~= ChannelView::fresh());
        }
        c
    }

    /// Sends a non-terminal state while the producer is present; after the
    /// producer has been taken, reports the channel closed and changes
    /// nothing. `Stop` travels only through `deliver_stop`, which takes the
    /// producer with it.
    pub fn send(&mut self, s: State) -> (r: Result<(), DaemonError>)
        requires
            old(self)@.wf(),
            s != State::Stop,
        ensures
            final(self)@ == old(self)@.after_send(s),
            final(self)@.wf(),
            r == (if old(self)@.sender_alive {
                Ok::<(), DaemonError>(())
            } else {
                Err::<(), DaemonError>(DaemonError::ChannelClosed)
            }),
    {
        if self.sender_alive {
            self.queued.push(s);
            proof {
                self.history@ = self.history@.push(s);
                assert(self@ =~= old(self)@.after_send(s));
            }
            Ok(())
        } else {
            Err(DaemonError::ChannelClosed)
        }
    }

    /// Delivers a termination event: takes the producer if it is still
    /// present, enqueues `Stop`, and closes the channel behind it. Returns
    /// whether this call was the one that delivered; a later call finds no
    /// producer and is a safe no-op.
    pub fn deliver_stop(&mut self) -> (delivered: bool)
        requires
            old(self)@.wf(),
        ensures
            final(self)@ == old(self)@.after_stop(),
            final(self)@.wf(),
            delivered == old(self)@.sender_alive,
    {
        if self.sender_alive {
            self.queued.push(State::Stop);
            self.sender_alive = false;
            proof {
                self.history@ = self.history@.push(State::Stop);
                assert(self@ =~= old(self)@.after_stop());
            }
            true
        } else {
            false
        }
    }

    /// Receives the next state: the front of the queue, or `None` when
    /// nothing is pending.
    pub fn recv(&mut self) -> (r: Option<State>)
        requires
            old(self)@.wf(),
        ensures
            final(self)@ == old(self)@.after_recv(),
            final(self)@.wf(),
            r == old(self)@.recv_result(),
    {
        if self.queued.len() > 0 {
            let s = self.queued.remove(0);
            proof {
                self.delivered@ = self.delivered@.push(s);
                assert(self@ =~= old(self)@.after_recv());
                assert(self@.delivered + self@.queued =~= old(self)@.delivered + old(
                    self,
                )@.queued);
            }
            Some(s)
        } else {
            None
        }
    }

    /// Whether the channel is exhausted: nothing pending and the producer
    /// gone.
    pub fn is_closed(&self) -> (r: bool)
        ensures
            r == self@.is_closed(),
    {
        self.queued.len() == 0 && !self.sender_alive
    }
}

/// For every run, the first value the worker observes is `Start`.
pub proof fn lemma_first_observed_is_start(v: ChannelView)
    requires
        v.wf(),
        v.delivered.len() > 0,
    ensures
        v.delivered[0] == State::Start,
{
    assert(v.history[0] == v.delivered[0]);
}

/// For every run, at most one `Stop` is ever observed, and no value follows
/// it: an observed `Stop` stands last, with nothing left queued and the
/// channel closed right behind it.
pub proof fn lemma_stop_is_terminal(v: ChannelView)
    requires
        v.wf(),
    ensures
        forall|i: int|
            0 <= i < v.delivered.len() && v.delivered[i] == State::Stop ==> i == v.delivered.len()
                - 1 && v.is_closed(),
        forall|i: int, j: int|
            0 <= i < v.delivered.len() && 0 <= j < v.delivered.len() && v.delivered[i]
                == State::Stop && v.delivered[j] == State::Stop ==> i == j,
{
    assert forall|i: int|
        0 <= i < v.delivered.len() && v.delivered[i] == State::Stop implies i == v.delivered.len()
        - 1 && v.is_closed() by {
        assert(v.history[i] == v.delivered[i]);
    }
}

/// Delivering two termination events back-to-back sends `Stop` at most once:
/// the second delivery finds no producer and leaves the channel exactly as
/// the first left it.
pub proof fn lemma_second_stop_is_noop(v: ChannelView)
    requires
        v.wf(),
    ensures
        v.after_stop().after_stop() == v.after_stop(),
        !v.after_stop().sender_alive,
{
}

} // verus!

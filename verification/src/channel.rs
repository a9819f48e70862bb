//! Channels between the frame loop and its collaborators.
//!
//! Three kinds of handoff, all modeled as owned state so their behaviour is
//! fully specified; cross-thread sharing wraps them in an explicit lock on
//! the application side.
//!
//! * [`LatestValueChannel`]: a single slot where a publish overwrites any
//!   unread value and the consumer takes the most recent one or none.
//! * [`CommandQueue`]: an unbounded FIFO of typed commands, drained once
//!   per frame tick in enqueue order.
//! * [`OneShotChannel`]: a channel for exactly one value transfer, consumed
//!   once, with a canceled state for a sender dropped before resolution.

use vstd::prelude::*;

verus! {

/// A single-slot channel: the producer never blocks, a new value simply
/// overwrites the old one, and the consumer always takes the most recent
/// value or none.
pub struct LatestValueChannel<T> {
    slot: Option<T>,
}

impl<T> View for LatestValueChannel<T> {
    type V = Option<T>;

    closed spec fn view(&self) -> Option<T> {
        self.slot
    }
}

impl<T> LatestValueChannel<T> {
    /// An empty slot.
    pub fn new() -> (c: LatestValueChannel<T>)
        ensures
            c@ is None,
    {
        LatestValueChannel { slot: None }
    }

    /// Whether no unread value is present.
    pub fn is_empty(&self) -> (r: bool)
        ensures
            r == (self@ is None),
    {
        self.slot.is_none()
    }

    /// Publish a value, overwriting any unread one; never blocks.
    pub fn publish(&mut self, value: T)
        ensures
            final(self)@ == Some(value),
    {
        self.slot = Some(value);
    }

    /// Take the most recently published value, leaving the slot empty.
    pub fn take(&mut self) -> (r: Option<T>)
        ensures
            r == old(self)@,
            final(self)@ is None,
    {
        self.slot.take()
    }
}

/// The slot contents after a whole sequence of publishes.
pub open spec fn publish_all<T>(slot: Option<T>, values: Seq<T>) -> Option<T>
    decreases values.len(),
{
    if values.len() == 0 {
        slot
    } else {
        publish_all(Some(values[0]), values.drop_first())
    }
}

/// Publishing any non-empty burst of values leaves exactly the most recent
/// one readable, whatever was in the slot before: a consumer that did not
/// keep up never observes an intermediate value.
pub proof fn lemma_latest_value_wins<T>(slot: Option<T>, values: Seq<T>)
    requires
        values.len() > 0,
    ensures
        publish_all(slot, values) == Some(values.last()),
    decreases values.len(),
{
    if values.len() > 1 {
        lemma_latest_value_wins(Some(values[0]), values.drop_first());
        assert(values.drop_first().last() == values.last());
    } else {
        assert(values.drop_first().len() == 0);
        assert(publish_all(Some(values[0]), values.drop_first()) == Some(values[0]));
    }
}

/// An unbounded multi-producer/single-consumer queue of typed commands,
/// drained once per frame tick in enqueue order.
pub struct CommandQueue<T> {
    items: Vec<T>,
}

impl<T> View for CommandQueue<T> {
    type V = Seq<T>;

    closed spec fn view(&self) -> Seq<T> {
        self.items@
    }
}

impl<T> CommandQueue<T> {
    /// An empty queue.
    pub fn new() -> (q: CommandQueue<T>)
        ensures
            q@ == Seq::<T>::empty(),
    {
        CommandQueue { items: Vec::new() }
    }

    /// How many commands are waiting.
    pub fn len(&self) -> (n: usize)
        ensures
            n == self@.len(),
    {
        self.items.len()
    }

    /// Whether the queue is empty.
    pub fn is_empty(&self) -> (r: bool)
        ensures
            r == (self@.len() == 0),
    {
        self.items.len() == 0
    }

    /// Enqueue a command at the back.
    pub fn push(&mut self, value: T)
        ensures
            final(self)@ == old(self)@.push(value),
    {
        self.items.push(value);
    }

    /// Dequeue the oldest command, if any.
    pub fn pop_front(&mut self) -> (r: Option<T>)
        ensures
            old(self)@.len() == 0 ==> r is None && final(self)@ == old(self)@,
            old(self)@.len() > 0 ==> {
                &&& r == Some(old(self)@[0])
                &&& final(self)@ == old(self)@.drop_first()
            },
    {
        if self.items.len() == 0 {
            None
        } else {
            let v = self.items.remove(0);
            proof {
                assert(final(self)@ =~= old(self)@.drop_first());
            }
            Some(v)
        }
    }
}

/// What a receiver finds on a one-shot channel.
#[derive(Clone, Copy, Debug, PartialEq, Eq, Structural)]
pub enum OneShotRecv<T> {
    /// Nothing sent yet; poll again later.
    Pending,
    /// The single transferred value.
    Value(T),
    /// The sender went away before resolving; no value will ever come.
    Canceled,
}

/// The state of a one-shot transfer.
#[derive(Clone, Copy, Debug, PartialEq, Eq, Structural)]
pub enum OneShotState<T> {
    Empty,
    Sent(T),
    Consumed,
    Canceled,
}

/// A channel used for exactly one value transfer, read exactly once. The
/// single send and the single consume are enforced by contract, so a double
/// delivery or a double read is impossible by construction.
pub struct OneShotChannel<T> {
    state: OneShotState<T>,
}

impl<T> View for OneShotChannel<T> {
    type V = OneShotState<T>;

    closed spec fn view(&self) -> OneShotState<T> {
        self.state
    }
}

impl<T> OneShotChannel<T> {
    /// A channel with nothing sent yet.
    pub fn new() -> (c: OneShotChannel<T>)
        ensures
            c@ is Empty,
    {
        OneShotChannel { state: OneShotState::Empty }
    }

    /// Deliver the single value; only possible while nothing was sent.
    pub fn send(&mut self, value: T)
        requires
            old(self)@ is Empty,
        ensures
            final(self)@ == OneShotState::Sent(value),
    {
        self.state = OneShotState::Sent(value);
    }

    /// Mark the transfer as abandoned; the receiver will see `Canceled`.
    pub fn cancel(&mut self)
        requires
            old(self)@ is Empty,
        ensures
            final(self)@ is Canceled,
    {
        self.state = OneShotState::Canceled;
    }

    /// Non-blocking receive: pending while nothing was sent, the value
    /// exactly once, canceled forever after an abandoned send.
    pub fn try_recv(&mut self) -> (r: OneShotRecv<T>)
        requires
            !(old(self)@ is Consumed),
        ensures
            match old(self)@ {
                OneShotState::Empty => r is Pending && final(self)@ is Empty,
                OneShotState::Sent(v) => {
                    &&& r == OneShotRecv::<T>::Value(v)
                    &&& final(self)@ is Consumed
                },
                OneShotState::Canceled => r is Canceled && final(self)@ is Canceled,
                OneShotState::Consumed => false,
            },
    {
        let mut taken = OneShotState::Consumed;
        core::mem::swap(&mut self.state, &mut taken);
        match taken {
            OneShotState::Empty => {
                self.state = OneShotState::Empty;
                OneShotRecv::Pending
            },
            OneShotState::Sent(v) => OneShotRecv::Value(v),
            OneShotState::Canceled => {
                self.state = OneShotState::Canceled;
                OneShotRecv::Canceled
            },
            OneShotState::Consumed => OneShotRecv::Pending,
        }
    }
}

} // verus!

//! Handles for computations submitted to the background worker pool.
//!
//! Submission returns a [`TaskHandle`] immediately; the frame loop polls it
//! non-blockingly once per frame. A completed task moves the handle from
//! `Pending` to `Ready` exactly once, and the caller extracts the value
//! exactly once: afterwards the handle is `Taken` and yields nothing, so a
//! completion can never be processed twice. Task failures travel inside the
//! value type; a handle that is dropped simply discards its result.

use vstd::prelude::*;

verus! {

/// Where a background task stands, as seen from its handle.
pub enum TaskState<T> {
    /// No result has arrived yet.
    Pending,
    /// The task finished with this value, not yet extracted.
    Ready(T),
    /// The value was extracted; nothing remains to retrieve.
    Taken,
}

/// What taking from a handle in a given state yields, and the state left
/// behind: only `Ready` gives up its value, and doing so moves to `Taken`.
pub open spec fn take_spec<T>(st: TaskState<T>) -> (TaskState<T>, Option<T>) {
    match st {
        TaskState::Ready(v) => (TaskState::Taken, Some(v)),
        TaskState::Pending => (TaskState::Pending, None),
        TaskState::Taken => (TaskState::Taken, None),
    }
}

/// A handle to one background computation.
pub struct TaskHandle<T> {
    state: TaskState<T>,
}

impl<T> View for TaskHandle<T> {
    type V = TaskState<T>;

    closed spec fn view(&self) -> TaskState<T> {
        self.state
    }
}

impl<T> TaskHandle<T> {
    /// The handle returned at submission, before any result arrived.
    pub fn new() -> (h: TaskHandle<T>)
        ensures
            h@ is Pending,
    {
        TaskHandle { state: TaskState::Pending }
    }

    /// Whether the per-frame poll still has to watch this handle.
    pub fn is_pending(&self) -> (r: bool)
        ensures
            r == (self@ is Pending),
    {
        match self.state {
            TaskState::Pending => true,
            _ => false,
        }
    }

    /// Whether a result is available and not yet extracted.
    pub fn is_ready(&self) -> (r: bool)
        ensures
            r == (self@ is Ready),
    {
        match self.state {
            TaskState::Ready(_) => true,
            _ => false,
        }
    }

    /// Record the task's completion. A task completes once, so this moves
    /// out of `Pending` exactly once over the handle's lifetime.
    pub fn on_complete(&mut self, value: T)
        requires
            old(self)@ is Pending,
        ensures
            final(self)@ == TaskState::Ready(value),
    {
        self.state = TaskState::Ready(value);
    }

    /// Extract the result: the value exactly once when ready, and nothing
    /// on every later attempt.
    pub fn take(&mut self) -> (r: Option<T>)
        ensures
            (final(self)@, r) == take_spec(old(self)@),
    {
        let mut grabbed = TaskState::Taken;
        core::mem::swap(&mut self.state, &mut grabbed);
        match grabbed {
            TaskState::Ready(v) => Some(v),
            TaskState::Pending => {
                self.state = TaskState::Pending;
                None
            },
            TaskState::Taken => None,
        }
    }
}

/// The worker pool's book-keeping: how many submitted tasks have not yet
/// run to completion. Fire-and-forget tasks keep no handle, so the pool
/// itself carries the count that a clean shutdown joins on.
pub struct WorkerPool {
    outstanding: u64,
}

impl WorkerPool {
    /// How many submitted tasks are still running.
    pub closed spec fn outstanding_spec(&self) -> u64 {
        self.outstanding
    }

    /// A pool with no work submitted.
    pub fn new() -> (p: WorkerPool)
        ensures
            p.outstanding_spec() == 0,
    {
        WorkerPool { outstanding: 0 }
    }

    /// Record one submission.
    pub fn task_spawned(&mut self)
        requires
            old(self).outstanding_spec() < u64::MAX,
        ensures
            final(self).outstanding_spec() == old(self).outstanding_spec() + 1,
    {
        self.outstanding = self.outstanding + 1;
    }

    /// Record one completion.
    pub fn task_finished(&mut self)
        requires
            old(self).outstanding_spec() > 0,
        ensures
            final(self).outstanding_spec() == old(self).outstanding_spec() - 1,
    {
        self.outstanding = self.outstanding - 1;
    }

    /// Whether every submitted task has run to completion, so the process
    /// may exit without abandoning work.
    pub fn all_joined(&self) -> (r: bool)
        ensures
            r == (self.outstanding_spec() == 0),
    {
        self.outstanding == 0
    }
}

/// The idempotent-drain law: once a take has yielded the value, any further
/// take on the same handle yields nothing and leaves the handle `Taken`.
pub proof fn lemma_take_at_most_once<T>(st: TaskState<T>)
    requires
        take_spec(st).1 is Some,
    ensures
        take_spec(take_spec(st).0).1 is None,
        take_spec(take_spec(st).0).0 is Taken,
{
}

} // verus!

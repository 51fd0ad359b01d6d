//! What one direction of a stream is waiting for.

use vstd::prelude::*;

verus! {

/// The state of one direction of a stream. `T` is a handle on a task.
#[derive(Debug, PartialEq, Eq)]
pub enum State<T> {
    /// No event has arrived yet, and nobody waits for one.
    NotReady,
    /// An event has arrived since anybody last waited.
    Ready,
    /// The task waits for an event.
    Blocked(T),
}

impl<T> State<T> {
    /// The task that waits.
    pub open spec fn waiting(self) -> Option<T> {
        match self {
            State::Blocked(task) => Some(task),
            _ => None,
        }
    }

    /// The state once `task` has been made to wait, unless an event has arrived
    /// already.
    pub open spec fn blocked(self, task: T) -> Self {
        if self is Ready {
            self
        } else {
            State::Blocked(task)
        }
    }

    /// Makes `task` wait, unless an event has arrived already. Says whether the
    /// task waits. A task that was waiting before is forgotten.
    pub fn block(&mut self, task: T) -> (waits: bool)
        ensures
            waits == !(*old(self) is Ready),
            *final(self) == old(self).blocked(task),
    {
        match self {
            State::Ready => false,
            State::Blocked(_) | State::NotReady => {
                *self = State::Blocked(task);
                true
            },
        }
    }

    /// Notes that an event has arrived, and hands out the task that waited.
    pub fn unblock(&mut self) -> (task: Option<T>)
        ensures
            *final(self) == State::<T>::Ready,
            task == old(self).waiting(),
    {
        let mut before = State::Ready;
        core::mem::swap(self, &mut before);
        match before {
            State::Ready | State::NotReady => None,
            State::Blocked(task) => Some(task),
        }
    }

    /// Whether a task waits.
    pub fn is_blocked(&self) -> (blocked: bool)
        ensures
            blocked == (*self is Blocked),
    {
        match self {
            State::Blocked(_) => true,
            _ => false,
        }
    }
}

/// Of the tasks that were made to wait, the last is the one that waits.
pub proof fn law_last_task_waits<T>(s: State<T>, first: T, last: T)
    requires
        !(s is Ready),
    ensures
        s.blocked(first).blocked(last) == State::Blocked(last),
        s.blocked(first).blocked(last).waiting() == Some(last),
{
}

/// Once an event has arrived, nobody waits any more, and nobody can be made to.
pub proof fn law_nobody_waits_after_an_event<T>(task: T)
    ensures
        State::<T>::Ready.waiting() is None,
        State::<T>::Ready.blocked(task) == State::<T>::Ready,
{
}

/// A task is made to wait exactly where no event has arrived, and it is then the
/// one that waits; where an event has arrived, nothing changes.
pub proof fn law_block_waits_for_an_event<T>(state: &mut State<T>, task: T, waits: bool)
    requires
        call_ensures(State::<T>::block, (state, task), waits),
    ensures
        waits <==> !(*old(state) is Ready),
        waits ==> *final(state) == State::Blocked(task),
        !waits ==> *final(state) == *old(state),
{
}

/// An event hands out the task that waits, if one does, and is remembered.
pub proof fn law_unblock_hands_out_who_waits<T>(state: &mut State<T>, task: Option<T>)
    requires
        call_ensures(State::<T>::unblock, (state,), task),
    ensures
        *final(state) is Ready,
        *old(state) is Blocked <==> task is Some,
        task matches Some(task) ==> *old(state) == State::Blocked(task),
{
}

/// A task that has been made to wait is found waiting, and handed out by the
/// next event; nobody waits after that.
pub proof fn law_blocked_task_is_unblocked<T>(
    state: &mut State<T>,
    task: T,
    blocked: &State<T>,
    found: bool,
    woken: &mut State<T>,
    handed: Option<T>,
    ready: &State<T>,
    found_again: bool,
)
    requires
        call_ensures(State::<T>::block, (state, task), true),
        *final(state) == *blocked,
        call_ensures(State::<T>::is_blocked, (blocked,), found),
        *old(woken) == *blocked,
        call_ensures(State::<T>::unblock, (woken,), handed),
        *final(woken) == *ready,
        call_ensures(State::<T>::is_blocked, (ready,), found_again),
    ensures
        found,
        handed == Some(task),
        !found_again,
{
}

} // verus!

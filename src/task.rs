//! The lifecycle of a scheduled task: its state, the transitions driven by
//! its handle, and the decision taken each time the task is polled.

use vstd::prelude::*;

verus! {

#[derive(Clone, Copy, Debug, Default, PartialEq, Eq, Structural)]
pub enum State {
    #[default]
    Pending,
    Running,
    Paused,
    Cancelled,
    Finished,
    Failed,
}

/// What a poll of the task does next.
#[derive(Clone, Copy, Debug, PartialEq, Eq, Structural)]
pub enum PollStep {
    /// Poll the inner future.
    Advance,
    /// Keep the waker and return pending without touching the inner future.
    Suspend,
    /// Return ready.
    Done,
}

impl State {
    pub open spec fn is_terminal(self) -> bool {
        self == State::Cancelled || self == State::Finished || self == State::Failed
    }

    /// The state after `pause`: only a running task pauses.
    pub open spec fn paused(self) -> State {
        if self == State::Running {
            State::Paused
        } else {
            self
        }
    }

    /// The state after `resume`: only a paused task resumes.
    pub open spec fn resumed(self) -> State {
        if self == State::Paused {
            State::Running
        } else {
            self
        }
    }

    /// The state after `cancel`: a task that has not ended is cancelled.
    pub open spec fn cancelled(self) -> State {
        if self.is_terminal() {
            self
        } else {
            State::Cancelled
        }
    }

    /// The state and step of a poll: a pending task starts running.
    pub open spec fn polled(self) -> (State, PollStep) {
        match self {
            State::Pending | State::Running => (State::Running, PollStep::Advance),
            State::Paused => (State::Paused, PollStep::Suspend),
            _ => (self, PollStep::Done),
        }
    }

    /// The state once the inner future has produced an outcome: a task that
    /// was cancelled meanwhile stays cancelled.
    pub open spec fn completed(self, ok: bool) -> State {
        if self.is_terminal() {
            self
        } else if ok {
            State::Finished
        } else {
            State::Failed
        }
    }
}

/// The shared part of a task: its state and, once it has ended on its own,
/// its outcome.
pub struct TaskCell<T, E> {
    state: State,
    outcome: Option<Result<T, E>>,
}

impl<T, E> TaskCell<T, E> {
    pub closed spec fn state_of(&self) -> State {
        self.state
    }

    /// What the inner future produced, once the task ended on its own.
    pub closed spec fn outcome_of(&self) -> Option<Result<T, E>> {
        self.outcome
    }

    /// A result is held exactly when the task finished, an error exactly
    /// when it failed.
    pub closed spec fn wf(&self) -> bool {
        &&& (self.outcome matches Some(Ok(_))) == (self.state == State::Finished)
        &&& (self.outcome matches Some(Err(_))) == (self.state == State::Failed)
    }

    pub fn new() -> (r: TaskCell<T, E>)
        ensures
            r.wf(),
            r.state_of() == State::Pending,
    {
        TaskCell { state: State::Pending, outcome: None }
    }

    pub fn state(&self) -> (r: State)
        ensures
            r == self.state_of(),
    {
        self.state
    }

    /// Pauses a running task; returns whether the state changed, in which
    /// case the task must be woken.
    pub fn pause(&mut self) -> (changed: bool)
        requires
            old(self).wf(),
        ensures
            final(self).wf(),
            final(self).state_of() == old(self).state_of().paused(),
            changed == (old(self).state_of() == State::Running),
    {
        if self.state == State::Running {
            self.state = State::Paused;
            true
        } else {
            false
        }
    }

    /// Resumes a paused task; returns whether the state changed.
    pub fn resume(&mut self) -> (changed: bool)
        requires
            old(self).wf(),
        ensures
            final(self).wf(),
            final(self).state_of() == old(self).state_of().resumed(),
            changed == (old(self).state_of() == State::Paused),
    {
        if self.state == State::Paused {
            self.state = State::Running;
            true
        } else {
            false
        }
    }

    /// Cancels a task that has not ended; returns whether the state changed.
    pub fn cancel(&mut self) -> (changed: bool)
        requires
            old(self).wf(),
        ensures
            final(self).wf(),
            final(self).state_of() == old(self).state_of().cancelled(),
            changed == !old(self).state_of().is_terminal(),
            changed ==> final(self).outcome_of() is None,
            !changed ==> final(self).outcome_of() == old(self).outcome_of(),
    {
        match self.state {
            State::Pending | State::Running | State::Paused => {
                self.state = State::Cancelled;
                true
            },
            _ => false,
        }
    }

    /// Decides what a poll does, starting a pending task.
    pub fn begin_poll(&mut self) -> (r: PollStep)
        requires
            old(self).wf(),
        ensures
            final(self).wf(),
            (final(self).state_of(), r) == old(self).state_of().polled(),
    {
        match self.state {
            State::Pending | State::Running => {
                self.state = State::Running;
                PollStep::Advance
            },
            State::Paused => PollStep::Suspend,
            _ => PollStep::Done,
        }
    }

    /// Records the outcome of the inner future, unless the task has ended.
    pub fn complete(&mut self, outcome: Result<T, E>)
        requires
            old(self).wf(),
        ensures
            final(self).wf(),
            final(self).state_of() == old(self).state_of().completed(outcome is Ok),
            old(self).state_of().is_terminal() ==> final(self).outcome_of() == old(self).outcome_of(),
            !old(self).state_of().is_terminal() ==> final(self).outcome_of() == Some(outcome),
    {
        if self.state == State::Cancelled || self.state == State::Finished || self.state
            == State::Failed {
            return ;
        }
        match outcome {
            Ok(v) => {
                self.state = State::Finished;
                self.outcome = Some(Ok(v));
            },
            Err(e) => {
                self.state = State::Failed;
                self.outcome = Some(Err(e));
            },
        }
    }

    /// The result, present exactly when the task finished.
    pub fn result(&self) -> (r: Option<&T>)
        requires
            self.wf(),
        ensures
            r is Some == (self.state_of() == State::Finished),
            r matches Some(v) ==> self.outcome_of() == Some(Ok::<T, E>(*v)),
    {
        match &self.outcome {
            Some(Ok(v)) => Some(v),
            _ => None,
        }
    }

    /// The error, present exactly when the task failed.
    pub fn error(&self) -> (r: Option<&E>)
        requires
            self.wf(),
        ensures
            r is Some == (self.state_of() == State::Failed),
            r matches Some(e) ==> self.outcome_of() == Some(Err::<T, E>(*e)),
    {
        match &self.outcome {
            Some(Err(e)) => Some(e),
            _ => None,
        }
    }
}

/// Pausing a running task makes the next poll suspend without advancing the
/// inner future; resuming it makes the poll after that advance it.
pub proof fn lemma_pause_suspends_resume_advances(s: State)
    requires
        s == State::Running,
    ensures
        s.paused().polled().1 == PollStep::Suspend,
        s.paused().polled().0 == State::Paused,
        s.paused().resumed().polled().1 == PollStep::Advance,
{
}

/// Cancelling a pending, running or paused task ends it: every later poll
/// returns ready, no later outcome is recorded, and no pause or resume
/// revives it.
pub proof fn lemma_cancel_is_final(s: State, ok: bool)
    requires
        s == State::Pending || s == State::Running || s == State::Paused,
    ensures
        s.cancelled() == State::Cancelled,
        s.cancelled().polled() == (State::Cancelled, PollStep::Done),
        s.cancelled().completed(ok) == State::Cancelled,
        s.cancelled().paused() == State::Cancelled,
        s.cancelled().resumed() == State::Cancelled,
{
}

} // verus!

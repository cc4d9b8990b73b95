//! Supervised tasks: what an observer of a cancellable background task
//! perceives, and the bookkeeping that lets its outcome be read only once.
use vstd::prelude::*;

verus! {

/// The latest lifecycle or progress report of a supervised task.
#[derive(Clone, Debug)]
pub enum TaskStateUpdate<E> {
    Init,
    Started,
    Progress(E),
}

/// Why a supervised task did not end cleanly.
#[derive(Clone, Debug, PartialEq, Eq)]
pub enum TaskError {
    /// The work returned an error, with its cause.
    Failed(String),
    /// The work panicked, with the panic's message.
    Panicked(String),
    /// The work was aborted before it could finish.
    Cancelled,
    /// The outcome was asked for after it had already been taken.
    JoinedMoreThanOnce,
}

/// What an observer of a supervised task perceives: a new status, or the end
/// of the task with its outcome.
#[derive(Debug)]
pub enum TaskEvent<E> {
    Update(TaskStateUpdate<E>),
    End(Result<(), TaskError>),
}

/// How the spawned work came to an end, as its join reports it.
#[derive(Clone, Debug, PartialEq, Eq)]
pub enum TaskExit {
    Finished,
    Failed(String),
    Panicked(String),
    Cancelled,
}

/// What the status channel delivered to a waiting observer.
#[derive(Clone, Debug)]
pub enum ChannelSignal<E> {
    Changed(TaskStateUpdate<E>),
    Closed,
}

/// What the observer does next: hand out an event, or join the task and hand
/// out its end.
#[derive(Debug)]
pub enum ObserveStep<E> {
    Emit(TaskEvent<E>),
    AwaitJoin,
}

pub open spec fn exit_result_spec(exit: TaskExit) -> Result<(), TaskError> {
    match exit {
        TaskExit::Finished => Ok(()),
        TaskExit::Failed(m) => Err(TaskError::Failed(m)),
        TaskExit::Panicked(m) => Err(TaskError::Panicked(m)),
        TaskExit::Cancelled => Err(TaskError::Cancelled),
    }
}

/// The observer's next step, and whether the join is still pending after it.
pub open spec fn observe_spec<E>(join_pending: bool, signal: ChannelSignal<E>) -> (bool, ObserveStep<E>) {
    match signal {
        ChannelSignal::Changed(u) => (join_pending, ObserveStep::Emit(TaskEvent::Update(u))),
        ChannelSignal::Closed => if join_pending {
            (false, ObserveStep::AwaitJoin)
        } else {
            (false, ObserveStep::Emit(TaskEvent::End(Err(TaskError::JoinedMoreThanOnce))))
        },
    }
}

/// How many times the task is joined while the observer handles `signals`.
pub open spec fn joins<E>(join_pending: bool, signals: Seq<ChannelSignal<E>>) -> nat
    decreases signals.len(),
{
    if signals.len() == 0 {
        0
    } else {
        let (pending, step) = observe_spec(join_pending, signals[0]);
        (if step is AwaitJoin {
            1nat
        } else {
            0nat
        }) + joins(pending, signals.drop_first())
    }
}

pub open spec fn has_closed<E>(signals: Seq<ChannelSignal<E>>) -> bool {
    exists|i: int| 0 <= i < signals.len() && (#[trigger] signals[i]) is Closed
}

/// However the observer is driven, the task is joined at most once, and it
/// is joined exactly once as soon as its status channel has been seen closed,
/// which happens however the work ended, a panic included.
pub proof fn lemma_joined_exactly_once<E>(join_pending: bool, signals: Seq<ChannelSignal<E>>)
    ensures
        joins(join_pending, signals) <= 1,
        !join_pending ==> joins(join_pending, signals) == 0,
        join_pending ==> (joins(join_pending, signals) == 1 <==> has_closed(signals)),
    decreases signals.len(),
{
    if signals.len() > 0 {
        let (pending, step) = observe_spec(join_pending, signals[0]);
        let rest = signals.drop_first();
        lemma_joined_exactly_once(pending, rest);
        if has_closed(rest) {
            let i = choose|i: int| 0 <= i < rest.len() && (#[trigger] rest[i]) is Closed;
            assert(signals[i + 1] == rest[i]);
        }
        if has_closed(signals) && !(signals[0] is Closed) {
            let i = choose|i: int| 0 <= i < signals.len() && (#[trigger] signals[i]) is Closed;
            assert(rest[i - 1] == signals[i]);
        }
    }
}

/// The outcome of the task as its end event reports it.
pub fn exit_result(exit: TaskExit) -> (r: Result<(), TaskError>)
    ensures
        r == exit_result_spec(exit),
{
    match exit {
        TaskExit::Finished => Ok(()),
        TaskExit::Failed(m) => Err(TaskError::Failed(m)),
        TaskExit::Panicked(m) => Err(TaskError::Panicked(m)),
        TaskExit::Cancelled => Err(TaskError::Cancelled),
    }
}

/// The observer's side of a supervised task: whether the task's outcome is
/// still to be taken by a join.
#[derive(Debug)]
pub struct TaskMonitor {
    join_pending: bool,
}

impl TaskMonitor {
    pub closed spec fn join_pending_spec(&self) -> bool {
        self.join_pending
    }

    /// The monitor of a task that was just spawned.
    pub fn spawned() -> (r: TaskMonitor)
        ensures
            r.join_pending_spec(),
    {
        TaskMonitor { join_pending: true }
    }

    pub fn join_pending(&self) -> (r: bool)
        ensures
            r == self.join_pending_spec(),
    {
        self.join_pending
    }

    /// The status a task's channel holds before anyone observes it: already
    /// `Started`, never a stale `Init`.
    pub fn initial_status<E>() -> (r: TaskStateUpdate<E>)
        ensures
            r is Started,
    {
        TaskStateUpdate::Started
    }

    /// Handles what the status channel delivered: a change is handed out as
    /// an update; the first close asks for the join, and every later close
    /// reports that the outcome was already taken.
    pub fn on_signal<E>(&mut self, signal: ChannelSignal<E>) -> (r: ObserveStep<E>)
        ensures
            (final(self).join_pending_spec(), r) == observe_spec(old(self).join_pending_spec(), signal),
    {
        match signal {
            ChannelSignal::Changed(u) => ObserveStep::Emit(TaskEvent::Update(u)),
            ChannelSignal::Closed => {
                if self.join_pending {
                    self.join_pending = false;
                    ObserveStep::AwaitJoin
                } else {
                    ObserveStep::Emit(TaskEvent::End(Err(TaskError::JoinedMoreThanOnce)))
                }
            },
        }
    }

    /// The end event for a task whose join reported `exit`.
    pub fn joined<E>(exit: TaskExit) -> (r: TaskEvent<E>)
        ensures
            r == TaskEvent::<E>::End(exit_result_spec(exit)),
    {
        TaskEvent::End(exit_result(exit))
    }

    /// Starts a shutdown. Returns whether the task must be told to cancel
    /// and then joined; once its outcome was taken there is nothing to wait
    /// for. Either way no join is left pending.
    pub fn begin_shutdown(&mut self) -> (r: bool)
        ensures
            r == old(self).join_pending_spec(),
            !final(self).join_pending_spec(),
    {
        let r = self.join_pending;
        self.join_pending = false;
        r
    }
}

} // verus!

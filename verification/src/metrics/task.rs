//! The life of a task that reports in the background.

use vstd::prelude::*;

use crate::clock::Duration;

verus! {

/// How long a shutdown waits for the last heartbeat, in seconds.
pub const HEARTBEAT_SHUTDOWN_SECS: u64 = 3;

/// How long a shutdown waits for the last push, in seconds.
pub const PUSH_SHUTDOWN_SECS: u64 = 5;

/// How long log lines about failed heartbeats are kept back, in seconds.
pub const WARN_WINDOW_SECS: u64 = 30;

/// Where a background task stands.
#[derive(Debug, Clone, Copy, PartialEq, Eq, Structural)]
pub enum TaskPhase {
    /// The tick that comes at once is let pass.
    Starting,
    /// A tick, or the signal to flush, is waited for.
    Waiting,
    /// A report is made.
    Reporting,
    /// The task has ended.
    Ended,
}

/// The loop of a background task: it reports each time it is woken, and ends after
/// the first report that finds it closed.
#[derive(Debug, Clone, Copy)]
pub struct ReportLoop {
    /// Where the task stands.
    pub phase: TaskPhase,
}

impl ReportLoop {
    /// Starts the loop.
    pub fn start() -> (r: ReportLoop)
        ensures
            r.phase == TaskPhase::Starting,
    {
        ReportLoop { phase: TaskPhase::Starting }
    }

    /// The phase that comes after `phase`, when the task is or is not closed at the
    /// end of it.
    pub open spec fn phase_after(phase: TaskPhase, closed: bool) -> TaskPhase {
        match phase {
            TaskPhase::Starting => TaskPhase::Waiting,
            TaskPhase::Waiting => TaskPhase::Reporting,
            TaskPhase::Reporting => if closed {
                TaskPhase::Ended
            } else {
                TaskPhase::Waiting
            },
            TaskPhase::Ended => TaskPhase::Ended,
        }
    }

    /// Goes on to the next phase once the present one is over.
    pub fn step(&mut self, closed: bool) -> (r: TaskPhase)
        ensures
            r == ReportLoop::phase_after(old(self).phase, closed),
            final(self).phase == r,
    {
        self.phase = match self.phase {
            TaskPhase::Starting => TaskPhase::Waiting,
            TaskPhase::Waiting => TaskPhase::Reporting,
            TaskPhase::Reporting => if closed {
                TaskPhase::Ended
            } else {
                TaskPhase::Waiting
            },
            TaskPhase::Ended => TaskPhase::Ended,
        };
        self.phase
    }
}

/// The phase after `flags.len()` steps, where each flag says whether the task is
/// closed at the end of its phase.
pub open spec fn phase_after_all(phase: TaskPhase, flags: Seq<bool>) -> TaskPhase
    decreases flags.len(),
{
    if flags.len() == 0 {
        phase
    } else {
        ReportLoop::phase_after(phase_after_all(phase, flags.drop_last()), flags.last())
    }
}

/// A task that is closed while it waits reports once more, and ends.
pub proof fn law_closing_flushes_once(phase: TaskPhase)
    requires
        phase == TaskPhase::Waiting,
    ensures
        phase_after_all(phase, seq![true]) == TaskPhase::Reporting,
        phase_after_all(phase, seq![true, true]) == TaskPhase::Ended,
{
    reveal_with_fuel(phase_after_all, 3);
    assert(seq![true, true].drop_last() =~= seq![true]);
    assert(seq![true].drop_last() =~= Seq::<bool>::empty());
}

/// A task that is never closed never ends, and one that has ended stays so.
pub proof fn law_only_closing_ends_a_task(phase: TaskPhase, flags: Seq<bool>)
    ensures
        phase == TaskPhase::Ended ==> phase_after_all(phase, flags) == TaskPhase::Ended,
        phase != TaskPhase::Ended && !flags.contains(true) ==> phase_after_all(phase, flags)
            != TaskPhase::Ended,
    decreases flags.len(),
{
    if flags.len() > 0 {
        law_only_closing_ends_a_task(phase, flags.drop_last());
        if !flags.contains(true) {
            assert(flags.last() == flags[flags.len() - 1]);
            assert forall|i: int| 0 <= i < flags.drop_last().len() implies !(
            #[trigger] flags.drop_last()[i]) by {
                assert(flags[i] == flags.drop_last()[i]);
            }
        }
    }
}

/// What the owner of a background task knows of it.
#[derive(Debug, Clone, Copy)]
pub struct TaskControl {
    /// Whether the task is to end.
    pub closed: bool,
    /// Whether the task has not been waited for yet.
    pub joinable: bool,
    /// How long a shutdown waits for the task.
    pub shutdown_secs: u64,
}

impl TaskControl {
    /// The control of a task that has just been started.
    pub fn new(shutdown_secs: u64) -> (r: TaskControl)
        ensures
            r == (TaskControl { closed: false, joinable: true, shutdown_secs }),
    {
        TaskControl { closed: false, joinable: true, shutdown_secs }
    }

    /// Closes the task. Gives out how long it is waited for after the signal to
    /// flush, or nothing if a shutdown has waited for it before.
    pub fn shutdown(&mut self) -> (r: Option<Duration>)
        ensures
            final(self).closed,
            !final(self).joinable,
            final(self).shutdown_secs == old(self).shutdown_secs,
            r == (if old(self).joinable {
                Some(Duration::secs(old(self).shutdown_secs as int))
            } else {
                None
            }),
    {
        self.closed = true;
        if self.joinable {
            self.joinable = false;
            Some(Duration::from_secs(self.shutdown_secs))
        } else {
            None
        }
    }
}

} // verus!

//! The flash session: the ordered tasks of one flashing run, from dispatch
//! to drain. The driver spawns one writer per target when the session
//! starts, and joins them all, in task order, once the monitor has seen
//! every task finish.

use vstd::prelude::*;
use crate::report::{ErrorCollector, FailedDevice, WriteFailure, lemma_failures_bound, spec_failures};
use crate::task::Task;

verus! {

/// Where the session stands: no run in flight, writers running, or all
/// writers observed finished and waiting to be drained.
#[derive(Clone, Copy, PartialEq, Eq, Structural, Debug)]
pub enum SessionPhase {
    Idle,
    Running,
    Draining,
}

/// The device identifiers of `tasks`, in task order.
pub open spec fn task_ids(tasks: Seq<Task>) -> Seq<String> {
    tasks.map(|i: int, t: Task| t.device_id)
}

pub open spec fn all_tasks_finished(tasks: Seq<Task>) -> bool {
    forall|i: int| 0 <= i < tasks.len() ==> tasks[i].finished
}

/// One flashing run: an ordered sequence of tasks, index-aligned with the
/// writer threads the driver spawned for them.
pub struct FlashSession {
    pub phase: SessionPhase,
    pub tasks: Vec<Task>,
}

impl FlashSession {
    /// An idle session holds no tasks; a draining one holds at least one,
    /// all finished.
    pub open spec fn wf(&self) -> bool {
        &&& self.phase is Idle ==> self.tasks@.len() == 0
        &&& self.phase is Draining ==> self.tasks@.len() > 0 && all_tasks_finished(self.tasks@)
    }

    pub open spec fn all_finished(&self) -> bool {
        all_tasks_finished(self.tasks@)
    }

    pub fn new() -> (s: FlashSession)
        ensures
            s.wf(),
            s.phase is Idle,
            s.tasks@.len() == 0,
    {
        FlashSession { phase: SessionPhase::Idle, tasks: Vec::new() }
    }

    /// Dispatch: creates one fresh task per target, in target order, so any
    /// consumer can correlate tasks with targets by index. Starting while a
    /// run is already in flight is contractually unreachable.
    pub fn start(&mut self, targets: &Vec<String>)
        requires
            old(self).wf(),
            old(self).phase is Idle,
        ensures
            final(self).wf(),
            final(self).phase is Running,
            final(self).tasks@.len() == targets@.len(),
            forall|i: int| 0 <= i < targets@.len() ==> final(self).tasks@[i].is_fresh(
                targets@[i]@,
            ),
    {
        let mut tasks: Vec<Task> = Vec::new();
        let n = targets.len();
        let mut i: usize = 0;
        while i < n
            invariant
                n == targets@.len(),
                i <= n,
                tasks@.len() == i,
                forall|j: int| 0 <= j < i ==> tasks@[j].is_fresh(targets@[j]@),
            decreases n - i,
        {
            let target = &targets[i];
            tasks.push(Task::new(target.clone()));
            i += 1;
        }
        self.tasks = tasks;
        self.phase = SessionPhase::Running;
    }

    /// Drain: pairs each task, in task order, with the outcome the driver
    /// retrieved by joining that task's writer, collects an entry for every
    /// failure, and returns the session to its empty, reusable state.
    ///
    /// Draining is entered only by the monitor poll that observed every
    /// task finished, so draining before completion — or twice — is
    /// contractually unreachable.
    pub fn drain(&mut self, outcomes: &Vec<Result<(), WriteFailure>>) -> (errors: ErrorCollector)
        requires
            old(self).wf(),
            old(self).phase is Draining,
            outcomes@.len() == old(self).tasks@.len(),
        ensures
            final(self).wf(),
            final(self).phase is Idle,
            final(self).tasks@.len() == 0,
            errors.entries@ == spec_failures(task_ids(old(self).tasks@), outcomes@),
            errors.entries@.len() <= old(self).tasks@.len(),
    {
        let ghost ids = task_ids(self.tasks@);
        let mut entries: Vec<FailedDevice> = Vec::new();
        let n = self.tasks.len();
        let mut i: usize = 0;
        while i < n
            invariant
                self.tasks@ == old(self).tasks@,
                ids == task_ids(self.tasks@),
                n == self.tasks@.len(),
                outcomes@.len() == n,
                i <= n,
                entries@ == spec_failures(ids.take(i as int), outcomes@.take(i as int)),
            decreases n - i,
        {
            match outcomes[i] {
                Ok(()) => {},
                Err(reason) => {
                    let task = &self.tasks[i];
                    entries.push(FailedDevice { device_id: task.device_id.clone(), reason });
                },
            }
            proof {
                assert(ids.take(i + 1).drop_last() =~= ids.take(i as int));
                assert(outcomes@.take(i + 1).drop_last() =~= outcomes@.take(i as int));
                assert(entries@ =~= spec_failures(ids.take(i + 1), outcomes@.take(i + 1)));
            }
            i += 1;
        }
        proof {
            assert(ids.take(n as int) =~= ids);
            assert(outcomes@.take(n as int) =~= outcomes@);
            lemma_failures_bound(ids, outcomes@);
        }
        self.tasks = Vec::new();
        self.phase = SessionPhase::Idle;
        ErrorCollector { entries }
    }
}

/// A session that has just started cannot be drained: with at least one
/// target dispatched and no writer finished yet, the completion the drain
/// precondition rests on cannot hold.
pub proof fn lemma_fresh_session_not_drainable(s: FlashSession)
    requires
        s.phase is Running,
        s.tasks@.len() > 0,
        forall|i: int| 0 <= i < s.tasks@.len() ==> !s.tasks@[i].finished,
    ensures
        !(s.phase is Draining),
        !s.all_finished(),
{
    assert(!s.tasks@[0].finished);
}

} // verus!

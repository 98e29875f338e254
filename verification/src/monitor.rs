//! The periodic monitor pass. A driver invokes `poll` on a fixed cadence
//! with a fresh reading of every task's counters; the poll dispatches on
//! the session latch first, then on the buffer's load phase, updates the
//! sample rings in task order, and detects whole-batch completion.

use vstd::prelude::*;
use crate::buffer::{BufferingData, LoadPhase};
use crate::report::{ErrorCollector, WriteFailure, spec_failures};
use crate::session::{FlashSession, SessionPhase, task_ids};
use crate::task::{Fraction, Task, TaskReading, spec_fraction, spec_observe, spec_rate};
use crate::text::{rate_label, spec_rate_label, spec_summary, summary_message};

verus! {

/// What the image-selection display shows after a poll with no session
/// running: a busy indicator while loading, and the chosen image's path
/// and size — with the proceed control enabled — once it is ready.
pub struct ImageView {
    pub busy: bool,
    pub proceed_enabled: bool,
    pub image_path: String,
    pub image_size: u64,
}

/// The view a buffer in the given state calls for. Path and size are shown
/// only when the buffer is ready.
pub open spec fn view_reflects(v: ImageView, b: BufferingData) -> bool {
    &&& v.busy == (b.phase is Loading)
    &&& v.proceed_enabled == (b.phase is Ready)
    &&& v.image_path@ == if b.phase is Ready { b.path@ } else { Seq::<char>::empty() }
    &&& v.image_size == if b.phase is Ready { b.bytes@.len() as int } else { 0 }
}

/// One task's display slot after a poll: the exact progress fraction and
/// the formatted smoothed-rate label.
pub struct TaskDisplay {
    pub fraction: Fraction,
    pub rate_text: String,
}

/// The slot a task in the given state calls for.
pub open spec fn display_reflects(d: TaskDisplay, t: Task, total: u64) -> bool {
    &&& d.fraction == spec_fraction(t.finished, t.bytes_written, total)
    &&& d.rate_text@ == spec_rate_label(spec_rate(t.delta4, t.delta5, t.delta6) as nat)
}

/// One slot per task, in task order.
pub open spec fn displays_reflect(ds: Seq<TaskDisplay>, tasks: Seq<Task>, total: u64) -> bool {
    &&& ds.len() == tasks.len()
    &&& forall|i: int| 0 <= i < ds.len() ==> display_reflects(ds[i], tasks[i], total)
}

/// A poll observed every task finished: at least one task was dispatched
/// and no reading is still unfinished.
pub open spec fn spec_completed(readings: Seq<TaskReading>) -> bool {
    &&& readings.len() > 0
    &&& forall|i: int| 0 <= i < readings.len() ==> readings[i].finished
}

/// What one monitor pass produced.
pub enum PollStep {
    /// Nothing to show: no session running and the buffer is empty.
    /// Reschedule.
    Quiet,
    /// No session running: bring the image-selection display up to date.
    /// Reschedule.
    Observe(ImageView),
    /// Flashing, and some task is still writing: update every task's slot.
    /// Reschedule.
    Progress(Vec<TaskDisplay>),
    /// Every task has finished: the final slots. Join the writers and
    /// drain; stop rescheduling.
    AllFinished(Vec<TaskDisplay>),
}

impl PollStep {
    /// The consumer keeps polling until a pass reports the batch finished.
    pub fn should_reschedule(&self) -> (r: bool)
        ensures
            r == !(self is AllFinished),
    {
        match self {
            PollStep::AllFinished(_) => false,
            _ => true,
        }
    }
}

/// What the consumer is handed once the session is drained: the summary
/// line and the per-device failure report.
pub struct Completion {
    pub summary: String,
    pub errors: ErrorCollector,
}

/// The polling coordinator: the image buffer, the session latch with its
/// tasks, and the image size used for progress fractions.
pub struct Monitor {
    pub buffer: BufferingData,
    pub session: FlashSession,
    pub image_length: u64,
}

impl Monitor {
    pub open spec fn wf(&self) -> bool {
        &&& self.buffer.wf()
        &&& self.session.wf()
    }

    pub fn new() -> (m: Monitor)
        ensures
            m.wf(),
            m.buffer.phase is Empty,
            m.buffer.path@.len() == 0,
            m.buffer.bytes@.len() == 0,
            m.session.phase is Idle,
            m.session.tasks@.len() == 0,
            m.image_length == 0,
    {
        Monitor { buffer: BufferingData::new(), session: FlashSession::new(), image_length: 0 }
    }

    /// Begins flashing: takes the ready image out of the buffer — so no
    /// later load can touch the bytes the writers share — records its size
    /// for the progress fractions, and dispatches one fresh task per
    /// target. The driver hands the returned bytes to the writer threads,
    /// one per task, in task order.
    pub fn start_flash(&mut self, targets: &Vec<String>) -> (image: Vec<u8>)
        requires
            old(self).wf(),
            old(self).session.phase is Idle,
            old(self).buffer.phase is Ready,
        ensures
            final(self).wf(),
            final(self).session.phase is Running,
            final(self).session.tasks@.len() == targets@.len(),
            forall|i: int| 0 <= i < targets@.len() ==> final(self).session.tasks@[i].is_fresh(
                targets@[i]@,
            ),
            final(self).image_length == old(self).buffer.bytes@.len(),
            image@ == old(self).buffer.bytes@,
            final(self).buffer.phase is Empty,
            final(self).buffer.bytes@.len() == 0,
            final(self).buffer.path == old(self).buffer.path,
    {
        let n = self.buffer.size();
        self.image_length = n as u64;
        let mut image: Vec<u8> = Vec::new();
        core::mem::swap(&mut image, &mut self.buffer.bytes);
        self.buffer.phase = LoadPhase::Empty;
        self.session.start(targets);
        image
    }

    /// One monitor pass. The session latch is checked first: while a
    /// session is running the pass reads every task, in task order, updates
    /// its sample ring, and computes its display slot; once every reading
    /// is finished the session moves to draining and the pass says to stop
    /// rescheduling. With no session running the pass only brings the
    /// image-selection display up to date, recording the image size when
    /// the buffer is ready — so a later poll never re-enters the per-task
    /// work of a batch already observed complete.
    ///
    /// Each task's counter has a single writer, so a fresh reading is never
    /// behind the last one, and the finished flag, set once, stays set.
    pub fn poll(&mut self, readings: &Vec<TaskReading>) -> (step: PollStep)
        requires
            old(self).wf(),
            old(self).session.phase is Running ==> {
                &&& readings@.len() == old(self).session.tasks@.len()
                &&& forall|i: int| 0 <= i < readings@.len() ==> {
                    &&& old(self).session.tasks@[i].bytes_written <= readings@[i].bytes_written
                    &&& (old(self).session.tasks@[i].finished ==> readings@[i].finished)
                }
            },
        ensures
            final(self).wf(),
            final(self).buffer == old(self).buffer,
            !(old(self).session.phase is Running) ==> {
                &&& final(self).session == old(self).session
                &&& (old(self).buffer.phase is Empty ==> step is Quiet)
                &&& (!(old(self).buffer.phase is Empty) ==> {
                    &&& step matches PollStep::Observe(v)
                    &&& view_reflects(v, old(self).buffer)
                })
                &&& (old(self).buffer.phase is Ready ==> final(self).image_length
                    == old(self).buffer.bytes@.len())
                &&& (!(old(self).buffer.phase is Ready) ==> final(self).image_length
                    == old(self).image_length)
            },
            old(self).session.phase is Running ==> {
                &&& final(self).image_length == old(self).image_length
                &&& final(self).session.tasks@.len() == old(self).session.tasks@.len()
                &&& forall|i: int| 0 <= i < readings@.len() ==> final(self).session.tasks@[i]
                    == spec_observe(old(self).session.tasks@[i], readings@[i])
                &&& (spec_completed(readings@) ==> {
                    &&& final(self).session.phase is Draining
                    &&& step matches PollStep::AllFinished(ds)
                    &&& displays_reflect(ds@, final(self).session.tasks@, old(self).image_length)
                })
                &&& (!spec_completed(readings@) ==> {
                    &&& final(self).session.phase is Running
                    &&& step matches PollStep::Progress(ds)
                    &&& displays_reflect(ds@, final(self).session.tasks@, old(self).image_length)
                })
            },
    {
        match self.session.phase {
            SessionPhase::Running => {
                let total = self.image_length;
                let n = self.session.tasks.len();
                let mut displays: Vec<TaskDisplay> = Vec::new();
                let mut all_done = true;
                let mut i: usize = 0;
                while i < n
                    invariant
                        self.session.phase is Running,
                        self.buffer == old(self).buffer,
                        self.image_length == old(self).image_length,
                        total == self.image_length,
                        n == self.session.tasks@.len(),
                        n == old(self).session.tasks@.len(),
                        readings@.len() == n,
                        i <= n,
                        displays@.len() == i,
                        forall|j: int| 0 <= j < n ==> old(self).session.tasks@[j].bytes_written
                            <= readings@[j].bytes_written,
                        forall|j: int| 0 <= j < n ==> (old(self).session.tasks@[j].finished
                            ==> readings@[j].finished),
                        forall|j: int| i <= j < n ==> self.session.tasks@[j]
                            == old(self).session.tasks@[j],
                        forall|j: int| 0 <= j < i ==> self.session.tasks@[j]
                            == spec_observe(old(self).session.tasks@[j], readings@[j]),
                        forall|j: int| 0 <= j < i ==> display_reflects(
                            displays@[j],
                            self.session.tasks@[j],
                            total,
                        ),
                        all_done == (forall|j: int| 0 <= j < i ==> readings@[j].finished),
                    decreases n - i,
                {
                    let reading = readings[i];
                    let task = &mut self.session.tasks[i];
                    task.observe(reading);
                    let task = &self.session.tasks[i];
                    let fraction = task.fraction(total);
                    let rate_text = rate_label(task.rate());
                    displays.push(TaskDisplay { fraction, rate_text });
                    if !reading.finished {
                        all_done = false;
                    }
                    i += 1;
                }
                if all_done && n > 0 {
                    self.session.phase = SessionPhase::Draining;
                    PollStep::AllFinished(displays)
                } else {
                    PollStep::Progress(displays)
                }
            },
            _ => {
                match self.buffer.phase {
                    LoadPhase::Empty => PollStep::Quiet,
                    LoadPhase::Loading => PollStep::Observe(
                        ImageView {
                            busy: true,
                            proceed_enabled: false,
                            image_path: String::new(),
                            image_size: 0,
                        },
                    ),
                    LoadPhase::Ready => {
                        let size = self.buffer.size();
                        self.image_length = size as u64;
                        PollStep::Observe(
                            ImageView {
                                busy: false,
                                proceed_enabled: true,
                                image_path: self.buffer.path.clone(),
                                image_size: size as u64,
                            },
                        )
                    },
                    LoadPhase::Invalidated => PollStep::Observe(
                        ImageView {
                            busy: false,
                            proceed_enabled: false,
                            image_path: String::new(),
                            image_size: 0,
                        },
                    ),
                }
            },
        }
    }

    /// Completion: once a poll has reported the batch finished and the
    /// driver has joined every writer, their outcomes — index-aligned with
    /// the tasks — become the error report and the summary line, and the
    /// session returns to its empty, reusable state.
    pub fn drain(&mut self, outcomes: &Vec<Result<(), WriteFailure>>) -> (done: Completion)
        requires
            old(self).wf(),
            old(self).session.phase is Draining,
            outcomes@.len() == old(self).session.tasks@.len(),
        ensures
            final(self).wf(),
            final(self).session.phase is Idle,
            final(self).session.tasks@.len() == 0,
            final(self).buffer == old(self).buffer,
            final(self).image_length == old(self).image_length,
            done.errors.entries@ == spec_failures(task_ids(old(self).session.tasks@), outcomes@),
            done.summary@ == spec_summary(
                (old(self).session.tasks@.len() - done.errors.entries@.len()) as nat,
                old(self).session.tasks@.len() as nat,
            ),
    {
        let total = self.session.tasks.len();
        let errors = self.session.drain(outcomes);
        let failed = errors.len();
        let summary = summary_message((total - failed) as u64, total as u64);
        Completion { summary, errors }
    }
}

} // verus!

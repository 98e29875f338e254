//! Per-target progress records: the raw byte counter and finished flag as
//! last observed, and a six-slot ring of recent byte-count deltas from which
//! the smoothed transfer rate is computed.

use vstd::prelude::*;

verus! {

/// A task's displayed progress, as an exact ratio of bytes written to the
/// total image size. The consumer turns it into a floating-point fraction;
/// the library keeps it exact.
#[derive(Clone, Copy, PartialEq, Eq, Structural, Debug)]
pub struct Fraction {
    pub num: u64,
    pub den: u64,
}

impl Fraction {
    /// Exactly complete: one over one.
    pub fn whole() -> (f: Fraction)
        ensures
            f == (Fraction { num: 1u64, den: 1u64 }),
    {
        Fraction { num: 1, den: 1 }
    }

    /// Exactly nothing: zero over one.
    pub fn zero() -> (f: Fraction)
        ensures
            f == (Fraction { num: 0u64, den: 1u64 }),
    {
        Fraction { num: 0, den: 1 }
    }
}

/// What one poll observes of a task's writer: the cumulative byte counter
/// and the finished flag. The writer is the only party that advances them;
/// the monitor only reads.
#[derive(Clone, Copy, PartialEq, Eq, Structural, Debug)]
pub struct TaskReading {
    pub bytes_written: u64,
    pub finished: bool,
}

/// The fraction shown for a task: whole once the writer has finished,
/// otherwise the raw counter over the total image size, and zero while a
/// zero-sized image is still being written (the divide-by-zero guard).
pub open spec fn spec_fraction(finished: bool, raw: u64, total: u64) -> Fraction {
    if finished {
        Fraction { num: 1u64, den: 1u64 }
    } else if total == 0 {
        Fraction { num: 0u64, den: 1u64 }
    } else {
        Fraction { num: raw, den: total }
    }
}

/// The smoothed rate: the mean of the three most recently inserted deltas,
/// in bytes per poll interval.
pub open spec fn spec_rate(d4: u64, d5: u64, d6: u64) -> int {
    (d4 + d5 + d6) / 3
}

/// Progress record for one target device. `bytes_written` doubles as the
/// ring's baseline: it is the raw counter observed at the previous poll,
/// and each new observation inserts the difference as the newest delta.
pub struct Task {
    pub device_id: String,
    pub bytes_written: u64,
    pub finished: bool,
    pub delta1: u64,
    pub delta2: u64,
    pub delta3: u64,
    pub delta4: u64,
    pub delta5: u64,
    pub delta6: u64,
}

/// The task state after one observation: counter and flag taken from the
/// reading, the ring shifted left by one slot, the difference from the
/// previous counter inserted as the newest delta.
pub open spec fn spec_observe(t: Task, r: TaskReading) -> Task {
    Task {
        device_id: t.device_id,
        bytes_written: r.bytes_written,
        finished: r.finished,
        delta1: t.delta2,
        delta2: t.delta3,
        delta3: t.delta4,
        delta4: t.delta5,
        delta5: t.delta6,
        delta6: (r.bytes_written - t.bytes_written) as u64,
    }
}

impl Task {
    /// A task as a session creates it: nothing written, not finished,
    /// sample ring empty.
    pub open spec fn is_fresh(&self, device_id: Seq<char>) -> bool {
        &&& self.device_id@ == device_id
        &&& self.bytes_written == 0
        &&& !self.finished
        &&& self.delta1 == 0
        &&& self.delta2 == 0
        &&& self.delta3 == 0
        &&& self.delta4 == 0
        &&& self.delta5 == 0
        &&& self.delta6 == 0
    }

    pub fn new(device_id: String) -> (t: Task)
        ensures
            t.is_fresh(device_id@),
    {
        Task {
            device_id,
            bytes_written: 0,
            finished: false,
            delta1: 0,
            delta2: 0,
            delta3: 0,
            delta4: 0,
            delta5: 0,
            delta6: 0,
        }
    }

    /// Applies one poll's reading. The writer owns the counter and the flag:
    /// the counter never decreases, and the flag is set once and stays set.
    pub fn observe(&mut self, reading: TaskReading)
        requires
            old(self).bytes_written <= reading.bytes_written,
            old(self).finished ==> reading.finished,
        ensures
            *final(self) == spec_observe(*old(self), reading),
    {
        self.delta1 = self.delta2;
        self.delta2 = self.delta3;
        self.delta3 = self.delta4;
        self.delta4 = self.delta5;
        self.delta5 = self.delta6;
        self.delta6 = reading.bytes_written - self.bytes_written;
        self.bytes_written = reading.bytes_written;
        self.finished = reading.finished;
    }

    /// The fraction the display shows. A finished task is always exactly
    /// whole, whatever its raw counter holds; an unfinished task writing a
    /// zero-sized image is exactly zero.
    pub fn fraction(&self, total_size: u64) -> (f: Fraction)
        ensures
            f == spec_fraction(self.finished, self.bytes_written, total_size),
            self.finished ==> f == (Fraction { num: 1u64, den: 1u64 }),
            !self.finished && total_size == 0 ==> f == (Fraction { num: 0u64, den: 1u64 }),
    {
        if self.finished {
            Fraction::whole()
        } else if total_size == 0 {
            Fraction::zero()
        } else {
            Fraction { num: self.bytes_written, den: total_size }
        }
    }

    /// The smoothed rate over the last three polls: a pure function of the
    /// three most recently inserted deltas, nothing else.
    pub fn rate(&self) -> (r: u64)
        ensures
            r == spec_rate(self.delta4, self.delta5, self.delta6),
    {
        let sum: u128 = self.delta4 as u128 + self.delta5 as u128 + self.delta6 as u128;
        proof {
            assert(sum / 3 <= u64::MAX as u128) by (nonlinear_arith)
                requires sum <= 3 * (u64::MAX as u128)
            {}
        }
        (sum / 3) as u64
    }
}

} // verus!

//! The error report built when a flash session completes: one entry per
//! failed target, paired with the reason its writer reported, in task
//! submission order.

use vstd::prelude::*;

verus! {

/// Why one target's write failed, as its writer reports it.
#[derive(Clone, Copy, PartialEq, Eq, Structural, Debug)]
pub enum WriteFailure {
    /// The target device could not be opened for writing.
    OpenFailure,
    /// Fewer bytes were written than the image holds.
    ShortWrite,
    /// The bytes read back do not match the bytes written.
    VerificationMismatch,
}

/// One failed target: its device identifier and the reported reason.
pub struct FailedDevice {
    pub device_id: String,
    pub reason: WriteFailure,
}

/// The failures among `outcomes`, keyed by the device identifiers in `ids`
/// at the same positions, in the order the two sequences share. Successes
/// leave no entry.
pub open spec fn spec_failures(
    ids: Seq<String>,
    outcomes: Seq<Result<(), WriteFailure>>,
) -> Seq<FailedDevice>
    decreases ids.len(),
{
    if ids.len() == 0 || outcomes.len() == 0 {
        Seq::empty()
    } else {
        let rest = spec_failures(ids.drop_last(), outcomes.drop_last());
        match outcomes.last() {
            Ok(_) => rest,
            Err(reason) => rest + seq![FailedDevice { device_id: ids.last(), reason }],
        }
    }
}

/// Never more failures than targets.
pub proof fn lemma_failures_bound(ids: Seq<String>, outcomes: Seq<Result<(), WriteFailure>>)
    ensures
        spec_failures(ids, outcomes).len() <= ids.len(),
    decreases ids.len(),
{
    if ids.len() == 0 || outcomes.len() == 0 {
    } else {
        lemma_failures_bound(ids.drop_last(), outcomes.drop_last());
    }
}

/// The report keeps submission order: the failures of a whole batch are
/// the failures of the targets submitted first, followed by the failures
/// of the targets submitted after them.
pub proof fn lemma_failures_keep_submission_order(
    ids_front: Seq<String>,
    outcomes_front: Seq<Result<(), WriteFailure>>,
    ids_back: Seq<String>,
    outcomes_back: Seq<Result<(), WriteFailure>>,
)
    requires
        ids_front.len() == outcomes_front.len(),
        ids_back.len() == outcomes_back.len(),
    ensures
        spec_failures(ids_front + ids_back, outcomes_front + outcomes_back)
            == spec_failures(ids_front, outcomes_front) + spec_failures(ids_back, outcomes_back),
    decreases ids_back.len(),
{
    if ids_back.len() == 0 {
        assert(ids_front + ids_back =~= ids_front);
        assert(outcomes_front + outcomes_back =~= outcomes_front);
        assert(spec_failures(ids_front, outcomes_front)
            + spec_failures(ids_back, outcomes_back)
            =~= spec_failures(ids_front, outcomes_front));
    } else {
        lemma_failures_keep_submission_order(
            ids_front,
            outcomes_front,
            ids_back.drop_last(),
            outcomes_back.drop_last(),
        );
        let ids = ids_front + ids_back;
        let outcomes = outcomes_front + outcomes_back;
        assert(ids.drop_last() =~= ids_front + ids_back.drop_last());
        assert(outcomes.drop_last() =~= outcomes_front + outcomes_back.drop_last());
        assert(ids.last() == ids_back.last());
        assert(outcomes.last() == outcomes_back.last());
        match outcomes_back.last() {
            Ok(_) => {},
            Err(reason) => {
                assert(spec_failures(ids, outcomes)
                    =~= spec_failures(ids_front, outcomes_front)
                    + spec_failures(ids_back, outcomes_back));
            },
        }
    }
}

/// The `(device, reason)` pairs for every target whose write failed,
/// in task submission order. Built once at drain time, read afterwards.
pub struct ErrorCollector {
    pub entries: Vec<FailedDevice>,
}

impl ErrorCollector {
    pub fn len(&self) -> (n: usize)
        ensures
            n == self.entries@.len(),
    {
        self.entries.len()
    }

    pub fn is_empty(&self) -> (b: bool)
        ensures
            b == (self.entries@.len() == 0),
    {
        self.entries.len() == 0
    }
}

} // verus!

//! The source image buffer and its load-phase protocol.
//!
//! A loader (running outside this library) drives the buffer through
//! `begin_load`, then exactly one of `complete_load` or `fail_load`.
//! The monitor reads the phase each poll to decide what the consumer
//! may do next.

use vstd::prelude::*;

verus! {

/// Load state of the source image buffer.
///
/// `Empty -> Loading -> Ready -> Loading -> ...`, with
/// `Loading -> Invalidated` on a failed load. Re-loading never skips
/// `Loading`.
#[derive(Clone, Copy, PartialEq, Eq, Structural, Debug)]
pub enum LoadPhase {
    Empty,
    Loading,
    Ready,
    Invalidated,
}

/// The source image: its path and its loaded bytes, behind an explicit
/// load phase. Written by a loader, read by the monitor and by session
/// start.
pub struct BufferingData {
    pub path: String,
    pub bytes: Vec<u8>,
    pub phase: LoadPhase,
}

impl BufferingData {
    /// The bytes may be non-empty only once a load has completed.
    pub open spec fn wf(&self) -> bool {
        !(self.phase is Ready) ==> self.bytes@.len() == 0
    }

    pub fn new() -> (b: BufferingData)
        ensures
            b.wf(),
            b.phase is Empty,
            b.path@.len() == 0,
            b.bytes@.len() == 0,
    {
        BufferingData { path: String::new(), bytes: Vec::new(), phase: LoadPhase::Empty }
    }

    /// Begins a new load cycle: clears the bytes, stores the chosen path,
    /// and enters `Loading`. A call while a load is already in progress is
    /// rejected (loads are serialized), and the buffer is left unchanged.
    pub fn begin_load(&mut self, path: String) -> (started: bool)
        requires
            old(self).wf(),
        ensures
            final(self).wf(),
            started == !(old(self).phase is Loading),
            started ==> final(self).phase is Loading,
            started ==> final(self).path == path,
            started ==> final(self).bytes@.len() == 0,
            !started ==> *final(self) == *old(self),
    {
        match self.phase {
            LoadPhase::Loading => false,
            _ => {
                self.bytes = Vec::new();
                self.path = path;
                self.phase = LoadPhase::Loading;
                true
            }
        }
    }

    /// Stores the fully read image and enters `Ready`. Called once by the
    /// loader when the read succeeds.
    pub fn complete_load(&mut self, bytes: Vec<u8>)
        requires
            old(self).wf(),
            old(self).phase is Loading,
        ensures
            final(self).wf(),
            final(self).phase is Ready,
            final(self).bytes == bytes,
            final(self).path == old(self).path,
    {
        self.bytes = bytes;
        self.phase = LoadPhase::Ready;
    }

    /// Marks the load as failed without touching the bytes. The consumer
    /// treats `Invalidated` as an empty buffer and reports the failure
    /// upstream.
    pub fn fail_load(&mut self)
        requires
            old(self).wf(),
            old(self).phase is Loading,
        ensures
            final(self).wf(),
            final(self).phase is Invalidated,
            final(self).bytes == old(self).bytes,
            final(self).path == old(self).path,
    {
        self.phase = LoadPhase::Invalidated;
    }

    /// Size of the loaded image; meaningful only once the buffer is ready.
    pub fn size(&self) -> (n: usize)
        requires
            self.phase is Ready,
        ensures
            n == self.bytes@.len(),
    {
        self.bytes.len()
    }
}

} // verus!

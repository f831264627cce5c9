use vstd::prelude::*;
use crate::device::Handle;

verus! {

/// Where a batch stands.
#[derive(Clone, Copy, Debug, PartialEq, Eq, Structural)]
pub enum BatchPhase {
    /// Nothing has been asked for yet.
    Fresh,
    /// The creation of the next object is awaiting its reply.
    Creating,
    /// A creation has failed, and the destruction of one of the objects made
    /// before it is awaiting its reply.
    Releasing,
    /// All objects are there.
    Complete,
    /// A creation has failed and every object made before it is destroyed.
    Failed,
}

/// What a batch asks for next, or how it ended.
#[derive(Clone, Copy, Debug, PartialEq, Eq, Structural)]
pub enum BatchStep {
    /// Create the object at position `index`.
    Create { index: usize },
    /// Destroy `handle`, the object that was made for position `index`.
    Destroy { handle: Handle, index: usize },
    /// All objects are there.
    Complete,
    /// The creation at position `index` failed with `code`, and the objects
    /// made for the positions before it are destroyed.
    Failed { index: usize, code: i32 },
    /// The batch was not awaiting what it was told; it has not changed.
    OutOfTurn,
}

/// A batch as a mathematical value.
pub struct BatchModel {
    /// The number of objects to make.
    pub total: usize,
    /// The objects made so far, in the order of their making.
    pub handles: Seq<Handle>,
    /// How many of them have been handed out for destruction.
    pub released: usize,
    /// The result code of the creation that failed, once one has.
    pub code: i32,
    pub phase: BatchPhase,
}

impl BatchModel {
    pub open spec fn wf(self) -> bool {
        &&& self.handles.len() <= self.total
        &&& self.released <= self.handles.len()
        &&& self.phase == BatchPhase::Fresh ==> self.handles.len() == 0
        &&& self.phase == BatchPhase::Creating ==> self.handles.len() < self.total
            && self.released == 0
        &&& self.phase == BatchPhase::Complete ==> self.handles.len() == self.total
            && self.released == 0
        &&& self.phase == BatchPhase::Releasing ==> 1 <= self.released
        &&& self.phase == BatchPhase::Failed ==> self.released == self.handles.len()
    }

    /// The objects that the batch still holds: all that were made, less those
    /// handed out for destruction.
    pub open spec fn held(self) -> Seq<Handle> {
        self.handles.skip(self.released as int)
    }

    /// A batch of `total` objects, none of them asked for yet.
    pub open spec fn fresh(total: usize) -> BatchModel {
        BatchModel {
            total,
            handles: Seq::empty(),
            released: 0,
            code: 0,
            phase: BatchPhase::Fresh,
        }
    }

    /// The batch begins: it asks for the first object, or is complete at once
    /// where there is none to make.
    pub open spec fn start(self) -> (BatchModel, BatchStep) {
        if self.phase != BatchPhase::Fresh {
            (self, BatchStep::OutOfTurn)
        } else if self.total == 0 {
            (BatchModel { phase: BatchPhase::Complete, ..self }, BatchStep::Complete)
        } else {
            (BatchModel { phase: BatchPhase::Creating, ..self }, BatchStep::Create { index: 0 })
        }
    }

    /// The creation asked for last has made `handle`: the batch asks for the
    /// next object, or is complete.
    pub open spec fn created(self, handle: Handle) -> (BatchModel, BatchStep) {
        let handles = self.handles.push(handle);
        if self.phase != BatchPhase::Creating {
            (self, BatchStep::OutOfTurn)
        } else if handles.len() == self.total {
            (BatchModel { handles, phase: BatchPhase::Complete, ..self }, BatchStep::Complete)
        } else {
            (
                BatchModel { handles, ..self },
                BatchStep::Create { index: handles.len() as usize },
            )
        }
    }

    /// The creation asked for last has failed with `code`: the batch asks for
    /// the destruction of the first object made, or has failed at once where
    /// none was made.
    pub open spec fn failed(self, code: i32) -> (BatchModel, BatchStep) {
        if self.phase != BatchPhase::Creating {
            (self, BatchStep::OutOfTurn)
        } else if self.handles.len() == 0 {
            (
                BatchModel { code, phase: BatchPhase::Failed, ..self },
                BatchStep::Failed { index: 0, code },
            )
        } else {
            (
                BatchModel { code, released: 1, phase: BatchPhase::Releasing, ..self },
                BatchStep::Destroy { handle: self.handles[0], index: 0 },
            )
        }
    }

    /// The destruction asked for last is done: the batch asks for the next one,
    /// or reports the failure once nothing is left to destroy.
    pub open spec fn destroyed(self) -> (BatchModel, BatchStep) {
        if self.phase != BatchPhase::Releasing {
            (self, BatchStep::OutOfTurn)
        } else if self.released == self.handles.len() {
            (
                BatchModel { phase: BatchPhase::Failed, ..self },
                BatchStep::Failed { index: self.released, code: self.code },
            )
        } else {
            (
                BatchModel { released: (self.released + 1) as usize, ..self },
                BatchStep::Destroy {
                    handle: self.handles[self.released as int],
                    index: self.released,
                },
            )
        }
    }
}

/// The creation of a fixed number of device objects, one after another, that
/// ends with all of them or with none: when one creation fails, the objects made
/// so far are destroyed, in the order of their making, before the failure is
/// reported.
#[derive(Debug)]
pub struct Batch {
    total: usize,
    made: Vec<Handle>,
    released: usize,
    code: i32,
    phase: BatchPhase,
}

impl View for Batch {
    type V = BatchModel;

    closed spec fn view(&self) -> BatchModel {
        BatchModel {
            total: self.total,
            handles: self.made@,
            released: self.released,
            code: self.code,
            phase: self.phase,
        }
    }
}

impl Batch {
    /// A batch of `total` objects, none of them asked for yet.
    pub fn new(total: usize) -> (r: Batch)
        ensures
            r@ == BatchModel::fresh(total),
            r@.wf(),
    {
        Batch { total, made: Vec::new(), released: 0, code: 0, phase: BatchPhase::Fresh }
    }

    pub fn phase(&self) -> (r: BatchPhase)
        ensures
            r == self@.phase,
    {
        self.phase
    }

    /// The number of objects made so far.
    pub fn len(&self) -> (r: usize)
        ensures
            r == self@.handles.len(),
    {
        self.made.len()
    }

    /// The number of objects that the batch is to make.
    pub fn total(&self) -> (r: usize)
        ensures
            r == self@.total,
    {
        self.total
    }

    /// Begins the batch.
    pub fn start(&mut self) -> (r: BatchStep)
        requires
            old(self)@.wf(),
        ensures
            (final(self)@, r) == old(self)@.start(),
            final(self)@.wf(),
    {
        match self.phase {
            BatchPhase::Fresh => {
                if self.total == 0 {
                    self.phase = BatchPhase::Complete;
                    BatchStep::Complete
                } else {
                    self.phase = BatchPhase::Creating;
                    BatchStep::Create { index: 0 }
                }
            },
            _ => BatchStep::OutOfTurn,
        }
    }

    /// Takes the object that the creation asked for last has made.
    pub fn created(&mut self, handle: Handle) -> (r: BatchStep)
        requires
            old(self)@.wf(),
        ensures
            (final(self)@, r) == old(self)@.created(handle),
            final(self)@.wf(),
    {
        match self.phase {
            BatchPhase::Creating => {
                self.made.push(handle);
                if self.made.len() == self.total {
                    self.phase = BatchPhase::Complete;
                    BatchStep::Complete
                } else {
                    BatchStep::Create { index: self.made.len() }
                }
            },
            _ => BatchStep::OutOfTurn,
        }
    }

    /// Takes note that the creation asked for last has failed with `code`.
    pub fn failed(&mut self, code: i32) -> (r: BatchStep)
        requires
            old(self)@.wf(),
        ensures
            (final(self)@, r) == old(self)@.failed(code),
            final(self)@.wf(),
    {
        match self.phase {
            BatchPhase::Creating => {
                self.code = code;
                if self.made.len() == 0 {
                    self.phase = BatchPhase::Failed;
                    BatchStep::Failed { index: 0, code }
                } else {
                    self.phase = BatchPhase::Releasing;
                    self.released = 1;
                    BatchStep::Destroy { handle: self.made[0], index: 0 }
                }
            },
            _ => BatchStep::OutOfTurn,
        }
    }

    /// Takes note that the destruction asked for last is done.
    pub fn destroyed(&mut self) -> (r: BatchStep)
        requires
            old(self)@.wf(),
        ensures
            (final(self)@, r) == old(self)@.destroyed(),
            final(self)@.wf(),
    {
        match self.phase {
            BatchPhase::Releasing => {
                if self.released == self.made.len() {
                    self.phase = BatchPhase::Failed;
                    BatchStep::Failed { index: self.released, code: self.code }
                } else {
                    let index = self.released;
                    self.released = index + 1;
                    BatchStep::Destroy { handle: self.made[index], index }
                }
            },
            _ => BatchStep::OutOfTurn,
        }
    }

    /// Hands over the objects made, in the order of their making.
    pub fn into_handles(self) -> (r: Vec<Handle>)
        ensures
            r@ == self@.handles,
    {
        self.made
    }
}

/// Every step keeps a batch well formed.
pub proof fn lemma_batch_steps_keep_wf(batch: BatchModel, handle: Handle, code: i32)
    requires
        batch.wf(),
    ensures
        batch.start().0.wf(),
        batch.created(handle).0.wf(),
        batch.failed(code).0.wf(),
        batch.destroyed().0.wf(),
{
}

/// A batch that reports a failure holds nothing any more: every object that it
/// made has been handed out for destruction, and the position of the failure
/// is the number of objects made before it.
pub proof fn lemma_failure_leaves_nothing(batch: BatchModel, code: i32)
    requires
        batch.wf(),
    ensures
        batch.failed(code).1 is Failed ==> batch.failed(code).0.held() == Seq::<Handle>::empty()
            && batch.failed(code).1 == (BatchStep::Failed { index: 0, code }),
        batch.destroyed().1 is Failed ==> batch.destroyed().0.held() == Seq::<Handle>::empty()
            && batch.destroyed().1 == (BatchStep::Failed {
            index: batch.handles.len() as usize,
            code: batch.code,
        }),
{
}

/// The destructions of a failed batch come in the order of making, each object
/// once: the step for `released` objects handed out names the next one.
pub proof fn lemma_release_in_order(batch: BatchModel)
    requires
        batch.wf(),
        batch.phase == BatchPhase::Releasing,
        batch.released < batch.handles.len(),
    ensures
        batch.destroyed().1 == (BatchStep::Destroy {
            handle: batch.handles[batch.released as int],
            index: batch.released,
        }),
        batch.destroyed().0.held() == batch.held().skip(1),
{
}

/// A batch asks for no creation beyond its total, and is complete exactly when
/// the last object has been made.
pub proof fn lemma_complete_holds_all(batch: BatchModel, handle: Handle)
    requires
        batch.wf(),
        batch.phase == BatchPhase::Creating,
    ensures
        batch.created(handle).1 is Complete <==> batch.handles.len() + 1 == batch.total,
        batch.created(handle).1 is Complete ==> batch.created(handle).0.held().len()
            == batch.total,
        batch.created(handle).1 matches BatchStep::Create { index } ==> index < batch.total
            && index == batch.handles.len() + 1,
{
}

} // verus!

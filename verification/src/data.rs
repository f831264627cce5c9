use vstd::prelude::*;
use crate::base::RenderBase;
use crate::batch::{Batch, BatchModel, BatchPhase};
use crate::convert::Convert;
use crate::device::{
    Command, Fatal, Handle, Operation, Outcome, Progress, Reply, NO_TIMEOUT,
};
use crate::extent::Extent;
use crate::index::{FrameSlot, ImageIndex};
use crate::resources::{
    advanced, create_command_pool, create_fences, create_framebuffers, create_semaphore,
    creation_result, fences_outcome, framebuffers_outcome, semaphores_outcome,
};

verus! {

/// What is known of a frame slot's fence.
#[derive(Clone, Copy, Debug, PartialEq, Eq, Structural)]
pub enum FenceState {
    /// The fence is signaled: no work of the slot is left on the device.
    Signaled,
    /// The fence has been reset and nothing has been submitted with it since.
    Unsignaled,
    /// Work has been submitted with the fence, which will be signaled when the
    /// work completes: the slot's frame is in flight.
    Pending,
}

/// What is known of a frame slot's command buffer.
#[derive(Clone, Copy, Debug, PartialEq, Eq, Structural)]
pub enum CommandState {
    /// Reset, with nothing recorded.
    Initial,
    /// Recording has begun and has not ended.
    Recording,
    /// Recording has ended; the buffer can be, or has been, submitted.
    Executable,
}

/// The state of one frame slot.
#[derive(Clone, Copy, Debug, PartialEq, Eq, Structural)]
pub struct SlotState {
    pub fence: FenceState,
    pub commands: CommandState,
}

/// Where the work on the frame resources stands: each phase but `Idle` and
/// `Halted` is named after what is awaiting its reply.
#[derive(Clone, Copy, Debug, PartialEq, Eq, Structural)]
pub enum DataPhase {
    Idle,
    /// The creation of a slot's fence, or the destruction of one after a failure.
    Fences,
    /// The same for the semaphores that tell that an image was acquired.
    AcquireSemaphores,
    /// The same for the semaphores that tell that rendering has finished.
    FinishSemaphores,
    CommandPool,
    CommandBuffers,
    /// The destruction of a framebuffer of the chain that was replaced.
    DropFramebuffers,
    /// The creation of a framebuffer, or the destruction of one after a failure.
    Framebuffers,
    WaitForFence,
    ResetFence,
    ResetCommandBuffer,
    /// The wait for the device to fall idle, before everything is destroyed.
    ReleaseWait,
    /// The destruction of a framebuffer, the last one first.
    ReleaseFramebuffers,
    /// The destruction of the command pool and, with it, of the command buffers.
    ReleasePool,
    /// The destruction of a semaphore that tells that rendering has finished.
    ReleaseFinishSemaphores,
    /// The destruction of a semaphore that tells that an image was acquired.
    ReleaseAcquireSemaphores,
    /// The destruction of a fence.
    ReleaseFences,
    /// The work has ended for good: by a fatal failure, or by the release of
    /// all objects.
    Halted,
}

/// The slot state right after allocation: the fence is created signaled, the
/// command buffer is fresh.
pub open spec fn initial_slot() -> SlotState {
    SlotState { fence: FenceState::Signaled, commands: CommandState::Initial }
}

/// The slot state that `wait_and_reset` leaves.
pub open spec fn reset_slot() -> SlotState {
    SlotState { fence: FenceState::Unsignaled, commands: CommandState::Initial }
}

/// The number of slots whose frame is in flight.
pub open spec fn in_flight(slots: Seq<SlotState>) -> nat
    decreases slots.len(),
{
    if slots.len() == 0 {
        0
    } else {
        in_flight(slots.drop_last()) + if slots.last().fence == FenceState::Pending {
            1nat
        } else {
            0nat
        }
    }
}

/// What is known of a slot once the device has fallen idle: whatever was in
/// flight has completed, so its fence is signaled.
pub open spec fn idle_slot(slot: SlotState) -> SlotState {
    if slot.fence == FenceState::Pending {
        SlotState { fence: FenceState::Signaled, ..slot }
    } else {
        slot
    }
}

/// The frame resources as a mathematical value.
#[verifier::ext_equal]
pub struct DataModel {
    /// The number of frame slots.
    pub frames: usize,
    /// Whether the slots' objects are all there.
    pub allocated: bool,
    pub fences: Seq<Handle>,
    pub image_available: Seq<Handle>,
    pub render_finished: Seq<Handle>,
    pub command_pool: Handle,
    pub command_buffers: Seq<Handle>,
    pub slots: Seq<SlotState>,
    /// One framebuffer for each view of `targets`, once `sized`.
    pub framebuffers: Seq<Handle>,
    /// The views that the framebuffers are made for.
    pub targets: Seq<Handle>,
    pub target_extent: Extent,
    /// Whether the framebuffers are those of `targets`.
    pub sized: bool,
    pub phase: DataPhase,
    pub batch: BatchModel,
    /// How many of the old framebuffers have been handed out for destruction.
    pub dropped: usize,
    /// The slot that is being waited for and reset.
    pub slot: usize,
}

impl DataModel {
    /// Whether the phase is one of the creations that come as a batch.
    pub open spec fn in_batch(self) -> bool {
        self.phase == DataPhase::Fences || self.phase == DataPhase::AcquireSemaphores
            || self.phase == DataPhase::FinishSemaphores || self.phase == DataPhase::Framebuffers
    }

    /// Whether the slots' objects are being created.
    pub open spec fn allocating(self) -> bool {
        self.phase == DataPhase::Fences || self.phase == DataPhase::AcquireSemaphores
            || self.phase == DataPhase::FinishSemaphores || self.phase == DataPhase::CommandPool
            || self.phase == DataPhase::CommandBuffers
    }

    /// Whether a slot is being waited for and reset.
    pub open spec fn resetting(self) -> bool {
        self.phase == DataPhase::WaitForFence || self.phase == DataPhase::ResetFence || self.phase
            == DataPhase::ResetCommandBuffer
    }

    pub open spec fn wf(self) -> bool {
        &&& 1 <= self.frames <= u32::MAX
        &&& self.batch.wf()
        &&& self.allocated ==> self.fences.len() == self.frames && self.image_available.len()
            == self.frames && self.render_finished.len() == self.frames
            && self.command_buffers.len() == self.frames && self.slots.len() == self.frames
        &&& !self.allocated ==> self.slots.len() == 0
        &&& self.framebuffers.len() <= usize::MAX
        &&& self.targets.len() <= usize::MAX
        &&& self.sized ==> self.framebuffers.len() == self.targets.len()
        &&& self.in_batch() ==> self.batch.phase == BatchPhase::Creating || self.batch.phase
            == BatchPhase::Releasing
        &&& self.in_batch() && self.allocating() ==> self.batch.total == self.frames
        &&& self.phase == DataPhase::Framebuffers ==> self.batch.total == self.targets.len()
            && !self.sized
        &&& self.phase == DataPhase::DropFramebuffers ==> 1 <= self.dropped
            <= self.framebuffers.len() && !self.sized
        &&& self.allocating() ==> !self.allocated
        &&& self.allocating() && self.phase != DataPhase::Fences ==> self.fences.len()
            == self.frames
        &&& self.phase == DataPhase::FinishSemaphores || self.phase == DataPhase::CommandPool
            || self.phase == DataPhase::CommandBuffers ==> self.image_available.len()
            == self.frames
        &&& self.phase == DataPhase::CommandPool || self.phase == DataPhase::CommandBuffers
            ==> self.render_finished.len() == self.frames
        &&& self.resetting() ==> self.allocated && self.slot < self.frames
        &&& self.releasing() ==> !self.allocated && !self.sized
        &&& self.phase == DataPhase::ResetFence ==> self.slots[self.slot as int].fence
            == FenceState::Signaled
        &&& self.phase == DataPhase::ResetCommandBuffer ==> self.slots[self.slot as int].fence
            == FenceState::Unsignaled
    }

    /// Whether everything is being destroyed.
    pub open spec fn releasing(self) -> bool {
        self.phase == DataPhase::ReleaseWait || self.phase == DataPhase::ReleaseFramebuffers
            || self.phase == DataPhase::ReleasePool || self.phase
            == DataPhase::ReleaseFinishSemaphores || self.phase
            == DataPhase::ReleaseAcquireSemaphores || self.phase == DataPhase::ReleaseFences
    }

    /// Whether a frame can be drawn: the slots are allocated, the framebuffers
    /// are those of the current views, and nothing is under way.
    pub open spec fn ready(self) -> bool {
        self.allocated && self.sized && self.phase == DataPhase::Idle
    }

    /// Resources for `frames` slots, none of them created yet.
    pub open spec fn fresh(frames: usize) -> DataModel {
        DataModel {
            frames,
            allocated: false,
            fences: Seq::empty(),
            image_available: Seq::empty(),
            render_finished: Seq::empty(),
            command_pool: Handle::null_handle(),
            command_buffers: Seq::empty(),
            slots: Seq::empty(),
            framebuffers: Seq::empty(),
            targets: Seq::empty(),
            target_extent: Extent { width: 0, height: 0 },
            sized: false,
            phase: DataPhase::Idle,
            batch: BatchModel::fresh(0),
            dropped: 0,
            slot: 0,
        }
    }

    /// The resources with the state of slot `slot` replaced.
    pub open spec fn with_slot(self, slot: usize, state: SlotState) -> DataModel {
        DataModel { slots: self.slots.update(slot as int, state), ..self }
    }

    /// The resources with the fence of slot `slot` in state `fence`.
    pub open spec fn with_fence(self, slot: usize, fence: FenceState) -> DataModel {
        self.with_slot(slot, SlotState { fence, ..self.slots[slot as int] })
    }

    /// The resources with the command buffer of slot `slot` in state `commands`.
    pub open spec fn with_commands(self, slot: usize, commands: CommandState) -> DataModel {
        self.with_slot(slot, SlotState { commands, ..self.slots[slot as int] })
    }

    /// The resources with their framebuffers no longer taken for those of the
    /// current views.
    pub open spec fn invalidated(self) -> DataModel {
        DataModel { sized: false, ..self }
    }

    /// The resources once the device has fallen idle: no frame is in flight any
    /// more.
    pub open spec fn idled(self) -> DataModel {
        DataModel {
            slots: Seq::new(self.slots.len(), |i: int| idle_slot(self.slots[i])),
            ..self
        }
    }

    /// Whether no command buffer is left in the middle of a recording.
    pub open spec fn calm(self) -> bool {
        forall|i: int| 0 <= i < self.slots.len() ==> (#[trigger] self.slots[i]).commands
            != CommandState::Recording
    }

    pub open spec fn run(self, phase: DataPhase, command: Command) -> (DataModel, Outcome) {
        (DataModel { phase, ..self }, Ok(Progress::Run(command)))
    }

    pub open spec fn complete(self) -> (DataModel, Outcome) {
        (DataModel { phase: DataPhase::Idle, ..self }, Ok(Progress::Complete))
    }

    /// The work ends for good with `fatal`.
    pub open spec fn halt(self, fatal: Fatal) -> (DataModel, Outcome) {
        (DataModel { phase: DataPhase::Halted, ..self }, Err(fatal))
    }

    /// The call that a failure in this phase is told of: the call whose reply
    /// is awaited, but in a batch always the creation that the batch is made of.
    pub open spec fn awaited(self) -> Operation {
        match self.phase {
            DataPhase::Fences => Operation::CreateFence,
            DataPhase::AcquireSemaphores => Operation::CreateSemaphore,
            DataPhase::FinishSemaphores => Operation::CreateSemaphore,
            DataPhase::CommandPool => Operation::CreateCommandPool,
            DataPhase::CommandBuffers => Operation::AllocateCommandBuffers,
            DataPhase::DropFramebuffers => Operation::DestroyFramebuffer,
            DataPhase::Framebuffers => Operation::CreateFramebuffer,
            DataPhase::WaitForFence => Operation::WaitForFence,
            DataPhase::ResetFence => Operation::ResetFence,
            DataPhase::ReleaseWait => Operation::WaitIdle,
            DataPhase::ReleaseFramebuffers => Operation::DestroyFramebuffer,
            DataPhase::ReleasePool => Operation::DestroyCommandPool,
            DataPhase::ReleaseFinishSemaphores => Operation::DestroySemaphore,
            DataPhase::ReleaseAcquireSemaphores => Operation::DestroySemaphore,
            DataPhase::ReleaseFences => Operation::DestroyFence,
            _ => Operation::ResetCommandBuffer,
        }
    }

    /// Whether a creation has failed and what was made before it is being
    /// destroyed, after which the failure is told.
    pub open spec fn winding_up(self) -> bool {
        self.in_batch() && self.batch.phase == BatchPhase::Releasing
    }

    /// Whether a call is awaiting its reply.
    pub open spec fn awaiting(self) -> bool {
        self.phase != DataPhase::Idle && self.phase != DataPhase::Halted
    }

    /// The call whose reply is awaited, in every phase but `Idle` and `Halted`.
    pub open spec fn expected(self) -> Operation {
        if self.in_batch() && self.batch.phase == BatchPhase::Releasing {
            match self.phase {
                DataPhase::Fences => Operation::DestroyFence,
                DataPhase::Framebuffers => Operation::DestroyFramebuffer,
                _ => Operation::DestroySemaphore,
            }
        } else {
            self.awaited()
        }
    }

    /// The reply that came cannot answer the call that is awaited.
    pub open spec fn unexpected(self) -> (DataModel, Outcome) {
        self.halt(Fatal::UnexpectedReply { operation: self.awaited() })
    }

    /// The device failed the call that is awaited, which was for `index`.
    pub open spec fn failure(self, index: usize, code: i32) -> (DataModel, Outcome) {
        self.halt(Fatal::Device { operation: self.awaited(), index, code })
    }

    /// The batch under way is complete: its objects are kept, and the next
    /// stage begins.
    pub open spec fn stage_complete(self) -> (DataModel, Outcome) {
        let handles = self.batch.handles;
        let next = BatchModel::fresh(self.frames).start().0;
        match self.phase {
            DataPhase::Fences => DataModel { fences: handles, batch: next, ..self }.run(
                DataPhase::AcquireSemaphores,
                Command::CreateSemaphore { index: 0 },
            ),
            DataPhase::AcquireSemaphores => DataModel {
                image_available: handles,
                batch: next,
                ..self
            }.run(DataPhase::FinishSemaphores, Command::CreateSemaphore { index: 0 }),
            DataPhase::FinishSemaphores => DataModel {
                render_finished: handles,
                batch: BatchModel::fresh(0),
                ..self
            }.run(DataPhase::CommandPool, Command::CreateCommandPool),
            _ => DataModel {
                framebuffers: handles,
                sized: true,
                batch: BatchModel::fresh(0),
                ..self
            }.complete(),
        }
    }

    /// The batch under way, taken a step further by `reply`, and the call or
    /// the end that the step stands for in this phase.
    pub open spec fn stage(self, reply: Option<Reply>) -> (BatchModel, Outcome) {
        let stepped = advanced(self.batch, reply);
        (
            stepped.0,
            match self.phase {
                DataPhase::Fences => fences_outcome(stepped.1),
                DataPhase::Framebuffers => framebuffers_outcome(
                    stepped.1,
                    self.targets,
                    self.target_extent,
                ),
                _ => semaphores_outcome(stepped.1),
            },
        )
    }

    /// What follows from a step of the batch under way: the next call, the
    /// next stage, or the end of all work.
    pub open spec fn after_stage(self, staged: (BatchModel, Outcome)) -> (DataModel, Outcome) {
        let next = DataModel { batch: staged.0, ..self };
        match staged.1 {
            Ok(Progress::Run(command)) => (next, staged.1),
            Ok(Progress::Complete) => next.stage_complete(),
            Err(fatal) => next.halt(fatal),
        }
    }

    /// The allocation of the slots' objects begins, with the first fence; where
    /// they are there already, nothing is left to do.
    pub open spec fn allocate(self) -> (DataModel, Outcome) {
        match self.phase {
            DataPhase::Halted => (self, Err(Fatal::Halted)),
            DataPhase::Idle => if self.allocated {
                (self, Ok(Progress::Complete))
            } else {
                DataModel { batch: BatchModel::fresh(self.frames).start().0, ..self }.run(
                    DataPhase::Fences,
                    Command::CreateFence { index: 0, signaled: true },
                )
            },
            _ => (self, Err(Fatal::Busy)),
        }
    }

    /// The old framebuffers are gone: the new ones are created, one for each
    /// view, in the order of the views.
    pub open spec fn begin_framebuffers(self) -> (DataModel, Outcome) {
        let cleared = DataModel { framebuffers: Seq::empty(), dropped: 0, ..self };
        if self.targets.len() == 0 {
            DataModel { sized: true, ..cleared }.complete()
        } else {
            DataModel {
                batch: BatchModel::fresh(self.targets.len() as usize).start().0,
                ..cleared
            }.run(
                DataPhase::Framebuffers,
                Command::CreateFramebuffer {
                    view: self.targets[0],
                    extent: self.target_extent,
                    index: 0,
                },
            )
        }
    }

    /// The next of the old framebuffers is destroyed, or, when none is left,
    /// the new ones are begun.
    pub open spec fn drop_next(self) -> (DataModel, Outcome) {
        if self.dropped < self.framebuffers.len() {
            DataModel { dropped: (self.dropped + 1) as usize, ..self }.run(
                DataPhase::DropFramebuffers,
                Command::DestroyFramebuffer { framebuffer: self.framebuffers[self.dropped as int] },
            )
        } else {
            self.begin_framebuffers()
        }
    }

    /// The framebuffers are rebuilt for the views `views` of extent `extent`:
    /// the old ones are destroyed first, in their order.
    pub open spec fn resize(self, views: Seq<Handle>, extent: Extent) -> (DataModel, Outcome) {
        match self.phase {
            DataPhase::Halted => (self, Err(Fatal::Halted)),
            DataPhase::Idle => DataModel {
                targets: views,
                target_extent: extent,
                sized: false,
                dropped: 0,
                ..self
            }.drop_next(),
            _ => (self, Err(Fatal::Busy)),
        }
    }

    /// The wait for slot `slot` begins. A slot whose fence is reset and was not
    /// submitted with since has nothing to wait for: only its command buffer is
    /// reset, unless it is fresh as well.
    pub open spec fn wait_and_reset(self, slot: usize) -> (DataModel, Outcome) {
        match self.phase {
            DataPhase::Halted => (self, Err(Fatal::Halted)),
            DataPhase::Idle => if !self.allocated || slot >= self.frames {
                (self, Err(Fatal::NotReady))
            } else if self.slots[slot as int].fence != FenceState::Unsignaled {
                DataModel { slot, ..self }.run(
                    DataPhase::WaitForFence,
                    Command::WaitForFence { fence: self.fences[slot as int], timeout: NO_TIMEOUT },
                )
            } else if self.slots[slot as int].commands != CommandState::Initial {
                DataModel { slot, ..self }.run(
                    DataPhase::ResetCommandBuffer,
                    Command::ResetCommandBuffer {
                        command_buffer: self.command_buffers[slot as int],
                    },
                )
            } else {
                (self, Ok(Progress::Complete))
            },
            _ => (self, Err(Fatal::Busy)),
        }
    }

    /// The release of everything begins, with the wait for the device to fall
    /// idle. From here on no slot is allocated and no framebuffer fits.
    pub open spec fn release(self) -> (DataModel, Outcome) {
        if self.phase == DataPhase::Idle || self.phase == DataPhase::Halted {
            DataModel { allocated: false, sized: false, slots: Seq::empty(), ..self }.run(
                DataPhase::ReleaseWait,
                Command::WaitIdle,
            )
        } else {
            (self, Err(Fatal::Busy))
        }
    }

    /// The next object is destroyed, in the reverse of the order of creation:
    /// the framebuffers, the command pool, the semaphores, the fences, and of
    /// each kind the last one first. When nothing is left the work has ended.
    pub open spec fn release_next(self) -> (DataModel, Outcome) {
        if self.framebuffers.len() > 0 {
            DataModel { framebuffers: self.framebuffers.drop_last(), ..self }.run(
                DataPhase::ReleaseFramebuffers,
                Command::DestroyFramebuffer { framebuffer: self.framebuffers.last() },
            )
        } else if self.command_pool != Handle::null_handle() {
            DataModel {
                command_pool: Handle::null_handle(),
                command_buffers: Seq::empty(),
                ..self
            }.run(DataPhase::ReleasePool, Command::DestroyCommandPool { pool: self.command_pool })
        } else if self.render_finished.len() > 0 {
            DataModel { render_finished: self.render_finished.drop_last(), ..self }.run(
                DataPhase::ReleaseFinishSemaphores,
                Command::DestroySemaphore { semaphore: self.render_finished.last() },
            )
        } else if self.image_available.len() > 0 {
            DataModel { image_available: self.image_available.drop_last(), ..self }.run(
                DataPhase::ReleaseAcquireSemaphores,
                Command::DestroySemaphore { semaphore: self.image_available.last() },
            )
        } else if self.fences.len() > 0 {
            DataModel { fences: self.fences.drop_last(), ..self }.run(
                DataPhase::ReleaseFences,
                Command::DestroyFence { fence: self.fences.last() },
            )
        } else {
            (
                DataModel { command_buffers: Seq::empty(), phase: DataPhase::Halted, ..self },
                Ok(Progress::Complete),
            )
        }
    }

    /// The reply to the call that is awaited, and what follows from it.
    pub open spec fn resume(self, reply: Reply) -> (DataModel, Outcome) {
        match self.phase {
            DataPhase::Idle => (self, Err(Fatal::NothingPending)),
            DataPhase::Halted => (self, Err(Fatal::Halted)),
            DataPhase::ReleaseWait => match reply {
                Reply::Done => self.release_next(),
                Reply::Failed(code) => self.failure(0, code),
                _ => self.unexpected(),
            },
            DataPhase::ReleaseFramebuffers | DataPhase::ReleasePool
            | DataPhase::ReleaseFinishSemaphores | DataPhase::ReleaseAcquireSemaphores
            | DataPhase::ReleaseFences => match reply {
                Reply::Done => self.release_next(),
                _ => self.unexpected(),
            },
            DataPhase::CommandPool => match creation_result(Operation::CreateCommandPool, reply) {
                Ok(pool) => DataModel { command_pool: pool, ..self }.run(
                    DataPhase::CommandBuffers,
                    Command::AllocateCommandBuffers { pool, count: self.frames as u32 },
                ),
                Err(fatal) => self.halt(fatal),
            },
            DataPhase::CommandBuffers => match reply {
                Reply::Handles(buffers) => if buffers@.len() == self.frames {
                    DataModel {
                        command_buffers: buffers@,
                        slots: Seq::new(self.frames as nat, |i: int| initial_slot()),
                        allocated: true,
                        ..self
                    }.complete()
                } else {
                    self.halt(Fatal::WrongBufferCount { count: buffers@.len() as usize })
                },
                Reply::Failed(code) => self.failure(0, code),
                _ => self.unexpected(),
            },
            DataPhase::DropFramebuffers => match reply {
                Reply::Done => self.drop_next(),
                _ => self.unexpected(),
            },
            DataPhase::WaitForFence => match reply {
                Reply::Done => self.with_fence(self.slot, FenceState::Signaled).run(
                    DataPhase::ResetFence,
                    Command::ResetFence { fence: self.fences[self.slot as int] },
                ),
                Reply::Failed(code) => self.failure(self.slot, code),
                _ => self.unexpected(),
            },
            DataPhase::ResetFence => match reply {
                Reply::Done => self.with_fence(self.slot, FenceState::Unsignaled).run(
                    DataPhase::ResetCommandBuffer,
                    Command::ResetCommandBuffer {
                        command_buffer: self.command_buffers[self.slot as int],
                    },
                ),
                Reply::Failed(code) => self.failure(self.slot, code),
                _ => self.unexpected(),
            },
            DataPhase::ResetCommandBuffer => match reply {
                Reply::Done => self.with_commands(self.slot, CommandState::Initial).complete(),
                Reply::Failed(code) => self.failure(self.slot, code),
                _ => self.unexpected(),
            },
            _ => self.after_stage(self.stage(Some(reply))),
        }
    }
}

/// A step of the batch under way keeps the frame resources well formed.
proof fn lemma_stage_keeps_wf(data: DataModel, reply: Option<Reply>)
    requires
        data.wf(),
        data.in_batch(),
    ensures
        data.after_stage(data.stage(reply)).0.wf(),
{
}

/// Once the device has fallen idle, no frame is in flight.
pub proof fn lemma_idle_has_none_in_flight(data: DataModel)
    ensures
        in_flight(data.idled().slots) == 0,
        data.idled().slots.len() == data.slots.len(),
        data.calm() ==> data.idled().calm(),
{
    lemma_idle_slots(data.slots, data.slots.len() as int);
    assert(data.idled().slots.take(data.slots.len() as int) =~= data.idled().slots);
}

/// No slot among the first `n` is in flight once the device has fallen idle.
proof fn lemma_idle_slots(slots: Seq<SlotState>, n: int)
    requires
        0 <= n <= slots.len(),
    ensures
        in_flight(Seq::new(slots.len(), |i: int| idle_slot(slots[i])).take(n)) == 0,
    decreases n,
{
    let idle = Seq::new(slots.len(), |i: int| idle_slot(slots[i]));
    if n > 0 {
        lemma_idle_slots(slots, n - 1);
        assert(idle.take(n).drop_last() =~= idle.take(n - 1));
    }
}

/// There are never more frames in flight than there are frame slots.
pub proof fn lemma_in_flight_bounded(slots: Seq<SlotState>)
    ensures
        in_flight(slots) <= slots.len(),
    decreases slots.len(),
{
    if slots.len() > 0 {
        lemma_in_flight_bounded(slots.drop_last());
    }
}

/// A frame is in flight from its submission until the wait for its slot's
/// fence has returned: nothing but the reply to that wait takes a slot out of
/// the in-flight state, and it leaves the fence signaled.
pub proof fn lemma_in_flight_until_waited(data: DataModel, reply: Reply, i: int)
    requires
        data.wf(),
        0 <= i < data.slots.len(),
        data.slots[i].fence == FenceState::Pending,
        data.resume(reply).0.slots[i].fence != FenceState::Pending,
    ensures
        data.phase == DataPhase::WaitForFence,
        i == data.slot,
        reply is Done,
        data.resume(reply).0.slots[i].fence == FenceState::Signaled,
{
}

/// A fence is reset only as the next step after a wait for it has returned, at
/// which point it is known to be signaled; and a command buffer is reset only
/// while its slot has no frame in flight.
pub proof fn lemma_reset_follows_wait(data: DataModel, reply: Reply)
    requires
        data.wf(),
    ensures
        data.resume(reply).1 matches Ok(Progress::Run(Command::ResetFence { fence })) ==> {
            &&& data.phase == DataPhase::WaitForFence
            &&& reply is Done
            &&& fence == data.fences[data.slot as int]
            &&& data.resume(reply).0.slots[data.slot as int].fence == FenceState::Signaled
        },
        data.resume(reply).1 matches Ok(
            Progress::Run(Command::ResetCommandBuffer { command_buffer }),
        ) ==> {
            &&& data.phase == DataPhase::ResetFence
            &&& command_buffer == data.command_buffers[data.slot as int]
            &&& data.resume(reply).0.slots[data.slot as int].fence == FenceState::Unsignaled
        },
{
}

/// The wait for a slot begins with the wait for its fence whenever the slot's
/// frame is in flight or its fence is signaled, and ends, when all replies are
/// `Done`, with the fence reset and the command buffer fresh.
pub proof fn lemma_wait_and_reset_frees_the_slot(data: DataModel, slot: usize)
    requires
        data.wf(),
        data.allocated,
        data.phase == DataPhase::Idle,
        slot < data.frames,
    ensures
        data.slots[slot as int].fence != FenceState::Unsignaled ==> data.wait_and_reset(slot).1
            == Ok::<Progress, Fatal>(
            Progress::Run(
                Command::WaitForFence { fence: data.fences[slot as int], timeout: NO_TIMEOUT },
            ),
        ),
        ({
            let waiting = data.wait_and_reset(slot).0;
            let resetting = waiting.resume(Reply::Done).0;
            let clearing = resetting.resume(Reply::Done).0;
            let free = clearing.resume(Reply::Done);
            data.slots[slot as int].fence != FenceState::Unsignaled ==> free.1 == Ok::<
                Progress,
                Fatal,
            >(Progress::Complete) && free.0.slots[slot as int] == reset_slot() && free.0.phase
                == DataPhase::Idle
        }),
        data.slots[slot as int] == reset_slot() ==> data.wait_and_reset(slot) == (
            data,
            Ok::<Progress, Fatal>(Progress::Complete),
        ),
{
}

/// The frame resources await the reply to the call that they asked for last; a
/// reply that suits that call is never taken for an unexpected one, and one
/// that tells of success lets the work go on, unless it brings a wrong number
/// of command buffers or an earlier failure is being wound up.
pub proof fn lemma_suitable_replies_are_expected(
    data: DataModel,
    reply: Reply,
    views: Seq<Handle>,
    extent: Extent,
    slot: usize,
)
    requires
        data.wf(),
    ensures
        data.resume(reply).1 matches Ok(Progress::Run(command)) ==> data.resume(
            reply,
        ).0.expected() == command.kind(),
        data.allocate().1 matches Ok(Progress::Run(command)) ==> data.allocate().0.expected()
            == command.kind(),
        data.resize(views, extent).1 matches Ok(Progress::Run(command)) ==> data.resize(
            views,
            extent,
        ).0.expected() == command.kind(),
        data.wait_and_reset(slot).1 matches Ok(Progress::Run(command)) ==> data.wait_and_reset(
            slot,
        ).0.expected() == command.kind(),
        data.release().1 matches Ok(Progress::Run(command)) ==> data.release().0.expected()
            == command.kind(),
        data.awaiting() && data.expected().suits(reply) ==> !(data.resume(reply).1 matches Err(
            Fatal::UnexpectedReply { .. },
        )),
        data.awaiting() && data.expected().suits(reply) && reply !is Failed
            && !data.winding_up() ==> {
            ||| data.resume(reply).1 is Ok
            ||| data.resume(reply).1 matches Err(Fatal::WrongBufferCount { .. })
        },
{
}

/// The frame resources ask for creations, destructions, waits and resets, and
/// for nothing that reaches the queue or the presentation engine.
pub proof fn lemma_data_asks_no_frame_work(data: DataModel, reply: Reply)
    requires
        data.wf(),
    ensures
        data.resume(reply).1 matches Ok(Progress::Run(command)) ==> !command.frame_work() && !(
        command is BeginRenderPass),
{
}

/// When the release of the frame resources ends, they hold nothing: no
/// framebuffer, no command pool or buffer, no semaphore and no fence.
pub proof fn lemma_released_holds_nothing(data: DataModel, reply: Reply)
    requires
        data.wf(),
        data.releasing(),
        data.resume(reply).1 == Ok::<Progress, Fatal>(Progress::Complete),
    ensures
        ({
            let after = data.resume(reply).0;
            &&& after.phase == DataPhase::Halted
            &&& after.framebuffers.len() == 0
            &&& after.command_pool == Handle::null_handle()
            &&& after.command_buffers.len() == 0
            &&& after.render_finished.len() == 0
            &&& after.image_available.len() == 0
            &&& after.fences.len() == 0
            &&& after.slots.len() == 0
        }),
{
}

/// The release destroys in the reverse of the order of creation: a fence goes
/// only when no semaphore is left, a semaphore only when the command pool is
/// gone, and the pool only when no framebuffer is left.
pub proof fn lemma_release_in_reverse(data: DataModel, reply: Reply)
    requires
        data.wf(),
        data.releasing(),
    ensures
        data.resume(reply).1 matches Ok(Progress::Run(Command::DestroyFence { fence })) ==> {
            &&& data.framebuffers.len() == 0
            &&& data.command_pool == Handle::null_handle()
            &&& data.render_finished.len() == 0
            &&& data.image_available.len() == 0
            &&& fence == data.fences.last()
        },
        data.resume(reply).1 matches Ok(Progress::Run(Command::DestroySemaphore { semaphore }))
            ==> data.framebuffers.len() == 0 && data.command_pool == Handle::null_handle(),
        data.resume(reply).1 matches Ok(Progress::Run(Command::DestroyCommandPool { pool }))
            ==> data.framebuffers.len() == 0 && pool == data.command_pool,
        data.resume(reply).1 matches Ok(
            Progress::Run(Command::DestroyFramebuffer { framebuffer }),
        ) ==> framebuffer == data.framebuffers.last(),
{
}

/// The number of frame slots is fixed once and for all.
pub proof fn lemma_frames_stay(data: DataModel, reply: Reply)
    ensures
        data.resume(reply).0.frames == data.frames,
        data.allocate().0.frames == data.frames,
        data.release().0.frames == data.frames,
        data.idled().frames == data.frames,
        forall|views: Seq<Handle>, extent: Extent| #[trigger]
            data.resize(views, extent).0.frames == data.frames,
        forall|slot: usize| #[trigger] data.wait_and_reset(slot).0.frames == data.frames,
{
}

/// Beginning an operation keeps the frame resources well formed.
pub proof fn lemma_begin_keeps_wf(data: DataModel, views: Seq<Handle>, extent: Extent, slot: usize)
    requires
        data.wf(),
        views.len() <= usize::MAX,
    ensures
        data.allocate().0.wf(),
        data.resize(views, extent).0.wf(),
        data.wait_and_reset(slot).0.wf(),
        data.release().0.wf(),
{
}

/// Whatever the reply, the frame resources stay well formed.
pub proof fn lemma_resume_keeps_wf(data: DataModel, reply: Reply)
    requires
        data.wf(),
    ensures
        data.resume(reply).0.wf(),
{
    if data.in_batch() {
        lemma_stage_keeps_wf(data, Some(reply));
    }
}

/// The frame resource set: for each of a fixed number of frame slots one
/// command buffer, the semaphore that tells that an image was acquired, the
/// semaphore that tells that rendering has finished, and the fence that tells
/// that the frame is complete; and beside the slots one framebuffer for each
/// view of the swap chain.
///
/// A slot's objects belong to that slot alone. What is known of its fence and
/// of its command buffer is kept with it, so that no work is recorded into a
/// buffer, and no fence is reset, while the frame that used them is in flight.
#[derive(Debug)]
pub struct RenderData {
    frames: usize,
    allocated: bool,
    fences: Vec<Handle>,
    img_available_semaphores: Vec<Handle>,
    render_finished_semaphores: Vec<Handle>,
    command_pool: Handle,
    command_buffers: Vec<Handle>,
    slots: Vec<SlotState>,
    framebuffers: Vec<Handle>,
    targets: Vec<Handle>,
    target_extent: Extent,
    sized: bool,
    phase: DataPhase,
    batch: Batch,
    dropped: usize,
    slot: usize,
}

impl View for RenderData {
    type V = DataModel;

    closed spec fn view(&self) -> DataModel {
        DataModel {
            frames: self.frames,
            allocated: self.allocated,
            fences: self.fences@,
            image_available: self.img_available_semaphores@,
            render_finished: self.render_finished_semaphores@,
            command_pool: self.command_pool,
            command_buffers: self.command_buffers@,
            slots: self.slots@,
            framebuffers: self.framebuffers@,
            targets: self.targets@,
            target_extent: self.target_extent,
            sized: self.sized,
            phase: self.phase,
            batch: self.batch@,
            dropped: self.dropped,
            slot: self.slot,
        }
    }
}

/// A copy of `handles`.
fn copy_handles(handles: &Vec<Handle>) -> (r: Vec<Handle>)
    ensures
        r@ == handles@,
{
    let mut copy: Vec<Handle> = Vec::new();
    let mut i: usize = 0;
    while i < handles.len()
        invariant
            i <= handles@.len(),
            copy@ == handles@.take(i as int),
        decreases handles@.len() - i,
    {
        copy.push(handles[i]);
        i = i + 1;
    }
    copy
}

/// The states of `frames` slots right after allocation.
fn initial_slots(frames: usize) -> (r: Vec<SlotState>)
    ensures
        r@ == Seq::new(frames as nat, |i: int| initial_slot()),
{
    let mut slots: Vec<SlotState> = Vec::new();
    let mut i: usize = 0;
    while i < frames
        invariant
            i <= frames,
            slots@ == Seq::new(i as nat, |i: int| initial_slot()),
        decreases frames - i,
    {
        slots.push(SlotState { fence: FenceState::Signaled, commands: CommandState::Initial });
        i = i + 1;
    }
    slots
}

impl RenderData {
    /// Resources for `frames` frame slots, none of them created yet.
    pub fn new(frames: usize) -> (r: RenderData)
        requires
            1 <= frames <= u32::MAX,
        ensures
            r@ == DataModel::fresh(frames),
            r@.wf(),
    {
        RenderData {
            frames,
            allocated: false,
            fences: Vec::new(),
            img_available_semaphores: Vec::new(),
            render_finished_semaphores: Vec::new(),
            command_pool: Handle::null(),
            command_buffers: Vec::new(),
            slots: Vec::new(),
            framebuffers: Vec::new(),
            targets: Vec::new(),
            target_extent: Extent { width: 0, height: 0 },
            sized: false,
            phase: DataPhase::Idle,
            batch: Batch::new(0),
            dropped: 0,
            slot: 0,
        }
    }

    /// The number of frame slots.
    pub fn frames(&self) -> (r: usize)
        ensures
            r == self@.frames,
    {
        self.frames
    }

    pub fn phase(&self) -> (r: DataPhase)
        ensures
            r == self@.phase,
    {
        self.phase
    }

    /// Whether the slots' objects are all there.
    pub fn is_allocated(&self) -> (r: bool)
        ensures
            r == self@.allocated,
    {
        self.allocated
    }

    /// Whether a frame can be drawn with these resources.
    pub fn is_ready(&self) -> (r: bool)
        ensures
            r == self@.ready(),
    {
        self.allocated && self.sized && self.phase == DataPhase::Idle
    }

    /// The command buffer of slot `slot`.
    pub fn command_buffer_for(&self, slot: FrameSlot) -> (r: Handle)
        requires
            self@.wf(),
            self@.allocated,
            slot.0 < self@.frames,
        ensures
            r == self@.command_buffers[slot.0 as int],
    {
        self.command_buffers[slot.conv()]
    }

    /// The semaphores of slot `slot`: first the one that is signaled when an
    /// image has been acquired, then the one that is signaled when rendering
    /// has finished.
    pub fn semaphores_for(&self, slot: FrameSlot) -> (r: (Handle, Handle))
        requires
            self@.wf(),
            self@.allocated,
            slot.0 < self@.frames,
        ensures
            r == (self@.image_available[slot.0 as int], self@.render_finished[slot.0 as int]),
    {
        let position: usize = slot.conv();
        (self.img_available_semaphores[position], self.render_finished_semaphores[position])
    }

    /// The fence of slot `slot`.
    pub fn fence_for(&self, slot: FrameSlot) -> (r: Handle)
        requires
            self@.wf(),
            self@.allocated,
            slot.0 < self@.frames,
        ensures
            r == self@.fences[slot.0 as int],
    {
        self.fences[slot.conv()]
    }

    /// What is known of slot `slot`.
    pub fn slot_state(&self, slot: FrameSlot) -> (r: SlotState)
        requires
            self@.wf(),
            self@.allocated,
            slot.0 < self@.frames,
        ensures
            r == self@.slots[slot.0 as int],
    {
        self.slots[slot.conv()]
    }

    /// The number of framebuffers.
    pub fn framebuffer_count(&self) -> (r: usize)
        ensures
            r == self@.framebuffers.len(),
    {
        self.framebuffers.len()
    }

    /// The framebuffer of the swap chain image at position `image_index`.
    pub fn framebuffer_for(&self, image: ImageIndex) -> (r: Handle)
        requires
            image.0 < self@.framebuffers.len(),
        ensures
            r == self@.framebuffers[image.0 as int],
    {
        self.framebuffers[image.conv()]
    }

    /// The number of slots whose frame is in flight: submitted, and not yet
    /// waited for.
    pub fn frames_in_flight(&self) -> (r: usize)
        ensures
            r == in_flight(self@.slots),
            r <= self@.slots.len(),
    {
        let mut count: usize = 0;
        let mut i: usize = 0;
        while i < self.slots.len()
            invariant
                i <= self.slots@.len(),
                count == in_flight(self.slots@.take(i as int)),
                count <= i,
            decreases self.slots@.len() - i,
        {
            proof {
                assert(self.slots@.take(i + 1).drop_last() =~= self.slots@.take(i as int));
            }
            if self.slots[i].fence == FenceState::Pending {
                count = count + 1;
            }
            i = i + 1;
        }
        proof {
            assert(self.slots@.take(i as int) =~= self.slots@);
        }
        count
    }

    /// Takes note that the views of the swap chain are about to change, so that
    /// the framebuffers are no longer those of the current views.
    pub(crate) fn invalidate(&mut self)
        requires
            old(self)@.wf(),
            old(self)@.phase == DataPhase::Idle,
        ensures
            final(self)@ == old(self)@.invalidated(),
            final(self)@.wf(),
    {
        self.sized = false;
    }

    /// Takes note that the device has fallen idle: every frame that was in
    /// flight has completed.
    pub(crate) fn device_idle(&mut self)
        ensures
            final(self)@ == old(self)@.idled(),
    {
        let mut i: usize = 0;
        while i < self.slots.len()
            invariant
                i <= self.slots@.len(),
                self.slots@.len() == old(self)@.slots.len(),
                forall|j: int| 0 <= j < i ==> self.slots@[j] == idle_slot(old(self)@.slots[j]),
                forall|j: int| i <= j < self.slots@.len() ==> self.slots@[j] == old(self)@.slots[j],
                self@ == (DataModel { slots: self.slots@, ..old(self)@ }),
            decreases self.slots@.len() - i,
        {
            let slot = self.slots[i];
            if slot.fence == FenceState::Pending {
                let idle = SlotState { fence: FenceState::Signaled, commands: slot.commands };
                self.slots.set(i, idle);
            }
            i = i + 1;
        }
    }

    /// Takes note of what has become of the fence of slot `slot`.
    pub(crate) fn set_fence(&mut self, slot: usize, fence: FenceState)
        requires
            slot < old(self)@.slots.len(),
        ensures
            final(self)@ == old(self)@.with_fence(slot, fence),
    {
        let state = SlotState { fence, commands: self.slots[slot].commands };
        self.slots.set(slot, state);
    }

    /// Takes note of what has become of the command buffer of slot `slot`.
    pub(crate) fn set_commands(&mut self, slot: usize, commands: CommandState)
        requires
            slot < old(self)@.slots.len(),
        ensures
            final(self)@ == old(self)@.with_commands(slot, commands),
    {
        let state = SlotState { fence: self.slots[slot].fence, commands };
        self.slots.set(slot, state);
    }

    fn run(&mut self, phase: DataPhase, command: Command) -> (r: Outcome)
        ensures
            (final(self)@, r) == old(self)@.run(phase, command),
    {
        self.phase = phase;
        Ok(Progress::Run(command))
    }

    fn complete(&mut self) -> (r: Outcome)
        ensures
            (final(self)@, r) == old(self)@.complete(),
    {
        self.phase = DataPhase::Idle;
        Ok(Progress::Complete)
    }

    fn halt(&mut self, fatal: Fatal) -> (r: Outcome)
        ensures
            (final(self)@, r) == old(self)@.halt(fatal),
    {
        self.phase = DataPhase::Halted;
        Err(fatal)
    }

    fn awaited(&self) -> (r: Operation)
        ensures
            r == self@.awaited(),
    {
        match self.phase {
            DataPhase::Fences => Operation::CreateFence,
            DataPhase::AcquireSemaphores => Operation::CreateSemaphore,
            DataPhase::FinishSemaphores => Operation::CreateSemaphore,
            DataPhase::CommandPool => Operation::CreateCommandPool,
            DataPhase::CommandBuffers => Operation::AllocateCommandBuffers,
            DataPhase::DropFramebuffers => Operation::DestroyFramebuffer,
            DataPhase::Framebuffers => Operation::CreateFramebuffer,
            DataPhase::WaitForFence => Operation::WaitForFence,
            DataPhase::ResetFence => Operation::ResetFence,
            DataPhase::ReleaseWait => Operation::WaitIdle,
            DataPhase::ReleaseFramebuffers => Operation::DestroyFramebuffer,
            DataPhase::ReleasePool => Operation::DestroyCommandPool,
            DataPhase::ReleaseFinishSemaphores => Operation::DestroySemaphore,
            DataPhase::ReleaseAcquireSemaphores => Operation::DestroySemaphore,
            DataPhase::ReleaseFences => Operation::DestroyFence,
            _ => Operation::ResetCommandBuffer,
        }
    }

    fn unexpected(&mut self) -> (r: Outcome)
        ensures
            (final(self)@, r) == old(self)@.unexpected(),
    {
        let operation = self.awaited();
        self.halt(Fatal::UnexpectedReply { operation })
    }

    fn failure(&mut self, index: usize, code: i32) -> (r: Outcome)
        ensures
            (final(self)@, r) == old(self)@.failure(index, code),
    {
        let operation = self.awaited();
        self.halt(Fatal::Device { operation, index, code })
    }

    /// Takes the objects of the batch under way, and leaves an empty batch.
    fn take_batch(&mut self) -> (r: Vec<Handle>)
        ensures
            r@ == old(self)@.batch.handles,
            final(self)@ == (DataModel { batch: BatchModel::fresh(0), ..old(self)@ }),
    {
        let mut batch = Batch::new(0);
        core::mem::swap(&mut batch, &mut self.batch);
        batch.into_handles()
    }

    fn stage_complete(&mut self) -> (r: Outcome)
        requires
            1 <= old(self)@.frames,
        ensures
            (final(self)@, r) == old(self)@.stage_complete(),
    {
        let handles = self.take_batch();
        match self.phase {
            DataPhase::Fences => {
                self.fences = handles;
                self.batch = Batch::new(self.frames);
                self.phase = DataPhase::AcquireSemaphores;
                create_semaphore(&mut self.batch, None)
            },
            DataPhase::AcquireSemaphores => {
                self.img_available_semaphores = handles;
                self.batch = Batch::new(self.frames);
                self.phase = DataPhase::FinishSemaphores;
                create_semaphore(&mut self.batch, None)
            },
            DataPhase::FinishSemaphores => {
                self.render_finished_semaphores = handles;
                self.run(DataPhase::CommandPool, Command::CreateCommandPool)
            },
            _ => {
                self.framebuffers = handles;
                self.sized = true;
                self.complete()
            },
        }
    }

    fn after_stage(&mut self, staged: Outcome) -> (r: Outcome)
        requires
            1 <= old(self)@.frames,
        ensures
            (final(self)@, r) == old(self)@.after_stage((old(self)@.batch, staged)),
    {
        match staged {
            Ok(Progress::Run(command)) => staged,
            Ok(Progress::Complete) => self.stage_complete(),
            Err(fatal) => self.halt(fatal),
        }
    }

    fn begin_framebuffers(&mut self) -> (r: Outcome)
        requires
            old(self)@.wf(),
        ensures
            (final(self)@, r) == old(self)@.begin_framebuffers(),
    {
        self.framebuffers = Vec::new();
        self.dropped = 0;
        if self.targets.len() == 0 {
            self.sized = true;
            self.complete()
        } else {
            self.batch = Batch::new(self.targets.len());
            self.phase = DataPhase::Framebuffers;
            create_framebuffers(&mut self.batch, &self.targets, self.target_extent, None)
        }
    }

    fn drop_next(&mut self) -> (r: Outcome)
        requires
            old(self)@.wf(),
            old(self)@.dropped <= old(self)@.framebuffers.len(),
        ensures
            (final(self)@, r) == old(self)@.drop_next(),
    {
        if self.dropped < self.framebuffers.len() {
            let framebuffer = self.framebuffers[self.dropped];
            self.dropped = self.dropped + 1;
            self.run(DataPhase::DropFramebuffers, Command::DestroyFramebuffer { framebuffer })
        } else {
            self.begin_framebuffers()
        }
    }

    /// Begins the allocation of the slots' objects: a fence, two semaphores
    /// and a command buffer for each slot.
    pub fn allocate(&mut self) -> (r: Outcome)
        requires
            old(self)@.wf(),
        ensures
            (final(self)@, r) == old(self)@.allocate(),
            final(self)@.wf(),
    {
        match self.phase {
            DataPhase::Halted => Err(Fatal::Halted),
            DataPhase::Idle => {
                if self.allocated {
                    Ok(Progress::Complete)
                } else {
                    self.batch = Batch::new(self.frames);
                    self.phase = DataPhase::Fences;
                    create_fences(&mut self.batch, None)
                }
            },
            _ => Err(Fatal::Busy),
        }
    }

    /// Begins the rebuild of the framebuffers for the current chain of
    /// `vulkan_base`: the old framebuffers are destroyed, then one is created
    /// for each view of the chain. The device must have fallen idle since the
    /// last submission, as it has after the chain was rebuilt.
    pub fn resize(&mut self, vulkan_base: &RenderBase) -> (r: Outcome)
        requires
            old(self)@.wf(),
        ensures
            (final(self)@, r) == old(self)@.resize(vulkan_base@.views, vulkan_base@.extent),
            final(self)@.wf(),
    {
        match self.phase {
            DataPhase::Halted => Err(Fatal::Halted),
            DataPhase::Idle => {
                let views = vulkan_base.swapchain_image_views();
                let count = views.len();
                proof {
                    lemma_begin_keeps_wf(self@, vulkan_base@.views, vulkan_base@.extent, 0);
                }
                self.targets = copy_handles(views);
                self.target_extent = vulkan_base.surface_extent();
                self.sized = false;
                self.dropped = 0;
                self.drop_next()
            },
            _ => Err(Fatal::Busy),
        }
    }

    /// Begins the wait for slot `slot`: until its fence is signaled; then the
    /// fence and the slot's command buffer are reset.
    pub fn wait_and_reset(&mut self, slot: FrameSlot) -> (r: Outcome)
        requires
            old(self)@.wf(),
        ensures
            (final(self)@, r) == old(self)@.wait_and_reset(slot.0),
            final(self)@.wf(),
    {
        let slot: usize = slot.conv();
        match self.phase {
            DataPhase::Halted => Err(Fatal::Halted),
            DataPhase::Idle => {
                if !self.allocated || slot >= self.frames {
                    Err(Fatal::NotReady)
                } else if self.slots[slot].fence != FenceState::Unsignaled {
                    self.slot = slot;
                    self.run(
                        DataPhase::WaitForFence,
                        Command::WaitForFence { fence: self.fences[slot], timeout: NO_TIMEOUT },
                    )
                } else if self.slots[slot].commands != CommandState::Initial {
                    self.slot = slot;
                    self.run(
                        DataPhase::ResetCommandBuffer,
                        Command::ResetCommandBuffer { command_buffer: self.command_buffers[slot] },
                    )
                } else {
                    Ok(Progress::Complete)
                }
            },
            _ => Err(Fatal::Busy),
        }
    }

    fn release_next(&mut self) -> (r: Outcome)
        ensures
            (final(self)@, r) == old(self)@.release_next(),
    {
        if self.framebuffers.len() > 0 {
            let framebuffer = self.framebuffers[self.framebuffers.len() - 1];
            self.framebuffers.pop();
            self.run(DataPhase::ReleaseFramebuffers, Command::DestroyFramebuffer { framebuffer })
        } else if !self.command_pool.is_null() {
            let pool = self.command_pool;
            self.command_pool = Handle::null();
            self.command_buffers = Vec::new();
            self.run(DataPhase::ReleasePool, Command::DestroyCommandPool { pool })
        } else if self.render_finished_semaphores.len() > 0 {
            let semaphore =
                self.render_finished_semaphores[self.render_finished_semaphores.len() - 1];
            self.render_finished_semaphores.pop();
            self.run(DataPhase::ReleaseFinishSemaphores, Command::DestroySemaphore { semaphore })
        } else if self.img_available_semaphores.len() > 0 {
            let semaphore = self.img_available_semaphores[self.img_available_semaphores.len() - 1];
            self.img_available_semaphores.pop();
            self.run(DataPhase::ReleaseAcquireSemaphores, Command::DestroySemaphore { semaphore })
        } else if self.fences.len() > 0 {
            let fence = self.fences[self.fences.len() - 1];
            self.fences.pop();
            self.run(DataPhase::ReleaseFences, Command::DestroyFence { fence })
        } else {
            self.command_buffers = Vec::new();
            self.phase = DataPhase::Halted;
            Ok(Progress::Complete)
        }
    }

    /// Begins the release of every object that the frame resources hold: the
    /// device is waited for, then the objects are destroyed in the reverse of
    /// the order in which they were created. After that the frame resources
    /// have ended their work.
    pub fn release(&mut self) -> (r: Outcome)
        requires
            old(self)@.wf(),
        ensures
            (final(self)@, r) == old(self)@.release(),
            final(self)@.wf(),
    {
        match self.phase {
            DataPhase::Idle | DataPhase::Halted => {
                self.allocated = false;
                self.sized = false;
                self.slots = Vec::new();
                self.run(DataPhase::ReleaseWait, Command::WaitIdle)
            },
            _ => Err(Fatal::Busy),
        }
    }

    /// Takes the reply to the call that is awaited, and says what comes next.
    pub fn resume(&mut self, reply: Reply) -> (r: Outcome)
        requires
            old(self)@.wf(),
        ensures
            (final(self)@, r) == old(self)@.resume(reply),
            final(self)@.wf(),
    {
        proof {
            lemma_resume_keeps_wf(self@, reply);
        }
        match self.phase {
            DataPhase::Idle => Err(Fatal::NothingPending),
            DataPhase::Halted => Err(Fatal::Halted),
            DataPhase::ReleaseWait => match reply {
                Reply::Done => self.release_next(),
                Reply::Failed(code) => self.failure(0, code),
                _ => self.unexpected(),
            },
            DataPhase::ReleaseFramebuffers | DataPhase::ReleasePool
            | DataPhase::ReleaseFinishSemaphores | DataPhase::ReleaseAcquireSemaphores
            | DataPhase::ReleaseFences => match reply {
                Reply::Done => self.release_next(),
                _ => self.unexpected(),
            },
            DataPhase::CommandPool => match create_command_pool(reply) {
                Ok(pool) => {
                    self.command_pool = pool;
                    self.run(
                        DataPhase::CommandBuffers,
                        Command::AllocateCommandBuffers { pool, count: self.frames as u32 },
                    )
                },
                Err(fatal) => self.halt(fatal),
            },
            DataPhase::CommandBuffers => match reply {
                Reply::Handles(buffers) => {
                    if buffers.len() == self.frames {
                        self.command_buffers = buffers;
                        self.slots = initial_slots(self.frames);
                        self.allocated = true;
                        self.complete()
                    } else {
                        self.halt(Fatal::WrongBufferCount { count: buffers.len() })
                    }
                },
                Reply::Failed(code) => self.failure(0, code),
                _ => self.unexpected(),
            },
            DataPhase::DropFramebuffers => match reply {
                Reply::Done => self.drop_next(),
                _ => self.unexpected(),
            },
            DataPhase::WaitForFence => match reply {
                Reply::Done => {
                    self.set_fence(self.slot, FenceState::Signaled);
                    self.run(
                        DataPhase::ResetFence,
                        Command::ResetFence { fence: self.fences[self.slot] },
                    )
                },
                Reply::Failed(code) => self.failure(self.slot, code),
                _ => self.unexpected(),
            },
            DataPhase::ResetFence => match reply {
                Reply::Done => {
                    self.set_fence(self.slot, FenceState::Unsignaled);
                    self.run(
                        DataPhase::ResetCommandBuffer,
                        Command::ResetCommandBuffer {
                            command_buffer: self.command_buffers[self.slot],
                        },
                    )
                },
                Reply::Failed(code) => self.failure(self.slot, code),
                _ => self.unexpected(),
            },
            DataPhase::ResetCommandBuffer => match reply {
                Reply::Done => {
                    self.set_commands(self.slot, CommandState::Initial);
                    self.complete()
                },
                Reply::Failed(code) => self.failure(self.slot, code),
                _ => self.unexpected(),
            },
            _ => {
                let staged = match self.phase {
                    DataPhase::Fences => create_fences(&mut self.batch, Some(reply)),
                    DataPhase::Framebuffers => create_framebuffers(
                        &mut self.batch,
                        &self.targets,
                        self.target_extent,
                        Some(reply),
                    ),
                    _ => create_semaphore(&mut self.batch, Some(reply)),
                };
                self.after_stage(staged)
            },
        }
    }
}

} // verus!

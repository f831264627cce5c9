use vstd::prelude::*;
use crate::base::{BaseModel, BuildPhase, RenderBase};
use crate::data::{
    in_flight, reset_slot, CommandState, DataModel, DataPhase, FenceState, RenderData, SlotState,
};
use crate::device::{
    is_stale, stale, Command, Fatal, Handle, Operation, Outcome, Progress, Reply,
    COLOR_ATTACHMENT_OUTPUT, NO_TIMEOUT,
};
use crate::extent::Extent;
use crate::index::{following, FrameSlot, ImageIndex};

verus! {

/// Where the renderer stands within a tick: each phase but `Idle` and `Halted`
/// is named after what is awaiting its reply.
#[derive(Clone, Copy, Debug, PartialEq, Eq, Structural)]
pub enum DrawPhase {
    /// Between two ticks.
    Idle,
    /// The frame slots' objects are being created.
    Allocating,
    /// The swap chain is being built.
    Rebuilding,
    /// The framebuffers are being rebuilt for the new chain.
    Resizing,
    /// The slot of this frame is being waited for and reset.
    Waiting,
    /// The acquire of the next image.
    Acquiring,
    BeginCommandBuffer,
    BeginRenderPass,
    SetViewport,
    SetScissor,
    EndRenderPass,
    EndCommandBuffer,
    /// The submission of the recorded work.
    Submitting,
    /// The present of the image.
    Presenting,
    /// The frame resources are being destroyed.
    ReleasingData,
    /// The swap chain is being destroyed.
    ReleasingBase,
    /// The tick loop has ended: by a fatal failure, or by the release of all
    /// objects.
    Halted,
}

/// The state of the frame cycle that a phase belongs to.
#[derive(Clone, Copy, Debug, PartialEq, Eq, Structural)]
pub enum Stage {
    Idle,
    /// Slots are allocated or the chain is rebuilt, before any frame work.
    Preparing,
    /// The slot is made free and the next image is asked for.
    Acquiring,
    Recording,
    /// The recorded work is handed to the queue.
    Submitted,
    Presenting,
    /// Everything is being destroyed.
    Closing,
    Halted,
}

/// What a tick asks for next, or how it ended.
#[derive(Clone, Copy, Debug, PartialEq, Eq, Structural)]
pub enum Tick {
    /// The device call to make next; its reply goes to `resume`.
    Run(Command),
    /// The window covers no pixel: nothing was asked of the device.
    Skipped,
    /// The frame was presented.
    Presented,
    /// The swap chain was reported out of date or suboptimal: the frame ended
    /// early or was presented, and the chain is rebuilt at the top of the next
    /// tick. This is no failure.
    RebuildRequested,
    /// Everything that the renderer held is destroyed.
    Released,
}

pub type Ticked = Result<Tick, Fatal>;

/// That a call which hands nothing back went through: `Done`.
pub open spec fn acknowledged(operation: Operation, index: usize, reply: Reply) -> Result<
    (),
    Fatal,
> {
    match reply {
        Reply::Done => Ok(()),
        Reply::Failed(code) => Err(Fatal::Device { operation, index, code }),
        _ => Err(Fatal::UnexpectedReply { operation }),
    }
}

/// What an acquire for frame slot `slot` has brought: the position of an image,
/// or nothing where the chain was reported out of date or suboptimal, which asks
/// for a rebuild and is no failure.
pub open spec fn acquired(reply: Reply, slot: usize) -> Result<Option<u32>, Fatal> {
    match reply {
        Reply::Acquired { image_index, suboptimal } => if suboptimal {
            Ok(None)
        } else {
            Ok(Some(image_index))
        },
        Reply::Failed(code) => if stale(code) {
            Ok(None)
        } else {
            Err(Fatal::Device { operation: Operation::AcquireNextImage, index: slot, code })
        },
        _ => Err(Fatal::UnexpectedReply { operation: Operation::AcquireNextImage }),
    }
}

/// How a present for frame slot `slot` went: `true` where the image was
/// presented and the chain still fits, `false` where the chain was reported out
/// of date or suboptimal, which asks for a rebuild and is no failure.
pub open spec fn presented(reply: Reply, slot: usize) -> Result<bool, Fatal> {
    match reply {
        Reply::Presented { suboptimal } => Ok(!suboptimal),
        Reply::Failed(code) => if stale(code) {
            Ok(false)
        } else {
            Err(Fatal::Device { operation: Operation::Present, index: slot, code })
        },
        _ => Err(Fatal::UnexpectedReply { operation: Operation::Present }),
    }
}

/// The renderer as a mathematical value.
#[verifier::ext_equal]
pub struct RendererModel {
    pub base: BaseModel,
    pub data: DataModel,
    /// The frame slot of the current frame.
    pub current_frame_index: usize,
    /// Whether the swap chain is to be rebuilt at the top of the next tick.
    pub rebuild_swapchain: bool,
    /// The position, in the swap chain, of the image acquired for this frame.
    pub image_index: u32,
    pub phase: DrawPhase,
    /// The window's extent at the top of the tick under way.
    pub window: Extent,
}

impl RendererModel {
    /// The renderer before its first tick: no slots, no chain, and a rebuild
    /// asked for.
    pub open spec fn fresh(frames: usize, requested_image_count: u32) -> RendererModel {
        RendererModel {
            base: BaseModel::fresh(requested_image_count),
            data: DataModel::fresh(frames),
            current_frame_index: 0,
            rebuild_swapchain: true,
            image_index: 0,
            phase: DrawPhase::Idle,
            window: Extent { width: 0, height: 0 },
        }
    }

    /// The state of the frame cycle that the phase belongs to.
    pub open spec fn stage(self) -> Stage {
        match self.phase {
            DrawPhase::Idle => Stage::Idle,
            DrawPhase::Allocating | DrawPhase::Rebuilding | DrawPhase::Resizing => Stage::Preparing,
            DrawPhase::Waiting | DrawPhase::Acquiring => Stage::Acquiring,
            DrawPhase::Submitting => Stage::Submitted,
            DrawPhase::Presenting => Stage::Presenting,
            DrawPhase::ReleasingData | DrawPhase::ReleasingBase => Stage::Closing,
            DrawPhase::Halted => Stage::Halted,
            _ => Stage::Recording,
        }
    }

    /// Whether the swap chain, the framebuffers and the frame slots are there
    /// and none of them is being worked on.
    pub open spec fn ready(self) -> bool {
        self.base.built && self.base.phase == BuildPhase::Idle && self.data.ready()
    }

    /// Whether the objects of the current frame slot can be named.
    pub open spec fn slot_ready(self) -> bool {
        self.data.allocated && self.current_frame_index < self.data.frames
    }

    /// What is known of the current frame slot.
    pub open spec fn slot(self) -> SlotState {
        self.data.slots[self.current_frame_index as int]
    }

    /// Whether the phase is one in which commands are recorded.
    pub open spec fn recording(self) -> bool {
        self.phase == DrawPhase::BeginRenderPass || self.phase == DrawPhase::SetViewport
            || self.phase == DrawPhase::SetScissor || self.phase == DrawPhase::EndRenderPass
            || self.phase == DrawPhase::EndCommandBuffer
    }

    /// Whether the phase is one of those from the acquire to the present.
    pub open spec fn in_frame(self) -> bool {
        self.phase == DrawPhase::Acquiring || self.phase == DrawPhase::BeginCommandBuffer
            || self.recording() || self.phase == DrawPhase::Submitting || self.phase
            == DrawPhase::Presenting
    }

    /// Whether no command buffer but that of the current slot is left in the
    /// middle of a recording.
    pub open spec fn others_calm(self) -> bool {
        forall|i: int|
            0 <= i < self.data.slots.len() && i != self.current_frame_index ==> (
            #[trigger] self.data.slots[i]).commands != CommandState::Recording
    }

    pub open spec fn wf(self) -> bool {
        &&& self.base.wf()
        &&& self.data.wf()
        &&& self.current_frame_index < self.data.frames
        &&& self.data.sized ==> self.data.targets == self.base.views
        &&& self.phase == DrawPhase::Idle ==> self.base.phase == BuildPhase::Idle
            && self.data.phase == DataPhase::Idle
        &&& self.phase == DrawPhase::Allocating ==> self.base.phase == BuildPhase::Idle
            && self.data.allocating()
        &&& self.phase == DrawPhase::Rebuilding ==> self.base.phase != BuildPhase::Idle
            && self.base.phase != BuildPhase::Halted && !self.base.releasing()
            && (self.base.phase != BuildPhase::WaitIdle ==> in_flight(self.data.slots) == 0)
            && self.data.phase == DataPhase::Idle
            && self.data.allocated && !self.data.sized
        &&& self.phase == DrawPhase::Resizing ==> self.base.phase == BuildPhase::Idle
            && self.base.built && self.data.allocated && (self.data.phase
            == DataPhase::DropFramebuffers || self.data.phase == DataPhase::Framebuffers)
            && self.data.targets == self.base.views && in_flight(self.data.slots) == 0
        &&& self.phase == DrawPhase::Waiting ==> self.base.phase == BuildPhase::Idle
            && self.base.built && self.data.sized && self.data.resetting() && self.data.slot
            == self.current_frame_index
        &&& self.phase == DrawPhase::ReleasingData ==> self.data.releasing() && (
        self.base.phase == BuildPhase::Idle || self.base.phase == BuildPhase::Halted)
        &&& self.phase == DrawPhase::ReleasingBase ==> self.base.releasing() && self.data.phase
            == DataPhase::Halted && !self.data.sized && !self.data.allocated
        &&& self.phase == DrawPhase::Halted ==> (self.base.phase == BuildPhase::Idle
            || self.base.phase == BuildPhase::Halted) && (self.data.phase == DataPhase::Idle
            || self.data.phase == DataPhase::Halted)
        &&& self.in_frame() ==> self.ready()
        &&& self.phase != DrawPhase::Halted && self.phase != DrawPhase::ReleasingBase
            && !self.in_frame() ==> self.data.calm()
        &&& self.in_frame() ==> self.others_calm()
        &&& self.phase == DrawPhase::Acquiring || self.phase == DrawPhase::BeginCommandBuffer
            ==> self.slot() == reset_slot()
        &&& self.recording() ==> self.slot() == (SlotState {
            fence: FenceState::Unsignaled,
            commands: CommandState::Recording,
        })
        &&& self.phase == DrawPhase::Submitting ==> self.slot() == (SlotState {
            fence: FenceState::Unsignaled,
            commands: CommandState::Executable,
        })
        &&& self.phase == DrawPhase::Presenting ==> self.slot() == (SlotState {
            fence: FenceState::Pending,
            commands: CommandState::Executable,
        })
        &&& self.in_frame() && self.phase != DrawPhase::Acquiring ==> self.image_index
            < self.base.images.len()
    }

    /// The work ends for good with `fatal`.
    pub open spec fn halt(self, fatal: Fatal) -> (RendererModel, Ticked) {
        (RendererModel { phase: DrawPhase::Halted, ..self }, Err(fatal))
    }

    /// The call `command` is handed out and awaited in `phase`; where there is
    /// no call to hand out, the work ends.
    pub open spec fn issue(self, phase: DrawPhase, command: Result<Command, Fatal>) -> (
        RendererModel,
        Ticked,
    ) {
        match command {
            Ok(command) => (RendererModel { phase, ..self }, Ok(Tick::Run(command))),
            Err(fatal) => self.halt(fatal),
        }
    }

    /// The frame ends with `outcome`, and the frame slot index moves on by one,
    /// around the number of slots.
    pub open spec fn finish(self, outcome: Tick) -> (RendererModel, Ticked) {
        (
            RendererModel {
                current_frame_index: following(self.current_frame_index, self.data.frames),
                phase: DrawPhase::Idle,
                ..self
            },
            Ok(outcome),
        )
    }

    pub open spec fn with_commands(self, commands: CommandState) -> RendererModel {
        RendererModel {
            data: self.data.with_commands(self.current_frame_index, commands),
            ..self
        }
    }

    pub open spec fn with_fence(self, fence: FenceState) -> RendererModel {
        RendererModel { data: self.data.with_fence(self.current_frame_index, fence), ..self }
    }

    /// The acquire of the next image, which signals the slot's first semaphore.
    pub open spec fn acquire(self) -> Result<Command, Fatal> {
        if self.slot_ready() {
            Ok(
                Command::AcquireNextImage {
                    swapchain: self.base.swapchain,
                    semaphore: self.data.image_available[self.current_frame_index as int],
                    timeout: NO_TIMEOUT,
                },
            )
        } else {
            Err(Fatal::NotReady)
        }
    }

    pub open spec fn command_buffer(self) -> Handle {
        self.data.command_buffers[self.current_frame_index as int]
    }

    pub open spec fn begin_command_buffer(self) -> Result<Command, Fatal> {
        if self.slot_ready() {
            Ok(Command::BeginCommandBuffer { command_buffer: self.command_buffer() })
        } else {
            Err(Fatal::NotReady)
        }
    }

    /// The render pass begins on the framebuffer of the image that was
    /// acquired, whatever the frame slot is.
    pub open spec fn begin_render_pass(self) -> Result<Command, Fatal> {
        if self.slot_ready() && self.image_index < self.data.framebuffers.len() {
            Ok(
                Command::BeginRenderPass {
                    command_buffer: self.command_buffer(),
                    framebuffer: self.data.framebuffers[self.image_index as int],
                    extent: self.base.extent,
                },
            )
        } else {
            Err(Fatal::NotReady)
        }
    }

    pub open spec fn set_viewport(self) -> Result<Command, Fatal> {
        if self.slot_ready() {
            Ok(
                Command::SetViewport {
                    command_buffer: self.command_buffer(),
                    extent: self.base.extent,
                },
            )
        } else {
            Err(Fatal::NotReady)
        }
    }

    pub open spec fn set_scissor(self) -> Result<Command, Fatal> {
        if self.slot_ready() {
            Ok(
                Command::SetScissor {
                    command_buffer: self.command_buffer(),
                    extent: self.base.extent,
                },
            )
        } else {
            Err(Fatal::NotReady)
        }
    }

    pub open spec fn end_render_pass(self) -> Result<Command, Fatal> {
        if self.slot_ready() {
            Ok(Command::EndRenderPass { command_buffer: self.command_buffer() })
        } else {
            Err(Fatal::NotReady)
        }
    }

    pub open spec fn end_command_buffer(self) -> Result<Command, Fatal> {
        if self.slot_ready() {
            Ok(Command::EndCommandBuffer { command_buffer: self.command_buffer() })
        } else {
            Err(Fatal::NotReady)
        }
    }

    /// The submission of the slot's command buffer: it waits for the slot's
    /// first semaphore, signals its second, and signals the slot's fence.
    pub open spec fn submit(self) -> Result<Command, Fatal> {
        if self.slot_ready() {
            Ok(
                Command::Submit {
                    command_buffer: self.command_buffer(),
                    wait: self.data.image_available[self.current_frame_index as int],
                    wait_stage: COLOR_ATTACHMENT_OUTPUT,
                    signal: self.data.render_finished[self.current_frame_index as int],
                    fence: self.data.fences[self.current_frame_index as int],
                },
            )
        } else {
            Err(Fatal::NotReady)
        }
    }

    /// The present of the image that was acquired, which waits for the slot's
    /// second semaphore.
    pub open spec fn present_command(self) -> Result<Command, Fatal> {
        if self.slot_ready() {
            Ok(
                Command::Present {
                    swapchain: self.base.swapchain,
                    image_index: self.image_index,
                    wait: self.data.render_finished[self.current_frame_index as int],
                },
            )
        } else {
            Err(Fatal::NotReady)
        }
    }

    /// What a part of the renderer has answered, carried over: a call is
    /// handed on and awaited in `phase`, a failure ends the work; `None` says
    /// that the part is complete.
    pub open spec fn carried(self, phase: DrawPhase, outcome: Outcome) -> Option<
        (RendererModel, Ticked),
    > {
        match outcome {
            Ok(Progress::Run(command)) => Some(
                (RendererModel { phase, ..self }, Ok(Tick::Run(command))),
            ),
            Ok(Progress::Complete) => None,
            Err(fatal) => Some(self.halt(fatal)),
        }
    }

    /// The frame begins: with the wait for the current slot, or, where the slot
    /// is free already, with the acquire.
    pub open spec fn begin_draw(self) -> (RendererModel, Ticked) {
        if !self.ready() || !self.slot_ready() {
            (RendererModel { phase: DrawPhase::Idle, ..self }, Err(Fatal::NotReady))
        } else {
            let waited = self.data.wait_and_reset(self.current_frame_index);
            let next = RendererModel { data: waited.0, ..self };
            match next.carried(DrawPhase::Waiting, waited.1) {
                Some(r) => r,
                None => next.issue(DrawPhase::Acquiring, next.acquire()),
            }
        }
    }

    /// The framebuffers are rebuilt for the current chain; then the frame
    /// begins.
    pub open spec fn begin_resize(self) -> (RendererModel, Ticked) {
        let resized = self.data.resize(self.base.views, self.base.extent);
        let next = RendererModel { data: resized.0, ..self };
        match next.carried(DrawPhase::Resizing, resized.1) {
            Some(r) => r,
            None => next.begin_draw(),
        }
    }

    /// The chain is rebuilt where a rebuild was asked for, or where the chain
    /// or its framebuffers are missing; then the framebuffers follow, and the
    /// frame.
    pub open spec fn begin_rebuild(self) -> (RendererModel, Ticked) {
        if self.rebuild_swapchain || !self.base.built || !self.data.sized {
            let rebuilt = self.base.resize(self.window);
            let next = RendererModel {
                base: rebuilt.0,
                data: self.data.invalidated(),
                rebuild_swapchain: false,
                ..self
            };
            match next.carried(DrawPhase::Rebuilding, rebuilt.1) {
                Some(r) => r,
                None => next.halt(Fatal::NotReady),
            }
        } else {
            self.begin_draw()
        }
    }

    /// The tick's work begins: with the allocation of the frame slots where
    /// they are missing, else with what follows it.
    pub open spec fn begin(self) -> (RendererModel, Ticked) {
        if !self.data.allocated {
            let allocated = self.data.allocate();
            let next = RendererModel { data: allocated.0, ..self };
            match next.carried(DrawPhase::Allocating, allocated.1) {
                Some(r) => r,
                None => next.begin_rebuild(),
            }
        } else {
            self.begin_rebuild()
        }
    }

    /// A tick for a window of extent `window`. A window that covers no pixel
    /// asks nothing of the device and changes nothing.
    pub open spec fn tick(self, window: Extent) -> (RendererModel, Ticked) {
        match self.phase {
            DrawPhase::Halted => (self, Err(Fatal::Halted)),
            DrawPhase::Idle => if window.zero_area() {
                (self, Ok(Tick::Skipped))
            } else {
                RendererModel { window, ..self }.begin()
            },
            _ => (self, Err(Fatal::Busy)),
        }
    }

    /// The chain is released, after the frame resources; when the chain is
    /// gone, everything is.
    pub open spec fn release_base(self) -> (RendererModel, Ticked) {
        let released = self.base.release();
        let next = RendererModel { base: released.0, ..self };
        match next.carried(DrawPhase::ReleasingBase, released.1) {
            Some(r) => r,
            None => (RendererModel { phase: DrawPhase::Halted, ..next }, Ok(Tick::Released)),
        }
    }

    /// The renderer is shut down, between two ticks or after a fatal failure:
    /// everything is destroyed in the reverse of the order of creation, the
    /// frame resources before the swap chain, each after a wait for the device
    /// to fall idle.
    pub open spec fn shutdown(self) -> (RendererModel, Ticked) {
        if self.phase == DrawPhase::Idle || self.phase == DrawPhase::Halted {
            let released = self.data.release();
            let next = RendererModel { data: released.0, ..self };
            match next.carried(DrawPhase::ReleasingData, released.1) {
                Some(r) => r,
                None => next.release_base(),
            }
        } else {
            (self, Err(Fatal::Busy))
        }
    }

    /// A frame is asked for between two ticks.
    pub open spec fn draw(self) -> (RendererModel, Ticked) {
        match self.phase {
            DrawPhase::Halted => (self, Err(Fatal::Halted)),
            DrawPhase::Idle => self.begin_draw(),
            _ => (self, Err(Fatal::Busy)),
        }
    }

    /// Whether a call is awaiting its reply.
    pub open spec fn awaiting(self) -> bool {
        self.phase != DrawPhase::Idle && self.phase != DrawPhase::Halted
    }

    /// The call whose reply is awaited, in every phase but `Idle` and `Halted`.
    pub open spec fn expected(self) -> Operation {
        match self.phase {
            DrawPhase::Rebuilding | DrawPhase::ReleasingBase => self.base.expected(),
            DrawPhase::Acquiring => Operation::AcquireNextImage,
            DrawPhase::BeginCommandBuffer => Operation::BeginCommandBuffer,
            DrawPhase::BeginRenderPass => Operation::BeginRenderPass,
            DrawPhase::SetViewport => Operation::SetViewport,
            DrawPhase::SetScissor => Operation::SetScissor,
            DrawPhase::EndRenderPass => Operation::EndRenderPass,
            DrawPhase::EndCommandBuffer => Operation::EndCommandBuffer,
            DrawPhase::Submitting => Operation::Submit,
            DrawPhase::Presenting => Operation::Present,
            _ => self.data.expected(),
        }
    }

    /// Whether `reply` tells that the device has fallen idle: it answers, with
    /// success, the wait that a rebuild begins with.
    pub open spec fn idle_after(self, reply: Reply) -> bool {
        self.phase == DrawPhase::Rebuilding && self.base.phase == BuildPhase::WaitIdle
            && reply is Done
    }

    /// The step that is the same in all phases of recording: the call awaited
    /// went through, and `command` is handed out and awaited in `phase`.
    pub open spec fn proceed(
        self,
        awaited: Operation,
        reply: Reply,
        phase: DrawPhase,
        command: Result<Command, Fatal>,
    ) -> (RendererModel, Ticked) {
        match acknowledged(awaited, self.current_frame_index, reply) {
            Ok(_) => self.issue(phase, command),
            Err(fatal) => self.halt(fatal),
        }
    }

    /// The reply to the call that is awaited, and what the renderer does on it.
    pub open spec fn resume(self, reply: Reply) -> (RendererModel, Ticked) {
        let slot = self.current_frame_index;
        match self.phase {
            DrawPhase::Idle => (self, Err(Fatal::NothingPending)),
            DrawPhase::Halted => (self, Err(Fatal::Halted)),
            DrawPhase::Allocating => {
                let resumed = self.data.resume(reply);
                let next = RendererModel { data: resumed.0, ..self };
                match next.carried(DrawPhase::Allocating, resumed.1) {
                    Some(r) => r,
                    None => next.begin_rebuild(),
                }
            },
            DrawPhase::Rebuilding => {
                let resumed = self.base.resume(reply);
                let next = RendererModel {
                    base: resumed.0,
                    data: if self.idle_after(reply) {
                        self.data.idled()
                    } else {
                        self.data
                    },
                    ..self
                };
                match next.carried(DrawPhase::Rebuilding, resumed.1) {
                    Some(r) => r,
                    None => next.begin_resize(),
                }
            },
            DrawPhase::Resizing => {
                let resumed = self.data.resume(reply);
                let next = RendererModel { data: resumed.0, ..self };
                match next.carried(DrawPhase::Resizing, resumed.1) {
                    Some(r) => r,
                    None => next.begin_draw(),
                }
            },
            DrawPhase::Waiting => {
                let resumed = self.data.resume(reply);
                let next = RendererModel { data: resumed.0, ..self };
                match next.carried(DrawPhase::Waiting, resumed.1) {
                    Some(r) => r,
                    None => next.issue(DrawPhase::Acquiring, next.acquire()),
                }
            },
            DrawPhase::Acquiring => match acquired(reply, slot) {
                Ok(Some(image_index)) => if image_index < self.base.images.len() {
                    let next = RendererModel { image_index, ..self };
                    next.issue(DrawPhase::BeginCommandBuffer, next.begin_command_buffer())
                } else {
                    self.halt(Fatal::UnknownImage { image_index })
                },
                Ok(None) => RendererModel { rebuild_swapchain: true, ..self }.finish(
                    Tick::RebuildRequested,
                ),
                Err(fatal) => self.halt(fatal),
            },
            DrawPhase::BeginCommandBuffer => {
                let next = self.with_commands(CommandState::Recording);
                match acknowledged(Operation::BeginCommandBuffer, slot, reply) {
                    Ok(_) => next.issue(DrawPhase::BeginRenderPass, next.begin_render_pass()),
                    Err(fatal) => self.halt(fatal),
                }
            },
            DrawPhase::BeginRenderPass => self.proceed(
                Operation::BeginRenderPass,
                reply,
                DrawPhase::SetViewport,
                self.set_viewport(),
            ),
            DrawPhase::SetViewport => self.proceed(
                Operation::SetViewport,
                reply,
                DrawPhase::SetScissor,
                self.set_scissor(),
            ),
            DrawPhase::SetScissor => self.proceed(
                Operation::SetScissor,
                reply,
                DrawPhase::EndRenderPass,
                self.end_render_pass(),
            ),
            DrawPhase::EndRenderPass => self.proceed(
                Operation::EndRenderPass,
                reply,
                DrawPhase::EndCommandBuffer,
                self.end_command_buffer(),
            ),
            DrawPhase::EndCommandBuffer => {
                let next = self.with_commands(CommandState::Executable);
                match acknowledged(Operation::EndCommandBuffer, slot, reply) {
                    Ok(_) => next.issue(DrawPhase::Submitting, next.submit()),
                    Err(fatal) => self.halt(fatal),
                }
            },
            DrawPhase::Submitting => {
                let next = self.with_fence(FenceState::Pending);
                match acknowledged(Operation::Submit, slot, reply) {
                    Ok(_) => next.issue(DrawPhase::Presenting, next.present_command()),
                    Err(fatal) => self.halt(fatal),
                }
            },
            DrawPhase::Presenting => match presented(reply, slot) {
                Ok(true) => self.finish(Tick::Presented),
                Ok(false) => RendererModel { rebuild_swapchain: true, ..self }.finish(
                    Tick::RebuildRequested,
                ),
                Err(fatal) => self.halt(fatal),
            },
            DrawPhase::ReleasingData => {
                let resumed = self.data.resume(reply);
                let next = RendererModel { data: resumed.0, ..self };
                match next.carried(DrawPhase::ReleasingData, resumed.1) {
                    Some(r) => r,
                    None => next.release_base(),
                }
            },
            DrawPhase::ReleasingBase => {
                let resumed = self.base.resume(reply);
                let next = RendererModel { base: resumed.0, ..self };
                match next.carried(DrawPhase::ReleasingBase, resumed.1) {
                    Some(r) => r,
                    None => (
                        RendererModel { phase: DrawPhase::Halted, ..next },
                        Ok(Tick::Released),
                    ),
                }
            },
        }
    }
}

impl RendererModel {
    /// Whether the parts are well formed and at rest, so that the next piece of
    /// a tick's work can begin.
    pub open spec fn settled(self) -> bool {
        &&& self.base.wf()
        &&& self.data.wf()
        &&& self.current_frame_index < self.data.frames
        &&& self.data.sized ==> self.data.targets == self.base.views
        &&& self.base.phase == BuildPhase::Idle
        &&& self.data.phase == DataPhase::Idle
        &&& self.data.calm()
    }
}

/// Beginning a frame keeps the renderer well formed.
proof fn lemma_begin_draw_keeps_wf(renderer: RendererModel)
    requires
        renderer.settled(),
    ensures
        renderer.begin_draw().0.wf(),
{
    crate::data::lemma_begin_keeps_wf(
        renderer.data,
        renderer.base.views,
        renderer.base.extent,
        renderer.current_frame_index,
    );
}

/// Beginning the rebuild of the framebuffers keeps the renderer well formed.
proof fn lemma_begin_resize_keeps_wf(renderer: RendererModel)
    requires
        renderer.settled(),
        renderer.data.allocated,
        renderer.base.built,
        in_flight(renderer.data.slots) == 0,
    ensures
        renderer.begin_resize().0.wf(),
{
    let resized = renderer.data.resize(renderer.base.views, renderer.base.extent);
    let next = RendererModel { data: resized.0, ..renderer };
    crate::data::lemma_begin_keeps_wf(
        renderer.data,
        renderer.base.views,
        renderer.base.extent,
        renderer.current_frame_index,
    );
    if resized.1 == Ok::<Progress, Fatal>(Progress::Complete) {
        lemma_begin_draw_keeps_wf(next);
    }
}

/// Beginning the rebuild of the chain keeps the renderer well formed.
proof fn lemma_begin_rebuild_keeps_wf(renderer: RendererModel)
    requires
        renderer.settled(),
        renderer.data.allocated,
    ensures
        renderer.begin_rebuild().0.wf(),
{
    if !renderer.rebuild_swapchain && renderer.base.built && renderer.data.sized {
        lemma_begin_draw_keeps_wf(renderer);
    }
}

/// A tick keeps the renderer well formed.
pub proof fn lemma_tick_keeps_wf(renderer: RendererModel, window: Extent)
    requires
        renderer.wf(),
    ensures
        renderer.tick(window).0.wf(),
        renderer.draw().0.wf(),
{
    if renderer.phase == DrawPhase::Idle {
        lemma_begin_draw_keeps_wf(renderer);
        let next = RendererModel { window, ..renderer };
        if !window.zero_area() {
            if !next.data.allocated {
                crate::data::lemma_begin_keeps_wf(
                    next.data,
                    next.base.views,
                    next.base.extent,
                    next.current_frame_index,
                );
            } else {
                lemma_begin_rebuild_keeps_wf(next);
            }
        }
    }
}

/// A reply during allocation, rebuild or resize keeps the renderer well formed.
proof fn lemma_preparing_keeps_wf(renderer: RendererModel, reply: Reply)
    requires
        renderer.wf(),
        renderer.stage() == Stage::Preparing,
    ensures
        renderer.resume(reply).0.wf(),
{
    match renderer.phase {
        DrawPhase::Allocating => {
            let resumed = renderer.data.resume(reply);
            let next = RendererModel { data: resumed.0, ..renderer };
            crate::data::lemma_resume_keeps_wf(renderer.data, reply);
            if resumed.1 == Ok::<Progress, Fatal>(Progress::Complete) {
                lemma_begin_rebuild_keeps_wf(next);
            }
        },
        DrawPhase::Rebuilding => {
            let resumed = renderer.base.resume(reply);
            crate::base::lemma_resume_keeps_wf(renderer.base, reply);
            crate::data::lemma_idle_has_none_in_flight(renderer.data);
            if resumed.1 == Ok::<Progress, Fatal>(Progress::Complete) {
                let next = RendererModel { base: resumed.0, ..renderer };
                lemma_begin_resize_keeps_wf(next);
            }
        },
        _ => {
            let resumed = renderer.data.resume(reply);
            let next = RendererModel { data: resumed.0, ..renderer };
            crate::data::lemma_resume_keeps_wf(renderer.data, reply);
            if resumed.1 == Ok::<Progress, Fatal>(Progress::Complete) {
                lemma_begin_draw_keeps_wf(next);
            }
        },
    }
}

/// A reply during the wait for the slot keeps the renderer well formed.
proof fn lemma_waiting_keeps_wf(renderer: RendererModel, reply: Reply)
    requires
        renderer.wf(),
        renderer.phase == DrawPhase::Waiting,
    ensures
        renderer.resume(reply).0.wf(),
{
    crate::data::lemma_resume_keeps_wf(renderer.data, reply);
}

/// A reply between acquire and present keeps the renderer well formed.
proof fn lemma_frame_keeps_wf(renderer: RendererModel, reply: Reply)
    requires
        renderer.wf(),
        renderer.in_frame(),
    ensures
        renderer.resume(reply).0.wf(),
{
}

/// Beginning the shutdown keeps the renderer well formed.
pub proof fn lemma_shutdown_keeps_wf(renderer: RendererModel)
    requires
        renderer.wf(),
    ensures
        renderer.shutdown().0.wf(),
{
    crate::data::lemma_begin_keeps_wf(
        renderer.data,
        renderer.base.views,
        renderer.base.extent,
        renderer.current_frame_index,
    );
}

/// A reply during the shutdown keeps the renderer well formed.
proof fn lemma_closing_keeps_wf(renderer: RendererModel, reply: Reply)
    requires
        renderer.wf(),
        renderer.stage() == Stage::Closing,
    ensures
        renderer.resume(reply).0.wf(),
{
    crate::data::lemma_resume_keeps_wf(renderer.data, reply);
    crate::base::lemma_resume_keeps_wf(renderer.base, reply);
}

/// The shutdown releases the frame resources before the swap chain, and ends
/// with nothing held: no framebuffer, no slot object, no view and no chain.
pub proof fn lemma_shutdown_releases_everything(renderer: RendererModel, reply: Reply)
    requires
        renderer.wf(),
        renderer.resume(reply).1 == Ok::<Tick, Fatal>(Tick::Released),
    ensures
        renderer.phase == DrawPhase::ReleasingBase,
        renderer.data.phase == DataPhase::Halted,
        ({
            let after = renderer.resume(reply).0;
            &&& after.phase == DrawPhase::Halted
            &&& !after.base.built
            &&& after.base.swapchain == Handle::null_handle()
            &&& after.base.views.len() == 0
            &&& !after.data.allocated
            &&& !after.data.sized
        }),
{
    lemma_resume_keeps_wf(renderer, reply);
    if renderer.phase == DrawPhase::ReleasingBase {
        crate::base::lemma_released_chain_is_gone(renderer.base, reply);
    }
}

/// A rebuild that was asked for comes first in the next tick whose window has
/// an area, and once: the tick begins with the wait for the idle device, the
/// build takes the extent that the window has at that tick, and the flag is
/// cleared.
pub proof fn lemma_rebuild_at_the_top_of_the_tick(renderer: RendererModel, window: Extent)
    requires
        renderer.wf(),
        renderer.phase == DrawPhase::Idle,
        renderer.data.allocated,
        renderer.rebuild_swapchain,
        !window.zero_area(),
    ensures
        renderer.tick(window).1 == Ok::<Tick, Fatal>(Tick::Run(Command::WaitIdle)),
        renderer.tick(window).0.phase == DrawPhase::Rebuilding,
        renderer.tick(window).0.base.window == window,
        !renderer.tick(window).0.rebuild_swapchain,
        renderer.tick(window).0.current_frame_index == renderer.current_frame_index,
{
}

/// Whenever a frame can be drawn, the chain has as many views as images and
/// there is one framebuffer for each of them.
pub proof fn lemma_one_framebuffer_for_each_image(renderer: RendererModel)
    requires
        renderer.wf(),
        renderer.data.sized,
    ensures
        renderer.base.views.len() == renderer.base.images.len(),
        renderer.data.framebuffers.len() == renderer.base.images.len(),
{
}

/// Nothing is destroyed while a frame is in flight: whenever a reply brings the
/// destruction of a view, a chain, a framebuffer or an object of a frame slot,
/// the device has been waited for since the last submission.
pub proof fn lemma_nothing_destroyed_in_flight(renderer: RendererModel, reply: Reply)
    requires
        renderer.wf(),
    ensures
        renderer.resume(reply).1 matches Ok(Tick::Run(command)) ==> (command.destruction()
            ==> in_flight(renderer.resume(reply).0.data.slots) == 0),
        renderer.shutdown().1 matches Ok(Tick::Run(command)) ==> !command.destruction(),
{
    lemma_resume_keeps_wf(renderer, reply);
}

/// Whatever the reply, the renderer stays well formed.
pub proof fn lemma_resume_keeps_wf(renderer: RendererModel, reply: Reply)
    requires
        renderer.wf(),
    ensures
        renderer.resume(reply).0.wf(),
{
    if renderer.stage() == Stage::Preparing {
        lemma_preparing_keeps_wf(renderer, reply);
    } else if renderer.phase == DrawPhase::Waiting {
        lemma_waiting_keeps_wf(renderer, reply);
    } else if renderer.in_frame() {
        lemma_frame_keeps_wf(renderer, reply);
    } else if renderer.stage() == Stage::Closing {
        lemma_closing_keeps_wf(renderer, reply);
    }
}

/// There are never more frames in flight than there are frame slots.
pub proof fn lemma_frames_in_flight_bounded(renderer: RendererModel)
    requires
        renderer.wf(),
    ensures
        in_flight(renderer.data.slots) <= renderer.data.frames,
{
    crate::data::lemma_in_flight_bounded(renderer.data.slots);
}

/// Work is submitted only with a slot that is free: its fence has been waited
/// for and reset, and nothing was submitted with it since. The submission is
/// that of the current slot, with the slot's own command buffer, semaphores and
/// fence, and it is the reply to the end of the recording that brings it.
pub proof fn lemma_submit_needs_a_free_slot(renderer: RendererModel, reply: Reply)
    requires
        renderer.wf(),
    ensures
        renderer.resume(reply).1 matches Ok(
            Tick::Run(Command::Submit { command_buffer, wait, wait_stage, signal, fence }),
        ) ==> {
            let slot = renderer.current_frame_index as int;
            &&& renderer.phase == DrawPhase::EndCommandBuffer
            &&& renderer.slot().fence == FenceState::Unsignaled
            &&& command_buffer == renderer.data.command_buffers[slot]
            &&& wait == renderer.data.image_available[slot]
            &&& wait_stage == COLOR_ATTACHMENT_OUTPUT
            &&& signal == renderer.data.render_finished[slot]
            &&& fence == renderer.data.fences[slot]
        },
{
    if !renderer.in_frame() {
        lemma_no_frame_work_while_preparing(renderer, reply);
    }
}

/// While slots are allocated, the chain is rebuilt or the slot is waited for,
/// no reply brings a render pass, a submission or a present: the calls of those
/// phases are creations, destructions, queries and waits, and, at their end, an
/// acquire.
pub proof fn lemma_no_frame_work_while_preparing(renderer: RendererModel, reply: Reply)
    requires
        renderer.wf(),
        !renderer.in_frame(),
    ensures
        !(renderer.resume(reply).1 matches Ok(Tick::Run(Command::BeginRenderPass { .. }))),
        !(renderer.resume(reply).1 matches Ok(Tick::Run(Command::Submit { .. }))),
        !(renderer.resume(reply).1 matches Ok(Tick::Run(Command::Present { .. }))),
{
    lemma_resume_keeps_wf(renderer, reply);
    crate::data::lemma_data_asks_no_frame_work(renderer.data, reply);
    crate::base::lemma_build_asks_no_frame_work(renderer.base, reply);
}

/// Whether a reply can take the renderer from stage `before` to stage `after`:
/// the frame cycle runs from acquiring over recording and submission to
/// presenting, in this order, and back to idle; preparation comes before it;
/// a frame can end early, back to idle, only from acquiring; and every stage
/// can end in a halt.
pub open spec fn follows(before: Stage, after: Stage) -> bool {
    after == Stage::Halted || match before {
        Stage::Idle => after == Stage::Idle,
        Stage::Preparing => after == Stage::Preparing || after == Stage::Acquiring,
        Stage::Acquiring => after == Stage::Acquiring || after == Stage::Recording || after
            == Stage::Idle,
        Stage::Recording => after == Stage::Recording || after == Stage::Submitted,
        Stage::Submitted => after == Stage::Presenting,
        Stage::Presenting => after == Stage::Idle,
        Stage::Closing => after == Stage::Closing,
        Stage::Halted => false,
    }
}

/// The stages of a tick come in their order, whatever the replies are; and a
/// tick begins with preparation or with acquiring, unless it is skipped.
pub proof fn lemma_stages_in_order(renderer: RendererModel, reply: Reply, window: Extent)
    requires
        renderer.wf(),
    ensures
        follows(renderer.stage(), renderer.resume(reply).0.stage()),
        renderer.phase == DrawPhase::Idle ==> {
            let begun = renderer.tick(window).0.stage();
            begun == Stage::Idle || begun == Stage::Preparing || begun == Stage::Acquiring
                || begun == Stage::Halted
        },
        renderer.phase == DrawPhase::Idle && renderer.tick(window).0.stage() == Stage::Idle
            ==> renderer.tick(window).1 == Ok::<Tick, Fatal>(Tick::Skipped)
            && window.zero_area(),
{
    lemma_resume_keeps_wf(renderer, reply);
    lemma_tick_keeps_wf(renderer, window);
}

/// The renderer awaits the reply to the call that it handed out last.
pub proof fn lemma_the_call_handed_out_is_awaited(
    renderer: RendererModel,
    reply: Reply,
    window: Extent,
)
    requires
        renderer.wf(),
    ensures
        renderer.resume(reply).1 matches Ok(Tick::Run(command)) ==> renderer.resume(
            reply,
        ).0.expected() == command.kind(),
        renderer.tick(window).1 matches Ok(Tick::Run(command)) ==> renderer.tick(
            window,
        ).0.expected() == command.kind(),
        renderer.shutdown().1 matches Ok(Tick::Run(command)) ==> renderer.shutdown().0.expected()
            == command.kind(),
{
    lemma_awaited_after_reply(renderer, reply);
    lemma_awaited_after_tick(renderer, window);
}

proof fn lemma_awaited_after_tick(renderer: RendererModel, window: Extent)
    requires
        renderer.wf(),
    ensures
        renderer.tick(window).1 matches Ok(Tick::Run(command)) ==> renderer.tick(
            window,
        ).0.expected() == command.kind(),
        renderer.shutdown().1 matches Ok(Tick::Run(command)) ==> renderer.shutdown().0.expected()
            == command.kind(),
{
    lemma_tick_keeps_wf(renderer, window);
    lemma_shutdown_keeps_wf(renderer);
    crate::base::lemma_suitable_replies_are_expected(renderer.base, Reply::Done, window);
    crate::data::lemma_suitable_replies_are_expected(
        renderer.data,
        Reply::Done,
        renderer.base.views,
        renderer.base.extent,
        renderer.current_frame_index,
    );
}

proof fn lemma_awaited_after_reply(renderer: RendererModel, reply: Reply)
    requires
        renderer.wf(),
    ensures
        renderer.resume(reply).1 matches Ok(Tick::Run(command)) ==> renderer.resume(
            reply,
        ).0.expected() == command.kind(),
{
    lemma_resume_keeps_wf(renderer, reply);
    if renderer.phase == DrawPhase::Rebuilding {
        let resumed = renderer.base.resume(reply);
        crate::base::lemma_suitable_replies_are_expected(renderer.base, reply, renderer.window);
        crate::base::lemma_resume_keeps_wf(renderer.base, reply);
        if resumed.1 == Ok::<Progress, Fatal>(Progress::Complete) {
            let next = RendererModel { base: resumed.0, ..renderer };
            lemma_awaited_after_parts(next);
        }
    } else if renderer.phase == DrawPhase::ReleasingBase {
        crate::base::lemma_suitable_replies_are_expected(renderer.base, reply, renderer.window);
    } else if !renderer.in_frame() && renderer.awaiting() {
        let resumed = renderer.data.resume(reply);
        crate::data::lemma_suitable_replies_are_expected(
            renderer.data,
            reply,
            renderer.base.views,
            renderer.base.extent,
            renderer.current_frame_index,
        );
        crate::data::lemma_resume_keeps_wf(renderer.data, reply);
        if resumed.1 == Ok::<Progress, Fatal>(Progress::Complete) {
            let next = RendererModel { data: resumed.0, ..renderer };
            lemma_awaited_after_parts(next);
        }
    }
}

/// Whatever piece of a tick's work begins when a part is complete, the call
/// that it hands out is the call that is awaited after it.
proof fn lemma_awaited_after_parts(renderer: RendererModel)
    requires
        renderer.base.wf(),
        renderer.data.wf(),
        renderer.base.phase == BuildPhase::Idle || renderer.base.phase == BuildPhase::Halted,
        renderer.data.phase == DataPhase::Idle || renderer.data.phase == DataPhase::Halted,
    ensures
        renderer.begin_draw().1 matches Ok(Tick::Run(command)) ==> renderer.begin_draw().0.expected()
            == command.kind(),
        renderer.begin_resize().1 matches Ok(Tick::Run(command))
            ==> renderer.begin_resize().0.expected() == command.kind(),
        renderer.begin_rebuild().1 matches Ok(Tick::Run(command))
            ==> renderer.begin_rebuild().0.expected() == command.kind(),
        renderer.release_base().1 matches Ok(Tick::Run(command))
            ==> renderer.release_base().0.expected() == command.kind(),
{
    crate::base::lemma_suitable_replies_are_expected(renderer.base, Reply::Done, renderer.window);
    crate::data::lemma_suitable_replies_are_expected(
        renderer.data,
        Reply::Done,
        renderer.base.views,
        renderer.base.extent,
        renderer.current_frame_index,
    );
    let resized = renderer.data.resize(renderer.base.views, renderer.base.extent);
    if resized.1 == Ok::<Progress, Fatal>(Progress::Complete) {
        let next = RendererModel { data: resized.0, ..renderer };
        crate::data::lemma_suitable_replies_are_expected(
            next.data,
            Reply::Done,
            renderer.base.views,
            renderer.base.extent,
            renderer.current_frame_index,
        );
    }
}

/// Whoever answers each call with a reply that suits it is never told of an
/// unexpected reply; and while the replies tell of success, nothing is fatal
/// but capabilities that contradict themselves, a wrong number of command
/// buffers, and an image that the chain does not have. (A failure that came
/// earlier is told when what was made before it has been destroyed.)
pub proof fn lemma_suitable_replies_are_expected(renderer: RendererModel, reply: Reply)
    requires
        renderer.wf(),
        renderer.awaiting(),
        renderer.expected().suits(reply),
    ensures
        !(renderer.resume(reply).1 matches Err(Fatal::UnexpectedReply { .. })),
        reply !is Failed && !renderer.base.winding_up() && !renderer.data.winding_up() ==> {
            ||| renderer.resume(reply).1 is Ok
            ||| renderer.resume(reply).1 == Err::<Tick, Fatal>(Fatal::InvalidCapabilities)
            ||| renderer.resume(reply).1 matches Err(Fatal::WrongBufferCount { .. })
            ||| renderer.resume(reply).1 matches Err(Fatal::UnknownImage { .. })
        },
{
    lemma_resume_keeps_wf(renderer, reply);
    if renderer.phase == DrawPhase::Rebuilding || renderer.phase == DrawPhase::ReleasingBase {
        let resumed = renderer.base.resume(reply);
        crate::base::lemma_suitable_replies_are_expected(renderer.base, reply, renderer.window);
        crate::base::lemma_resume_keeps_wf(renderer.base, reply);
        if resumed.1 == Ok::<Progress, Fatal>(Progress::Complete) {
            let next = RendererModel { base: resumed.0, ..renderer };
            lemma_parts_begin_well(next);
        }
    } else if !renderer.in_frame() {
        let resumed = renderer.data.resume(reply);
        crate::data::lemma_suitable_replies_are_expected(
            renderer.data,
            reply,
            renderer.base.views,
            renderer.base.extent,
            renderer.current_frame_index,
        );
        crate::data::lemma_resume_keeps_wf(renderer.data, reply);
        if resumed.1 == Ok::<Progress, Fatal>(Progress::Complete) {
            let next = RendererModel { data: resumed.0, ..renderer };
            lemma_parts_begin_well(next);
        }
    }
}

/// Whatever piece of a tick's work begins when a part is complete, it begins
/// without a failure where the parts are at rest and the slots are there.
proof fn lemma_parts_begin_well(renderer: RendererModel)
    requires
        renderer.base.wf(),
        renderer.data.wf(),
        renderer.current_frame_index < renderer.data.frames,
    ensures
        renderer.base.phase == BuildPhase::Idle && renderer.data.phase == DataPhase::Idle
            && renderer.data.allocated ==> renderer.begin_rebuild().1 is Ok,
        renderer.base.phase == BuildPhase::Idle && renderer.data.phase == DataPhase::Idle
            && renderer.data.allocated && renderer.base.built ==> renderer.begin_resize().1 is Ok,
        renderer.ready() ==> renderer.begin_draw().1 is Ok,
        renderer.data.phase == DataPhase::Idle && renderer.data.allocated
            ==> renderer.issue(DrawPhase::Acquiring, renderer.acquire()).1 is Ok,
        renderer.base.phase == BuildPhase::Idle || renderer.base.phase == BuildPhase::Halted
            ==> renderer.release_base().1 is Ok,
{
    let resized = renderer.data.resize(renderer.base.views, renderer.base.extent);
    crate::data::lemma_begin_keeps_wf(
        renderer.data,
        renderer.base.views,
        renderer.base.extent,
        renderer.current_frame_index,
    );
}

/// A frame whose slot still has a frame in flight begins with the wait for that
/// slot's fence, without a timeout: nothing is acquired, recorded or submitted
/// with the slot before the frame that used it last is known to be complete.
pub proof fn lemma_frame_begins_with_the_wait(renderer: RendererModel)
    requires
        renderer.wf(),
        renderer.phase == DrawPhase::Idle,
        renderer.ready(),
        renderer.slot().fence == FenceState::Pending,
    ensures
        renderer.draw().1 == Ok::<Tick, Fatal>(
            Tick::Run(
                Command::WaitForFence {
                    fence: renderer.data.fences[renderer.current_frame_index as int],
                    timeout: NO_TIMEOUT,
                },
            ),
        ),
        renderer.draw().0.phase == DrawPhase::Waiting,
{
}

/// A slot's frame comes to be in flight by the reply to its submission and in
/// no other way.
pub proof fn lemma_in_flight_after_submit(renderer: RendererModel, reply: Reply, i: int)
    requires
        renderer.wf(),
        renderer.in_frame(),
        0 <= i < renderer.data.slots.len(),
        renderer.data.slots[i].fence != FenceState::Pending,
        renderer.resume(reply).0.data.slots[i].fence == FenceState::Pending,
    ensures
        renderer.phase == DrawPhase::Submitting,
        i == renderer.current_frame_index,
        reply is Done,
{
}

/// A window that covers no pixel asks nothing of the device: the tick hands
/// out no call at all, and leaves the renderer as it was.
pub proof fn lemma_zero_area_asks_nothing(renderer: RendererModel, window: Extent)
    requires
        window.zero_area(),
    ensures
        renderer.tick(window).0 == renderer,
        !(renderer.tick(window).1 matches Ok(Tick::Run(_))),
        renderer.phase == DrawPhase::Idle ==> renderer.tick(window).1 == Ok::<Tick, Fatal>(
            Tick::Skipped,
        ),
{
}

/// Every frame that ends, presented or cut short by a chain that is out of date
/// or suboptimal, moves the frame slot index on exactly once, and leaves no
/// command buffer in the middle of a recording. A frame that is cut short sets
/// the rebuild flag, and is reported as `RebuildRequested`, never as a failure.
pub proof fn lemma_frame_end_moves_on_once(renderer: RendererModel, reply: Reply)
    requires
        renderer.wf(),
        renderer.resume(reply).1 == Ok::<Tick, Fatal>(Tick::RebuildRequested)
            || renderer.resume(reply).1 == Ok::<Tick, Fatal>(Tick::Presented),
    ensures
        renderer.resume(reply).0.current_frame_index == following(
            renderer.current_frame_index,
            renderer.data.frames,
        ),
        renderer.resume(reply).0.phase == DrawPhase::Idle,
        renderer.resume(reply).0.data.calm(),
        renderer.resume(reply).1 == Ok::<Tick, Fatal>(Tick::RebuildRequested)
            ==> renderer.resume(reply).0.rebuild_swapchain,
        renderer.resume(reply).1 == Ok::<Tick, Fatal>(Tick::Presented)
            ==> renderer.resume(reply).0.rebuild_swapchain == renderer.rebuild_swapchain,
{
    lemma_resume_keeps_wf(renderer, reply);
    lemma_frame_ends_in_frame(renderer, reply);
}

/// A frame ends only on the reply to its acquire or to its present.
pub proof fn lemma_frame_ends_in_frame(renderer: RendererModel, reply: Reply)
    requires
        renderer.wf(),
        renderer.resume(reply).1 == Ok::<Tick, Fatal>(Tick::RebuildRequested)
            || renderer.resume(reply).1 == Ok::<Tick, Fatal>(Tick::Presented),
    ensures
        renderer.phase == DrawPhase::Acquiring || renderer.phase == DrawPhase::Presenting,
        renderer.phase == DrawPhase::Acquiring ==> renderer.resume(reply).1 == Ok::<Tick, Fatal>(
            Tick::RebuildRequested,
        ) && acquired(reply, renderer.current_frame_index) == Ok::<Option<u32>, Fatal>(None),
        renderer.phase == DrawPhase::Presenting ==> presented(reply, renderer.current_frame_index)
            is Ok,
{
}

/// The render pass of a frame is begun on the framebuffer of the image that
/// was acquired for the frame, and the present names that same image.
pub proof fn lemma_frame_uses_the_acquired_image(renderer: RendererModel, reply: Reply)
    requires
        renderer.wf(),
    ensures
        renderer.resume(reply).1 matches Ok(
            Tick::Run(Command::BeginRenderPass { command_buffer, framebuffer, extent }),
        ) ==> {
            &&& renderer.phase == DrawPhase::BeginCommandBuffer
            &&& renderer.image_index < renderer.data.framebuffers.len()
            &&& framebuffer == renderer.data.framebuffers[renderer.image_index as int]
            &&& command_buffer == renderer.command_buffer()
            &&& extent == renderer.base.extent
        },
        renderer.resume(reply).1 matches Ok(
            Tick::Run(Command::Present { swapchain, image_index, wait }),
        ) ==> {
            &&& renderer.phase == DrawPhase::Submitting
            &&& image_index == renderer.image_index
            &&& swapchain == renderer.base.swapchain
            &&& wait == renderer.data.render_finished[renderer.current_frame_index as int]
        },
{
    if !renderer.in_frame() {
        lemma_no_frame_work_while_preparing(renderer, reply);
    }
}

/// What can happen to a renderer.
pub enum Event {
    /// A tick of the event loop, for a window of this extent.
    Tick(Extent),
    /// A frame asked for between two ticks.
    Draw,
    /// The window was resized.
    Resized,
    /// The renderer is shut down.
    Shutdown,
    /// The reply to the call handed out last.
    Reply(Reply),
}

impl RendererModel {
    /// The renderer after `event`.
    pub open spec fn on(self, event: Event) -> RendererModel {
        match event {
            Event::Tick(window) => self.tick(window).0,
            Event::Draw => self.draw().0,
            Event::Resized => RendererModel { rebuild_swapchain: true, ..self },
            Event::Shutdown => self.shutdown().0,
            Event::Reply(reply) => self.resume(reply).0,
        }
    }

    /// The renderer after all of `events`, in their order.
    pub open spec fn after(self, events: Seq<Event>) -> RendererModel
        decreases events.len(),
    {
        if events.len() == 0 {
            self
        } else {
            self.after(events.drop_last()).on(events.last())
        }
    }
}

/// Whatever happens to a renderer, in whatever order and with whatever replies,
/// it stays well formed. So at every moment of every run there are no more
/// frames in flight than frame slots, the chain has one view for each image, the
/// extent of a chain that was built lies in the range that its capabilities
/// allow, and the frame slot index names a slot.
pub proof fn lemma_always_well_formed(renderer: RendererModel, events: Seq<Event>)
    requires
        renderer.wf(),
    ensures
        renderer.after(events).wf(),
        renderer.after(events).data.frames == renderer.data.frames,
        in_flight(renderer.after(events).data.slots) <= renderer.data.frames,
        renderer.after(events).base.images.len() == renderer.after(events).base.views.len(),
        renderer.after(events).base.built ==> renderer.after(events).base.extent.fits(
            renderer.after(events).base.capabilities.min_image_extent,
            renderer.after(events).base.capabilities.max_image_extent,
        ),
        renderer.after(events).current_frame_index < renderer.data.frames,
    decreases events.len(),
{
    if events.len() > 0 {
        let before = renderer.after(events.drop_last());
        lemma_always_well_formed(renderer, events.drop_last());
        lemma_frames_stay(before, events.last());
    }
    lemma_frames_in_flight_bounded(renderer.after(events));
}

/// One event keeps a renderer well formed, and leaves it its number of slots.
proof fn lemma_frames_stay(renderer: RendererModel, event: Event)
    requires
        renderer.wf(),
    ensures
        renderer.on(event).wf(),
        renderer.on(event).data.frames == renderer.data.frames,
{
    match event {
        Event::Tick(window) => {
            lemma_tick_keeps_wf(renderer, window);
        },
        Event::Draw => {
            lemma_tick_keeps_wf(renderer, renderer.window);
        },
        Event::Resized => {},
        Event::Shutdown => {
            lemma_shutdown_keeps_wf(renderer);
        },
        Event::Reply(reply) => {
            lemma_resume_keeps_wf(renderer, reply);
            crate::data::lemma_frames_stay(renderer.data, reply);
        },
    }
}

/// Reads the reply to a call that hands nothing back.
pub fn acknowledge(operation: Operation, index: usize, reply: &Reply) -> (r: Result<(), Fatal>)
    ensures
        r == acknowledged(operation, index, *reply),
{
    match reply {
        Reply::Done => Ok(()),
        Reply::Failed(code) => Err(Fatal::Device { operation, index, code: *code }),
        _ => Err(Fatal::UnexpectedReply { operation }),
    }
}

/// The frame orchestrator: it drives the cycle of acquire, record, submit and
/// present, moves the frame slot index on, and has the swap chain rebuilt when
/// the presentation engine or the window asks for it.
///
/// The order within a frame is fixed: the slot is waited for before the image
/// is acquired, so that nothing is acquired into a slot that is still in use.
#[derive(Debug)]
pub struct Renderer {
    data: RenderData,
    base: RenderBase,
    current_frame_index: FrameSlot,
    rebuild_swapchain: bool,
    image_index: ImageIndex,
    phase: DrawPhase,
    window: Extent,
}

impl View for Renderer {
    type V = RendererModel;

    closed spec fn view(&self) -> RendererModel {
        RendererModel {
            base: self.base@,
            data: self.data@,
            current_frame_index: self.current_frame_index.0,
            rebuild_swapchain: self.rebuild_swapchain,
            image_index: self.image_index.0,
            phase: self.phase,
            window: self.window,
        }
    }
}

impl Renderer {
    /// A renderer with `frames` frame slots that will ask for
    /// `requested_image_count` swap chain images, or for the surface's minimum
    /// plus one where that is more. Its first tick allocates the slots and
    /// builds the chain.
    pub fn new(frames: usize, requested_image_count: u32) -> (r: Renderer)
        requires
            1 <= frames <= u32::MAX,
        ensures
            r@ == RendererModel::fresh(frames, requested_image_count),
            r@.wf(),
    {
        Renderer {
            data: RenderData::new(frames),
            base: RenderBase::new(requested_image_count),
            current_frame_index: FrameSlot(0),
            rebuild_swapchain: true,
            image_index: ImageIndex(0),
            phase: DrawPhase::Idle,
            window: Extent { width: 0, height: 0 },
        }
    }

    /// The swap chain manager.
    pub fn base(&self) -> (r: &RenderBase)
        ensures
            r@ == self@.base,
    {
        &self.base
    }

    /// The frame resources.
    pub fn data(&self) -> (r: &RenderData)
        ensures
            r@ == self@.data,
    {
        &self.data
    }

    /// The frame slot of the current frame.
    pub fn current_frame_index(&self) -> (r: FrameSlot)
        ensures
            r.0 == self@.current_frame_index,
    {
        self.current_frame_index
    }

    /// Whether the swap chain will be rebuilt at the top of the next tick.
    pub fn rebuild_swapchain(&self) -> (r: bool)
        ensures
            r == self@.rebuild_swapchain,
    {
        self.rebuild_swapchain
    }

    /// The position of the image that was acquired last.
    pub fn image_index(&self) -> (r: ImageIndex)
        ensures
            r.0 == self@.image_index,
    {
        self.image_index
    }

    pub fn phase(&self) -> (r: DrawPhase)
        ensures
            r == self@.phase,
    {
        self.phase
    }

    /// The state of the frame cycle that the renderer is in.
    pub fn stage(&self) -> (r: Stage)
        ensures
            r == self@.stage(),
    {
        match self.phase {
            DrawPhase::Idle => Stage::Idle,
            DrawPhase::Allocating | DrawPhase::Rebuilding | DrawPhase::Resizing => Stage::Preparing,
            DrawPhase::Waiting | DrawPhase::Acquiring => Stage::Acquiring,
            DrawPhase::Submitting => Stage::Submitted,
            DrawPhase::Presenting => Stage::Presenting,
            DrawPhase::ReleasingData | DrawPhase::ReleasingBase => Stage::Closing,
            DrawPhase::Halted => Stage::Halted,
            _ => Stage::Recording,
        }
    }

    /// Takes note that the window was resized: the swap chain is rebuilt at the
    /// top of the next tick, never in the middle of a frame.
    pub fn request_rebuild(&mut self)
        requires
            old(self)@.wf(),
        ensures
            final(self)@ == (RendererModel { rebuild_swapchain: true, ..old(self)@ }),
            final(self)@.wf(),
    {
        self.rebuild_swapchain = true;
    }

    fn slot_ready(&self) -> (r: bool)
        ensures
            r == self@.slot_ready(),
    {
        self.data.is_allocated() && self.current_frame_index.0 < self.data.frames()
    }

    /// The acquire of the next image for the current frame slot.
    pub fn acquire(&self) -> (r: Result<Command, Fatal>)
        requires
            self@.wf(),
        ensures
            r == self@.acquire(),
    {
        if self.slot_ready() {
            Ok(
                Command::AcquireNextImage {
                    swapchain: self.base.swapchain(),
                    semaphore: self.data.semaphores_for(self.current_frame_index).0,
                    timeout: NO_TIMEOUT,
                },
            )
        } else {
            Err(Fatal::NotReady)
        }
    }

    /// Reads the reply to an acquire: the position of the image, or `None`
    /// where the chain was reported out of date or suboptimal.
    pub fn get_img_index(&self, reply: &Reply) -> (r: Result<Option<u32>, Fatal>)
        ensures
            r == acquired(*reply, self@.current_frame_index),
    {
        match reply {
            Reply::Acquired { image_index, suboptimal } => {
                if *suboptimal {
                    Ok(None)
                } else {
                    Ok(Some(*image_index))
                }
            },
            Reply::Failed(code) => {
                if is_stale(*code) {
                    Ok(None)
                } else {
                    Err(
                        Fatal::Device {
                            operation: Operation::AcquireNextImage,
                            index: self.current_frame_index.0,
                            code: *code,
                        },
                    )
                }
            },
            _ => Err(Fatal::UnexpectedReply { operation: Operation::AcquireNextImage }),
        }
    }

    /// The call that begins the recording into the slot's command buffer.
    pub fn begin_command_buffer(&self) -> (r: Result<Command, Fatal>)
        requires
            self@.wf(),
        ensures
            r == self@.begin_command_buffer(),
    {
        if self.slot_ready() {
            Ok(
                Command::BeginCommandBuffer {
                    command_buffer: self.data.command_buffer_for(self.current_frame_index),
                },
            )
        } else {
            Err(Fatal::NotReady)
        }
    }

    /// The call that begins the render pass, on the framebuffer of the image
    /// that was acquired.
    pub fn begin_render_pass(&self) -> (r: Result<Command, Fatal>)
        requires
            self@.wf(),
        ensures
            r == self@.begin_render_pass(),
    {
        let image = self.image_index;
        if self.slot_ready() && (image.0 as usize) < self.data.framebuffer_count() {
            Ok(
                Command::BeginRenderPass {
                    command_buffer: self.data.command_buffer_for(self.current_frame_index),
                    framebuffer: self.data.framebuffer_for(image),
                    extent: self.base.surface_extent(),
                },
            )
        } else {
            Err(Fatal::NotReady)
        }
    }

    /// The call that sets the viewport to the whole of the surface.
    pub fn set_viewport(&self) -> (r: Result<Command, Fatal>)
        requires
            self@.wf(),
        ensures
            r == self@.set_viewport(),
    {
        if self.slot_ready() {
            Ok(
                Command::SetViewport {
                    command_buffer: self.data.command_buffer_for(self.current_frame_index),
                    extent: self.base.surface_extent(),
                },
            )
        } else {
            Err(Fatal::NotReady)
        }
    }

    /// The call that sets the scissor rectangle to the whole of the surface.
    pub fn set_scissor(&self) -> (r: Result<Command, Fatal>)
        requires
            self@.wf(),
        ensures
            r == self@.set_scissor(),
    {
        if self.slot_ready() {
            Ok(
                Command::SetScissor {
                    command_buffer: self.data.command_buffer_for(self.current_frame_index),
                    extent: self.base.surface_extent(),
                },
            )
        } else {
            Err(Fatal::NotReady)
        }
    }

    /// The call that ends the render pass.
    pub fn end_render_pass(&self) -> (r: Result<Command, Fatal>)
        requires
            self@.wf(),
        ensures
            r == self@.end_render_pass(),
    {
        if self.slot_ready() {
            Ok(
                Command::EndRenderPass {
                    command_buffer: self.data.command_buffer_for(self.current_frame_index),
                },
            )
        } else {
            Err(Fatal::NotReady)
        }
    }

    /// The call that ends the recording.
    pub fn end_command_buffer(&self) -> (r: Result<Command, Fatal>)
        requires
            self@.wf(),
        ensures
            r == self@.end_command_buffer(),
    {
        if self.slot_ready() {
            Ok(
                Command::EndCommandBuffer {
                    command_buffer: self.data.command_buffer_for(self.current_frame_index),
                },
            )
        } else {
            Err(Fatal::NotReady)
        }
    }

    /// The submission of the slot's command buffer.
    pub fn submit(&self) -> (r: Result<Command, Fatal>)
        requires
            self@.wf(),
        ensures
            r == self@.submit(),
    {
        if self.slot_ready() {
            let semaphores = self.data.semaphores_for(self.current_frame_index);
            Ok(
                Command::Submit {
                    command_buffer: self.data.command_buffer_for(self.current_frame_index),
                    wait: semaphores.0,
                    wait_stage: COLOR_ATTACHMENT_OUTPUT,
                    signal: semaphores.1,
                    fence: self.data.fence_for(self.current_frame_index),
                },
            )
        } else {
            Err(Fatal::NotReady)
        }
    }

    /// The present of the image that was acquired.
    pub fn present_command(&self) -> (r: Result<Command, Fatal>)
        requires
            self@.wf(),
        ensures
            r == self@.present_command(),
    {
        if self.slot_ready() {
            Ok(
                Command::Present {
                    swapchain: self.base.swapchain(),
                    image_index: self.image_index.0,
                    wait: self.data.semaphores_for(self.current_frame_index).1,
                },
            )
        } else {
            Err(Fatal::NotReady)
        }
    }

    /// Reads the reply to a present: `true` where the frame is done and the
    /// chain still fits, `false` where the chain is to be rebuilt.
    pub fn present(&self, reply: &Reply) -> (r: Result<bool, Fatal>)
        ensures
            r == presented(*reply, self@.current_frame_index),
    {
        match reply {
            Reply::Presented { suboptimal } => Ok(!*suboptimal),
            Reply::Failed(code) => {
                if is_stale(*code) {
                    Ok(false)
                } else {
                    Err(
                        Fatal::Device {
                            operation: Operation::Present,
                            index: self.current_frame_index.0,
                            code: *code,
                        },
                    )
                }
            },
            _ => Err(Fatal::UnexpectedReply { operation: Operation::Present }),
        }
    }

    fn halt(&mut self, fatal: Fatal) -> (r: Ticked)
        ensures
            (final(self)@, r) == old(self)@.halt(fatal),
    {
        self.phase = DrawPhase::Halted;
        Err(fatal)
    }

    fn issue(&mut self, phase: DrawPhase, command: Result<Command, Fatal>) -> (r: Ticked)
        ensures
            (final(self)@, r) == old(self)@.issue(phase, command),
    {
        match command {
            Ok(command) => {
                self.phase = phase;
                Ok(Tick::Run(command))
            },
            Err(fatal) => self.halt(fatal),
        }
    }

    fn finish(&mut self, outcome: Tick) -> (r: Ticked)
        requires
            old(self)@.data.wf(),
            old(self)@.current_frame_index < old(self)@.data.frames,
        ensures
            (final(self)@, r) == old(self)@.finish(outcome),
    {
        self.current_frame_index = self.current_frame_index.next(self.data.frames());
        self.phase = DrawPhase::Idle;
        Ok(outcome)
    }

    fn carry(&mut self, phase: DrawPhase, outcome: Outcome) -> (r: Option<Ticked>)
        ensures
            r is Some ==> (final(self)@, r->0) == old(self)@.carried(phase, outcome)->0,
            r is Some == old(self)@.carried(phase, outcome) is Some,
            r is None ==> final(self)@ == old(self)@,
    {
        match outcome {
            Ok(Progress::Run(command)) => {
                self.phase = phase;
                Some(Ok(Tick::Run(command)))
            },
            Ok(Progress::Complete) => None,
            Err(fatal) => Some(self.halt(fatal)),
        }
    }

    /// Begins a frame, as `draw` does: with the wait for the current frame
    /// slot, until the frame that used it last has completed, or with the
    /// acquire where the slot is free already.
    pub fn wait_resource_available(&mut self) -> (r: Ticked)
        requires
            old(self)@.wf(),
        ensures
            (final(self)@, r) == old(self)@.draw(),
            final(self)@.wf(),
    {
        proof {
            lemma_tick_keeps_wf(self@, self@.window);
        }
        match self.phase {
            DrawPhase::Halted => Err(Fatal::Halted),
            DrawPhase::Idle => self.begin_draw(),
            _ => Err(Fatal::Busy),
        }
    }

    fn begin_draw(&mut self) -> (r: Ticked)
        requires
            old(self)@.settled(),
        ensures
            (final(self)@, r) == old(self)@.begin_draw(),
            final(self)@.wf(),
    {
        proof {
            lemma_begin_draw_keeps_wf(self@);
        }
        if !(self.base.is_built() && self.base.phase() == BuildPhase::Idle && self.data.is_ready()
            && self.slot_ready()) {
            self.phase = DrawPhase::Idle;
            Err(Fatal::NotReady)
        } else {
            let waited = self.data.wait_and_reset(self.current_frame_index);
            match self.carry(DrawPhase::Waiting, waited) {
                Some(r) => r,
                None => {
                    let command = self.acquire_unchecked();
                    self.issue(DrawPhase::Acquiring, command)
                },
            }
        }
    }

    fn acquire_unchecked(&self) -> (r: Result<Command, Fatal>)
        requires
            self@.data.wf(),
        ensures
            r == self@.acquire(),
    {
        if self.slot_ready() {
            Ok(
                Command::AcquireNextImage {
                    swapchain: self.base.swapchain(),
                    semaphore: self.data.semaphores_for(self.current_frame_index).0,
                    timeout: NO_TIMEOUT,
                },
            )
        } else {
            Err(Fatal::NotReady)
        }
    }

    fn begin_resize(&mut self) -> (r: Ticked)
        requires
            old(self)@.settled(),
            old(self)@.data.allocated,
            old(self)@.base.built,
            in_flight(old(self)@.data.slots) == 0,
        ensures
            (final(self)@, r) == old(self)@.begin_resize(),
            final(self)@.wf(),
    {
        proof {
            lemma_begin_resize_keeps_wf(self@);
            crate::data::lemma_begin_keeps_wf(
                self@.data,
                self@.base.views,
                self@.base.extent,
                self@.current_frame_index,
            );
        }
        let resized = self.data.resize(&self.base);
        match self.carry(DrawPhase::Resizing, resized) {
            Some(r) => r,
            None => {
                self.begin_draw()
            },
        }
    }

    fn begin_rebuild(&mut self) -> (r: Ticked)
        requires
            old(self)@.settled(),
            old(self)@.data.allocated,
        ensures
            (final(self)@, r) == old(self)@.begin_rebuild(),
            final(self)@.wf(),
    {
        proof {
            lemma_begin_rebuild_keeps_wf(self@);
        }
        if self.rebuild_swapchain || !self.base.is_built() || !self.data.is_ready() {
            let rebuilt = self.base.resize(self.window);
            self.data.invalidate();
            self.rebuild_swapchain = false;
            match self.carry(DrawPhase::Rebuilding, rebuilt) {
                Some(r) => r,
                None => self.halt(Fatal::NotReady),
            }
        } else {
            self.begin_draw()
        }
    }

    /// Begins a frame between two ticks: the frame slot is waited for and
    /// reset, the next image acquired, the commands recorded and submitted, and
    /// the image presented, call by call; after the last reply the frame slot
    /// index has moved on by one.
    pub fn draw(&mut self) -> (r: Ticked)
        requires
            old(self)@.wf(),
        ensures
            (final(self)@, r) == old(self)@.draw(),
            final(self)@.wf(),
    {
        self.wait_resource_available()
    }

    /// One tick of the event loop, for a window of extent `window`. A window
    /// that covers no pixel is skipped: nothing is asked of the device. Else
    /// the frame slots are allocated where they are missing, the swap chain and
    /// the framebuffers are rebuilt where that was asked for, and a frame is
    /// drawn.
    pub fn tick(&mut self, window: Extent) -> (r: Ticked)
        requires
            old(self)@.wf(),
        ensures
            (final(self)@, r) == old(self)@.tick(window),
            final(self)@.wf(),
    {
        proof {
            lemma_tick_keeps_wf(self@, window);
        }
        match self.phase {
            DrawPhase::Halted => Err(Fatal::Halted),
            DrawPhase::Idle => {
                if window.is_zero_area() {
                    Ok(Tick::Skipped)
                } else {
                    self.window = window;
                    if !self.data.is_allocated() {
                        let allocated = self.data.allocate();
                        match self.carry(DrawPhase::Allocating, allocated) {
                            Some(r) => r,
                            None => self.begin_rebuild(),
                        }
                    } else {
                        self.begin_rebuild()
                    }
                }
            },
            _ => Err(Fatal::Busy),
        }
    }

    fn release_base(&mut self) -> (r: Ticked)
        requires
            old(self)@.base.wf(),
        ensures
            (final(self)@, r) == old(self)@.release_base(),
    {
        let released = self.base.release();
        match self.carry(DrawPhase::ReleasingBase, released) {
            Some(r) => r,
            None => {
                self.phase = DrawPhase::Halted;
                Ok(Tick::Released)
            },
        }
    }

    /// Begins the shutdown, between two ticks or after a fatal failure: the
    /// frame resources are destroyed, then the swap chain, each after a wait
    /// for the device to fall idle. After the last reply the renderer holds
    /// nothing and has ended its work.
    pub fn shutdown(&mut self) -> (r: Ticked)
        requires
            old(self)@.wf(),
        ensures
            (final(self)@, r) == old(self)@.shutdown(),
            final(self)@.wf(),
    {
        proof {
            lemma_shutdown_keeps_wf(self@);
        }
        match self.phase {
            DrawPhase::Idle | DrawPhase::Halted => {
                let released = self.data.release();
                match self.carry(DrawPhase::ReleasingData, released) {
                    Some(r) => r,
                    None => self.release_base(),
                }
            },
            _ => Err(Fatal::Busy),
        }
    }

    /// Takes the reply to the call that was handed out last, and says what
    /// comes next: another call, or the end of the tick.
    pub fn resume(&mut self, reply: Reply) -> (r: Ticked)
        requires
            old(self)@.wf(),
        ensures
            (final(self)@, r) == old(self)@.resume(reply),
            final(self)@.wf(),
    {
        proof {
            lemma_resume_keeps_wf(self@, reply);
        }
        let slot = self.current_frame_index.0;
        match self.phase {
            DrawPhase::Idle => Err(Fatal::NothingPending),
            DrawPhase::Halted => Err(Fatal::Halted),
            DrawPhase::Allocating => {
                proof {
                    crate::data::lemma_resume_keeps_wf(self@.data, reply);
                }
                let resumed = self.data.resume(reply);
                match self.carry(DrawPhase::Allocating, resumed) {
                    Some(r) => r,
                    None => {
                        self.begin_rebuild()
                    },
                }
            },
            DrawPhase::Rebuilding => {
                let waiting = self.base.phase() == BuildPhase::WaitIdle;
                let resumed = self.base.resume(reply);
                if waiting && self.base.phase() == BuildPhase::QueryCapabilities {
                    self.data.device_idle();
                    proof {
                        crate::data::lemma_idle_has_none_in_flight(old(self)@.data);
                    }
                }
                match self.carry(DrawPhase::Rebuilding, resumed) {
                    Some(r) => r,
                    None => self.begin_resize(),
                }
            },
            DrawPhase::Resizing => {
                let resumed = self.data.resume(reply);
                match self.carry(DrawPhase::Resizing, resumed) {
                    Some(r) => r,
                    None => {
                        self.begin_draw()
                    },
                }
            },
            DrawPhase::Waiting => {
                let resumed = self.data.resume(reply);
                match self.carry(DrawPhase::Waiting, resumed) {
                    Some(r) => r,
                    None => {
                        let command = self.acquire_unchecked();
                        self.issue(DrawPhase::Acquiring, command)
                    },
                }
            },
            DrawPhase::Acquiring => match self.get_img_index(&reply) {
                Ok(Some(image_index)) => {
                    if (image_index as usize) < self.base.image_count() {
                        self.image_index = ImageIndex(image_index);
                        let command = self.begin_command_buffer();
                        self.issue(DrawPhase::BeginCommandBuffer, command)
                    } else {
                        self.halt(Fatal::UnknownImage { image_index })
                    }
                },
                Ok(None) => {
                    self.rebuild_swapchain = true;
                    self.finish(Tick::RebuildRequested)
                },
                Err(fatal) => self.halt(fatal),
            },
            DrawPhase::BeginCommandBuffer => match acknowledge(
                Operation::BeginCommandBuffer,
                slot,
                &reply,
            ) {
                Ok(_) => {
                    let command = self.begin_render_pass();
                    self.data.set_commands(slot, CommandState::Recording);
                    self.issue(DrawPhase::BeginRenderPass, command)
                },
                Err(fatal) => self.halt(fatal),
            },
            DrawPhase::BeginRenderPass => match acknowledge(
                Operation::BeginRenderPass,
                slot,
                &reply,
            ) {
                Ok(_) => {
                    let command = self.set_viewport();
                    self.issue(DrawPhase::SetViewport, command)
                },
                Err(fatal) => self.halt(fatal),
            },
            DrawPhase::SetViewport => match acknowledge(Operation::SetViewport, slot, &reply) {
                Ok(_) => {
                    let command = self.set_scissor();
                    self.issue(DrawPhase::SetScissor, command)
                },
                Err(fatal) => self.halt(fatal),
            },
            DrawPhase::SetScissor => match acknowledge(Operation::SetScissor, slot, &reply) {
                Ok(_) => {
                    let command = self.end_render_pass();
                    self.issue(DrawPhase::EndRenderPass, command)
                },
                Err(fatal) => self.halt(fatal),
            },
            DrawPhase::EndRenderPass => match acknowledge(Operation::EndRenderPass, slot, &reply) {
                Ok(_) => {
                    let command = self.end_command_buffer();
                    self.issue(DrawPhase::EndCommandBuffer, command)
                },
                Err(fatal) => self.halt(fatal),
            },
            DrawPhase::EndCommandBuffer => match acknowledge(
                Operation::EndCommandBuffer,
                slot,
                &reply,
            ) {
                Ok(_) => {
                    let command = self.submit();
                    self.data.set_commands(slot, CommandState::Executable);
                    self.issue(DrawPhase::Submitting, command)
                },
                Err(fatal) => self.halt(fatal),
            },
            DrawPhase::Submitting => match acknowledge(Operation::Submit, slot, &reply) {
                Ok(_) => {
                    let command = self.present_command();
                    self.data.set_fence(slot, FenceState::Pending);
                    self.issue(DrawPhase::Presenting, command)
                },
                Err(fatal) => self.halt(fatal),
            },
            DrawPhase::Presenting => match self.present(&reply) {
                Ok(true) => self.finish(Tick::Presented),
                Ok(false) => {
                    self.rebuild_swapchain = true;
                    self.finish(Tick::RebuildRequested)
                },
                Err(fatal) => self.halt(fatal),
            },
            DrawPhase::ReleasingData => {
                let resumed = self.data.resume(reply);
                match self.carry(DrawPhase::ReleasingData, resumed) {
                    Some(r) => r,
                    None => self.release_base(),
                }
            },
            DrawPhase::ReleasingBase => {
                let resumed = self.base.resume(reply);
                match self.carry(DrawPhase::ReleasingBase, resumed) {
                    Some(r) => r,
                    None => {
                        self.phase = DrawPhase::Halted;
                        Ok(Tick::Released)
                    },
                }
            },
        }
    }
}

} // verus!

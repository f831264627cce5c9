use vstd::prelude::*;
use crate::extent::Extent;
use crate::surface::SurfaceCapabilities;

verus! {

/// The result code by which a presentation engine reports that a swap chain can
/// still be used but no longer matches its surface.
pub const SUBOPTIMAL: i32 = 1000001003;

/// The result code by which a presentation engine reports that a swap chain no
/// longer fits its surface and cannot be presented to.
pub const ERROR_OUT_OF_DATE: i32 = -1000001004;

/// The timeout of a wait that is to block until what it waits for has come.
pub const NO_TIMEOUT: u64 = 0xFFFF_FFFF_FFFF_FFFF;

/// The pipeline stage at which the colours of an image are written.
pub const COLOR_ATTACHMENT_OUTPUT: u32 = 0x400;

/// Whether a result code says that the swap chain should be rebuilt, which is
/// no failure.
pub open spec fn stale(code: i32) -> bool {
    code == SUBOPTIMAL || code == ERROR_OUT_OF_DATE
}

/// Whether a result code asks for a rebuild of the swap chain.
pub fn is_stale(code: i32) -> (r: bool)
    ensures
        r == stale(code),
{
    code == SUBOPTIMAL || code == ERROR_OUT_OF_DATE
}

/// A device object, by the number under which the device knows it. The number
/// zero names no object.
#[derive(Clone, Copy, Debug, PartialEq, Eq, Structural)]
pub struct Handle {
    pub raw: u64,
}

impl Handle {
    pub open spec fn null_handle() -> Handle {
        Handle { raw: 0 }
    }

    /// The handle that names no object.
    pub fn null() -> (r: Handle)
        ensures
            r == Handle::null_handle(),
    {
        Handle { raw: 0 }
    }

    pub fn new(raw: u64) -> (r: Handle)
        ensures
            r.raw == raw,
    {
        Handle { raw }
    }

    pub fn is_null(&self) -> (r: bool)
        ensures
            r == (*self == Handle::null_handle()),
    {
        self.raw == 0
    }
}

/// The kinds of device call that this crate asks for.
#[derive(Clone, Copy, Debug, PartialEq, Eq, Structural)]
pub enum Operation {
    WaitIdle,
    QueryCapabilities,
    CreateSwapchain,
    GetSwapchainImages,
    DestroySwapchain,
    CreateImageView,
    DestroyImageView,
    CreateFramebuffer,
    DestroyFramebuffer,
    CreateFence,
    DestroyFence,
    CreateSemaphore,
    DestroySemaphore,
    CreateDescriptorPool,
    DestroyDescriptorPool,
    CreateCommandPool,
    DestroyCommandPool,
    AllocateCommandBuffers,
    WaitForFence,
    ResetFence,
    ResetCommandBuffer,
    AcquireNextImage,
    BeginCommandBuffer,
    BeginRenderPass,
    SetViewport,
    SetScissor,
    EndRenderPass,
    EndCommandBuffer,
    Submit,
    Present,
}

/// One device call, with all that the caller needs to make it. The caller
/// performs the call and answers with a [`Reply`].
#[derive(Clone, Copy, Debug, PartialEq, Eq, Structural)]
pub enum Command {
    /// Block until the device has finished all work submitted so far.
    WaitIdle,
    /// Query what the surface supports. Answered by `Reply::Capabilities`.
    QueryCapabilities,
    /// Create a swap chain of at least `image_count` images of extent `extent`,
    /// with the format, colour space, transform and present mode of
    /// `capabilities`, replacing `old_swapchain` (null where there is none).
    /// Answered by `Reply::Created`.
    CreateSwapchain {
        image_count: u32,
        extent: Extent,
        capabilities: SurfaceCapabilities,
        old_swapchain: Handle,
    },
    /// Fetch the images of a swap chain. Answered by `Reply::Handles`.
    GetSwapchainImages { swapchain: Handle },
    DestroySwapchain { swapchain: Handle },
    /// Create the view of the image at position `index` of its chain.
    CreateImageView { image: Handle, format: i32, index: usize },
    DestroyImageView { view: Handle },
    /// Create the framebuffer of the view at position `index` of its chain.
    CreateFramebuffer { view: Handle, extent: Extent, index: usize },
    DestroyFramebuffer { framebuffer: Handle },
    /// Create the fence of frame slot `index`; in the signaled state where
    /// `signaled` says so.
    CreateFence { index: usize, signaled: bool },
    DestroyFence { fence: Handle },
    CreateSemaphore { index: usize },
    DestroySemaphore { semaphore: Handle },
    CreateDescriptorPool { index: usize },
    DestroyDescriptorPool { pool: Handle },
    /// Create a command pool whose buffers can be reset one by one.
    CreateCommandPool,
    /// Destroy a command pool, and with it the command buffers allocated from it.
    DestroyCommandPool { pool: Handle },
    /// Allocate `count` primary command buffers. Answered by `Reply::Handles`.
    AllocateCommandBuffers { pool: Handle, count: u32 },
    /// Block until the fence is signaled, or until `timeout` nanoseconds have
    /// passed.
    WaitForFence { fence: Handle, timeout: u64 },
    ResetFence { fence: Handle },
    ResetCommandBuffer { command_buffer: Handle },
    /// Acquire the next image of the chain, waiting for it `timeout`
    /// nanoseconds at most; `semaphore` is signaled once the image can be
    /// written. Answered by `Reply::Acquired`.
    AcquireNextImage { swapchain: Handle, semaphore: Handle, timeout: u64 },
    /// Begin recording, for a single submission.
    BeginCommandBuffer { command_buffer: Handle },
    /// Begin the render pass on `framebuffer`, over the whole of `extent`.
    BeginRenderPass { command_buffer: Handle, framebuffer: Handle, extent: Extent },
    /// Set the viewport to the whole of `extent`, depth from zero to one.
    SetViewport { command_buffer: Handle, extent: Extent },
    /// Set the scissor rectangle to the whole of `extent`.
    SetScissor { command_buffer: Handle, extent: Extent },
    EndRenderPass { command_buffer: Handle },
    EndCommandBuffer { command_buffer: Handle },
    /// Submit the command buffer to the queue. The work waits for `wait` at the
    /// pipeline stages `wait_stage`, signals `signal` when it is done, and
    /// signals `fence` when all of the submission has completed.
    Submit { command_buffer: Handle, wait: Handle, wait_stage: u32, signal: Handle, fence: Handle },
    /// Present image `image_index` of the chain once `wait` is signaled.
    /// Answered by `Reply::Presented`.
    Present { swapchain: Handle, image_index: u32, wait: Handle },
}

impl Command {
    /// The kind of call that a command asks for.
    pub open spec fn kind(self) -> Operation {
        match self {
            Command::WaitIdle => Operation::WaitIdle,
            Command::QueryCapabilities => Operation::QueryCapabilities,
            Command::CreateSwapchain { .. } => Operation::CreateSwapchain,
            Command::GetSwapchainImages { .. } => Operation::GetSwapchainImages,
            Command::DestroySwapchain { .. } => Operation::DestroySwapchain,
            Command::CreateImageView { .. } => Operation::CreateImageView,
            Command::DestroyImageView { .. } => Operation::DestroyImageView,
            Command::CreateFramebuffer { .. } => Operation::CreateFramebuffer,
            Command::DestroyFramebuffer { .. } => Operation::DestroyFramebuffer,
            Command::CreateFence { .. } => Operation::CreateFence,
            Command::DestroyFence { .. } => Operation::DestroyFence,
            Command::CreateSemaphore { .. } => Operation::CreateSemaphore,
            Command::DestroySemaphore { .. } => Operation::DestroySemaphore,
            Command::CreateDescriptorPool { .. } => Operation::CreateDescriptorPool,
            Command::DestroyDescriptorPool { .. } => Operation::DestroyDescriptorPool,
            Command::CreateCommandPool => Operation::CreateCommandPool,
            Command::DestroyCommandPool { .. } => Operation::DestroyCommandPool,
            Command::AllocateCommandBuffers { .. } => Operation::AllocateCommandBuffers,
            Command::WaitForFence { .. } => Operation::WaitForFence,
            Command::ResetFence { .. } => Operation::ResetFence,
            Command::ResetCommandBuffer { .. } => Operation::ResetCommandBuffer,
            Command::AcquireNextImage { .. } => Operation::AcquireNextImage,
            Command::BeginCommandBuffer { .. } => Operation::BeginCommandBuffer,
            Command::BeginRenderPass { .. } => Operation::BeginRenderPass,
            Command::SetViewport { .. } => Operation::SetViewport,
            Command::SetScissor { .. } => Operation::SetScissor,
            Command::EndRenderPass { .. } => Operation::EndRenderPass,
            Command::EndCommandBuffer { .. } => Operation::EndCommandBuffer,
            Command::Submit { .. } => Operation::Submit,
            Command::Present { .. } => Operation::Present,
        }
    }

    /// Whether the command destroys an object.
    pub open spec fn destruction(self) -> bool {
        self is DestroySwapchain || self is DestroyImageView || self is DestroyFramebuffer
            || self is DestroyFence || self is DestroySemaphore || self is DestroyDescriptorPool
            || self is DestroyCommandPool
    }

    /// Whether the command reaches the queue or the presentation engine with
    /// work of a frame: an acquire, a submission or a present.
    pub open spec fn frame_work(self) -> bool {
        self is AcquireNextImage || self is Submit || self is Present
    }

    pub fn operation(&self) -> (r: Operation)
        ensures
            r == self.kind(),
    {
        match self {
            Command::WaitIdle => Operation::WaitIdle,
            Command::QueryCapabilities => Operation::QueryCapabilities,
            Command::CreateSwapchain { .. } => Operation::CreateSwapchain,
            Command::GetSwapchainImages { .. } => Operation::GetSwapchainImages,
            Command::DestroySwapchain { .. } => Operation::DestroySwapchain,
            Command::CreateImageView { .. } => Operation::CreateImageView,
            Command::DestroyImageView { .. } => Operation::DestroyImageView,
            Command::CreateFramebuffer { .. } => Operation::CreateFramebuffer,
            Command::DestroyFramebuffer { .. } => Operation::DestroyFramebuffer,
            Command::CreateFence { .. } => Operation::CreateFence,
            Command::DestroyFence { .. } => Operation::DestroyFence,
            Command::CreateSemaphore { .. } => Operation::CreateSemaphore,
            Command::DestroySemaphore { .. } => Operation::DestroySemaphore,
            Command::CreateDescriptorPool { .. } => Operation::CreateDescriptorPool,
            Command::DestroyDescriptorPool { .. } => Operation::DestroyDescriptorPool,
            Command::CreateCommandPool => Operation::CreateCommandPool,
            Command::DestroyCommandPool { .. } => Operation::DestroyCommandPool,
            Command::AllocateCommandBuffers { .. } => Operation::AllocateCommandBuffers,
            Command::WaitForFence { .. } => Operation::WaitForFence,
            Command::ResetFence { .. } => Operation::ResetFence,
            Command::ResetCommandBuffer { .. } => Operation::ResetCommandBuffer,
            Command::AcquireNextImage { .. } => Operation::AcquireNextImage,
            Command::BeginCommandBuffer { .. } => Operation::BeginCommandBuffer,
            Command::BeginRenderPass { .. } => Operation::BeginRenderPass,
            Command::SetViewport { .. } => Operation::SetViewport,
            Command::SetScissor { .. } => Operation::SetScissor,
            Command::EndRenderPass { .. } => Operation::EndRenderPass,
            Command::EndCommandBuffer { .. } => Operation::EndCommandBuffer,
            Command::Submit { .. } => Operation::Submit,
            Command::Present { .. } => Operation::Present,
        }
    }
}

/// What a call hands back when it goes through.
#[derive(Clone, Copy, Debug, PartialEq, Eq, Structural)]
pub enum Answer {
    Nothing,
    Object,
    Objects,
    Capabilities,
    Image,
    Presented,
}

impl Operation {
    /// Whether the call destroys an object, which cannot fail.
    pub open spec fn destroys(self) -> bool {
        self == Operation::DestroySwapchain || self == Operation::DestroyImageView || self
            == Operation::DestroyFramebuffer || self == Operation::DestroyFence || self
            == Operation::DestroySemaphore || self == Operation::DestroyDescriptorPool || self
            == Operation::DestroyCommandPool
    }

    /// What the call hands back when it goes through.
    pub open spec fn hands_back(self) -> Answer {
        match self {
            Operation::QueryCapabilities => Answer::Capabilities,
            Operation::CreateSwapchain
            | Operation::CreateImageView
            | Operation::CreateFramebuffer
            | Operation::CreateFence
            | Operation::CreateSemaphore
            | Operation::CreateDescriptorPool
            | Operation::CreateCommandPool => Answer::Object,
            Operation::GetSwapchainImages | Operation::AllocateCommandBuffers => Answer::Objects,
            Operation::AcquireNextImage => Answer::Image,
            Operation::Present => Answer::Presented,
            _ => Answer::Nothing,
        }
    }

    /// Whether `reply` is of a kind that the call can be answered with: what
    /// the call hands back, or a failure, unless the call cannot fail.
    pub open spec fn suits(self, reply: Reply) -> bool {
        match reply {
            Reply::Failed(_) => !self.destroys(),
            Reply::Done => self.hands_back() == Answer::Nothing,
            Reply::Created(_) => self.hands_back() == Answer::Object,
            Reply::Handles(_) => self.hands_back() == Answer::Objects,
            Reply::Capabilities(_) => self.hands_back() == Answer::Capabilities,
            Reply::Acquired { .. } => self.hands_back() == Answer::Image,
            Reply::Presented { .. } => self.hands_back() == Answer::Presented,
        }
    }
}

/// What the device answered to a [`Command`].
#[derive(Debug)]
pub enum Reply {
    /// The call went through and has nothing to hand back.
    Done,
    /// The call failed, or ended otherwise than in success, with this result code.
    Failed(i32),
    /// The object that a creating call made.
    Created(Handle),
    /// The objects that a listing or allocating call handed back, in order.
    Handles(Vec<Handle>),
    /// The capabilities that a query found.
    Capabilities(SurfaceCapabilities),
    /// The image that an acquire handed out, and whether the chain was reported
    /// as suboptimal with it.
    Acquired { image_index: u32, suboptimal: bool },
    /// A present went through; `suboptimal` tells whether the chain was
    /// reported as suboptimal with it.
    Presented { suboptimal: bool },
}

/// A failure that ends the tick loop. Nothing is retried after one.
#[derive(Clone, Copy, Debug, PartialEq, Eq, Structural)]
pub enum Fatal {
    /// The device failed the call `operation` with result code `code`; `index`
    /// is the frame slot or the position in the chain that the call was for
    /// (zero where the call is for neither).
    Device { operation: Operation, index: usize, code: i32 },
    /// The reply was not one that the call `operation` can have.
    UnexpectedReply { operation: Operation },
    /// The capabilities that the surface reported contradict themselves.
    InvalidCapabilities,
    /// The presentation engine handed out an image that the chain does not have.
    UnknownImage { image_index: u32 },
    /// A number of command buffers other than the number of frame slots came back.
    WrongBufferCount { count: usize },
    /// An operation was started while another one was still awaiting a reply.
    Busy,
    /// A reply was handed in although no command was awaiting one.
    NothingPending,
    /// A frame was asked for before the swap chain, the framebuffers and the
    /// frame slots were there.
    NotReady,
    /// This component has ended its work, by an earlier fatal failure or by
    /// its release.
    Halted,
}

/// How far an operation has come: either there is a next device call to make, or
/// the operation is complete.
#[derive(Clone, Copy, Debug, PartialEq, Eq, Structural)]
pub enum Progress {
    Run(Command),
    Complete,
}

/// What a step of an operation gives: how far the operation has come, or the
/// failure that has ended it.
pub type Outcome = Result<Progress, Fatal>;

} // verus!

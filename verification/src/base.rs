use vstd::prelude::*;
use crate::batch::{Batch, BatchModel, BatchPhase, BatchStep};
use crate::device::{Command, Fatal, Handle, Operation, Outcome, Progress, Reply};
use crate::extent::Extent;
use crate::surface::SurfaceCapabilities;

verus! {

/// Where the build of a swap chain stands: each phase but `Idle` and `Halted`
/// is named after what is awaiting its reply.
#[derive(Clone, Copy, Debug, PartialEq, Eq, Structural)]
pub enum BuildPhase {
    /// No build is under way.
    Idle,
    /// The wait for the device to fall idle.
    WaitIdle,
    /// The query of the surface's capabilities.
    QueryCapabilities,
    /// The creation of the new chain.
    CreateSwapchain,
    /// The listing of the new chain's images.
    GetImages,
    /// The creation of a view of the new chain, or, after one has failed, the
    /// destruction of a view made before it.
    Views,
    /// The destruction of the new chain, after its images or views have failed.
    Discard,
    /// The destruction of a view of the chain that was replaced.
    RetireViews,
    /// The destruction of the chain that was replaced.
    RetireSwapchain,
    /// The wait for the device to fall idle, before the chain is destroyed.
    ReleaseWait,
    /// The destruction of a view of the current chain, the last one first.
    ReleaseViews,
    /// The destruction of the current chain.
    ReleaseSwapchain,
    /// The work has ended for good: by a fatal failure, or by the release of
    /// the chain.
    Halted,
}

/// The swap chain manager as a mathematical value: the current chain, and the
/// build that may be under way beside it.
#[verifier::ext_equal]
pub struct BaseModel {
    /// The image count that the owner would like, which a build raises to the
    /// surface's minimum plus one.
    pub requested_image_count: u32,
    /// Whether there is a current chain.
    pub built: bool,
    /// The snapshot of capabilities that the current chain was built against.
    pub capabilities: SurfaceCapabilities,
    /// The extent of the current chain's images.
    pub extent: Extent,
    /// The current chain; null where there is none.
    pub swapchain: Handle,
    /// The images of the current chain, which the presentation engine owns.
    pub images: Seq<Handle>,
    /// The views of the current chain, one of each image, in the same order.
    pub views: Seq<Handle>,
    pub phase: BuildPhase,
    /// The window extent that the build under way was started with.
    pub window: Extent,
    pub next_capabilities: SurfaceCapabilities,
    pub next_extent: Extent,
    pub next_swapchain: Handle,
    pub next_images: Seq<Handle>,
    /// The views of the chain under construction.
    pub batch: BatchModel,
    /// The failure to report once the chain under construction is destroyed.
    pub failure: Fatal,
    /// The chain that was replaced.
    pub old_swapchain: Handle,
    /// The views of the chain that was replaced.
    pub old_views: Seq<Handle>,
    /// How many of them have been handed out for destruction.
    pub retired: usize,
}

impl BaseModel {
    pub open spec fn wf(self) -> bool {
        &&& self.images.len() == self.views.len()
        &&& self.views.len() <= usize::MAX
        &&& self.old_views.len() <= usize::MAX
        &&& self.built ==> self.capabilities.valid() && self.extent.fits(
            self.capabilities.min_image_extent,
            self.capabilities.max_image_extent,
        )
        &&& !self.built ==> self.views.len() == 0 && self.swapchain == Handle::null_handle()
        &&& self.batch.wf()
        &&& self.building() ==> self.next_capabilities.valid() && self.next_extent
            == self.next_capabilities.chain_extent(self.window)
        &&& self.phase == BuildPhase::Views ==> self.batch.total == self.next_images.len() && (
        self.batch.phase == BatchPhase::Creating || self.batch.phase == BatchPhase::Releasing)
        &&& self.phase == BuildPhase::Discard ==> self.failure is Device
        &&& self.phase == BuildPhase::RetireViews ==> 1 <= self.retired <= self.old_views.len()
        &&& self.phase == BuildPhase::RetireViews || self.phase == BuildPhase::RetireSwapchain
            ==> self.built
    }

    /// Whether a new chain has been asked for and is not yet current.
    pub open spec fn building(self) -> bool {
        self.phase == BuildPhase::CreateSwapchain || self.phase == BuildPhase::GetImages
            || self.phase == BuildPhase::Views || self.phase == BuildPhase::Discard
    }

    /// A manager without a chain.
    pub open spec fn fresh(requested_image_count: u32) -> BaseModel {
        let caps = SurfaceCapabilities::zeroed();
        let none = Extent { width: 0, height: 0 };
        BaseModel {
            requested_image_count,
            built: false,
            capabilities: caps,
            extent: none,
            swapchain: Handle::null_handle(),
            images: Seq::empty(),
            views: Seq::empty(),
            phase: BuildPhase::Idle,
            window: none,
            next_capabilities: caps,
            next_extent: none,
            next_swapchain: Handle::null_handle(),
            next_images: Seq::empty(),
            batch: BatchModel::fresh(0),
            failure: Fatal::Halted,
            old_swapchain: Handle::null_handle(),
            old_views: Seq::empty(),
            retired: 0,
        }
    }

    pub open spec fn run(self, phase: BuildPhase, command: Command) -> (BaseModel, Outcome) {
        (BaseModel { phase, ..self }, Ok(Progress::Run(command)))
    }

    /// The work ends for good with `fatal`.
    pub open spec fn halt(self, fatal: Fatal) -> (BaseModel, Outcome) {
        (BaseModel { phase: BuildPhase::Halted, ..self }, Err(fatal))
    }

    /// The reply that came cannot answer the call `operation`.
    pub open spec fn unexpected(self, operation: Operation) -> (BaseModel, Outcome) {
        self.halt(Fatal::UnexpectedReply { operation })
    }

    /// The chain under construction cannot be completed: it is destroyed, and
    /// the failure is kept to be reported after that.
    pub open spec fn discard(self, operation: Operation, index: usize, code: i32) -> (
        BaseModel,
        Outcome,
    ) {
        BaseModel { failure: Fatal::Device { operation, index, code }, ..self }.run(
            BuildPhase::Discard,
            Command::DestroySwapchain { swapchain: self.next_swapchain },
        )
    }

    /// A build begins for a window of extent `window`, with the wait for the
    /// device to fall idle.
    pub open spec fn resize(self, window: Extent) -> (BaseModel, Outcome) {
        match self.phase {
            BuildPhase::Idle => BaseModel { window, ..self }.run(
                BuildPhase::WaitIdle,
                Command::WaitIdle,
            ),
            BuildPhase::Halted => (self, Err(Fatal::Halted)),
            _ => (self, Err(Fatal::Busy)),
        }
    }

    /// The call that asks for the new chain, once the capabilities are known.
    pub open spec fn creation(self, caps: SurfaceCapabilities) -> Command {
        Command::CreateSwapchain {
            image_count: caps.target_image_count(self.requested_image_count) as u32,
            extent: caps.chain_extent(self.window),
            capabilities: caps,
            old_swapchain: self.swapchain,
        }
    }

    /// The new set exists: it becomes the current chain as a whole, and the
    /// chain that it replaces is set aside to be destroyed.
    pub open spec fn commit(self) -> (BaseModel, Outcome) {
        BaseModel {
            built: true,
            capabilities: self.next_capabilities,
            extent: self.next_extent,
            swapchain: self.next_swapchain,
            images: self.next_images,
            views: self.batch.handles,
            next_images: Seq::empty(),
            batch: BatchModel::fresh(0),
            old_swapchain: self.swapchain,
            old_views: self.views,
            retired: 0,
            ..self
        }.retire()
    }

    /// What is left of the replaced chain is destroyed, views first and in
    /// their order, then the chain; after that the build is complete.
    pub open spec fn retire(self) -> (BaseModel, Outcome) {
        if self.retired < self.old_views.len() {
            BaseModel { retired: (self.retired + 1) as usize, ..self }.run(
                BuildPhase::RetireViews,
                Command::DestroyImageView { view: self.old_views[self.retired as int] },
            )
        } else if self.old_swapchain != Handle::null_handle() {
            self.run(
                BuildPhase::RetireSwapchain,
                Command::DestroySwapchain { swapchain: self.old_swapchain },
            )
        } else {
            (BaseModel { phase: BuildPhase::Idle, ..self }, Ok(Progress::Complete))
        }
    }

    /// What follows from a step of the batch of views.
    pub open spec fn views_step(self, stepped: (BatchModel, BatchStep)) -> (BaseModel, Outcome) {
        let next = BaseModel { batch: stepped.0, ..self };
        match stepped.1 {
            BatchStep::Create { index } => next.run(
                BuildPhase::Views,
                Command::CreateImageView {
                    image: self.next_images[index as int],
                    format: self.next_capabilities.format,
                    index,
                },
            ),
            BatchStep::Destroy { handle, index } => next.run(
                BuildPhase::Views,
                Command::DestroyImageView { view: handle },
            ),
            BatchStep::Complete => next.commit(),
            BatchStep::Failed { index, code } => next.discard(
                Operation::CreateImageView,
                index,
                code,
            ),
            BatchStep::OutOfTurn => next.unexpected(Operation::CreateImageView),
        }
    }

    /// Whether a failure has been met and what was made before it is being
    /// destroyed, after which the failure is told.
    pub open spec fn winding_up(self) -> bool {
        self.phase == BuildPhase::Discard || (self.phase == BuildPhase::Views
            && self.batch.phase == BatchPhase::Releasing)
    }

    /// Whether a call is awaiting its reply.
    pub open spec fn awaiting(self) -> bool {
        self.phase != BuildPhase::Idle && self.phase != BuildPhase::Halted
    }

    /// The call whose reply is awaited, in every phase but `Idle` and `Halted`.
    pub open spec fn expected(self) -> Operation {
        match self.phase {
            BuildPhase::QueryCapabilities => Operation::QueryCapabilities,
            BuildPhase::CreateSwapchain => Operation::CreateSwapchain,
            BuildPhase::GetImages => Operation::GetSwapchainImages,
            BuildPhase::Views => if self.batch.phase == BatchPhase::Releasing {
                Operation::DestroyImageView
            } else {
                Operation::CreateImageView
            },
            BuildPhase::RetireViews | BuildPhase::ReleaseViews => Operation::DestroyImageView,
            BuildPhase::Discard | BuildPhase::RetireSwapchain | BuildPhase::ReleaseSwapchain =>
                Operation::DestroySwapchain,
            _ => Operation::WaitIdle,
        }
    }

    /// Whether the chain is being destroyed.
    pub open spec fn releasing(self) -> bool {
        self.phase == BuildPhase::ReleaseWait || self.phase == BuildPhase::ReleaseViews
            || self.phase == BuildPhase::ReleaseSwapchain
    }

    /// The release of the chain begins, with the wait for the device to fall
    /// idle.
    pub open spec fn release(self) -> (BaseModel, Outcome) {
        if self.phase == BuildPhase::Idle || self.phase == BuildPhase::Halted {
            self.run(BuildPhase::ReleaseWait, Command::WaitIdle)
        } else {
            (self, Err(Fatal::Busy))
        }
    }

    /// The next object is destroyed: the views, the last one first, then the
    /// chain. When nothing is left the work has ended, and no chain is current.
    pub open spec fn release_next(self) -> (BaseModel, Outcome) {
        if self.views.len() > 0 {
            BaseModel {
                views: self.views.drop_last(),
                images: self.images.drop_last(),
                ..self
            }.run(BuildPhase::ReleaseViews, Command::DestroyImageView { view: self.views.last() })
        } else if self.swapchain != Handle::null_handle() {
            BaseModel { swapchain: Handle::null_handle(), built: false, ..self }.run(
                BuildPhase::ReleaseSwapchain,
                Command::DestroySwapchain { swapchain: self.swapchain },
            )
        } else {
            (
                BaseModel { built: false, phase: BuildPhase::Halted, ..self },
                Ok(Progress::Complete),
            )
        }
    }

    /// The reply to the call that is awaited, and what the build does on it.
    pub open spec fn resume(self, reply: Reply) -> (BaseModel, Outcome) {
        match self.phase {
            BuildPhase::Idle => (self, Err(Fatal::NothingPending)),
            BuildPhase::Halted => (self, Err(Fatal::Halted)),
            BuildPhase::ReleaseWait => match reply {
                Reply::Done => self.release_next(),
                Reply::Failed(code) => self.halt(
                    Fatal::Device { operation: Operation::WaitIdle, index: 0, code },
                ),
                _ => self.unexpected(Operation::WaitIdle),
            },
            BuildPhase::ReleaseViews => match reply {
                Reply::Done => self.release_next(),
                _ => self.unexpected(Operation::DestroyImageView),
            },
            BuildPhase::ReleaseSwapchain => match reply {
                Reply::Done => self.release_next(),
                _ => self.unexpected(Operation::DestroySwapchain),
            },
            BuildPhase::WaitIdle => match reply {
                Reply::Done => self.run(BuildPhase::QueryCapabilities, Command::QueryCapabilities),
                Reply::Failed(code) => self.halt(
                    Fatal::Device { operation: Operation::WaitIdle, index: 0, code },
                ),
                _ => self.unexpected(Operation::WaitIdle),
            },
            BuildPhase::QueryCapabilities => match reply {
                Reply::Capabilities(caps) => if caps.valid() {
                    BaseModel {
                        next_capabilities: caps,
                        next_extent: caps.chain_extent(self.window),
                        ..self
                    }.run(BuildPhase::CreateSwapchain, self.creation(caps))
                } else {
                    self.halt(Fatal::InvalidCapabilities)
                },
                Reply::Failed(code) => self.halt(
                    Fatal::Device { operation: Operation::QueryCapabilities, index: 0, code },
                ),
                _ => self.unexpected(Operation::QueryCapabilities),
            },
            BuildPhase::CreateSwapchain => match reply {
                Reply::Created(swapchain) => BaseModel { next_swapchain: swapchain, ..self }.run(
                    BuildPhase::GetImages,
                    Command::GetSwapchainImages { swapchain },
                ),
                Reply::Failed(code) => self.halt(
                    Fatal::Device { operation: Operation::CreateSwapchain, index: 0, code },
                ),
                _ => self.unexpected(Operation::CreateSwapchain),
            },
            BuildPhase::GetImages => match reply {
                Reply::Handles(images) => BaseModel { next_images: images@, ..self }.views_step(
                    BatchModel::fresh(images.len()).start(),
                ),
                Reply::Failed(code) => self.discard(Operation::GetSwapchainImages, 0, code),
                _ => self.unexpected(Operation::GetSwapchainImages),
            },
            BuildPhase::Views => match reply {
                Reply::Created(view) => self.views_step(self.batch.created(view)),
                Reply::Failed(code) => self.views_step(self.batch.failed(code)),
                Reply::Done => self.views_step(self.batch.destroyed()),
                _ => self.unexpected(Operation::CreateImageView),
            },
            BuildPhase::Discard => match reply {
                Reply::Done => self.halt(self.failure),
                _ => self.unexpected(Operation::DestroySwapchain),
            },
            BuildPhase::RetireViews => match reply {
                Reply::Done => self.retire(),
                _ => self.unexpected(Operation::DestroyImageView),
            },
            BuildPhase::RetireSwapchain => match reply {
                Reply::Done => (BaseModel { phase: BuildPhase::Idle, ..self }, Ok(Progress::Complete)),
                _ => self.unexpected(Operation::DestroySwapchain),
            },
        }
    }
}

/// A step of the batch of views keeps the manager well formed.
proof fn lemma_views_step_keeps_wf(base: BaseModel, stepped: (BatchModel, BatchStep))
    requires
        base.wf(),
        base.building(),
        base.next_capabilities.valid(),
        stepped.0.wf(),
        stepped.0.total == base.next_images.len(),
        stepped.1 is Create ==> stepped.0.phase == BatchPhase::Creating,
        stepped.1 is Destroy ==> stepped.0.phase == BatchPhase::Releasing,
        stepped.1 is Complete ==> stepped.0.phase == BatchPhase::Complete,
    ensures
        base.views_step(stepped).0.wf(),
{
}

/// Whatever the reply, a build leaves the manager well formed.
pub proof fn lemma_resume_keeps_wf(base: BaseModel, reply: Reply)
    requires
        base.wf(),
    ensures
        base.resume(reply).0.wf(),
{
    match base.phase {
        BuildPhase::GetImages => {
            if let Reply::Handles(images) = reply {
                let next = BaseModel { next_images: images@, ..base };
                lemma_views_step_keeps_wf(next, BatchModel::fresh(images.len()).start());
            }
        },
        BuildPhase::Views => {
            match reply {
                Reply::Created(view) => lemma_views_step_keeps_wf(base, base.batch.created(view)),
                Reply::Failed(code) => lemma_views_step_keeps_wf(base, base.batch.failed(code)),
                Reply::Done => lemma_views_step_keeps_wf(base, base.batch.destroyed()),
                _ => {},
            }
        },
        _ => {},
    }
}

/// The manager awaits the reply to the call that it asked for last; a reply
/// that suits that call is never taken for an unexpected one, and one that
/// tells of success lets the work go on, unless the capabilities it brings
/// contradict themselves or an earlier failure is being wound up.
pub proof fn lemma_suitable_replies_are_expected(base: BaseModel, reply: Reply, window: Extent)
    requires
        base.wf(),
    ensures
        base.resume(reply).1 matches Ok(Progress::Run(command)) ==> base.resume(
            reply,
        ).0.expected() == command.kind(),
        base.resize(window).1 matches Ok(Progress::Run(command)) ==> base.resize(
            window,
        ).0.expected() == command.kind(),
        base.release().1 matches Ok(Progress::Run(command)) ==> base.release().0.expected()
            == command.kind(),
        base.awaiting() && base.expected().suits(reply) ==> !(base.resume(reply).1 matches Err(
            Fatal::UnexpectedReply { .. },
        )),
        base.awaiting() && base.expected().suits(reply) && reply !is Failed
            && !base.winding_up() ==> {
            ||| base.resume(reply).1 is Ok
            ||| base.resume(reply).1 == Err::<Progress, Fatal>(Fatal::InvalidCapabilities)
        },
{
}

/// A build asks for the wait for the idle device, for the query, and for
/// creations and destructions, and for nothing that reaches the queue or the
/// presentation engine with work of a frame.
pub proof fn lemma_build_asks_no_frame_work(base: BaseModel, reply: Reply)
    requires
        base.wf(),
    ensures
        base.resume(reply).1 matches Ok(Progress::Run(command)) ==> !command.frame_work() && !(
        command is BeginRenderPass),
{
}

/// The current chain has one view for each of its images, at every moment: while
/// idle, while a build is under way, and after a build has failed.
pub proof fn lemma_one_view_for_each_image(base: BaseModel, window: Extent, reply: Reply)
    requires
        base.wf(),
    ensures
        base.images.len() == base.views.len(),
        base.resize(window).0.images.len() == base.resize(window).0.views.len(),
        base.resume(reply).0.images.len() == base.resume(reply).0.views.len(),
{
    lemma_resume_keeps_wf(base, reply);
}

/// Until it is released, the current chain changes as a whole or not at all: a
/// reply either leaves chain, images, views, extent and capabilities as they
/// were, or replaces them by the chain that was built, with the images that the
/// presentation engine listed for it and one view for each of them.
pub proof fn lemma_chain_replaced_as_a_whole(base: BaseModel, reply: Reply)
    requires
        base.wf(),
        !base.releasing(),
    ensures
        ({
            let after = base.resume(reply).0;
            ||| {
                &&& after.built == base.built
                &&& after.swapchain == base.swapchain
                &&& after.images == base.images
                &&& after.views == base.views
                &&& after.extent == base.extent
                &&& after.capabilities == base.capabilities
            }
            ||| {
                &&& after.built
                &&& base.building()
                &&& after.swapchain == base.next_swapchain
                &&& after.capabilities == base.next_capabilities
                &&& after.extent == base.next_capabilities.chain_extent(base.window)
                &&& after.views.len() == after.images.len()
                &&& base.phase == BuildPhase::Views ==> after.images == base.next_images
                &&& after.old_swapchain == base.swapchain
                &&& after.old_views == base.views
            }
        }),
{
    lemma_resume_keeps_wf(base, reply);
}

/// A build that fails leaves the chain that was current before it, and ends
/// the manager's work: a chain that could not get all its views is never
/// current.
pub proof fn lemma_failed_build_keeps_the_chain(base: BaseModel, reply: Reply)
    requires
        base.wf(),
        base.resume(reply).1 is Err,
    ensures
        base.resume(reply).0.swapchain == base.swapchain,
        base.resume(reply).0.images == base.images,
        base.resume(reply).0.views == base.views,
        base.resume(reply).0.built == base.built,
        base.phase != BuildPhase::Idle ==> base.resume(reply).0.phase == BuildPhase::Halted,
{
}

/// The extent of the current chain lies in the range that the capabilities it
/// was built against allow, whatever the window's extent was.
pub proof fn lemma_chain_extent_fits(base: BaseModel)
    requires
        base.wf(),
        base.built,
    ensures
        base.extent.fits(base.capabilities.min_image_extent, base.capabilities.max_image_extent),
{
}

/// Two builds against the same capabilities whose windows clamp to the same
/// extent ask for the same chain: the same number of images, the same extent.
/// The chain that a build makes current has the images that were listed for it,
/// so the builds end with chains of the same image count whenever the
/// presentation engine lists as many images for the one as for the other.
pub proof fn lemma_rebuild_is_idempotent(
    first: BaseModel,
    second: BaseModel,
    caps: SurfaceCapabilities,
)
    requires
        first.requested_image_count == second.requested_image_count,
        caps.chain_extent(first.window) == caps.chain_extent(second.window),
    ensures
        first.creation(caps) == (Command::CreateSwapchain {
            image_count: caps.target_image_count(second.requested_image_count) as u32,
            extent: caps.chain_extent(second.window),
            capabilities: caps,
            old_swapchain: first.swapchain,
        }),
        second.creation(caps) == (Command::CreateSwapchain {
            image_count: caps.target_image_count(first.requested_image_count) as u32,
            extent: caps.chain_extent(first.window),
            capabilities: caps,
            old_swapchain: second.swapchain,
        }),
        first.batch.handles.len() == first.next_images.len() && second.batch.handles.len()
            == second.next_images.len() && first.next_images.len() == second.next_images.len()
            ==> first.commit().0.images.len() == second.commit().0.images.len()
            && first.commit().0.views.len() == second.commit().0.views.len(),
{
}

/// When the release of the chain ends, no chain is current and no view is
/// left; the chain itself is destroyed only after its last view.
pub proof fn lemma_released_chain_is_gone(base: BaseModel, reply: Reply)
    requires
        base.wf(),
        base.releasing(),
    ensures
        base.resume(reply).1 == Ok::<Progress, Fatal>(Progress::Complete) ==> {
            let after = base.resume(reply).0;
            &&& after.phase == BuildPhase::Halted
            &&& !after.built
            &&& after.swapchain == Handle::null_handle()
            &&& after.views.len() == 0
            &&& after.images.len() == 0
        },
        base.resume(reply).1 matches Ok(Progress::Run(Command::DestroySwapchain { swapchain }))
            ==> base.views.len() == 0 && swapchain == base.swapchain,
        base.resume(reply).1 matches Ok(Progress::Run(Command::DestroyImageView { view }))
            ==> view == base.views.last(),
{
}

/// The swap chain manager: it owns the chain of presentable images and their
/// views, and builds and rebuilds the chain against the surface's capabilities
/// and the window's extent.
///
/// The chain is replaced as a whole, and only once the new chain, its images and
/// all its views exist. The chain that is replaced is handed to the creation of
/// its successor, and its views and the chain itself are destroyed after that.
#[derive(Debug)]
pub struct RenderBase {
    requested_image_count: u32,
    built: bool,
    surface_capabilities: SurfaceCapabilities,
    surface_extent: Extent,
    swapchain: Handle,
    swapchain_images: Vec<Handle>,
    swapchain_image_views: Vec<Handle>,
    phase: BuildPhase,
    window: Extent,
    next_capabilities: SurfaceCapabilities,
    next_extent: Extent,
    next_swapchain: Handle,
    next_images: Vec<Handle>,
    batch: Batch,
    failure: Fatal,
    old_swapchain: Handle,
    old_views: Vec<Handle>,
    retired: usize,
}

impl View for RenderBase {
    type V = BaseModel;

    closed spec fn view(&self) -> BaseModel {
        BaseModel {
            requested_image_count: self.requested_image_count,
            built: self.built,
            capabilities: self.surface_capabilities,
            extent: self.surface_extent,
            swapchain: self.swapchain,
            images: self.swapchain_images@,
            views: self.swapchain_image_views@,
            phase: self.phase,
            window: self.window,
            next_capabilities: self.next_capabilities,
            next_extent: self.next_extent,
            next_swapchain: self.next_swapchain,
            next_images: self.next_images@,
            batch: self.batch@,
            failure: self.failure,
            old_swapchain: self.old_swapchain,
            old_views: self.old_views@,
            retired: self.retired,
        }
    }
}

impl RenderBase {
    /// A manager without a chain, which will ask for `requested_image_count`
    /// images or for the surface's minimum plus one, whichever is more.
    pub fn new(requested_image_count: u32) -> (r: RenderBase)
        ensures
            r@ == BaseModel::fresh(requested_image_count),
            r@.wf(),
    {
        let caps = SurfaceCapabilities::empty();
        let none = Extent { width: 0, height: 0 };
        RenderBase {
            requested_image_count,
            built: false,
            surface_capabilities: caps,
            surface_extent: none,
            swapchain: Handle::null(),
            swapchain_images: Vec::new(),
            swapchain_image_views: Vec::new(),
            phase: BuildPhase::Idle,
            window: none,
            next_capabilities: caps,
            next_extent: none,
            next_swapchain: Handle::null(),
            next_images: Vec::new(),
            batch: Batch::new(0),
            failure: Fatal::Halted,
            old_swapchain: Handle::null(),
            old_views: Vec::new(),
            retired: 0,
        }
    }

    pub fn phase(&self) -> (r: BuildPhase)
        ensures
            r == self@.phase,
    {
        self.phase
    }

    /// Whether there is a current chain.
    pub fn is_built(&self) -> (r: bool)
        ensures
            r == self@.built,
    {
        self.built
    }

    /// The current chain; null where there is none.
    pub fn swapchain(&self) -> (r: Handle)
        ensures
            r == self@.swapchain,
    {
        self.swapchain
    }

    /// The extent of the current chain's images.
    pub fn surface_extent(&self) -> (r: Extent)
        ensures
            r == self@.extent,
    {
        self.surface_extent
    }

    /// The capabilities that the current chain was built against.
    pub fn surface_capabilities(&self) -> (r: SurfaceCapabilities)
        ensures
            r == self@.capabilities,
    {
        self.surface_capabilities
    }

    /// The number of images of the current chain, which is the number of its
    /// views.
    pub fn image_count(&self) -> (r: usize)
        requires
            self@.wf(),
        ensures
            r == self@.images.len(),
            r == self@.views.len(),
    {
        self.swapchain_images.len()
    }

    /// The images of the current chain.
    pub fn swapchain_images(&self) -> (r: &Vec<Handle>)
        ensures
            r@ == self@.images,
    {
        &self.swapchain_images
    }

    /// The views of the current chain.
    pub fn swapchain_image_views(&self) -> (r: &Vec<Handle>)
        ensures
            r@ == self@.views,
    {
        &self.swapchain_image_views
    }

    fn run(&mut self, phase: BuildPhase, command: Command) -> (r: Outcome)
        ensures
            (final(self)@, r) == old(self)@.run(phase, command),
    {
        self.phase = phase;
        Ok(Progress::Run(command))
    }

    fn halt(&mut self, fatal: Fatal) -> (r: Outcome)
        ensures
            (final(self)@, r) == old(self)@.halt(fatal),
    {
        self.phase = BuildPhase::Halted;
        Err(fatal)
    }

    fn discard(&mut self, operation: Operation, index: usize, code: i32) -> (r: Outcome)
        ensures
            (final(self)@, r) == old(self)@.discard(operation, index, code),
    {
        self.failure = Fatal::Device { operation, index, code };
        self.run(BuildPhase::Discard, Command::DestroySwapchain { swapchain: self.next_swapchain })
    }

    fn retire(&mut self) -> (r: Outcome)
        requires
            old(self)@.retired <= old(self)@.old_views.len(),
        ensures
            (final(self)@, r) == old(self)@.retire(),
    {
        if self.retired < self.old_views.len() {
            let view = self.old_views[self.retired];
            self.retired = self.retired + 1;
            self.run(BuildPhase::RetireViews, Command::DestroyImageView { view })
        } else if !self.old_swapchain.is_null() {
            self.run(
                BuildPhase::RetireSwapchain,
                Command::DestroySwapchain { swapchain: self.old_swapchain },
            )
        } else {
            self.phase = BuildPhase::Idle;
            Ok(Progress::Complete)
        }
    }

    fn commit(&mut self) -> (r: Outcome)
        ensures
            (final(self)@, r) == old(self)@.commit(),
    {
        let mut batch = Batch::new(0);
        core::mem::swap(&mut batch, &mut self.batch);
        let mut views = batch.into_handles();
        core::mem::swap(&mut views, &mut self.swapchain_image_views);
        let mut images = Vec::new();
        core::mem::swap(&mut images, &mut self.next_images);
        self.swapchain_images = images;
        self.old_views = views;
        self.old_swapchain = self.swapchain;
        self.swapchain = self.next_swapchain;
        self.surface_capabilities = self.next_capabilities;
        self.surface_extent = self.next_extent;
        self.built = true;
        self.retired = 0;
        self.retire()
    }

    fn views_step(&mut self, step: BatchStep) -> (r: Outcome)
        requires
            step matches BatchStep::Create { index } ==> index < old(self)@.next_images.len(),
        ensures
            (final(self)@, r) == (BaseModel { batch: old(self)@.batch, ..old(self)@ }).views_step(
                (old(self)@.batch, step),
            ),
    {
        match step {
            BatchStep::Create { index } => {
                let image = self.next_images[index];
                let format = self.next_capabilities.format;
                self.run(BuildPhase::Views, Command::CreateImageView { image, format, index })
            },
            BatchStep::Destroy { handle, index } => self.run(
                BuildPhase::Views,
                Command::DestroyImageView { view: handle },
            ),
            BatchStep::Complete => self.commit(),
            BatchStep::Failed { index, code } => self.discard(
                Operation::CreateImageView,
                index,
                code,
            ),
            BatchStep::OutOfTurn => self.halt(
                Fatal::UnexpectedReply { operation: Operation::CreateImageView },
            ),
        }
    }

    /// Begins the build of a chain for a window of extent `window`. The current
    /// chain, where there is one, stays current until the new one is whole.
    pub fn resize(&mut self, window: Extent) -> (r: Outcome)
        requires
            old(self)@.wf(),
        ensures
            (final(self)@, r) == old(self)@.resize(window),
            final(self)@.wf(),
    {
        match self.phase {
            BuildPhase::Idle => {
                self.window = window;
                self.run(BuildPhase::WaitIdle, Command::WaitIdle)
            },
            BuildPhase::Halted => Err(Fatal::Halted),
            _ => Err(Fatal::Busy),
        }
    }

    fn release_next(&mut self) -> (r: Outcome)
        requires
            old(self)@.images.len() == old(self)@.views.len(),
        ensures
            (final(self)@, r) == old(self)@.release_next(),
    {
        if self.swapchain_image_views.len() > 0 {
            let view = self.swapchain_image_views[self.swapchain_image_views.len() - 1];
            self.swapchain_image_views.pop();
            self.swapchain_images.pop();
            self.run(BuildPhase::ReleaseViews, Command::DestroyImageView { view })
        } else if !self.swapchain.is_null() {
            let swapchain = self.swapchain;
            self.swapchain = Handle::null();
            self.built = false;
            self.run(BuildPhase::ReleaseSwapchain, Command::DestroySwapchain { swapchain })
        } else {
            self.built = false;
            self.phase = BuildPhase::Halted;
            Ok(Progress::Complete)
        }
    }

    /// Begins the release of the current chain: the device is waited for, then
    /// the views are destroyed, the last one first, and then the chain. After
    /// that the manager has ended its work.
    pub fn release(&mut self) -> (r: Outcome)
        requires
            old(self)@.wf(),
        ensures
            (final(self)@, r) == old(self)@.release(),
            final(self)@.wf(),
    {
        match self.phase {
            BuildPhase::Idle | BuildPhase::Halted => self.run(
                BuildPhase::ReleaseWait,
                Command::WaitIdle,
            ),
            _ => Err(Fatal::Busy),
        }
    }

    /// Takes the reply to the call that the build is awaiting, and says what
    /// comes next.
    pub fn resume(&mut self, reply: Reply) -> (r: Outcome)
        requires
            old(self)@.wf(),
        ensures
            (final(self)@, r) == old(self)@.resume(reply),
            final(self)@.wf(),
    {
        proof {
            lemma_resume_keeps_wf(self@, reply);
        }
        match self.phase {
            BuildPhase::Idle => Err(Fatal::NothingPending),
            BuildPhase::Halted => Err(Fatal::Halted),
            BuildPhase::ReleaseWait => match reply {
                Reply::Done => self.release_next(),
                Reply::Failed(code) => self.halt(
                    Fatal::Device { operation: Operation::WaitIdle, index: 0, code },
                ),
                _ => self.halt(Fatal::UnexpectedReply { operation: Operation::WaitIdle }),
            },
            BuildPhase::ReleaseViews => match reply {
                Reply::Done => self.release_next(),
                _ => self.halt(Fatal::UnexpectedReply { operation: Operation::DestroyImageView }),
            },
            BuildPhase::ReleaseSwapchain => match reply {
                Reply::Done => self.release_next(),
                _ => self.halt(Fatal::UnexpectedReply { operation: Operation::DestroySwapchain }),
            },
            BuildPhase::WaitIdle => match reply {
                Reply::Done => self.run(BuildPhase::QueryCapabilities, Command::QueryCapabilities),
                Reply::Failed(code) => self.halt(
                    Fatal::Device { operation: Operation::WaitIdle, index: 0, code },
                ),
                _ => self.halt(Fatal::UnexpectedReply { operation: Operation::WaitIdle }),
            },
            BuildPhase::QueryCapabilities => match reply {
                Reply::Capabilities(caps) => {
                    if caps.is_valid() {
                        let extent = caps.surface_extent(self.window);
                        let command = Command::CreateSwapchain {
                            image_count: caps.image_count(self.requested_image_count),
                            extent,
                            capabilities: caps,
                            old_swapchain: self.swapchain,
                        };
                        self.next_capabilities = caps;
                        self.next_extent = extent;
                        self.run(BuildPhase::CreateSwapchain, command)
                    } else {
                        self.halt(Fatal::InvalidCapabilities)
                    }
                },
                Reply::Failed(code) => self.halt(
                    Fatal::Device { operation: Operation::QueryCapabilities, index: 0, code },
                ),
                _ => self.halt(Fatal::UnexpectedReply { operation: Operation::QueryCapabilities }),
            },
            BuildPhase::CreateSwapchain => match reply {
                Reply::Created(swapchain) => {
                    self.next_swapchain = swapchain;
                    self.run(BuildPhase::GetImages, Command::GetSwapchainImages { swapchain })
                },
                Reply::Failed(code) => self.halt(
                    Fatal::Device { operation: Operation::CreateSwapchain, index: 0, code },
                ),
                _ => self.halt(Fatal::UnexpectedReply { operation: Operation::CreateSwapchain }),
            },
            BuildPhase::GetImages => match reply {
                Reply::Handles(images) => {
                    let mut batch = Batch::new(images.len());
                    let step = batch.start();
                    self.next_images = images;
                    self.batch = batch;
                    self.views_step(step)
                },
                Reply::Failed(code) => self.discard(Operation::GetSwapchainImages, 0, code),
                _ => self.halt(
                    Fatal::UnexpectedReply { operation: Operation::GetSwapchainImages },
                ),
            },
            BuildPhase::Views => {
                let step = match reply {
                    Reply::Created(view) => self.batch.created(view),
                    Reply::Failed(code) => self.batch.failed(code),
                    Reply::Done => self.batch.destroyed(),
                    _ => BatchStep::OutOfTurn,
                };
                self.views_step(step)
            },
            BuildPhase::Discard => match reply {
                Reply::Done => self.halt(self.failure),
                _ => self.halt(Fatal::UnexpectedReply { operation: Operation::DestroySwapchain }),
            },
            BuildPhase::RetireViews => match reply {
                Reply::Done => self.retire(),
                _ => self.halt(Fatal::UnexpectedReply { operation: Operation::DestroyImageView }),
            },
            BuildPhase::RetireSwapchain => match reply {
                Reply::Done => {
                    self.phase = BuildPhase::Idle;
                    Ok(Progress::Complete)
                },
                _ => self.halt(Fatal::UnexpectedReply { operation: Operation::DestroySwapchain }),
            },
        }
    }
}

} // verus!

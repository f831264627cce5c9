use vstd::prelude::*;
use crate::batch::{Batch, BatchModel, BatchStep};
use crate::device::{Command, Fatal, Handle, Operation, Outcome, Progress, Reply};
use crate::extent::Extent;

verus! {

/// What a batch does on a reply; without a reply it begins. A creation is
/// answered by the object made or by a failure, a destruction by `Done`; any
/// other reply leaves the batch as it is.
pub open spec fn advanced(batch: BatchModel, reply: Option<Reply>) -> (BatchModel, BatchStep) {
    match reply {
        None => batch.start(),
        Some(Reply::Created(handle)) => batch.created(handle),
        Some(Reply::Failed(code)) => batch.failed(code),
        Some(Reply::Done) => batch.destroyed(),
        Some(_) => (batch, BatchStep::OutOfTurn),
    }
}

/// Begins a batch, or hands it the reply to the call that it asked for last.
pub fn advance(batch: &mut Batch, reply: Option<Reply>) -> (r: BatchStep)
    requires
        old(batch)@.wf(),
    ensures
        (final(batch)@, r) == advanced(old(batch)@, reply),
        final(batch)@.wf(),
{
    match reply {
        None => batch.start(),
        Some(Reply::Created(handle)) => batch.created(handle),
        Some(Reply::Failed(code)) => batch.failed(code),
        Some(Reply::Done) => batch.destroyed(),
        Some(_) => BatchStep::OutOfTurn,
    }
}

/// The device call, or the end, that a step of a batch of fences stands for.
pub open spec fn fences_outcome(step: BatchStep) -> Outcome {
    match step {
        BatchStep::Create { index } => Ok(
            Progress::Run(Command::CreateFence { index, signaled: true }),
        ),
        BatchStep::Destroy { handle, index } => Ok(
            Progress::Run(Command::DestroyFence { fence: handle }),
        ),
        BatchStep::Complete => Ok(Progress::Complete),
        BatchStep::Failed { index, code } => Err(
            Fatal::Device { operation: Operation::CreateFence, index, code },
        ),
        BatchStep::OutOfTurn => Err(Fatal::UnexpectedReply { operation: Operation::CreateFence }),
    }
}

/// The same for a batch of semaphores.
pub open spec fn semaphores_outcome(step: BatchStep) -> Outcome {
    match step {
        BatchStep::Create { index } => Ok(Progress::Run(Command::CreateSemaphore { index })),
        BatchStep::Destroy { handle, index } => Ok(
            Progress::Run(Command::DestroySemaphore { semaphore: handle }),
        ),
        BatchStep::Complete => Ok(Progress::Complete),
        BatchStep::Failed { index, code } => Err(
            Fatal::Device { operation: Operation::CreateSemaphore, index, code },
        ),
        BatchStep::OutOfTurn => Err(
            Fatal::UnexpectedReply { operation: Operation::CreateSemaphore },
        ),
    }
}

/// The same for a batch of descriptor pools.
pub open spec fn descriptor_pools_outcome(step: BatchStep) -> Outcome {
    match step {
        BatchStep::Create { index } => Ok(Progress::Run(Command::CreateDescriptorPool { index })),
        BatchStep::Destroy { handle, index } => Ok(
            Progress::Run(Command::DestroyDescriptorPool { pool: handle }),
        ),
        BatchStep::Complete => Ok(Progress::Complete),
        BatchStep::Failed { index, code } => Err(
            Fatal::Device { operation: Operation::CreateDescriptorPool, index, code },
        ),
        BatchStep::OutOfTurn => Err(
            Fatal::UnexpectedReply { operation: Operation::CreateDescriptorPool },
        ),
    }
}

/// The same for a batch of framebuffers, one for each of `views` and in their
/// order, all of extent `extent`. A batch that asks for more framebuffers than
/// there are views is not one of these views: `NotReady`.
pub open spec fn framebuffers_outcome(step: BatchStep, views: Seq<Handle>, extent: Extent)
    -> Outcome {
    match step {
        BatchStep::Create { index } => if index < views.len() {
            Ok(
                Progress::Run(
                    Command::CreateFramebuffer { view: views[index as int], extent, index },
                ),
            )
        } else {
            Err(Fatal::NotReady)
        },
        BatchStep::Destroy { handle, index } => Ok(
            Progress::Run(Command::DestroyFramebuffer { framebuffer: handle }),
        ),
        BatchStep::Complete => Ok(Progress::Complete),
        BatchStep::Failed { index, code } => Err(
            Fatal::Device { operation: Operation::CreateFramebuffer, index, code },
        ),
        BatchStep::OutOfTurn => Err(
            Fatal::UnexpectedReply { operation: Operation::CreateFramebuffer },
        ),
    }
}

/// What the reply to the creation of a single object holds: the object, or the
/// failure of `operation`.
pub open spec fn creation_result(operation: Operation, reply: Reply) -> Result<Handle, Fatal> {
    match reply {
        Reply::Created(handle) => Ok(handle),
        Reply::Failed(code) => Err(Fatal::Device { operation, index: 0, code }),
        _ => Err(Fatal::UnexpectedReply { operation }),
    }
}

/// Drives the creation of one fence for each frame slot, each created in the
/// signaled state. Called without a reply it asks for the first fence; called
/// with the reply to what it asked for last it asks for the next call. When a
/// creation fails, the fences made before it are destroyed, and then the
/// failure is returned with the position of the fence that could not be made.
pub fn create_fences(batch: &mut Batch, reply: Option<Reply>) -> (r: Outcome)
    requires
        old(batch)@.wf(),
    ensures
        final(batch)@ == advanced(old(batch)@, reply).0,
        r == fences_outcome(advanced(old(batch)@, reply).1),
        final(batch)@.wf(),
{
    match advance(batch, reply) {
        BatchStep::Create { index } => Ok(
            Progress::Run(Command::CreateFence { index, signaled: true }),
        ),
        BatchStep::Destroy { handle, index } => Ok(
            Progress::Run(Command::DestroyFence { fence: handle }),
        ),
        BatchStep::Complete => Ok(Progress::Complete),
        BatchStep::Failed { index, code } => Err(
            Fatal::Device { operation: Operation::CreateFence, index, code },
        ),
        BatchStep::OutOfTurn => Err(Fatal::UnexpectedReply { operation: Operation::CreateFence }),
    }
}

/// Drives the creation of a batch of semaphores, as `create_fences` does for
/// fences.
pub fn create_semaphore(batch: &mut Batch, reply: Option<Reply>) -> (r: Outcome)
    requires
        old(batch)@.wf(),
    ensures
        final(batch)@ == advanced(old(batch)@, reply).0,
        r == semaphores_outcome(advanced(old(batch)@, reply).1),
        final(batch)@.wf(),
{
    match advance(batch, reply) {
        BatchStep::Create { index } => Ok(Progress::Run(Command::CreateSemaphore { index })),
        BatchStep::Destroy { handle, index } => Ok(
            Progress::Run(Command::DestroySemaphore { semaphore: handle }),
        ),
        BatchStep::Complete => Ok(Progress::Complete),
        BatchStep::Failed { index, code } => Err(
            Fatal::Device { operation: Operation::CreateSemaphore, index, code },
        ),
        BatchStep::OutOfTurn => Err(
            Fatal::UnexpectedReply { operation: Operation::CreateSemaphore },
        ),
    }
}

/// Drives the creation of a batch of descriptor pools, as `create_fences` does
/// for fences.
pub fn create_descriptor_pools(batch: &mut Batch, reply: Option<Reply>) -> (r: Outcome)
    requires
        old(batch)@.wf(),
    ensures
        final(batch)@ == advanced(old(batch)@, reply).0,
        r == descriptor_pools_outcome(advanced(old(batch)@, reply).1),
        final(batch)@.wf(),
{
    match advance(batch, reply) {
        BatchStep::Create { index } => Ok(Progress::Run(Command::CreateDescriptorPool { index })),
        BatchStep::Destroy { handle, index } => Ok(
            Progress::Run(Command::DestroyDescriptorPool { pool: handle }),
        ),
        BatchStep::Complete => Ok(Progress::Complete),
        BatchStep::Failed { index, code } => Err(
            Fatal::Device { operation: Operation::CreateDescriptorPool, index, code },
        ),
        BatchStep::OutOfTurn => Err(
            Fatal::UnexpectedReply { operation: Operation::CreateDescriptorPool },
        ),
    }
}

/// Drives the creation of one framebuffer for each view of a swap chain, in
/// the order of the views. When a creation fails, the framebuffers made before
/// it are destroyed, and then the failure is returned with the position of the
/// view whose framebuffer could not be made.
pub fn create_framebuffers(
    batch: &mut Batch,
    swapchain_image_views: &Vec<Handle>,
    framebuffer_extent: Extent,
    reply: Option<Reply>,
) -> (r: Outcome)
    requires
        old(batch)@.wf(),
    ensures
        final(batch)@ == advanced(old(batch)@, reply).0,
        r == framebuffers_outcome(
            advanced(old(batch)@, reply).1,
            swapchain_image_views@,
            framebuffer_extent,
        ),
        final(batch)@.wf(),
{
    match advance(batch, reply) {
        BatchStep::Create { index } => {
            if index < swapchain_image_views.len() {
                Ok(
                    Progress::Run(
                        Command::CreateFramebuffer {
                            view: swapchain_image_views[index],
                            extent: framebuffer_extent,
                            index,
                        },
                    ),
                )
            } else {
                Err(Fatal::NotReady)
            }
        },
        BatchStep::Destroy { handle, index } => Ok(
            Progress::Run(Command::DestroyFramebuffer { framebuffer: handle }),
        ),
        BatchStep::Complete => Ok(Progress::Complete),
        BatchStep::Failed { index, code } => Err(
            Fatal::Device { operation: Operation::CreateFramebuffer, index, code },
        ),
        BatchStep::OutOfTurn => Err(
            Fatal::UnexpectedReply { operation: Operation::CreateFramebuffer },
        ),
    }
}

/// Reads the reply to the creation of the command pool.
pub fn create_command_pool(reply: Reply) -> (r: Result<Handle, Fatal>)
    ensures
        r == creation_result(Operation::CreateCommandPool, reply),
{
    match reply {
        Reply::Created(handle) => Ok(handle),
        Reply::Failed(code) => Err(
            Fatal::Device { operation: Operation::CreateCommandPool, index: 0, code },
        ),
        _ => Err(Fatal::UnexpectedReply { operation: Operation::CreateCommandPool }),
    }
}

/// No partial set is ever handed out: a batch of fences, semaphores, descriptor
/// pools or framebuffers that ends in failure has, by then, asked for the
/// destruction of every object that it had made.
pub proof fn lemma_failure_after_teardown(
    batch: BatchModel,
    reply: Option<Reply>,
    views: Seq<Handle>,
    extent: Extent,
)
    requires
        batch.wf(),
    ensures
        fences_outcome(advanced(batch, reply).1) matches Err(Fatal::Device { .. }) ==> advanced(
            batch,
            reply,
        ).0.held() == Seq::<Handle>::empty(),
        semaphores_outcome(advanced(batch, reply).1) matches Err(Fatal::Device { .. })
            ==> advanced(batch, reply).0.held() == Seq::<Handle>::empty(),
        descriptor_pools_outcome(advanced(batch, reply).1) matches Err(Fatal::Device { .. })
            ==> advanced(batch, reply).0.held() == Seq::<Handle>::empty(),
        framebuffers_outcome(advanced(batch, reply).1, views, extent) matches Err(
            Fatal::Device { .. },
        ) ==> advanced(batch, reply).0.held() == Seq::<Handle>::empty(),
{
}

} // verus!

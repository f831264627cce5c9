use render_core::base::RenderBase;
use render_core::data::{CommandState, DataPhase, FenceState, RenderData, SlotState};
use render_core::device::{Command, Fatal, Handle, Operation, Progress, Reply};
use render_core::extent::Extent;
use render_core::index::{FrameSlot, ImageIndex};
use render_core::surface::{SurfaceCapabilities, UNDEFINED_EXTENT};

fn answer(command: Command, next: &mut u64) -> Reply {
    *next += 1;
    match command {
        Command::AllocateCommandBuffers { count, .. } => {
            Reply::Handles((0..count as u64).map(|i| Handle::new(900 + i)).collect())
        }
        Command::CreateFence { .. }
        | Command::CreateSemaphore { .. }
        | Command::CreateCommandPool
        | Command::CreateFramebuffer { .. } => Reply::Created(Handle::new(*next)),
        _ => Reply::Done,
    }
}

fn run(data: &mut RenderData, mut step: Result<Progress, Fatal>) -> Vec<Command> {
    let mut log = Vec::new();
    let mut next = 0;
    loop {
        match step {
            Ok(Progress::Run(command)) => {
                log.push(command);
                step = data.resume(answer(command, &mut next));
            }
            Ok(Progress::Complete) => return log,
            Err(fatal) => panic!("{:?}", fatal),
        }
    }
}

fn allocated(frames: usize) -> RenderData {
    let mut data = RenderData::new(frames);
    let step = data.allocate();
    run(&mut data, step);
    data
}

fn built(images: &[u64]) -> RenderBase {
    let mut base = RenderBase::new(3);
    let mut step = base.resize(Extent::new(800, 600));
    while let Ok(Progress::Run(command)) = step {
        let reply = match command {
            Command::QueryCapabilities => Reply::Capabilities(SurfaceCapabilities {
                min_image_count: 2,
                max_image_count: 0,
                current_extent: Extent::new(UNDEFINED_EXTENT, UNDEFINED_EXTENT),
                min_image_extent: Extent::new(1, 1),
                max_image_extent: Extent::new(4096, 4096),
                supported_transforms: 1,
                current_transform: 1,
                supported_usage_flags: 0x10,
                format: 44,
                color_space: 0,
                present_mode: 2,
            }),
            Command::CreateSwapchain { .. } => Reply::Created(Handle::new(7)),
            Command::GetSwapchainImages { .. } => {
                Reply::Handles(images.iter().map(|i| Handle::new(*i)).collect())
            }
            Command::CreateImageView { image, .. } => Reply::Created(Handle::new(image.raw + 1000)),
            _ => Reply::Done,
        };
        step = base.resume(reply);
    }
    assert_eq!(step, Ok(Progress::Complete));
    base
}

#[test]
fn allocation_creates_the_objects_of_every_slot() {
    let mut data = RenderData::new(2);
    assert!(!data.is_allocated());
    assert_eq!(data.frames(), 2);
    let step = data.allocate();
    assert_eq!(data.phase(), DataPhase::Fences);
    let log = run(&mut data, step);
    assert_eq!(
        log,
        vec![
            Command::CreateFence { index: 0, signaled: true },
            Command::CreateFence { index: 1, signaled: true },
            Command::CreateSemaphore { index: 0 },
            Command::CreateSemaphore { index: 1 },
            Command::CreateSemaphore { index: 0 },
            Command::CreateSemaphore { index: 1 },
            Command::CreateCommandPool,
            Command::AllocateCommandBuffers { pool: Handle::new(7), count: 2 },
        ]
    );
    assert!(data.is_allocated());
    assert_eq!(data.phase(), DataPhase::Idle);
    assert_eq!(data.fence_for(FrameSlot(0)), Handle::new(1));
    assert_eq!(data.fence_for(FrameSlot(1)), Handle::new(2));
    assert_eq!(data.semaphores_for(FrameSlot(0)), (Handle::new(3), Handle::new(5)));
    assert_eq!(data.semaphores_for(FrameSlot(1)), (Handle::new(4), Handle::new(6)));
    assert_eq!(data.command_buffer_for(FrameSlot(0)), Handle::new(900));
    assert_eq!(data.command_buffer_for(FrameSlot(1)), Handle::new(901));
    let fresh = SlotState { fence: FenceState::Signaled, commands: CommandState::Initial };
    assert_eq!(data.slot_state(FrameSlot(0)), fresh);
    assert_eq!(data.slot_state(FrameSlot(1)), fresh);
    assert_eq!(data.frames_in_flight(), 0);
    assert!(!data.is_ready());
    assert_eq!(data.allocate(), Ok(Progress::Complete));
}

#[test]
fn a_failing_fence_during_allocation_tears_down_and_halts() {
    let mut data = RenderData::new(3);
    data.allocate().unwrap();
    data.resume(Reply::Created(Handle::new(1))).unwrap();
    assert_eq!(
        data.resume(Reply::Failed(-1)),
        Ok(Progress::Run(Command::DestroyFence { fence: Handle::new(1) }))
    );
    assert_eq!(
        data.resume(Reply::Done),
        Err(Fatal::Device { operation: Operation::CreateFence, index: 1, code: -1 })
    );
    assert_eq!(data.phase(), DataPhase::Halted);
    assert!(!data.is_allocated());
    assert_eq!(data.allocate(), Err(Fatal::Halted));
    assert_eq!(data.resume(Reply::Done), Err(Fatal::Halted));
    assert_eq!(data.wait_and_reset(FrameSlot(0)), Err(Fatal::Halted));
}

#[test]
fn a_wrong_number_of_command_buffers_is_fatal() {
    let mut data = RenderData::new(2);
    let mut step = data.allocate();
    let mut next = 0;
    while let Ok(Progress::Run(command)) = step {
        if let Command::AllocateCommandBuffers { .. } = command {
            break;
        }
        step = data.resume(answer(command, &mut next));
    }
    assert_eq!(
        data.resume(Reply::Handles(vec![Handle::new(1), Handle::new(2), Handle::new(3)])),
        Err(Fatal::WrongBufferCount { count: 3 })
    );
    assert_eq!(data.phase(), DataPhase::Halted);
}

#[test]
fn a_failing_pool_or_allocation_is_fatal() {
    let mut data = RenderData::new(1);
    let mut step = data.allocate();
    let mut next = 0;
    while let Ok(Progress::Run(command)) = step {
        if command == Command::CreateCommandPool {
            break;
        }
        step = data.resume(answer(command, &mut next));
    }
    assert_eq!(
        data.resume(Reply::Failed(-2)),
        Err(Fatal::Device { operation: Operation::CreateCommandPool, index: 0, code: -2 })
    );
    let mut data = RenderData::new(1);
    let mut step = data.allocate();
    while let Ok(Progress::Run(command)) = step {
        if let Command::AllocateCommandBuffers { .. } = command {
            break;
        }
        step = data.resume(answer(command, &mut next));
    }
    assert_eq!(
        data.resume(Reply::Failed(-3)),
        Err(Fatal::Device { operation: Operation::AllocateCommandBuffers, index: 0, code: -3 })
    );
}

#[test]
fn wait_and_reset_waits_then_resets_fence_and_command_buffer() {
    let mut data = allocated(2);
    let slot = FrameSlot(1);
    let fence = data.fence_for(slot);
    let command_buffer = data.command_buffer_for(slot);
    assert_eq!(
        data.wait_and_reset(slot),
        Ok(Progress::Run(Command::WaitForFence { fence, timeout: u64::MAX }))
    );
    assert_eq!(data.phase(), DataPhase::WaitForFence);
    assert_eq!(data.wait_and_reset(FrameSlot(0)), Err(Fatal::Busy));
    assert_eq!(data.resume(Reply::Done), Ok(Progress::Run(Command::ResetFence { fence })));
    assert_eq!(data.slot_state(slot).fence, FenceState::Signaled);
    assert_eq!(
        data.resume(Reply::Done),
        Ok(Progress::Run(Command::ResetCommandBuffer { command_buffer }))
    );
    assert_eq!(data.slot_state(slot).fence, FenceState::Unsignaled);
    assert_eq!(data.resume(Reply::Done), Ok(Progress::Complete));
    assert_eq!(
        data.slot_state(slot),
        SlotState { fence: FenceState::Unsignaled, commands: CommandState::Initial }
    );
    assert_eq!(
        data.slot_state(FrameSlot(0)),
        SlotState { fence: FenceState::Signaled, commands: CommandState::Initial }
    );
    // The slot is free: there is nothing to wait for.
    assert_eq!(data.wait_and_reset(slot), Ok(Progress::Complete));
    assert_eq!(data.phase(), DataPhase::Idle);
}

#[test]
fn a_failing_wait_or_reset_is_fatal_with_the_slot() {
    let mut data = allocated(2);
    data.wait_and_reset(FrameSlot(1)).unwrap();
    assert_eq!(
        data.resume(Reply::Failed(-4)),
        Err(Fatal::Device { operation: Operation::WaitForFence, index: 1, code: -4 })
    );
    let mut data = allocated(2);
    data.wait_and_reset(FrameSlot(0)).unwrap();
    data.resume(Reply::Done).unwrap();
    assert_eq!(
        data.resume(Reply::Failed(-4)),
        Err(Fatal::Device { operation: Operation::ResetFence, index: 0, code: -4 })
    );
    let mut data = allocated(2);
    data.wait_and_reset(FrameSlot(1)).unwrap();
    data.resume(Reply::Done).unwrap();
    data.resume(Reply::Done).unwrap();
    assert_eq!(
        data.resume(Reply::Failed(-4)),
        Err(Fatal::Device { operation: Operation::ResetCommandBuffer, index: 1, code: -4 })
    );
    let mut data = allocated(2);
    data.wait_and_reset(FrameSlot(1)).unwrap();
    assert_eq!(
        data.resume(Reply::Created(Handle::new(1))),
        Err(Fatal::UnexpectedReply { operation: Operation::WaitForFence })
    );
}

#[test]
fn a_slot_that_does_not_exist_is_not_ready() {
    let mut data = allocated(2);
    assert_eq!(data.wait_and_reset(FrameSlot(2)), Err(Fatal::NotReady));
    let mut data = RenderData::new(2);
    assert_eq!(data.wait_and_reset(FrameSlot(0)), Err(Fatal::NotReady));
    assert_eq!(data.resume(Reply::Done), Err(Fatal::NothingPending));
}

#[test]
fn resize_makes_one_framebuffer_for_each_view() {
    let base = built(&[1, 2, 3]);
    let mut data = allocated(2);
    let step = data.resize(&base);
    let log = run(&mut data, step);
    let extent = Extent::new(800, 600);
    assert_eq!(
        log,
        vec![
            Command::CreateFramebuffer { view: Handle::new(1001), extent, index: 0 },
            Command::CreateFramebuffer { view: Handle::new(1002), extent, index: 1 },
            Command::CreateFramebuffer { view: Handle::new(1003), extent, index: 2 },
        ]
    );
    assert!(data.is_ready());
    assert_eq!(data.framebuffer_count(), 3);
    assert_eq!(data.framebuffer_count(), base.image_count());
    let first = data.framebuffer_for(ImageIndex(0));
    let last = data.framebuffer_for(ImageIndex(2));

    // A second resize destroys the old ones first, in order.
    let base = built(&[5, 6]);
    let step = data.resize(&base);
    assert!(!data.is_ready());
    let log = run(&mut data, step);
    assert_eq!(log[0], Command::DestroyFramebuffer { framebuffer: first });
    assert_eq!(log[2], Command::DestroyFramebuffer { framebuffer: last });
    assert_eq!(
        log[3],
        Command::CreateFramebuffer { view: Handle::new(1005), extent, index: 0 }
    );
    assert_eq!(log.len(), 5);
    assert_eq!(data.framebuffer_count(), 2);
    assert!(data.is_ready());
}

#[test]
fn a_failing_framebuffer_destroys_the_ones_before_it() {
    let base = built(&[1, 2, 3]);
    let mut data = allocated(2);
    data.resize(&base).unwrap();
    data.resume(Reply::Created(Handle::new(41))).unwrap();
    data.resume(Reply::Created(Handle::new(42))).unwrap();
    assert_eq!(
        data.resume(Reply::Failed(-6)),
        Ok(Progress::Run(Command::DestroyFramebuffer { framebuffer: Handle::new(41) }))
    );
    assert_eq!(
        data.resume(Reply::Done),
        Ok(Progress::Run(Command::DestroyFramebuffer { framebuffer: Handle::new(42) }))
    );
    assert_eq!(
        data.resume(Reply::Done),
        Err(Fatal::Device { operation: Operation::CreateFramebuffer, index: 2, code: -6 })
    );
    assert_eq!(data.phase(), DataPhase::Halted);
    assert!(!data.is_ready());
    assert_eq!(data.resize(&base), Err(Fatal::Halted));
}

#[test]
fn a_chain_without_views_needs_no_framebuffers() {
    let base = RenderBase::new(3);
    let mut data = allocated(1);
    assert_eq!(data.resize(&base), Ok(Progress::Complete));
    assert_eq!(data.framebuffer_count(), 0);
    assert!(data.is_ready());
}

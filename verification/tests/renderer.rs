use render_core::data::{CommandState, FenceState};
use render_core::device::{
    Command, Fatal, Handle, Operation, Reply, ERROR_OUT_OF_DATE, SUBOPTIMAL,
};
use render_core::extent::Extent;
use render_core::index::FrameSlot;
use render_core::renderer::{DrawPhase, Renderer, Stage, Tick};
use render_core::surface::{SurfaceCapabilities, UNDEFINED_EXTENT};

const ERROR_DEVICE_LOST: i32 = -4;

fn capabilities() -> SurfaceCapabilities {
    SurfaceCapabilities {
        min_image_count: 2,
        max_image_count: 8,
        current_extent: Extent::new(UNDEFINED_EXTENT, UNDEFINED_EXTENT),
        min_image_extent: Extent::new(1, 1),
        max_image_extent: Extent::new(4096, 4096),
        supported_transforms: 1,
        current_transform: 1,
        supported_usage_flags: 0x10,
        format: 44,
        color_space: 0,
        present_mode: 2,
    }
}

/// A device that does what it is told and keeps a record of it.
struct Device {
    next: u64,
    log: Vec<Command>,
    capabilities: SurfaceCapabilities,
    images: usize,
    acquires: u32,
    presents: u32,
    stale_acquire: Option<(u32, Reply)>,
    stale_present: Option<(u32, Reply)>,
    failing: Option<(Operation, i32)>,
}

impl Device {
    fn new() -> Device {
        Device {
            next: 100,
            log: Vec::new(),
            capabilities: capabilities(),
            images: 3,
            acquires: 0,
            presents: 0,
            stale_acquire: None,
            stale_present: None,
            failing: None,
        }
    }

    fn fresh(&mut self) -> Handle {
        self.next += 1;
        Handle::new(self.next)
    }

    fn execute(&mut self, command: Command) -> Reply {
        self.log.push(command);
        if let Some((operation, code)) = self.failing {
            if operation == command.operation() {
                return Reply::Failed(code);
            }
        }
        match command {
            Command::QueryCapabilities => Reply::Capabilities(self.capabilities),
            Command::GetSwapchainImages { .. } => {
                let mut images = Vec::new();
                for _ in 0..self.images {
                    images.push(self.fresh());
                }
                Reply::Handles(images)
            }
            Command::AllocateCommandBuffers { count, .. } => {
                let mut buffers = Vec::new();
                for _ in 0..count {
                    buffers.push(self.fresh());
                }
                Reply::Handles(buffers)
            }
            Command::CreateSwapchain { .. }
            | Command::CreateImageView { .. }
            | Command::CreateFramebuffer { .. }
            | Command::CreateFence { .. }
            | Command::CreateSemaphore { .. }
            | Command::CreateDescriptorPool { .. }
            | Command::CreateCommandPool => Reply::Created(self.fresh()),
            Command::AcquireNextImage { .. } => {
                self.acquires += 1;
                if let Some((at, _)) = &self.stale_acquire {
                    if *at == self.acquires {
                        return self.stale_acquire.take().unwrap().1;
                    }
                }
                Reply::Acquired {
                    image_index: (self.acquires - 1) % self.images as u32,
                    suboptimal: false,
                }
            }
            Command::Present { .. } => {
                self.presents += 1;
                if let Some((at, _)) = &self.stale_present {
                    if *at == self.presents {
                        return self.stale_present.take().unwrap().1;
                    }
                }
                Reply::Presented { suboptimal: false }
            }
            _ => Reply::Done,
        }
    }

    fn count(&self, operation: Operation) -> usize {
        self.log.iter().filter(|c| c.operation() == operation).count()
    }
}

/// Runs one tick to its end.
fn tick(renderer: &mut Renderer, device: &mut Device, window: Extent) -> Result<Tick, Fatal> {
    let mut step = renderer.tick(window);
    loop {
        match step {
            Ok(Tick::Run(command)) => {
                let reply = device.execute(command);
                step = renderer.resume(reply);
            }
            other => return other,
        }
    }
}

fn window() -> Extent {
    Extent::new(800, 600)
}

#[test]
fn a_fresh_renderer_has_no_chain_and_asks_for_a_rebuild() {
    let renderer = Renderer::new(2, 3);
    assert_eq!(renderer.current_frame_index(), FrameSlot(0));
    assert!(renderer.rebuild_swapchain());
    assert_eq!(renderer.phase(), DrawPhase::Idle);
    assert_eq!(renderer.stage(), Stage::Idle);
    assert!(!renderer.base().is_built());
    assert!(!renderer.data().is_allocated());
    assert_eq!(renderer.data().frames(), 2);
}

#[test]
fn hundred_ticks_cycle_through_two_slots() {
    let mut renderer = Renderer::new(2, 3);
    let mut device = Device::new();
    for i in 0..100usize {
        assert_eq!(renderer.current_frame_index(), FrameSlot(i % 2));
        assert_eq!(tick(&mut renderer, &mut device, window()), Ok(Tick::Presented));
        assert_eq!(renderer.current_frame_index(), FrameSlot((i + 1) % 2));
        assert_eq!(renderer.phase(), DrawPhase::Idle);
    }
    assert_eq!(device.count(Operation::Present), 100);
    assert_eq!(device.count(Operation::Submit), 100);
    assert_eq!(device.count(Operation::AcquireNextImage), 100);
    assert_eq!(device.count(Operation::CreateSwapchain), 1);
    assert_eq!(device.count(Operation::CreateFence), 2);
    assert_eq!(device.count(Operation::CreateSemaphore), 4);
    assert!(!renderer.rebuild_swapchain());
}

#[test]
fn three_slots_cycle_zero_one_two() {
    let mut renderer = Renderer::new(3, 3);
    let mut device = Device::new();
    let mut seen = Vec::new();
    for _ in 0..7 {
        seen.push(renderer.current_frame_index().0);
        assert_eq!(tick(&mut renderer, &mut device, window()), Ok(Tick::Presented));
    }
    assert_eq!(seen, vec![0, 1, 2, 0, 1, 2, 0]);
}

#[test]
fn the_first_tick_allocates_builds_and_draws_in_order() {
    let mut renderer = Renderer::new(1, 3);
    let mut device = Device::new();
    assert_eq!(tick(&mut renderer, &mut device, window()), Ok(Tick::Presented));
    let kinds: Vec<Operation> = device.log.iter().map(|c| c.operation()).collect();
    assert_eq!(
        kinds,
        vec![
            Operation::CreateFence,
            Operation::CreateSemaphore,
            Operation::CreateSemaphore,
            Operation::CreateCommandPool,
            Operation::AllocateCommandBuffers,
            Operation::WaitIdle,
            Operation::QueryCapabilities,
            Operation::CreateSwapchain,
            Operation::GetSwapchainImages,
            Operation::CreateImageView,
            Operation::CreateImageView,
            Operation::CreateImageView,
            Operation::CreateFramebuffer,
            Operation::CreateFramebuffer,
            Operation::CreateFramebuffer,
            Operation::WaitForFence,
            Operation::ResetFence,
            Operation::ResetCommandBuffer,
            Operation::AcquireNextImage,
            Operation::BeginCommandBuffer,
            Operation::BeginRenderPass,
            Operation::SetViewport,
            Operation::SetScissor,
            Operation::EndRenderPass,
            Operation::EndCommandBuffer,
            Operation::Submit,
            Operation::Present,
        ]
    );
}

#[test]
fn the_chain_is_asked_for_with_clamped_extent_and_minimum_plus_one() {
    let mut renderer = Renderer::new(2, 0);
    let mut device = Device::new();
    assert_eq!(tick(&mut renderer, &mut device, Extent::new(5000, 600)), Ok(Tick::Presented));
    let creation = device
        .log
        .iter()
        .find(|c| c.operation() == Operation::CreateSwapchain)
        .copied()
        .unwrap();
    assert_eq!(
        creation,
        Command::CreateSwapchain {
            image_count: 3,
            extent: Extent::new(4096, 600),
            capabilities: capabilities(),
            old_swapchain: Handle::null(),
        }
    );
    assert_eq!(renderer.base().surface_extent(), Extent::new(4096, 600));
    assert_eq!(renderer.base().surface_capabilities(), capabilities());
}

#[test]
fn a_frame_uses_the_objects_of_its_slot_and_the_framebuffer_of_its_image() {
    let mut renderer = Renderer::new(2, 3);
    let mut device = Device::new();
    // The first acquire of this device hands out image 0, the second image 1,
    // the third image 2: in the third tick slot 0 meets image 2.
    for _ in 0..2 {
        assert_eq!(tick(&mut renderer, &mut device, window()), Ok(Tick::Presented));
    }
    device.log.clear();
    assert_eq!(renderer.current_frame_index(), FrameSlot(0));
    assert_eq!(tick(&mut renderer, &mut device, window()), Ok(Tick::Presented));
    let slot = FrameSlot(0);
    let data = renderer.data();
    let command_buffer = data.command_buffer_for(slot);
    let (acquired, finished) = data.semaphores_for(slot);
    let fence = data.fence_for(slot);
    let extent = Extent::new(800, 600);
    let swapchain = renderer.base().swapchain();
    assert_eq!(renderer.image_index().0, 2);
    assert_eq!(
        device.log,
        vec![
            Command::WaitForFence { fence, timeout: u64::MAX },
            Command::ResetFence { fence },
            Command::ResetCommandBuffer { command_buffer },
            Command::AcquireNextImage { swapchain, semaphore: acquired, timeout: u64::MAX },
            Command::BeginCommandBuffer { command_buffer },
            Command::BeginRenderPass {
                command_buffer,
                framebuffer: data.framebuffer_for(renderer.image_index()),
                extent,
            },
            Command::SetViewport { command_buffer, extent },
            Command::SetScissor { command_buffer, extent },
            Command::EndRenderPass { command_buffer },
            Command::EndCommandBuffer { command_buffer },
            Command::Submit {
                command_buffer,
                wait: acquired,
                wait_stage: 0x400,
                signal: finished,
                fence,
            },
            Command::Present { swapchain, image_index: 2, wait: finished },
        ]
    );
    assert_ne!(data.command_buffer_for(FrameSlot(0)), data.command_buffer_for(FrameSlot(1)));
    assert_ne!(data.fence_for(FrameSlot(0)), data.fence_for(FrameSlot(1)));
}

#[test]
fn a_window_without_area_is_skipped_without_any_call() {
    let mut renderer = Renderer::new(2, 3);
    let mut device = Device::new();
    assert_eq!(tick(&mut renderer, &mut device, Extent::new(0, 0)), Ok(Tick::Skipped));
    assert_eq!(tick(&mut renderer, &mut device, Extent::new(0, 600)), Ok(Tick::Skipped));
    assert_eq!(tick(&mut renderer, &mut device, Extent::new(800, 0)), Ok(Tick::Skipped));
    assert!(device.log.is_empty());
    assert_eq!(renderer.current_frame_index(), FrameSlot(0));
    assert!(renderer.rebuild_swapchain());
    assert_eq!(renderer.phase(), DrawPhase::Idle);
}

#[test]
fn a_window_resized_to_nothing_draws_again_once_it_has_area() {
    let mut renderer = Renderer::new(2, 3);
    let mut device = Device::new();
    for _ in 0..3 {
        assert_eq!(tick(&mut renderer, &mut device, window()), Ok(Tick::Presented));
    }
    let slot = renderer.current_frame_index();
    device.log.clear();
    renderer.request_rebuild();
    for _ in 0..5 {
        assert_eq!(tick(&mut renderer, &mut device, Extent::new(0, 0)), Ok(Tick::Skipped));
    }
    assert!(device.log.is_empty());
    assert_eq!(renderer.current_frame_index(), slot);
    assert!(renderer.rebuild_swapchain());
    assert_eq!(tick(&mut renderer, &mut device, Extent::new(640, 480)), Ok(Tick::Presented));
    assert_eq!(device.count(Operation::CreateSwapchain), 1);
    assert_eq!(device.count(Operation::Present), 1);
    assert_eq!(renderer.base().surface_extent(), Extent::new(640, 480));
    assert!(!renderer.rebuild_swapchain());
}

#[test]
fn an_out_of_date_present_rebuilds_at_the_top_of_the_next_tick() {
    let mut renderer = Renderer::new(2, 3);
    let mut device = Device::new();
    device.stale_present = Some((5, Reply::Failed(ERROR_OUT_OF_DATE)));
    for _ in 0..4 {
        assert_eq!(tick(&mut renderer, &mut device, window()), Ok(Tick::Presented));
    }
    let old_chain = renderer.base().swapchain();
    assert_eq!(renderer.current_frame_index(), FrameSlot(0));
    assert_eq!(tick(&mut renderer, &mut device, window()), Ok(Tick::RebuildRequested));
    assert!(renderer.rebuild_swapchain());
    assert_eq!(renderer.current_frame_index(), FrameSlot(1));
    assert_eq!(renderer.base().swapchain(), old_chain);
    assert_eq!(device.count(Operation::CreateSwapchain), 1);

    device.log.clear();
    assert_eq!(tick(&mut renderer, &mut device, Extent::new(1024, 768)), Ok(Tick::Presented));
    assert_eq!(device.log[0], Command::WaitIdle);
    assert_eq!(device.log[1], Command::QueryCapabilities);
    assert_eq!(
        device.log[2],
        Command::CreateSwapchain {
            image_count: 3,
            extent: Extent::new(1024, 768),
            capabilities: capabilities(),
            old_swapchain: old_chain,
        }
    );
    assert!(!renderer.rebuild_swapchain());
    assert_ne!(renderer.base().swapchain(), old_chain);
    assert_eq!(renderer.base().surface_extent(), Extent::new(1024, 768));
    assert_eq!(renderer.current_frame_index(), FrameSlot(0));
    // The old views go, then the old chain, then the old framebuffers, and
    // only after the new views exist.
    let kinds: Vec<Operation> = device.log.iter().map(|c| c.operation()).collect();
    let last_new_view = kinds.iter().rposition(|k| *k == Operation::CreateImageView).unwrap();
    let first_old_view = kinds.iter().position(|k| *k == Operation::DestroyImageView).unwrap();
    assert!(last_new_view < first_old_view);
    assert_eq!(device.count(Operation::DestroyImageView), 3);
    assert_eq!(device.count(Operation::DestroyFramebuffer), 3);
    assert_eq!(device.count(Operation::CreateFramebuffer), 3);
    assert!(device.log.contains(&Command::DestroySwapchain { swapchain: old_chain }));
    for _ in 0..10 {
        assert_eq!(tick(&mut renderer, &mut device, Extent::new(1024, 768)), Ok(Tick::Presented));
    }
    assert_eq!(device.count(Operation::CreateSwapchain), 1);
}

#[test]
fn a_suboptimal_present_asks_for_a_rebuild() {
    let mut renderer = Renderer::new(2, 3);
    let mut device = Device::new();
    device.stale_present = Some((1, Reply::Presented { suboptimal: true }));
    assert_eq!(tick(&mut renderer, &mut device, window()), Ok(Tick::RebuildRequested));
    assert!(renderer.rebuild_swapchain());
    assert_eq!(renderer.current_frame_index(), FrameSlot(1));
    device.stale_present = Some((2, Reply::Failed(SUBOPTIMAL)));
    assert_eq!(tick(&mut renderer, &mut device, window()), Ok(Tick::RebuildRequested));
    assert_eq!(renderer.current_frame_index(), FrameSlot(0));
    assert_eq!(device.count(Operation::CreateSwapchain), 2);
}

#[test]
fn a_stale_acquire_ends_the_frame_early_and_moves_on_once() {
    let mut renderer = Renderer::new(2, 3);
    let mut device = Device::new();
    assert_eq!(tick(&mut renderer, &mut device, window()), Ok(Tick::Presented));
    device.log.clear();
    device.stale_acquire = Some((2, Reply::Failed(ERROR_OUT_OF_DATE)));
    assert_eq!(renderer.current_frame_index(), FrameSlot(1));
    assert_eq!(tick(&mut renderer, &mut device, window()), Ok(Tick::RebuildRequested));
    assert_eq!(renderer.current_frame_index(), FrameSlot(0));
    assert!(renderer.rebuild_swapchain());
    assert_eq!(device.count(Operation::BeginCommandBuffer), 0);
    assert_eq!(device.count(Operation::Submit), 0);
    assert_eq!(device.count(Operation::Present), 0);
    let state = renderer.data().slot_state(FrameSlot(1));
    assert_eq!(state.commands, CommandState::Initial);
    assert_eq!(state.fence, FenceState::Unsignaled);
    assert_eq!(renderer.data().frames_in_flight(), 1);
}

#[test]
fn a_suboptimal_acquire_ends_the_frame_early() {
    let mut renderer = Renderer::new(2, 3);
    let mut device = Device::new();
    device.stale_acquire = Some((1, Reply::Acquired { image_index: 1, suboptimal: true }));
    assert_eq!(tick(&mut renderer, &mut device, window()), Ok(Tick::RebuildRequested));
    assert_eq!(renderer.current_frame_index(), FrameSlot(1));
    assert_eq!(device.count(Operation::Submit), 0);
    assert_eq!(renderer.data().frames_in_flight(), 0);
}

#[test]
fn a_slot_left_free_by_a_stale_acquire_is_not_waited_for_again() {
    let mut renderer = Renderer::new(1, 3);
    let mut device = Device::new();
    device.stale_acquire = Some((1, Reply::Failed(ERROR_OUT_OF_DATE)));
    assert_eq!(tick(&mut renderer, &mut device, window()), Ok(Tick::RebuildRequested));
    assert_eq!(device.count(Operation::WaitForFence), 1);
    assert_eq!(device.count(Operation::ResetFence), 1);
    device.log.clear();
    // The fence is reset and nothing was submitted with it: a wait for it would
    // never return.
    assert_eq!(tick(&mut renderer, &mut device, window()), Ok(Tick::Presented));
    assert_eq!(device.count(Operation::WaitForFence), 0);
    assert_eq!(device.count(Operation::ResetFence), 0);
    assert_eq!(device.count(Operation::Submit), 1);
    device.log.clear();
    assert_eq!(tick(&mut renderer, &mut device, window()), Ok(Tick::Presented));
    assert_eq!(device.count(Operation::WaitForFence), 1);
}

#[test]
fn frames_in_flight_never_exceed_the_slots_and_each_submit_follows_a_wait() {
    for frames in 1..5usize {
        let mut renderer = Renderer::new(frames, 3);
        let mut device = Device::new();
        for i in 0..20usize {
            assert_eq!(tick(&mut renderer, &mut device, window()), Ok(Tick::Presented));
            let in_flight = renderer.data().frames_in_flight();
            assert!(in_flight <= frames);
            assert_eq!(in_flight, (i + 1).min(frames));
        }
        // Between two submissions with one fence lie a wait for that fence and
        // its reset.
        let mut armed: Vec<Handle> = Vec::new();
        let mut waited: Vec<Handle> = Vec::new();
        for command in &device.log {
            match *command {
                Command::WaitForFence { fence, timeout: u64::MAX } => waited.push(fence),
                Command::ResetFence { fence } => {
                    assert!(waited.contains(&fence));
                    armed.retain(|f| *f != fence);
                    waited.retain(|f| *f != fence);
                }
                Command::Submit { fence, .. } => {
                    assert!(!armed.contains(&fence));
                    armed.push(fence);
                    assert!(armed.len() <= frames);
                }
                _ => {}
            }
        }
        assert_eq!(device.count(Operation::Submit), 20);
    }
}

#[test]
fn a_resize_sets_the_flag_and_rebuilds_once() {
    let mut renderer = Renderer::new(2, 3);
    let mut device = Device::new();
    assert_eq!(tick(&mut renderer, &mut device, window()), Ok(Tick::Presented));
    renderer.request_rebuild();
    renderer.request_rebuild();
    assert!(renderer.rebuild_swapchain());
    assert_eq!(tick(&mut renderer, &mut device, Extent::new(300, 200)), Ok(Tick::Presented));
    assert_eq!(tick(&mut renderer, &mut device, Extent::new(300, 200)), Ok(Tick::Presented));
    assert_eq!(device.count(Operation::CreateSwapchain), 2);
    assert_eq!(renderer.base().surface_extent(), Extent::new(300, 200));
}

#[test]
fn a_failed_submit_is_fatal_and_halts() {
    let mut renderer = Renderer::new(2, 3);
    let mut device = Device::new();
    assert_eq!(tick(&mut renderer, &mut device, window()), Ok(Tick::Presented));
    device.failing = Some((Operation::Submit, ERROR_DEVICE_LOST));
    assert_eq!(
        tick(&mut renderer, &mut device, window()),
        Err(Fatal::Device { operation: Operation::Submit, index: 1, code: ERROR_DEVICE_LOST })
    );
    assert_eq!(renderer.phase(), DrawPhase::Halted);
    assert_eq!(renderer.stage(), Stage::Halted);
    assert_eq!(renderer.tick(window()), Err(Fatal::Halted));
    assert_eq!(renderer.draw(), Err(Fatal::Halted));
    assert_eq!(renderer.resume(Reply::Done), Err(Fatal::Halted));
}

#[test]
fn each_failing_call_of_a_frame_is_reported_with_its_slot() {
    let operations = [
        Operation::WaitForFence,
        Operation::ResetFence,
        Operation::ResetCommandBuffer,
        Operation::AcquireNextImage,
        Operation::BeginCommandBuffer,
        Operation::EndCommandBuffer,
        Operation::Submit,
        Operation::Present,
    ];
    for operation in operations {
        let mut renderer = Renderer::new(3, 3);
        let mut device = Device::new();
        for _ in 0..2 {
            assert_eq!(tick(&mut renderer, &mut device, window()), Ok(Tick::Presented));
        }
        device.failing = Some((operation, -1));
        assert_eq!(
            tick(&mut renderer, &mut device, window()),
            Err(Fatal::Device { operation, index: 2, code: -1 })
        );
        assert_eq!(renderer.phase(), DrawPhase::Halted);
    }
}

#[test]
fn failing_preparation_is_fatal() {
    let operations = [
        (Operation::CreateFence, 0),
        (Operation::CreateSemaphore, 0),
        (Operation::CreateCommandPool, 0),
        (Operation::AllocateCommandBuffers, 0),
        (Operation::WaitIdle, 0),
        (Operation::QueryCapabilities, 0),
        (Operation::CreateSwapchain, 0),
        (Operation::GetSwapchainImages, 0),
        (Operation::CreateImageView, 0),
        (Operation::CreateFramebuffer, 0),
    ];
    for (operation, index) in operations {
        let mut renderer = Renderer::new(2, 3);
        let mut device = Device::new();
        device.failing = Some((operation, -2));
        assert_eq!(
            tick(&mut renderer, &mut device, window()),
            Err(Fatal::Device { operation, index, code: -2 })
        );
        assert_eq!(device.count(Operation::AcquireNextImage), 0);
        assert_eq!(renderer.tick(window()), Err(Fatal::Halted));
    }
}

#[test]
fn an_image_that_the_chain_does_not_have_is_fatal() {
    let mut renderer = Renderer::new(2, 3);
    let mut device = Device::new();
    device.stale_acquire = Some((1, Reply::Acquired { image_index: 3, suboptimal: false }));
    assert_eq!(
        tick(&mut renderer, &mut device, window()),
        Err(Fatal::UnknownImage { image_index: 3 })
    );
    assert_eq!(device.count(Operation::BeginCommandBuffer), 0);
}

#[test]
fn a_reply_of_the_wrong_kind_is_fatal() {
    let mut renderer = Renderer::new(2, 3);
    let step = renderer.tick(window());
    assert_eq!(step, Ok(Tick::Run(Command::CreateFence { index: 0, signaled: true })));
    assert_eq!(renderer.phase(), DrawPhase::Allocating);
    assert_eq!(renderer.stage(), Stage::Preparing);
    assert_eq!(
        renderer.resume(Reply::Presented { suboptimal: false }),
        Err(Fatal::UnexpectedReply { operation: Operation::CreateFence })
    );
    assert_eq!(renderer.phase(), DrawPhase::Halted);
}

#[test]
fn a_present_answered_by_an_acquire_is_fatal() {
    let mut renderer = Renderer::new(2, 3);
    let mut device = Device::new();
    device.stale_present =
        Some((1, Reply::Acquired { image_index: 0, suboptimal: false }));
    assert_eq!(
        tick(&mut renderer, &mut device, window()),
        Err(Fatal::UnexpectedReply { operation: Operation::Present })
    );
}

#[test]
fn a_tick_within_a_tick_is_refused_and_changes_nothing() {
    let mut renderer = Renderer::new(2, 3);
    let step = renderer.tick(window());
    assert!(matches!(step, Ok(Tick::Run(_))));
    assert_eq!(renderer.tick(window()), Err(Fatal::Busy));
    assert_eq!(renderer.draw(), Err(Fatal::Busy));
    assert_eq!(renderer.phase(), DrawPhase::Allocating);
    assert_eq!(
        renderer.resume(Reply::Created(Handle::new(7))),
        Ok(Tick::Run(Command::CreateFence { index: 1, signaled: true }))
    );
}

#[test]
fn a_reply_without_a_call_is_refused() {
    let mut renderer = Renderer::new(2, 3);
    assert_eq!(renderer.resume(Reply::Done), Err(Fatal::NothingPending));
    assert_eq!(renderer.phase(), DrawPhase::Idle);
}

#[test]
fn a_frame_before_the_first_tick_is_not_ready() {
    let mut renderer = Renderer::new(2, 3);
    assert_eq!(renderer.draw(), Err(Fatal::NotReady));
    assert_eq!(renderer.phase(), DrawPhase::Idle);
    assert_eq!(renderer.acquire(), Err(Fatal::NotReady));
    assert_eq!(renderer.begin_command_buffer(), Err(Fatal::NotReady));
    assert_eq!(renderer.begin_render_pass(), Err(Fatal::NotReady));
    assert_eq!(renderer.set_viewport(), Err(Fatal::NotReady));
    assert_eq!(renderer.set_scissor(), Err(Fatal::NotReady));
    assert_eq!(renderer.end_render_pass(), Err(Fatal::NotReady));
    assert_eq!(renderer.end_command_buffer(), Err(Fatal::NotReady));
    assert_eq!(renderer.submit(), Err(Fatal::NotReady));
    assert_eq!(renderer.present_command(), Err(Fatal::NotReady));
}

#[test]
fn draw_between_ticks_draws_one_frame() {
    let mut renderer = Renderer::new(2, 3);
    let mut device = Device::new();
    assert_eq!(tick(&mut renderer, &mut device, window()), Ok(Tick::Presented));
    device.log.clear();
    let mut step = renderer.draw();
    while let Ok(Tick::Run(command)) = step {
        assert_eq!(
            renderer.stage(),
            match command.operation() {
                Operation::WaitForFence
                | Operation::ResetFence
                | Operation::ResetCommandBuffer
                | Operation::AcquireNextImage => Stage::Acquiring,
                Operation::Submit => Stage::Submitted,
                Operation::Present => Stage::Presenting,
                _ => Stage::Recording,
            }
        );
        let reply = device.execute(command);
        step = renderer.resume(reply);
    }
    assert_eq!(step, Ok(Tick::Presented));
    assert_eq!(device.count(Operation::Present), 1);
    assert_eq!(renderer.current_frame_index(), FrameSlot(0));
}

#[test]
fn get_img_index_reads_the_reply_of_an_acquire() {
    let renderer = Renderer::new(2, 3);
    assert_eq!(
        renderer.get_img_index(&Reply::Acquired { image_index: 2, suboptimal: false }),
        Ok(Some(2))
    );
    assert_eq!(
        renderer.get_img_index(&Reply::Acquired { image_index: 2, suboptimal: true }),
        Ok(None)
    );
    assert_eq!(renderer.get_img_index(&Reply::Failed(ERROR_OUT_OF_DATE)), Ok(None));
    assert_eq!(renderer.get_img_index(&Reply::Failed(SUBOPTIMAL)), Ok(None));
    assert_eq!(
        renderer.get_img_index(&Reply::Failed(ERROR_DEVICE_LOST)),
        Err(Fatal::Device {
            operation: Operation::AcquireNextImage,
            index: 0,
            code: ERROR_DEVICE_LOST
        })
    );
    assert_eq!(
        renderer.get_img_index(&Reply::Done),
        Err(Fatal::UnexpectedReply { operation: Operation::AcquireNextImage })
    );
}

#[test]
fn present_reads_the_reply_of_a_present() {
    let renderer = Renderer::new(2, 3);
    assert_eq!(renderer.present(&Reply::Presented { suboptimal: false }), Ok(true));
    assert_eq!(renderer.present(&Reply::Presented { suboptimal: true }), Ok(false));
    assert_eq!(renderer.present(&Reply::Failed(ERROR_OUT_OF_DATE)), Ok(false));
    assert_eq!(renderer.present(&Reply::Failed(SUBOPTIMAL)), Ok(false));
    assert_eq!(
        renderer.present(&Reply::Failed(ERROR_DEVICE_LOST)),
        Err(Fatal::Device { operation: Operation::Present, index: 0, code: ERROR_DEVICE_LOST })
    );
    assert_eq!(
        renderer.present(&Reply::Created(Handle::new(1))),
        Err(Fatal::UnexpectedReply { operation: Operation::Present })
    );
}

use render_core::base::{BuildPhase, RenderBase};
use render_core::device::{Command, Fatal, Handle, Operation, Progress, Reply};
use render_core::extent::Extent;
use render_core::surface::{SurfaceCapabilities, UNDEFINED_EXTENT};

fn capabilities() -> SurfaceCapabilities {
    SurfaceCapabilities {
        min_image_count: 2,
        max_image_count: 0,
        current_extent: Extent::new(UNDEFINED_EXTENT, UNDEFINED_EXTENT),
        min_image_extent: Extent::new(16, 16),
        max_image_extent: Extent::new(2048, 1024),
        supported_transforms: 1,
        current_transform: 1,
        supported_usage_flags: 0x10,
        format: 50,
        color_space: 0,
        present_mode: 0,
    }
}

fn handles(raw: &[u64]) -> Vec<Handle> {
    raw.iter().map(|r| Handle::new(*r)).collect()
}

/// Builds a chain whose images are `images`; the chain is numbered `chain` and
/// the view of an image is numbered one thousand over the image. Returns the
/// calls that were asked for.
fn build(base: &mut RenderBase, window: Extent, chain: u64, images: &[u64]) -> Vec<Command> {
    let mut log = Vec::new();
    let mut step = base.resize(window);
    loop {
        let command = match step {
            Ok(Progress::Run(command)) => command,
            Ok(Progress::Complete) => return log,
            Err(fatal) => panic!("{:?}", fatal),
        };
        log.push(command);
        let reply = match command {
            Command::QueryCapabilities => Reply::Capabilities(capabilities()),
            Command::CreateSwapchain { .. } => Reply::Created(Handle::new(chain)),
            Command::GetSwapchainImages { .. } => Reply::Handles(handles(images)),
            Command::CreateImageView { image, .. } => Reply::Created(Handle::new(image.raw + 1000)),
            _ => Reply::Done,
        };
        step = base.resume(reply);
    }
}

#[test]
fn a_new_manager_has_no_chain() {
    let base = RenderBase::new(3);
    assert!(!base.is_built());
    assert_eq!(base.phase(), BuildPhase::Idle);
    assert_eq!(base.swapchain(), Handle::null());
    assert!(base.swapchain().is_null());
    assert_eq!(base.image_count(), 0);
    assert!(base.swapchain_images().is_empty());
    assert!(base.swapchain_image_views().is_empty());
}

#[test]
fn the_first_build_asks_for_each_step_in_order() {
    let mut base = RenderBase::new(0);
    let log = build(&mut base, Extent::new(800, 600), 7, &[1, 2, 3]);
    assert_eq!(
        log,
        vec![
            Command::WaitIdle,
            Command::QueryCapabilities,
            Command::CreateSwapchain {
                image_count: 3,
                extent: Extent::new(800, 600),
                capabilities: capabilities(),
                old_swapchain: Handle::null(),
            },
            Command::GetSwapchainImages { swapchain: Handle::new(7) },
            Command::CreateImageView { image: Handle::new(1), format: 50, index: 0 },
            Command::CreateImageView { image: Handle::new(2), format: 50, index: 1 },
            Command::CreateImageView { image: Handle::new(3), format: 50, index: 2 },
        ]
    );
    assert!(base.is_built());
    assert_eq!(base.phase(), BuildPhase::Idle);
    assert_eq!(base.swapchain(), Handle::new(7));
    assert_eq!(base.surface_extent(), Extent::new(800, 600));
    assert_eq!(base.surface_capabilities(), capabilities());
    assert_eq!(base.swapchain_images(), &handles(&[1, 2, 3]));
    assert_eq!(base.swapchain_image_views(), &handles(&[1001, 1002, 1003]));
    assert_eq!(base.image_count(), 3);
}

#[test]
fn image_count_equals_view_count_whatever_the_engine_lists() {
    for count in [0usize, 1, 2, 3, 5, 8] {
        let images: Vec<u64> = (1..=count as u64).collect();
        let mut base = RenderBase::new(3);
        build(&mut base, Extent::new(800, 600), 7, &images);
        assert_eq!(base.swapchain_images().len(), count);
        assert_eq!(base.swapchain_image_views().len(), count);
        assert_eq!(base.image_count(), count);
        // A rebuild right after, with another count.
        let more: Vec<u64> = (50..50 + count as u64 + 1).collect();
        build(&mut base, Extent::new(800, 600), 8, &more);
        assert_eq!(base.swapchain_images().len(), count + 1);
        assert_eq!(base.swapchain_image_views().len(), count + 1);
    }
}

#[test]
fn a_rebuild_retires_the_old_chain_after_the_new_views_exist() {
    let mut base = RenderBase::new(3);
    build(&mut base, Extent::new(800, 600), 7, &[1, 2]);
    let log = build(&mut base, Extent::new(640, 480), 8, &[11, 12, 13]);
    assert_eq!(
        log,
        vec![
            Command::WaitIdle,
            Command::QueryCapabilities,
            Command::CreateSwapchain {
                image_count: 3,
                extent: Extent::new(640, 480),
                capabilities: capabilities(),
                old_swapchain: Handle::new(7),
            },
            Command::GetSwapchainImages { swapchain: Handle::new(8) },
            Command::CreateImageView { image: Handle::new(11), format: 50, index: 0 },
            Command::CreateImageView { image: Handle::new(12), format: 50, index: 1 },
            Command::CreateImageView { image: Handle::new(13), format: 50, index: 2 },
            Command::DestroyImageView { view: Handle::new(1001) },
            Command::DestroyImageView { view: Handle::new(1002) },
            Command::DestroySwapchain { swapchain: Handle::new(7) },
        ]
    );
    assert_eq!(base.swapchain(), Handle::new(8));
    assert_eq!(base.swapchain_images(), &handles(&[11, 12, 13]));
    assert_eq!(base.swapchain_image_views(), &handles(&[1011, 1012, 1013]));
    assert_eq!(base.surface_extent(), Extent::new(640, 480));
}

#[test]
fn building_twice_with_the_same_extent_asks_for_the_same_chain() {
    let mut base = RenderBase::new(4);
    let first = build(&mut base, Extent::new(5000, 5000), 7, &[1, 2, 3, 4]);
    let second = build(&mut base, Extent::new(4000, 3000), 8, &[5, 6, 7, 8]);
    let asked = |log: &Vec<Command>| match log[2] {
        Command::CreateSwapchain { image_count, extent, .. } => (image_count, extent),
        _ => panic!(),
    };
    assert_eq!(asked(&first), (4, Extent::new(2048, 1024)));
    assert_eq!(asked(&first), asked(&second));
    assert_eq!(base.image_count(), 4);
    assert_eq!(base.surface_extent(), Extent::new(2048, 1024));
}

#[test]
fn a_failing_view_tears_down_the_views_before_it_and_keeps_the_old_chain() {
    let mut base = RenderBase::new(3);
    build(&mut base, Extent::new(800, 600), 7, &[1, 2, 3]);

    assert_eq!(base.resize(Extent::new(640, 480)), Ok(Progress::Run(Command::WaitIdle)));
    assert_eq!(base.resume(Reply::Done), Ok(Progress::Run(Command::QueryCapabilities)));
    assert!(matches!(
        base.resume(Reply::Capabilities(capabilities())),
        Ok(Progress::Run(Command::CreateSwapchain { .. }))
    ));
    assert_eq!(
        base.resume(Reply::Created(Handle::new(8))),
        Ok(Progress::Run(Command::GetSwapchainImages { swapchain: Handle::new(8) }))
    );
    assert_eq!(
        base.resume(Reply::Handles(handles(&[11, 12, 13]))),
        Ok(Progress::Run(Command::CreateImageView { image: Handle::new(11), format: 50, index: 0 }))
    );
    assert_eq!(
        base.resume(Reply::Created(Handle::new(1011))),
        Ok(Progress::Run(Command::CreateImageView { image: Handle::new(12), format: 50, index: 1 }))
    );
    assert_eq!(
        base.resume(Reply::Created(Handle::new(1012))),
        Ok(Progress::Run(Command::CreateImageView { image: Handle::new(13), format: 50, index: 2 }))
    );
    // The view of image 2 of 3 cannot be made.
    assert_eq!(
        base.resume(Reply::Failed(-1)),
        Ok(Progress::Run(Command::DestroyImageView { view: Handle::new(1011) }))
    );
    assert_eq!(base.phase(), BuildPhase::Views);
    assert_eq!(
        base.resume(Reply::Done),
        Ok(Progress::Run(Command::DestroyImageView { view: Handle::new(1012) }))
    );
    assert_eq!(
        base.resume(Reply::Done),
        Ok(Progress::Run(Command::DestroySwapchain { swapchain: Handle::new(8) }))
    );
    assert_eq!(base.phase(), BuildPhase::Discard);
    assert_eq!(
        base.resume(Reply::Done),
        Err(Fatal::Device { operation: Operation::CreateImageView, index: 2, code: -1 })
    );
    assert_eq!(base.phase(), BuildPhase::Halted);
    // Nothing of the chain that failed is current.
    assert_eq!(base.swapchain(), Handle::new(7));
    assert_eq!(base.swapchain_images(), &handles(&[1, 2, 3]));
    assert_eq!(base.swapchain_image_views(), &handles(&[1001, 1002, 1003]));
    assert_eq!(base.surface_extent(), Extent::new(800, 600));
    assert_eq!(base.resize(Extent::new(640, 480)), Err(Fatal::Halted));
    assert_eq!(base.resume(Reply::Done), Err(Fatal::Halted));
}

#[test]
fn a_failing_first_view_destroys_only_the_new_chain() {
    let mut base = RenderBase::new(3);
    base.resize(Extent::new(640, 480)).unwrap();
    base.resume(Reply::Done).unwrap();
    base.resume(Reply::Capabilities(capabilities())).unwrap();
    base.resume(Reply::Created(Handle::new(8))).unwrap();
    base.resume(Reply::Handles(handles(&[11, 12]))).unwrap();
    assert_eq!(
        base.resume(Reply::Failed(-2)),
        Ok(Progress::Run(Command::DestroySwapchain { swapchain: Handle::new(8) }))
    );
    assert_eq!(
        base.resume(Reply::Done),
        Err(Fatal::Device { operation: Operation::CreateImageView, index: 0, code: -2 })
    );
    assert!(!base.is_built());
    assert_eq!(base.image_count(), 0);
}

#[test]
fn images_that_cannot_be_listed_destroy_the_new_chain() {
    let mut base = RenderBase::new(3);
    base.resize(Extent::new(640, 480)).unwrap();
    base.resume(Reply::Done).unwrap();
    base.resume(Reply::Capabilities(capabilities())).unwrap();
    base.resume(Reply::Created(Handle::new(8))).unwrap();
    assert_eq!(
        base.resume(Reply::Failed(-3)),
        Ok(Progress::Run(Command::DestroySwapchain { swapchain: Handle::new(8) }))
    );
    assert_eq!(
        base.resume(Reply::Done),
        Err(Fatal::Device { operation: Operation::GetSwapchainImages, index: 0, code: -3 })
    );
}

#[test]
fn capabilities_that_cannot_be_had_are_fatal() {
    let mut base = RenderBase::new(3);
    base.resize(Extent::new(640, 480)).unwrap();
    base.resume(Reply::Done).unwrap();
    assert_eq!(
        base.resume(Reply::Failed(-1000000000)),
        Err(Fatal::Device { operation: Operation::QueryCapabilities, index: 0, code: -1000000000 })
    );
    assert_eq!(base.phase(), BuildPhase::Halted);
}

#[test]
fn capabilities_that_contradict_themselves_are_fatal() {
    let mut base = RenderBase::new(3);
    base.resize(Extent::new(640, 480)).unwrap();
    base.resume(Reply::Done).unwrap();
    let mut caps = capabilities();
    caps.min_image_extent = Extent::new(4000, 16);
    assert_eq!(base.resume(Reply::Capabilities(caps)), Err(Fatal::InvalidCapabilities));
    assert_eq!(base.phase(), BuildPhase::Halted);
}

#[test]
fn a_failing_wait_or_creation_is_fatal() {
    let mut base = RenderBase::new(3);
    base.resize(Extent::new(640, 480)).unwrap();
    assert_eq!(
        base.resume(Reply::Failed(-4)),
        Err(Fatal::Device { operation: Operation::WaitIdle, index: 0, code: -4 })
    );
    let mut base = RenderBase::new(3);
    base.resize(Extent::new(640, 480)).unwrap();
    base.resume(Reply::Done).unwrap();
    base.resume(Reply::Capabilities(capabilities())).unwrap();
    assert_eq!(
        base.resume(Reply::Failed(-5)),
        Err(Fatal::Device { operation: Operation::CreateSwapchain, index: 0, code: -5 })
    );
}

#[test]
fn a_build_within_a_build_is_refused() {
    let mut base = RenderBase::new(3);
    base.resize(Extent::new(640, 480)).unwrap();
    assert_eq!(base.resize(Extent::new(1, 1)), Err(Fatal::Busy));
    assert_eq!(base.phase(), BuildPhase::WaitIdle);
    assert_eq!(base.resume(Reply::Done), Ok(Progress::Run(Command::QueryCapabilities)));
}

#[test]
fn a_reply_to_nothing_is_refused() {
    let mut base = RenderBase::new(3);
    assert_eq!(base.resume(Reply::Done), Err(Fatal::NothingPending));
    assert_eq!(base.phase(), BuildPhase::Idle);
}

#[test]
fn replies_of_the_wrong_kind_halt_the_build() {
    let mut base = RenderBase::new(3);
    base.resize(Extent::new(640, 480)).unwrap();
    assert_eq!(
        base.resume(Reply::Created(Handle::new(1))),
        Err(Fatal::UnexpectedReply { operation: Operation::WaitIdle })
    );
    let mut base = RenderBase::new(3);
    base.resize(Extent::new(640, 480)).unwrap();
    base.resume(Reply::Done).unwrap();
    base.resume(Reply::Capabilities(capabilities())).unwrap();
    base.resume(Reply::Created(Handle::new(8))).unwrap();
    base.resume(Reply::Handles(handles(&[11, 12]))).unwrap();
    // `Done` answers a destruction, and none was asked for.
    assert_eq!(
        base.resume(Reply::Done),
        Err(Fatal::UnexpectedReply { operation: Operation::CreateImageView })
    );
}

#[test]
fn a_fixed_surface_extent_is_taken_in_place_of_the_window() {
    let mut base = RenderBase::new(3);
    base.resize(Extent::new(640, 480)).unwrap();
    base.resume(Reply::Done).unwrap();
    let mut caps = capabilities();
    caps.current_extent = Extent::new(1280, 720);
    assert_eq!(
        base.resume(Reply::Capabilities(caps)),
        Ok(Progress::Run(Command::CreateSwapchain {
            image_count: 3,
            extent: Extent::new(1280, 720),
            capabilities: caps,
            old_swapchain: Handle::null(),
        }))
    );
}

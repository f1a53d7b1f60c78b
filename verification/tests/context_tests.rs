use rseed::context::{
    ContextError, GlContext, GlContextError, GlInit, GlStep, VkContext, VkHost, VkInit, VkStage,
};
use rseed::device::{DeviceError, PhysicalDeviceKind, QueueFamilyInfo};
use rseed::library::LibraryError;
use rseed::surface::{PlatformTag, SurfaceError};
use rseed::swapchain::{SurfaceCaps, SurfaceFormat, SwapchainError};
use rseed::version::Version;

fn family(
    queue_count: u32,
    graphics: bool,
    transfer: bool,
    compute: bool,
    present_support: bool,
) -> QueueFamilyInfo {
    QueueFamilyInfo { queue_count, graphics, transfer, compute, present_support }
}

/// A snapshot on which every stage succeeds: an integrated and a discrete
/// device, a present-capable graphics family on the discrete one, and a
/// surface allowing between one and eight images.
fn healthy_host() -> VkHost {
    VkHost {
        platform: PlatformTag::Xlib,
        entry_loaded: true,
        instance_result: Ok(100),
        surface_result: Ok(200),
        enumerate_result: Ok(vec![
            PhysicalDeviceKind::IntegratedGpu,
            PhysicalDeviceKind::DiscreteGpu,
        ]),
        families_per_device: vec![
            vec![family(1, true, true, true, true)],
            vec![
                family(4, true, true, true, true),
                family(2, false, true, false, false),
                family(2, false, false, true, false),
            ],
        ],
        logical_result: Ok(300),
        queue_handles: (301, 302, 303),
        caps_result: Ok(SurfaceCaps {
            min_image_count: 1,
            max_image_count: 8,
            current_extent_width: 600,
            current_extent_height: 600,
            current_transform: 1,
        }),
        formats_result: Ok(vec![SurfaceFormat { format: 44, color_space: 0 }]),
        swapchain_result: Ok(400),
        images_result: Ok(vec![401, 402, 403]),
        views_result: Ok(vec![501, 502, 503]),
    }
}

fn init(host: VkHost) -> (Result<VkContext, ContextError>, Vec<VkStage>) {
    VkContext::init(String::from("Test"), Version { major: 0, minor: 0, patch: 1 }, host)
}

#[test]
fn a_window_picks_the_discrete_device_and_three_images() {
    // Window 600 by 600, Vulkan backend, devices [integrated, discrete].
    let (r, destroyed) = init(healthy_host());
    let ctx = r.unwrap();
    assert!(destroyed.is_empty());
    // Selection picks the discrete entry.
    assert_eq!(ctx.device.physical_index, 1);
    // Queue resolution finds the present-capable graphics family.
    assert_eq!(ctx.device.queue_inds, (0, 1, 2));
    // Image count is three, clamped into [1, 8], one view per image.
    assert_eq!(ctx.swapchain.config.min_image_count, 3);
    assert_eq!(ctx.swapchain.config.extent_width, 600);
    assert_eq!(ctx.swapchain.config.extent_height, 600);
    assert_eq!(ctx.swapchain.images.len(), 3);
    assert_eq!(ctx.swapchain.views.len(), 3);
    assert_eq!(ctx.view_handles, vec![501, 502, 503]);
    // The handles of every stage are the ones the native layer returned.
    assert_eq!(ctx.library.instance, 100);
    assert_eq!(ctx.surface.handle, 200);
    assert_eq!(ctx.logical_device, 300);
    assert_eq!(ctx.graphic_queue, 301);
    assert_eq!(ctx.transfert_queue, 302);
    assert_eq!(ctx.compute_queue, 303);
}

#[test]
fn a_swapchain_failure_tears_down_every_earlier_stage_in_reverse() {
    let mut host = healthy_host();
    host.swapchain_result = Err(-4);
    let (r, destroyed) = init(host);
    assert!(matches!(
        r,
        Err(ContextError::Swapchain(SwapchainError::CreationFailure(-4)))
    ));
    // Nothing leaks: device, surface and library are all destroyed, in
    // the exact reverse of construction order.
    assert_eq!(
        destroyed,
        vec![VkStage::Device, VkStage::Surface, VkStage::Library]
    );
}

#[test]
fn a_view_failure_also_unwinds_the_three_earlier_stages() {
    let mut host = healthy_host();
    host.views_result = Err(-9);
    let (r, destroyed) = init(host);
    assert!(matches!(
        r,
        Err(ContextError::Swapchain(SwapchainError::ImageViewCreationFailure(-9)))
    ));
    assert_eq!(
        destroyed,
        vec![VkStage::Device, VkStage::Surface, VkStage::Library]
    );
}

#[test]
fn a_device_failure_unwinds_surface_then_library() {
    let mut host = healthy_host();
    host.enumerate_result = Ok(vec![]);
    let (r, destroyed) = init(host);
    assert!(matches!(
        r,
        Err(ContextError::Device(DeviceError::NoSuitablePhysicalDevice))
    ));
    assert_eq!(destroyed, vec![VkStage::Surface, VkStage::Library]);
}

#[test]
fn a_missing_queue_family_unwinds_surface_then_library() {
    let mut host = healthy_host();
    host.families_per_device = vec![
        vec![family(1, true, true, true, false)],
        vec![family(4, true, true, true, false)],
    ];
    let (r, destroyed) = init(host);
    assert!(matches!(
        r,
        Err(ContextError::Device(DeviceError::QueueFamilyNotFound))
    ));
    assert_eq!(destroyed, vec![VkStage::Surface, VkStage::Library]);
}

#[test]
fn a_rejected_logical_device_reports_its_code() {
    let mut host = healthy_host();
    host.logical_result = Err(-8);
    let (r, destroyed) = init(host);
    assert!(matches!(
        r,
        Err(ContextError::Device(DeviceError::LogicalDeviceCreationFailure(-8)))
    ));
    assert_eq!(destroyed, vec![VkStage::Surface, VkStage::Library]);
}

#[test]
fn a_rejected_capability_query_reports_creation_failure() {
    let mut host = healthy_host();
    host.caps_result = Err(-6);
    let (r, destroyed) = init(host);
    assert!(matches!(
        r,
        Err(ContextError::Swapchain(SwapchainError::CreationFailure(-6)))
    ));
    assert_eq!(
        destroyed,
        vec![VkStage::Device, VkStage::Surface, VkStage::Library]
    );
}

#[test]
fn a_surface_failure_unwinds_the_library_alone() {
    let mut host = healthy_host();
    host.surface_result = Err(-2);
    let (r, destroyed) = init(host);
    assert!(matches!(
        r,
        Err(ContextError::Surface(SurfaceError::CreationFailure(-2)))
    ));
    assert_eq!(destroyed, vec![VkStage::Library]);
}

#[test]
fn a_loader_failure_finds_nothing_to_unwind() {
    let mut host = healthy_host();
    host.entry_loaded = false;
    let (r, destroyed) = init(host);
    assert!(matches!(
        r,
        Err(ContextError::Library(LibraryError::LoadFailure))
    ));
    assert!(destroyed.is_empty());
}

#[test]
fn an_unknown_platform_fails_before_any_native_call() {
    let mut host = healthy_host();
    host.platform = PlatformTag::Unknown;
    let (r, destroyed) = init(host);
    assert!(matches!(
        r,
        Err(ContextError::Library(LibraryError::ExtensionUnsupported))
    ));
    assert!(destroyed.is_empty());
}

#[test]
fn a_rejected_instance_reports_its_code() {
    let mut host = healthy_host();
    host.instance_result = Err(-7);
    let (r, destroyed) = init(host);
    assert!(matches!(
        r,
        Err(ContextError::Library(LibraryError::InstanceCreationFailure(-7)))
    ));
    assert!(destroyed.is_empty());
}

#[test]
fn the_tracker_alone_reverses_its_stages() {
    let mut tracker = VkInit::new();
    tracker.stage_created(VkStage::Library);
    tracker.stage_created(VkStage::Surface);
    tracker.stage_created(VkStage::Device);
    tracker.stage_created(VkStage::Swapchain);
    let order = tracker.teardown();
    assert_eq!(
        order,
        vec![VkStage::Swapchain, VkStage::Device, VkStage::Surface, VkStage::Library]
    );
}

#[test]
fn gl_makes_the_context_current_before_loading_entry_points() {
    let (r, performed) = GlContext::init(Ok(()));
    let ctx = r.unwrap();
    assert_eq!(performed, vec![GlStep::MakeCurrent, GlStep::LoadEntryPoints]);
    assert_eq!(ctx.swaps, 0);
}

#[test]
fn gl_loads_nothing_when_make_current_fails() {
    let (r, performed) = GlContext::init(Err(-3));
    assert!(matches!(r, Err(GlContextError::MakeCurrentFailure(-3))));
    assert!(performed.is_empty());
}

#[test]
fn the_gl_machine_never_asks_to_load_before_current() {
    let mut machine = GlInit::new();
    assert_eq!(machine.next_step(), Some(GlStep::MakeCurrent));
    machine.step_done(GlStep::MakeCurrent);
    assert_eq!(machine.next_step(), Some(GlStep::LoadEntryPoints));
    machine.step_done(GlStep::LoadEntryPoints);
    assert_eq!(machine.next_step(), None);
}

#[test]
fn gl_swap_counts_exactly_one_per_call() {
    let (r, _) = GlContext::init(Ok(()));
    let mut ctx = r.unwrap();
    ctx.swap_buffers();
    assert_eq!(ctx.swaps, 1);
    ctx.swap_buffers();
    assert_eq!(ctx.swaps, 2);
}

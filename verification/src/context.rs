//! Backend contexts: the staged Vulkan initialization pipeline with its
//! reverse-order teardown, and the OpenGL make-current/load sequence.
//!
//! Every native answer the pipeline depends on enters as a plain value, so
//! the staging, the failure propagation and the teardown order are verified
//! for every outcome the native layer can produce.  Cancellation is
//! all-or-nothing: once any stage fails, every stage constructed before it
//! is torn down, in reverse construction order, before the error returns.

use vstd::prelude::*;

use crate::device::{
    device_choice, queue_resolution, Device, DeviceError, PhysicalDeviceKind, QueueFamilies,
    QueueFamilyInfo,
};
use crate::library::{Library, LibraryError};
use crate::surface::{route_of, PlatformTag, Surface, SurfaceError};
use crate::swapchain::{
    build_config_spec, Swapchain, SwapchainError, SurfaceCaps, SurfaceFormat,
};
use crate::version::Version;

verus! {

/// The four Vulkan stages, in construction order.
#[derive(Clone, Copy, Debug, PartialEq, Eq, Structural)]
pub enum VkStage {
    Library,
    Surface,
    Device,
    Swapchain,
}

/// The construction order of the stages.
pub open spec fn stage_order() -> Seq<VkStage> {
    seq![VkStage::Library, VkStage::Surface, VkStage::Device, VkStage::Swapchain]
}

/// Errors of Vulkan context initialization, labeled by the failing stage.
#[derive(Clone, Copy, Debug, PartialEq, Eq, Structural)]
pub enum ContextError {
    Library(LibraryError),
    Surface(SurfaceError),
    Device(DeviceError),
    Swapchain(SwapchainError),
}

/// Tracks which stages are live during initialization and hands out the
/// teardown order when a stage fails.
pub struct VkInit {
    live: Vec<VkStage>,
}

impl VkInit {
    /// The stages constructed so far, oldest first.
    pub closed spec fn live_stages(&self) -> Seq<VkStage> {
        self.live@
    }

    /// The live stages are always the first construction stages, in
    /// order: nothing is ever constructed out of order.
    pub closed spec fn wf(&self) -> bool {
        self.live@.len() <= 4 && self.live@ == stage_order().take(self.live@.len() as int)
    }

    /// Starts tracking with nothing constructed.
    pub fn new() -> (s: VkInit)
        ensures
            s.wf(),
            s.live_stages().len() == 0,
    {
        let s = VkInit { live: Vec::new() };
        proof {
            assert(s.live@ =~= stage_order().take(0));
        }
        s
    }

    /// Records that the next stage in construction order is now live.
    pub fn stage_created(&mut self, stage: VkStage)
        requires
            old(self).wf(),
            old(self).live_stages().len() < 4,
            stage == stage_order()[old(self).live_stages().len() as int],
        ensures
            final(self).wf(),
            final(self).live_stages() == old(self).live_stages().push(stage),
    {
        self.live.push(stage);
        proof {
            assert(self.live@ =~= stage_order().take(self.live@.len() as int));
        }
    }

    /// Tears everything down: yields every live stage, newest first — the
    /// exact reverse of construction order — and leaves nothing live.
    pub fn teardown(&mut self) -> (order: Vec<VkStage>)
        requires
            old(self).wf(),
        ensures
            final(self).wf(),
            final(self).live_stages().len() == 0,
            order@.len() == old(self).live_stages().len(),
            forall|i: int| 0 <= i < order@.len() ==> order@[i] == old(self).live_stages()[
                order@.len() - 1 - i
            ],
    {
        let ghost orig = self.live@;
        let mut order: Vec<VkStage> = Vec::new();
        while self.live.len() > 0
            invariant
                order@.len() + self.live@.len() == orig.len(),
                self.live@ == orig.take(self.live@.len() as int),
                forall|i: int| 0 <= i < order@.len() ==> order@[i] == orig[orig.len() - 1 - i],
            decreases self.live@.len(),
        {
            let ghost before = self.live@;
            match self.live.pop() {
                Some(stage) => {
                    proof {
                        assert(before[before.len() - 1] == orig[before.len() - 1]);
                        assert(self.live@ =~= orig.take(self.live@.len() as int));
                    }
                    order.push(stage);
                },
                None => {},
            }
        }
        proof {
            assert(self.live@ =~= stage_order().take(0));
        }
        order
    }
}

/// Everything the native layer answers while a Vulkan context
/// initializes, as plain values: each creation call's outcome and each
/// query's result.  The pipeline is verified for every such snapshot.
pub struct VkHost {
    /// The platform tag read off the window handle.
    pub platform: PlatformTag,
    /// Whether the native entry points loaded.
    pub entry_loaded: bool,
    /// What instance creation returned.
    pub instance_result: Result<u64, i32>,
    /// What the platform surface creation call returned.
    pub surface_result: Result<u64, i32>,
    /// What physical-device enumeration returned: the device types in
    /// enumeration order.
    pub enumerate_result: Result<Vec<PhysicalDeviceKind>, i32>,
    /// The queue family properties of each enumerated device, with
    /// present support already checked per family against the surface.
    pub families_per_device: Vec<Vec<QueueFamilyInfo>>,
    /// What logical-device creation returned.
    pub logical_result: Result<u64, i32>,
    /// The three queue handles fetched from the logical device
    /// (graphics, transfer, compute).
    pub queue_handles: (u64, u64, u64),
    /// What the surface-capability query returned.
    pub caps_result: Result<SurfaceCaps, i32>,
    /// What the surface-format query returned.
    pub formats_result: Result<Vec<SurfaceFormat>, i32>,
    /// What swapchain creation returned.
    pub swapchain_result: Result<u64, i32>,
    /// What swapchain-image retrieval returned.
    pub images_result: Result<Vec<u64>, i32>,
    /// What the per-image view creations returned: every view handle, or
    /// the first rejection.
    pub views_result: Result<Vec<u64>, i32>,
}

/// Whether the library stage succeeds on this snapshot.
pub open spec fn library_stage_ok(h: VkHost) -> bool {
    h.entry_loaded && h.platform != PlatformTag::Unknown && h.instance_result is Ok
}

/// The library-stage error of a failing snapshot, in stage order: loader
/// failure first, then an unrecognized platform, then the rejected call.
pub open spec fn library_stage_err(h: VkHost) -> LibraryError {
    if !h.entry_loaded {
        LibraryError::LoadFailure
    } else if h.platform == PlatformTag::Unknown {
        LibraryError::ExtensionUnsupported
    } else {
        LibraryError::InstanceCreationFailure(h.instance_result->Err_0)
    }
}

/// Whether the surface stage succeeds on this snapshot (the platform is
/// already known to be recognized when this stage runs).
pub open spec fn surface_stage_ok(h: VkHost) -> bool {
    h.surface_result is Ok
}

/// The surface-stage error of a failing snapshot.
pub open spec fn surface_stage_err(h: VkHost) -> SurfaceError {
    SurfaceError::CreationFailure(h.surface_result->Err_0)
}

/// Whether the device stage succeeds on this snapshot: enumeration
/// answered, a device was chosen, its queues resolved, and the logical
/// device was created.
pub open spec fn device_stage_ok(h: VkHost) -> bool {
    &&& h.enumerate_result is Ok
    &&& device_choice(h.enumerate_result->Ok_0@) is Some
    &&& queue_resolution(h.families_per_device@[device_choice(h.enumerate_result->Ok_0@)->0]@)
        is Some
    &&& h.logical_result is Ok
}

/// The device-stage error of a failing snapshot: a failed or empty or
/// unsuitable enumeration reports no suitable device, an incomplete queue
/// set reports the missing family, and a rejected creation call carries
/// its code.
pub open spec fn device_stage_err(h: VkHost) -> DeviceError {
    if h.enumerate_result is Err {
        DeviceError::NoSuitablePhysicalDevice
    } else if device_choice(h.enumerate_result->Ok_0@) is None {
        DeviceError::NoSuitablePhysicalDevice
    } else if queue_resolution(
        h.families_per_device@[device_choice(h.enumerate_result->Ok_0@)->0]@,
    ) is None {
        DeviceError::QueueFamilyNotFound
    } else {
        DeviceError::LogicalDeviceCreationFailure(h.logical_result->Err_0)
    }
}

/// Whether the swapchain stage succeeds on this snapshot: both queries
/// answered, the swapchain was created, and the images and all their
/// views came back.
pub open spec fn swapchain_stage_ok(h: VkHost) -> bool {
    &&& h.caps_result is Ok
    &&& h.formats_result is Ok
    &&& h.swapchain_result is Ok
    &&& h.images_result is Ok
    &&& h.views_result is Ok
}

/// The swapchain-stage error of a failing snapshot: a failed query or
/// creation reports creation failure, a failed image retrieval or view
/// creation reports view creation failure, each with its native code.
pub open spec fn swapchain_stage_err(h: VkHost) -> SwapchainError {
    if h.caps_result is Err {
        SwapchainError::CreationFailure(h.caps_result->Err_0)
    } else if h.formats_result is Err {
        SwapchainError::CreationFailure(h.formats_result->Err_0)
    } else if h.swapchain_result is Err {
        SwapchainError::CreationFailure(h.swapchain_result->Err_0)
    } else if h.images_result is Err {
        SwapchainError::ImageViewCreationFailure(h.images_result->Err_0)
    } else {
        SwapchainError::ImageViewCreationFailure(h.views_result->Err_0)
    }
}

/// Where initialization fails on this snapshot: the error and how many
/// stages were constructed before it, or nothing when every stage
/// succeeds.
pub open spec fn init_failure(h: VkHost) -> Option<(ContextError, int)> {
    if !library_stage_ok(h) {
        Some((ContextError::Library(library_stage_err(h)), 0))
    } else if !surface_stage_ok(h) {
        Some((ContextError::Surface(surface_stage_err(h)), 1))
    } else if !device_stage_ok(h) {
        Some((ContextError::Device(device_stage_err(h)), 2))
    } else if !swapchain_stage_ok(h) {
        Some((ContextError::Swapchain(swapchain_stage_err(h)), 3))
    } else {
        None
    }
}

/// An initialized Vulkan context: the four stages and the native handles
/// they own.  The struct owns exactly one of everything; destruction is
/// the reverse of construction, as the teardown order of
/// [`VkContext::init`] states.
pub struct VkContext {
    pub library: Library,
    pub surface: Surface,
    pub device: Device,
    pub logical_device: u64,
    pub graphic_queue: u64,
    pub transfert_queue: u64,
    pub compute_queue: u64,
    pub swapchain: Swapchain,
    /// The native view handles, one per swapchain image.
    pub view_handles: Vec<u64>,
}

impl VkContext {
    /// Runs the four-stage pipeline over a native snapshot.  Returns the
    /// outcome together with the teardown order that was unwound: empty
    /// on success, and on failure exactly the stages constructed before
    /// the failing one, newest first.
    pub fn init(app_name: String, app_version: Version, host: VkHost) -> (out: (
        Result<VkContext, ContextError>,
        Vec<VkStage>,
    ))
        requires
            host.enumerate_result matches Ok(devs) ==> host.families_per_device@.len()
                == devs@.len(),
            forall|i: int| 0 <= i < host.families_per_device@.len()
                ==> #[trigger] host.families_per_device@[i]@.len() <= u32::MAX,
            host.formats_result matches Ok(f) ==> f@.len() > 0,
        ensures
            init_failure(host) matches Some(fail) ==> out.0 == Err::<VkContext, ContextError>(
                fail.0,
            ) && out.1@.len() == fail.1 && forall|i: int| 0 <= i < out.1@.len() ==> out.1@[i]
                == stage_order()[fail.1 - 1 - i],
            init_failure(host) is None ==> (out.0 matches Ok(ctx) && out.1@.len() == 0
                && ctx.library.instance == host.instance_result->Ok_0 && ctx.surface.handle
                == host.surface_result->Ok_0 && ctx.surface.route == route_of(host.platform)->0
                && device_choice(host.enumerate_result->Ok_0@) == Some(
                ctx.device.physical_index as int,
            ) && queue_resolution(
                host.families_per_device@[ctx.device.physical_index as int]@,
            ) == Some(
                QueueFamilies {
                    graphics: ctx.device.queue_inds.0,
                    transfer: ctx.device.queue_inds.1,
                    compute: ctx.device.queue_inds.2,
                },
            ) && ctx.logical_device == host.logical_result->Ok_0 && ctx.graphic_queue
                == host.queue_handles.0 && ctx.transfert_queue == host.queue_handles.1
                && ctx.compute_queue == host.queue_handles.2 && ctx.swapchain.wf()
                && ctx.swapchain.config == build_config_spec(
                host.caps_result->Ok_0,
                host.formats_result->Ok_0@,
                ctx.device.queue_inds.0,
            ) && ctx.swapchain.images@ == host.images_result->Ok_0@ && ctx.view_handles@
                == host.views_result->Ok_0@),
    {
        let mut tracker = VkInit::new();

        // Library stage: entry points, then the instance.
        let library = match Library::init(
            app_name,
            app_version,
            host.platform,
            host.entry_loaded,
            host.instance_result,
        ) {
            Ok(l) => l,
            Err(e) => {
                let order = tracker.teardown();
                return (Err(ContextError::Library(e)), order);
            },
        };
        tracker.stage_created(VkStage::Library);

        // Surface stage: the platform surface against the instance.
        let surface = match Surface::init(host.platform, host.surface_result) {
            Ok(s) => s,
            Err(e) => {
                let order = tracker.teardown();
                return (Err(ContextError::Surface(e)), order);
            },
        };
        tracker.stage_created(VkStage::Surface);

        // Device stage: selection, queue resolution, the logical device.
        let devices = match host.enumerate_result {
            Ok(d) => d,
            Err(_) => {
                let order = tracker.teardown();
                return (
                    Err(ContextError::Device(DeviceError::NoSuitablePhysicalDevice)),
                    order,
                );
            },
        };
        let device = match Device::init(&devices, &host.families_per_device) {
            Ok(d) => d,
            Err(e) => {
                let order = tracker.teardown();
                return (Err(ContextError::Device(e)), order);
            },
        };
        let logical_device = match host.logical_result {
            Ok(h) => h,
            Err(code) => {
                let order = tracker.teardown();
                return (
                    Err(ContextError::Device(DeviceError::LogicalDeviceCreationFailure(code))),
                    order,
                );
            },
        };
        tracker.stage_created(VkStage::Device);

        // Swapchain stage: the queries, the swapchain, its images and views.
        let caps = match host.caps_result {
            Ok(c) => c,
            Err(code) => {
                let order = tracker.teardown();
                return (
                    Err(ContextError::Swapchain(SwapchainError::CreationFailure(code))),
                    order,
                );
            },
        };
        let formats = match host.formats_result {
            Ok(f) => f,
            Err(code) => {
                let order = tracker.teardown();
                return (
                    Err(ContextError::Swapchain(SwapchainError::CreationFailure(code))),
                    order,
                );
            },
        };
        match host.swapchain_result {
            Ok(_) => {},
            Err(code) => {
                let order = tracker.teardown();
                return (
                    Err(ContextError::Swapchain(SwapchainError::CreationFailure(code))),
                    order,
                );
            },
        };
        let images = match host.images_result {
            Ok(im) => im,
            Err(code) => {
                let order = tracker.teardown();
                return (
                    Err(ContextError::Swapchain(SwapchainError::ImageViewCreationFailure(code))),
                    order,
                );
            },
        };
        let view_handles = match host.views_result {
            Ok(v) => v,
            Err(code) => {
                let order = tracker.teardown();
                return (
                    Err(ContextError::Swapchain(SwapchainError::ImageViewCreationFailure(code))),
                    order,
                );
            },
        };
        let swapchain = Swapchain::init(&caps, &formats, device.queue_inds.0, images);
        tracker.stage_created(VkStage::Swapchain);

        let ctx = VkContext {
            library,
            surface,
            device,
            logical_device,
            graphic_queue: host.queue_handles.0,
            transfert_queue: host.queue_handles.1,
            compute_queue: host.queue_handles.2,
            swapchain,
            view_handles,
        };
        (Ok(ctx), Vec::new())
    }
}

/// Errors of OpenGL context initialization.  The payload is the native
/// error code of the failed make-current call.
#[derive(Clone, Copy, Debug, PartialEq, Eq, Structural)]
pub enum GlContextError {
    MakeCurrentFailure(i32),
}

/// The two ordered steps of OpenGL initialization.
#[derive(Clone, Copy, Debug, PartialEq, Eq, Structural)]
pub enum GlStep {
    MakeCurrent,
    LoadEntryPoints,
}

/// The OpenGL initialization machine: the raw context must be made
/// current before the entry points are loaded through it.
pub struct GlInit {
    made_current: bool,
    entries_loaded: bool,
}

impl GlInit {
    /// Whether the raw context was made current.
    pub closed spec fn is_current(&self) -> bool {
        self.made_current
    }

    /// Whether the entry points were loaded.
    pub closed spec fn has_entries(&self) -> bool {
        self.entries_loaded
    }

    /// Starts with a context that is not yet current.
    pub fn new() -> (s: GlInit)
        ensures
            !s.is_current(),
            !s.has_entries(),
    {
        GlInit { made_current: false, entries_loaded: false }
    }

    /// The next step to perform, or nothing when initialization is done.
    /// Loading entry points is never asked of a context that is not
    /// current.
    pub fn next_step(&self) -> (s: Option<GlStep>)
        ensures
            s == Some(GlStep::LoadEntryPoints) ==> self.is_current(),
            !self.is_current() ==> s == Some(GlStep::MakeCurrent),
            self.is_current() && !self.has_entries() ==> s == Some(GlStep::LoadEntryPoints),
            self.is_current() && self.has_entries() ==> s is None,
    {
        if !self.made_current {
            Some(GlStep::MakeCurrent)
        } else if !self.entries_loaded {
            Some(GlStep::LoadEntryPoints)
        } else {
            None
        }
    }

    /// Records a completed step.  Entry points can only be recorded
    /// loaded once the context is current.
    pub fn step_done(&mut self, step: GlStep)
        requires
            step == GlStep::LoadEntryPoints ==> old(self).is_current(),
        ensures
            step == GlStep::MakeCurrent ==> final(self).is_current() && final(self).has_entries()
                == old(self).has_entries(),
            step == GlStep::LoadEntryPoints ==> final(self).has_entries()
                && final(self).is_current(),
    {
        match step {
            GlStep::MakeCurrent => {
                self.made_current = true;
            },
            GlStep::LoadEntryPoints => {
                self.entries_loaded = true;
            },
        }
    }
}

/// An initialized OpenGL context: current, with entry points loaded, and
/// counting the buffer swaps performed through it.
#[derive(Clone, Copy, Debug, PartialEq, Eq, Structural)]
pub struct GlContext {
    pub swaps: u64,
}

impl GlContext {
    /// Runs the two-step sequence over the native make-current outcome.
    /// Returns the outcome together with the step order performed: the
    /// context is made current strictly before entry points are loaded,
    /// and no entry points are loaded at all when making it current
    /// fails.
    pub fn init(make_current_result: Result<(), i32>) -> (out: (
        Result<GlContext, GlContextError>,
        Vec<GlStep>,
    ))
        ensures
            make_current_result matches Err(code) ==> out.0 == Err::<GlContext, GlContextError>(
                GlContextError::MakeCurrentFailure(code),
            ) && out.1@ =~= Seq::<GlStep>::empty(),
            make_current_result is Ok ==> (out.0 matches Ok(ctx) && ctx.swaps == 0 && out.1@
                =~= seq![GlStep::MakeCurrent, GlStep::LoadEntryPoints]),
    {
        let mut machine = GlInit::new();
        let mut performed: Vec<GlStep> = Vec::new();
        match make_current_result {
            Ok(_) => {},
            Err(code) => {
                return (Err(GlContextError::MakeCurrentFailure(code)), performed);
            },
        };
        machine.step_done(GlStep::MakeCurrent);
        performed.push(GlStep::MakeCurrent);
        machine.step_done(GlStep::LoadEntryPoints);
        performed.push(GlStep::LoadEntryPoints);
        proof {
            assert(performed@ =~= seq![GlStep::MakeCurrent, GlStep::LoadEntryPoints]);
        }
        (Ok(GlContext { swaps: 0 }), performed)
    }

    /// Swaps the presentable buffers: exactly one swap per call.
    pub fn swap_buffers(&mut self)
        requires
            old(self).swaps < u64::MAX,
        ensures
            final(self).swaps == old(self).swaps + 1,
    {
        self.swaps = self.swaps + 1;
    }
}

} // verus!

//! Swapchain configuration: image count, format choice, fixed policy, and
//! the per-image view plan.
//!
//! The swapchain always requests three images unless the surface bounds
//! force fewer or more, takes the first surface format the query returns
//! (no preference ranking), and applies a fixed policy: a single array
//! layer, color-attachment usage, exclusive sharing across the single
//! graphics queue family, the current surface transform, opaque composite
//! alpha, and FIFO presentation.

use vstd::prelude::*;

verus! {

/// What the swapchain reads of the surface capabilities.
#[derive(Clone, Copy, Debug, PartialEq, Eq, Structural)]
pub struct SurfaceCaps {
    pub min_image_count: u32,
    pub max_image_count: u32,
    pub current_extent_width: u32,
    pub current_extent_height: u32,
    /// The native surface transform bits currently in effect.
    pub current_transform: u32,
}

/// One entry of the native surface-format query, as returned: the native
/// format and color-space codes.
#[derive(Clone, Copy, Debug, PartialEq, Eq, Structural)]
pub struct SurfaceFormat {
    pub format: u32,
    pub color_space: u32,
}

/// Errors of swapchain construction.  The payloads are native result
/// codes.
#[derive(Clone, Copy, Debug, PartialEq, Eq, Structural)]
pub enum SwapchainError {
    CreationFailure(i32),
    ImageViewCreationFailure(i32),
}

/// How images are shared between queue families.
#[derive(Clone, Copy, Debug, PartialEq, Eq, Structural)]
pub enum SharingMode {
    Exclusive,
    Concurrent,
}

/// When rendered images are shown.
#[derive(Clone, Copy, Debug, PartialEq, Eq, Structural)]
pub enum PresentMode {
    Fifo,
    Mailbox,
    Immediate,
}

/// How the surface alpha channel is composited.
#[derive(Clone, Copy, Debug, PartialEq, Eq, Structural)]
pub enum CompositeAlpha {
    Opaque,
    PreMultiplied,
    PostMultiplied,
    Inherit,
}

/// The one image format the view plan uses.
#[derive(Clone, Copy, Debug, PartialEq, Eq, Structural)]
pub enum ImageFormat {
    B8g8r8a8Unorm,
}

/// The image count to request: three, clamped into the surface's
/// `[min_image_count, max_image_count]` bounds.
pub open spec fn image_count_of(caps: SurfaceCaps) -> u32 {
    let lower = if caps.min_image_count > 3 {
        caps.min_image_count
    } else {
        3
    };
    if lower <= caps.max_image_count {
        lower
    } else {
        caps.max_image_count
    }
}

/// Computes the image count to request: always three unless the surface
/// bounds force fewer or more.
pub fn image_count(caps: &SurfaceCaps) -> (r: u32)
    ensures
        r == image_count_of(*caps),
        caps.min_image_count <= 3 <= caps.max_image_count ==> r == 3,
        caps.max_image_count < 3 ==> r == caps.max_image_count,
        (caps.min_image_count > 3 && caps.min_image_count <= caps.max_image_count) ==> r
            == caps.min_image_count,
{
    let lower = if caps.min_image_count > 3 {
        caps.min_image_count
    } else {
        3
    };
    if lower <= caps.max_image_count {
        lower
    } else {
        caps.max_image_count
    }
}

/// Everything the native swapchain creation call is given.
#[derive(Clone, Copy, Debug, PartialEq, Eq, Structural)]
pub struct SwapchainConfig {
    pub min_image_count: u32,
    pub format: u32,
    pub color_space: u32,
    pub extent_width: u32,
    pub extent_height: u32,
    pub image_array_layers: u32,
    pub color_attachment_usage: bool,
    pub sharing_mode: SharingMode,
    pub queue_family_index: u32,
    pub pre_transform: u32,
    pub composite_alpha: CompositeAlpha,
    pub present_mode: PresentMode,
}

/// Builds the swapchain configuration from the surface capabilities, the
/// surface formats the query returned (the first entry is taken, with no
/// preference ranking), and the resolved graphics queue family.
pub fn build_config(
    caps: &SurfaceCaps,
    formats: &Vec<SurfaceFormat>,
    graphics_family: u32,
) -> (c: SwapchainConfig)
    requires
        formats@.len() > 0,
    ensures
        c.min_image_count == image_count_of(*caps),
        c.format == formats@[0].format,
        c.color_space == formats@[0].color_space,
        c.extent_width == caps.current_extent_width,
        c.extent_height == caps.current_extent_height,
        c.image_array_layers == 1,
        c.color_attachment_usage,
        c.sharing_mode == SharingMode::Exclusive,
        c.queue_family_index == graphics_family,
        c.pre_transform == caps.current_transform,
        c.composite_alpha == CompositeAlpha::Opaque,
        c.present_mode == PresentMode::Fifo,
{
    let first = formats[0];
    SwapchainConfig {
        min_image_count: image_count(caps),
        format: first.format,
        color_space: first.color_space,
        extent_width: caps.current_extent_width,
        extent_height: caps.current_extent_height,
        image_array_layers: 1,
        color_attachment_usage: true,
        sharing_mode: SharingMode::Exclusive,
        queue_family_index: graphics_family,
        pre_transform: caps.current_transform,
        composite_alpha: CompositeAlpha::Opaque,
        present_mode: PresentMode::Fifo,
    }
}

/// Everything the native image-view creation call is given for one
/// swapchain image: a 2D color view of that image with the fixed format,
/// one mip level and one array layer.
#[derive(Clone, Copy, Debug, PartialEq, Eq, Structural)]
pub struct ImageViewConfig {
    /// The native handle of the image the view reads.
    pub image: u64,
    pub format: ImageFormat,
    pub base_mip_level: u32,
    pub level_count: u32,
    pub base_array_layer: u32,
    pub layer_count: u32,
}

/// The fixed view for one image.
pub open spec fn view_config_of(image: u64) -> ImageViewConfig {
    ImageViewConfig {
        image,
        format: ImageFormat::B8g8r8a8Unorm,
        base_mip_level: 0,
        level_count: 1,
        base_array_layer: 0,
        layer_count: 1,
    }
}

/// Plans exactly one view per retrieved swapchain image, in image order.
pub fn image_view_configs(images: &Vec<u64>) -> (views: Vec<ImageViewConfig>)
    ensures
        views@.len() == images@.len(),
        forall|i: int| 0 <= i < views@.len() ==> views@[i] == view_config_of(images@[i]),
{
    let mut views: Vec<ImageViewConfig> = Vec::new();
    let mut i: usize = 0;
    while i < images.len()
        invariant
            0 <= i <= images@.len(),
            views@.len() == i,
            forall|j: int| 0 <= j < i ==> views@[j] == view_config_of(images@[j]),
        decreases images@.len() - i,
    {
        views.push(
            ImageViewConfig {
                image: images[i],
                format: ImageFormat::B8g8r8a8Unorm,
                base_mip_level: 0,
                level_count: 1,
                base_array_layer: 0,
                layer_count: 1,
            },
        );
        i = i + 1;
    }
    views
}

/// The swapchain: what the native call was configured with, the retrieved
/// image handles, and the view created for each image.
#[derive(Clone, Debug)]
pub struct Swapchain {
    pub config: SwapchainConfig,
    pub images: Vec<u64>,
    pub views: Vec<ImageViewConfig>,
}

impl Swapchain {
    /// One view stands for each image, in image order.
    pub open spec fn wf(&self) -> bool {
        &&& self.views@.len() == self.images@.len()
        &&& forall|i: int| 0 <= i < self.views@.len() ==> self.views@[i] == view_config_of(
            self.images@[i],
        )
    }

    /// Assembles the swapchain from the surface capabilities and formats,
    /// the resolved graphics family, and the image handles the native API
    /// returned for the created swapchain.
    pub fn init(
        caps: &SurfaceCaps,
        formats: &Vec<SurfaceFormat>,
        graphics_family: u32,
        images: Vec<u64>,
    ) -> (s: Swapchain)
        requires
            formats@.len() > 0,
        ensures
            s.wf(),
            s.config == build_config_spec(*caps, formats@, graphics_family),
            s.images == images,
    {
        let config = build_config(caps, formats, graphics_family);
        let views = image_view_configs(&images);
        Swapchain { config, images, views }
    }
}

/// What [`build_config`] yields.
pub open spec fn build_config_spec(
    caps: SurfaceCaps,
    formats: Seq<SurfaceFormat>,
    graphics_family: u32,
) -> SwapchainConfig {
    SwapchainConfig {
        min_image_count: image_count_of(caps),
        format: formats[0].format,
        color_space: formats[0].color_space,
        extent_width: caps.current_extent_width,
        extent_height: caps.current_extent_height,
        image_array_layers: 1,
        color_attachment_usage: true,
        sharing_mode: SharingMode::Exclusive,
        queue_family_index: graphics_family,
        pre_transform: caps.current_transform,
        composite_alpha: CompositeAlpha::Opaque,
        present_mode: PresentMode::Fifo,
    }
}

} // verus!

//! What a surface can do, and the set-up of the chain of presentable images
//! that is chosen from it.

use crate::device::QueueFamilyIndices;
use crate::error::GfxError;
use vstd::prelude::*;

verus! {

/// How many images the chain is asked to hold where the surface leaves the choice open.
pub const PREFERRED_IMAGE_COUNT: u32 = 3;

/// The usage bit of an image that is drawn to as a colour attachment.
pub const IMAGE_USAGE_COLOR_ATTACHMENT: u32 = 0x10;

/// The composite-alpha bit for a window that is drawn opaque.
pub const COMPOSITE_ALPHA_OPAQUE: u32 = 0x1;

/// A width and a height, in pixels.
#[derive(Debug, Clone, Copy, PartialEq, Eq, Structural)]
pub struct Extent2D {
    pub width: u32,
    pub height: u32,
}

/// The layout of a pixel. The layouts that are chosen have a name; the
/// others are kept by their Vulkan number.
#[derive(Debug, Clone, Copy, PartialEq, Eq, Structural)]
pub enum Format {
    /// Blue, green, red and alpha, eight bits each, unsigned and normalised.
    B8G8R8A8UNorm,
    /// Depth alone, in sixteen bits, unsigned and normalised.
    D16UNorm,
    Other(u32),
}

/// The colour space in which a surface shows its pixels.
#[derive(Debug, Clone, Copy, PartialEq, Eq, Structural)]
pub enum ColorSpace {
    SrgbNonLinear,
    Unknown(u32),
}

/// A pixel layout together with the colour space it is shown in.
#[derive(Debug, Clone, Copy, PartialEq, Eq, Structural)]
pub struct SurfaceFormat {
    pub format: Format,
    pub color_space: ColorSpace,
}

/// How finished images reach the display.
#[derive(Debug, Clone, Copy, PartialEq, Eq, Structural)]
pub enum PresentMode {
    /// At once, whatever the display is doing.
    Immediate,
    Mailbox,
    /// In turn, one with each refresh of the display.
    Fifo,
    FifoRelaxed,
    Unknown(u32),
}

/// Whether the images of the chain belong to one queue family or are shared.
#[derive(Debug, Clone, Copy, PartialEq, Eq, Structural)]
pub enum SharingMode {
    Exclusive,
    Concurrent,
}

/// What the driver reports of a surface. It is asked anew before each chain
/// is made, because it changes with the surface.
#[derive(Debug, Clone, Copy, PartialEq, Eq)]
pub struct SurfaceCapabilities {
    pub min_image_count: u32,
    /// `None` where the surface sets no upper limit.
    pub max_image_count: Option<u32>,
    /// `None` where the surface takes the size of the chain that is made for it.
    pub current_extent: Option<Extent2D>,
    pub min_image_extent: Extent2D,
    pub max_image_extent: Extent2D,
    pub max_image_array_layers: u32,
    pub supported_transforms: u32,
    pub current_transform: u32,
    pub supported_composite_alpha: u32,
    pub supported_usage_flags: u32,
}

impl SurfaceCapabilities {
    /// The limits on the number of images are such as a driver reports them:
    /// at least one image is asked for, and the upper limit, where there is
    /// one, is not below the lower.
    pub open spec fn valid(self) -> bool {
        &&& self.min_image_count >= 1
        &&& self.max_image_count matches Some(max) ==> self.min_image_count <= max
    }
}

/// The number of images to ask for: the preferred number, brought within the
/// limits of the surface. Where the limits leave no room, the lower one wins.
pub open spec fn image_count(min: u32, max: Option<u32>) -> u32 {
    let wanted = match max {
        Some(max) if max < PREFERRED_IMAGE_COUNT => max,
        _ => PREFERRED_IMAGE_COUNT,
    };
    if wanted < min {
        min
    } else {
        wanted
    }
}

/// The one format that is looked for among those of the surface.
pub open spec fn preferred_format() -> SurfaceFormat {
    SurfaceFormat { format: Format::B8G8R8A8UNorm, color_space: ColorSpace::SrgbNonLinear }
}

/// The present mode that is chosen among `modes`: `Fifo` where it is on
/// offer, else `Immediate` where that is, else none.
pub open spec fn present_mode_choice(modes: Seq<PresentMode>) -> Option<PresentMode> {
    if modes.contains(PresentMode::Fifo) {
        Some(PresentMode::Fifo)
    } else if modes.contains(PresentMode::Immediate) {
        Some(PresentMode::Immediate)
    } else {
        None
    }
}

/// The size of the images: the size of the surface where it has one of its
/// own, else the size that the caller would like.
pub open spec fn extent_choice(current: Option<Extent2D>, preferred: Extent2D) -> Extent2D {
    match current {
        Some(extent) => extent,
        None => preferred,
    }
}

/// How the images are shared: not at all where one family draws and
/// presents, else between the two families.
pub open spec fn sharing_choice(indices: QueueFamilyIndices) -> (SharingMode, Seq<u32>) {
    if indices.graphics == indices.present {
        (SharingMode::Exclusive, Seq::empty())
    } else {
        (SharingMode::Concurrent, seq![indices.graphics, indices.present])
    }
}

/// Chooses the number of images to ask for.
pub fn choose_image_count(capabilities: &SurfaceCapabilities) -> (count: u32)
    ensures
        count == image_count(capabilities.min_image_count, capabilities.max_image_count),
        capabilities.valid() ==> {
            &&& count >= 1
            &&& capabilities.min_image_count <= count
            &&& capabilities.max_image_count matches Some(max) ==> count <= max
        },
{
    let wanted = match capabilities.max_image_count {
        Some(max) => if max < PREFERRED_IMAGE_COUNT {
            max
        } else {
            PREFERRED_IMAGE_COUNT
        },
        None => PREFERRED_IMAGE_COUNT,
    };
    if wanted < capabilities.min_image_count {
        capabilities.min_image_count
    } else {
        wanted
    }
}

/// Whatever limits a driver reports for a surface, the number of images that
/// is asked for lies within them, and is never less than one.
pub proof fn lemma_image_count_within_limits(capabilities: SurfaceCapabilities)
    requires
        capabilities.valid(),
    ensures
        image_count(capabilities.min_image_count, capabilities.max_image_count) >= 1,
        capabilities.min_image_count <= image_count(
            capabilities.min_image_count,
            capabilities.max_image_count,
        ),
        capabilities.max_image_count matches Some(max) ==> image_count(
            capabilities.min_image_count,
            capabilities.max_image_count,
        ) <= max,
{
}

/// Looks for the preferred format among those of the surface.
pub fn choose_surface_format(formats: &Vec<SurfaceFormat>) -> (r: Result<SurfaceFormat, GfxError>)
    ensures
        match r {
            Ok(format) => format == preferred_format() && formats@.contains(preferred_format()),
            Err(e) => e is NoSuitableFormat && !formats@.contains(preferred_format()),
        },
{
    let mut i: usize = 0;
    while i < formats.len()
        invariant
            i <= formats.len(),
            forall|j: int| 0 <= j < i ==> formats@[j] != preferred_format(),
        decreases formats.len() - i,
    {
        let candidate = formats[i];
        if candidate.format == Format::B8G8R8A8UNorm && candidate.color_space
            == ColorSpace::SrgbNonLinear {
            return Ok(candidate);
        }
        i += 1;
    }
    Err(GfxError::NoSuitableFormat)
}

/// Chooses the present mode: `Fifo` where the surface offers it, else
/// `Immediate`, and failing both an error.
pub fn choose_present_mode(modes: &Vec<PresentMode>) -> (r: Result<PresentMode, GfxError>)
    ensures
        match r {
            Ok(mode) => present_mode_choice(modes@) == Some(mode),
            Err(e) => e is NoSuitablePresentMode && present_mode_choice(modes@) is None,
        },
{
    let mut found: Option<PresentMode> = None;
    let mut i: usize = 0;
    while i < modes.len()
        invariant
            i <= modes.len(),
            forall|j: int| 0 <= j < i ==> modes@[j] != PresentMode::Fifo,
            match found {
                Some(mode) => mode == PresentMode::Immediate && modes@.contains(
                    PresentMode::Immediate,
                ),
                None => forall|j: int| 0 <= j < i ==> modes@[j] != PresentMode::Immediate,
            },
        decreases modes.len() - i,
    {
        let mode = modes[i];
        if mode == PresentMode::Fifo {
            return Ok(PresentMode::Fifo);
        } else if mode == PresentMode::Immediate {
            found = Some(PresentMode::Immediate);
        }
        i += 1;
    }
    match found {
        Some(mode) => Ok(mode),
        None => Err(GfxError::NoSuitablePresentMode),
    }
}

/// Where the surface offers both `Fifo` and `Immediate`, `Fifo` is chosen.
pub proof fn lemma_fifo_preferred(modes: Seq<PresentMode>)
    requires
        modes.contains(PresentMode::Fifo),
        modes.contains(PresentMode::Immediate),
    ensures
        present_mode_choice(modes) == Some(PresentMode::Fifo),
{
}

/// `Immediate` is chosen where `Fifo` is not on offer, and where neither is
/// on offer nothing is chosen.
pub proof fn lemma_immediate_is_the_fallback(modes: Seq<PresentMode>)
    requires
        !modes.contains(PresentMode::Fifo),
    ensures
        modes.contains(PresentMode::Immediate) ==> present_mode_choice(modes) == Some(
            PresentMode::Immediate,
        ),
        !modes.contains(PresentMode::Immediate) ==> present_mode_choice(modes) is None,
{
}

/// Settles the size of the images.
pub fn resolve_extent(current: Option<Extent2D>, preferred: &Extent2D) -> (extent: Extent2D)
    ensures
        extent == extent_choice(current, *preferred),
{
    match current {
        Some(extent) => extent,
        None => *preferred,
    }
}

/// What the driver is asked for when a chain is made.
#[derive(Debug, Clone, PartialEq, Eq)]
pub struct SwapchainCreateInfo {
    pub min_image_count: u32,
    pub image_format: Format,
    pub image_color_space: ColorSpace,
    pub image_extent: Extent2D,
    pub image_array_layers: u32,
    pub image_usage: u32,
    pub image_sharing_mode: SharingMode,
    pub queue_family_indices: Vec<u32>,
    pub pre_transform: u32,
    pub composite_alpha: u32,
    pub present_mode: PresentMode,
    pub clipped: bool,
}

impl SwapchainCreateInfo {
    /// The request is the one that follows from what the surface reports,
    /// from the size the caller would like, from the queue families, and
    /// from the present mode `mode`.
    pub open spec fn settled_from(
        self,
        capabilities: SurfaceCapabilities,
        preferred_extent: Extent2D,
        indices: QueueFamilyIndices,
        mode: PresentMode,
    ) -> bool {
        &&& self.min_image_count == image_count(
            capabilities.min_image_count,
            capabilities.max_image_count,
        )
        &&& self.image_format == preferred_format().format
        &&& self.image_color_space == preferred_format().color_space
        &&& self.image_extent == extent_choice(capabilities.current_extent, preferred_extent)
        &&& self.image_array_layers == 1
        &&& self.image_usage == IMAGE_USAGE_COLOR_ATTACHMENT
        &&& self.image_sharing_mode == sharing_choice(indices).0
        &&& self.queue_family_indices@ == sharing_choice(indices).1
        &&& self.pre_transform == capabilities.current_transform
        &&& self.composite_alpha == COMPOSITE_ALPHA_OPAQUE
        &&& self.present_mode == mode
        &&& self.clipped
    }
}

/// Settles how the chain is to be made for a surface.
///
/// The format is looked for first, then the present mode, and the error is
/// that of the first that is not found. With both found, the request holds
/// the chosen number of images, the settled size, the sharing that the queue
/// families call for, and the transform that the surface has now.
pub fn create_swapchain(
    capabilities: &SurfaceCapabilities,
    surface_formats: &Vec<SurfaceFormat>,
    present_modes: &Vec<PresentMode>,
    preferred_extent: &Extent2D,
    queue_family_indices: &QueueFamilyIndices,
) -> (r: Result<SwapchainCreateInfo, GfxError>)
    ensures
        match r {
            Ok(info) => {
                &&& surface_formats@.contains(preferred_format())
                &&& present_mode_choice(present_modes@) matches Some(mode) && info.settled_from(
                    *capabilities,
                    *preferred_extent,
                    *queue_family_indices,
                    mode,
                )
                &&& capabilities.valid() ==> {
                    &&& info.min_image_count >= 1
                    &&& capabilities.min_image_count <= info.min_image_count
                    &&& capabilities.max_image_count matches Some(max) ==> info.min_image_count
                        <= max
                }
            },
            Err(GfxError::NoSuitableFormat) => !surface_formats@.contains(preferred_format()),
            Err(GfxError::NoSuitablePresentMode) => {
                &&& surface_formats@.contains(preferred_format())
                &&& present_mode_choice(present_modes@) is None
            },
            Err(_) => false,
        },
{
    let min_image_count = choose_image_count(capabilities);
    let format = match choose_surface_format(surface_formats) {
        Ok(format) => format,
        Err(_) => {
            return Err(GfxError::NoSuitableFormat);
        },
    };
    let mut shared: Vec<u32> = Vec::new();
    let image_sharing_mode = if queue_family_indices.graphics == queue_family_indices.present {
        SharingMode::Exclusive
    } else {
        shared.push(queue_family_indices.graphics);
        shared.push(queue_family_indices.present);
        SharingMode::Concurrent
    };
    assert(shared@ =~= sharing_choice(*queue_family_indices).1);
    let image_extent = resolve_extent(capabilities.current_extent, preferred_extent);
    let present_mode = match choose_present_mode(present_modes) {
        Ok(mode) => mode,
        Err(_) => {
            return Err(GfxError::NoSuitablePresentMode);
        },
    };
    Ok(
        SwapchainCreateInfo {
            min_image_count,
            image_format: format.format,
            image_color_space: format.color_space,
            image_extent,
            image_array_layers: 1,
            image_usage: IMAGE_USAGE_COLOR_ATTACHMENT,
            image_sharing_mode,
            queue_family_indices: shared,
            pre_transform: capabilities.current_transform,
            composite_alpha: COMPOSITE_ALPHA_OPAQUE,
            present_mode,
            clipped: true,
        },
    )
}

/// What the driver is asked for when the framebuffer of one image is made.
#[derive(Debug, Clone, PartialEq, Eq)]
pub struct FramebufferCreateInfo {
    /// The views that are drawn to: the image's own, then the depth buffer's.
    pub attachments: Vec<u64>,
    pub width: u32,
    pub height: u32,
    pub layers: u32,
}

impl FramebufferCreateInfo {
    /// The request binds `image_view` and `depth_buffer`, in one layer of size `extent`.
    pub open spec fn binds(self, image_view: u64, depth_buffer: u64, extent: Extent2D) -> bool {
        &&& self.attachments@ == seq![image_view, depth_buffer]
        &&& self.width == extent.width
        &&& self.height == extent.height
        &&& self.layers == 1
    }
}

/// Settles the framebuffers of a chain: one for each image, in the order of
/// the images, each binding the view of its image and the one depth buffer
/// that all of them share.
pub fn create_framebuffers(
    image_views: &Vec<u64>,
    depth_buffer: u64,
    extent: &Extent2D,
) -> (r: Vec<FramebufferCreateInfo>)
    ensures
        r.len() == image_views.len(),
        forall|i: int|
            0 <= i < r.len() ==> (#[trigger] r@[i]).binds(image_views@[i], depth_buffer, *extent),
{
    let mut framebuffers: Vec<FramebufferCreateInfo> = Vec::new();
    let mut i: usize = 0;
    while i < image_views.len()
        invariant
            i <= image_views.len(),
            framebuffers.len() == i,
            forall|j: int|
                0 <= j < i ==> (#[trigger] framebuffers@[j]).binds(
                    image_views@[j],
                    depth_buffer,
                    *extent,
                ),
        decreases image_views.len() - i,
    {
        let mut attachments: Vec<u64> = Vec::new();
        attachments.push(image_views[i]);
        attachments.push(depth_buffer);
        assert(attachments@ =~= seq![image_views@[i as int], depth_buffer]);
        framebuffers.push(
            FramebufferCreateInfo {
                attachments,
                width: extent.width,
                height: extent.height,
                layers: 1,
            },
        );
        i += 1;
    }
    framebuffers
}

} // verus!

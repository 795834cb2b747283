//! What a frame is drawn to: the render pass, with a colour attachment and a
//! depth attachment, and the depth buffer that every framebuffer of a
//! generation shares.

use crate::surface::{Extent2D, Format, FramebufferCreateInfo};
use vstd::prelude::*;

verus! {

/// The usage bit of an image that is drawn to as a depth attachment.
pub const IMAGE_USAGE_DEPTH_STENCIL_ATTACHMENT: u32 = 0x20;

/// The usage bit of an image that lives only while a frame is drawn.
pub const IMAGE_USAGE_TRANSIENT_ATTACHMENT: u32 = 0x40;

/// What becomes of an attachment's old content when drawing begins.
#[derive(Debug, Clone, Copy, PartialEq, Eq, Structural)]
pub enum LoadOp {
    Load,
    Clear,
    DontCare,
}

/// What becomes of an attachment's content when drawing ends.
#[derive(Debug, Clone, Copy, PartialEq, Eq, Structural)]
pub enum StoreOp {
    Store,
    DontCare,
}

/// The arrangement of an image in memory, by what it is good for.
#[derive(Debug, Clone, Copy, PartialEq, Eq, Structural)]
pub enum ImageLayout {
    Undefined,
    ColorAttachmentOptimal,
    DepthStencilAttachmentOptimal,
    /// Ready to be shown.
    PresentSrc,
}

/// One attachment of a render pass.
#[derive(Debug, Clone, Copy, PartialEq, Eq)]
pub struct AttachmentDescription {
    pub format: Format,
    pub samples: u32,
    pub load_op: LoadOp,
    pub store_op: StoreOp,
    pub stencil_load_op: LoadOp,
    pub stencil_store_op: StoreOp,
    pub initial_layout: ImageLayout,
    pub final_layout: ImageLayout,
}

/// An attachment by its place in the render pass, with the layout it has
/// while it is drawn to.
#[derive(Debug, Clone, Copy, PartialEq, Eq)]
pub struct AttachmentReference {
    pub attachment: u32,
    pub layout: ImageLayout,
}

/// What the driver is asked for when the render pass is made: its
/// attachments, and what its one subpass draws to.
#[derive(Debug, Clone, PartialEq, Eq)]
pub struct RenderPassCreateInfo {
    pub attachments: Vec<AttachmentDescription>,
    pub color_attachments: Vec<AttachmentReference>,
    pub depth_stencil_attachment: Option<AttachmentReference>,
}

/// What the driver is asked for when the depth buffer is made.
#[derive(Debug, Clone, Copy, PartialEq, Eq)]
pub struct DepthBufferCreateInfo {
    pub format: Format,
    pub extent: Extent2D,
    pub usage: u32,
}

/// The colour attachment: an image of the chain, in the chain's format. It
/// is cleared first, kept afterwards, and left ready to be shown.
pub open spec fn color_attachment(format: Format) -> AttachmentDescription {
    AttachmentDescription {
        format,
        samples: 1,
        load_op: LoadOp::Clear,
        store_op: StoreOp::Store,
        stencil_load_op: LoadOp::DontCare,
        stencil_store_op: StoreOp::DontCare,
        initial_layout: ImageLayout::Undefined,
        final_layout: ImageLayout::PresentSrc,
    }
}

/// The depth attachment: cleared first and not kept, since nothing reads it
/// once the frame is drawn.
pub open spec fn depth_attachment() -> AttachmentDescription {
    AttachmentDescription {
        format: Format::D16UNorm,
        samples: 1,
        load_op: LoadOp::Clear,
        store_op: StoreOp::DontCare,
        stencil_load_op: LoadOp::DontCare,
        stencil_store_op: StoreOp::DontCare,
        initial_layout: ImageLayout::Undefined,
        final_layout: ImageLayout::DepthStencilAttachmentOptimal,
    }
}

impl RenderPassCreateInfo {
    /// The request is the one for a chain of the format `format`: the colour
    /// attachment first and the depth attachment second, and one subpass
    /// that draws to both.
    pub open spec fn for_format(self, format: Format) -> bool {
        &&& self.attachments@ == seq![color_attachment(format), depth_attachment()]
        &&& self.color_attachments@ == seq![
            AttachmentReference { attachment: 0, layout: ImageLayout::ColorAttachmentOptimal },
        ]
        &&& self.depth_stencil_attachment == Some(
            AttachmentReference {
                attachment: 1,
                layout: ImageLayout::DepthStencilAttachmentOptimal,
            },
        )
    }
}

/// Settles the render pass for a chain whose images have the format `format`.
pub fn create_render_pass(format: Format) -> (r: RenderPassCreateInfo)
    ensures
        r.for_format(format),
{
    let mut attachments: Vec<AttachmentDescription> = Vec::new();
    attachments.push(
        AttachmentDescription {
            format,
            samples: 1,
            load_op: LoadOp::Clear,
            store_op: StoreOp::Store,
            stencil_load_op: LoadOp::DontCare,
            stencil_store_op: StoreOp::DontCare,
            initial_layout: ImageLayout::Undefined,
            final_layout: ImageLayout::PresentSrc,
        },
    );
    attachments.push(
        AttachmentDescription {
            format: Format::D16UNorm,
            samples: 1,
            load_op: LoadOp::Clear,
            store_op: StoreOp::DontCare,
            stencil_load_op: LoadOp::DontCare,
            stencil_store_op: StoreOp::DontCare,
            initial_layout: ImageLayout::Undefined,
            final_layout: ImageLayout::DepthStencilAttachmentOptimal,
        },
    );
    let mut color_attachments: Vec<AttachmentReference> = Vec::new();
    color_attachments.push(
        AttachmentReference { attachment: 0, layout: ImageLayout::ColorAttachmentOptimal },
    );
    assert(attachments@ =~= seq![color_attachment(format), depth_attachment()]);
    assert(color_attachments@ =~= seq![
        AttachmentReference { attachment: 0, layout: ImageLayout::ColorAttachmentOptimal },
    ]);
    RenderPassCreateInfo {
        attachments,
        color_attachments,
        depth_stencil_attachment: Some(
            AttachmentReference {
                attachment: 1,
                layout: ImageLayout::DepthStencilAttachmentOptimal,
            },
        ),
    }
}

/// Settles the depth buffer of a generation: an image of the size of the
/// chain, in the format of the depth attachment, that is drawn to and lives
/// only while a frame is drawn.
pub fn create_depth_buffer(extent: &Extent2D) -> (r: DepthBufferCreateInfo)
    ensures
        r == (DepthBufferCreateInfo {
            format: depth_attachment().format,
            extent: *extent,
            usage: IMAGE_USAGE_DEPTH_STENCIL_ATTACHMENT | IMAGE_USAGE_TRANSIENT_ATTACHMENT,
        }),
{
    DepthBufferCreateInfo {
        format: Format::D16UNorm,
        extent: *extent,
        usage: IMAGE_USAGE_DEPTH_STENCIL_ATTACHMENT | IMAGE_USAGE_TRANSIENT_ATTACHMENT,
    }
}

/// The framebuffers fit the render pass they are made for: each binds as
/// many views as the render pass has attachments, the view of the image
/// where the colour attachment stands and the depth buffer where the depth
/// attachment stands, and the depth buffer has the size of the framebuffer
/// and the format of the depth attachment.
pub proof fn lemma_framebuffer_fits_render_pass(
    render_pass: RenderPassCreateInfo,
    format: Format,
    framebuffer: FramebufferCreateInfo,
    depth_buffer: DepthBufferCreateInfo,
    image_view: u64,
    depth_view: u64,
    extent: Extent2D,
)
    requires
        render_pass.for_format(format),
        framebuffer.binds(image_view, depth_view, extent),
        depth_buffer == (DepthBufferCreateInfo {
            format: depth_attachment().format,
            extent,
            usage: IMAGE_USAGE_DEPTH_STENCIL_ATTACHMENT | IMAGE_USAGE_TRANSIENT_ATTACHMENT,
        }),
    ensures
        framebuffer.attachments@.len() == render_pass.attachments@.len(),
        framebuffer.attachments@[render_pass.color_attachments@[0].attachment as int]
            == image_view,
        render_pass.depth_stencil_attachment matches Some(depth)
            && framebuffer.attachments@[depth.attachment as int] == depth_view
            && render_pass.attachments@[depth.attachment as int].format == depth_buffer.format,
        render_pass.attachments@[render_pass.color_attachments@[0].attachment as int].format
            == format,
        depth_buffer.extent.width == framebuffer.width,
        depth_buffer.extent.height == framebuffer.height,
{
}

} // verus!

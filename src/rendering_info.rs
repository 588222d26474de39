use vstd::prelude::*;
use crate::pipeline::Extent2D;

verus! {

#[derive(Clone, Copy, Debug, PartialEq, Eq, Structural)]
pub enum ImageLayout {
    Undefined,
    ColorAttachmentOptimal,
    DepthAttachmentOptimal,
    PresentSrc,
}

#[derive(Clone, Copy, Debug, PartialEq, Eq, Structural)]
pub enum ImageAspect {
    Color,
    Depth,
}

#[derive(Clone, Copy, Debug, PartialEq, Eq, Structural)]
pub enum LoadOp {
    Load,
    Clear,
    DontCare,
}

#[derive(Clone, Copy, Debug, PartialEq, Eq, Structural)]
pub enum StoreOp {
    Store,
    DontCare,
}

/// A layout transition of one image, within one queue family.
#[derive(Clone, Copy, Debug, PartialEq, Eq, Structural)]
pub struct ImageBarrier {
    pub image: u64,
    pub aspect: ImageAspect,
    pub old_layout: ImageLayout,
    pub new_layout: ImageLayout,
    pub queue_family_index: u32,
}

/// One attachment of the render pass.
#[derive(Clone, Copy, Debug, PartialEq, Eq, Structural)]
pub struct AttachmentInfo {
    pub image_view: u64,
    pub layout: ImageLayout,
    pub load_op: LoadOp,
    pub store_op: StoreOp,
}

/// The render pass of a frame: one color and one depth attachment, both
/// cleared on load and stored, over the whole extent.
#[derive(Clone, Copy, Debug, PartialEq, Eq, Structural)]
pub struct RenderingInfo {
    pub color_attachment: AttachmentInfo,
    pub depth_attachment: AttachmentInfo,
    pub extent: Extent2D,
    pub layer_count: u32,
}

impl RenderingInfo {
    pub fn new(color_view: u64, depth_view: u64, extent: Extent2D) -> (r: Self)
        ensures
            r.color_attachment == (AttachmentInfo {
                image_view: color_view,
                layout: ImageLayout::ColorAttachmentOptimal,
                load_op: LoadOp::Clear,
                store_op: StoreOp::Store,
            }),
            r.depth_attachment == (AttachmentInfo {
                image_view: depth_view,
                layout: ImageLayout::DepthAttachmentOptimal,
                load_op: LoadOp::Clear,
                store_op: StoreOp::Store,
            }),
            r.extent == extent,
            r.layer_count == 1,
    {
        RenderingInfo {
            color_attachment: AttachmentInfo {
                image_view: color_view,
                layout: ImageLayout::ColorAttachmentOptimal,
                load_op: LoadOp::Clear,
                store_op: StoreOp::Store,
            },
            depth_attachment: AttachmentInfo {
                image_view: depth_view,
                layout: ImageLayout::DepthAttachmentOptimal,
                load_op: LoadOp::Clear,
                store_op: StoreOp::Store,
            },
            extent,
            layer_count: 1,
        }
    }
}

/// The barriers recorded before rendering: the acquired color image from
/// undefined to color attachment, the depth image from undefined to depth
/// attachment.
pub fn opening_barriers(color_image: u64, depth_image: u64, queue_family_index: u32) -> (r: Vec<ImageBarrier>)
    ensures
        r@ == seq![
            ImageBarrier {
                image: color_image,
                aspect: ImageAspect::Color,
                old_layout: ImageLayout::Undefined,
                new_layout: ImageLayout::ColorAttachmentOptimal,
                queue_family_index,
            },
            ImageBarrier {
                image: depth_image,
                aspect: ImageAspect::Depth,
                old_layout: ImageLayout::Undefined,
                new_layout: ImageLayout::DepthAttachmentOptimal,
                queue_family_index,
            },
        ],
{
    let mut r: Vec<ImageBarrier> = Vec::new();
    r.push(ImageBarrier {
        image: color_image,
        aspect: ImageAspect::Color,
        old_layout: ImageLayout::Undefined,
        new_layout: ImageLayout::ColorAttachmentOptimal,
        queue_family_index,
    });
    r.push(ImageBarrier {
        image: depth_image,
        aspect: ImageAspect::Depth,
        old_layout: ImageLayout::Undefined,
        new_layout: ImageLayout::DepthAttachmentOptimal,
        queue_family_index,
    });
    assert(r@ =~= seq![
        ImageBarrier {
            image: color_image,
            aspect: ImageAspect::Color,
            old_layout: ImageLayout::Undefined,
            new_layout: ImageLayout::ColorAttachmentOptimal,
            queue_family_index,
        },
        ImageBarrier {
            image: depth_image,
            aspect: ImageAspect::Depth,
            old_layout: ImageLayout::Undefined,
            new_layout: ImageLayout::DepthAttachmentOptimal,
            queue_family_index,
        },
    ]);
    r
}

/// The barrier recorded after rendering: the color image from color
/// attachment to presentable.
pub fn closing_barrier(color_image: u64, queue_family_index: u32) -> (r: ImageBarrier)
    ensures
        r == (ImageBarrier {
            image: color_image,
            aspect: ImageAspect::Color,
            old_layout: ImageLayout::ColorAttachmentOptimal,
            new_layout: ImageLayout::PresentSrc,
            queue_family_index,
        }),
{
    ImageBarrier {
        image: color_image,
        aspect: ImageAspect::Color,
        old_layout: ImageLayout::ColorAttachmentOptimal,
        new_layout: ImageLayout::PresentSrc,
        queue_family_index,
    }
}

} // verus!

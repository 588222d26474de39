use vstd::prelude::*;
use crate::allocator::AllocatedImage;
use crate::frame::FRAMES_IN_FLIGHT;
use crate::pipeline::{Extent2D, DEPTH_FORMAT_D32_SFLOAT};

verus! {

#[derive(Clone, Copy, Debug, PartialEq, Eq, Structural)]
pub struct Extent3D {
    pub width: u32,
    pub height: u32,
    pub depth: u32,
}

#[derive(Clone, Copy, Debug, PartialEq, Eq, Structural)]
pub enum ImageType {
    OneDimensional,
    TwoDimensional,
    ThreeDimensional,
}

#[derive(Clone, Copy, Debug, PartialEq, Eq, Structural)]
pub enum ImageUsage {
    ColorAttachment,
    DepthStencilAttachment,
}

/// An image to allocate in device memory.
#[derive(Clone, Copy, Debug, PartialEq, Eq, Structural)]
pub struct ImageRequest {
    pub format: i32,
    pub extent: Extent3D,
    pub image_type: ImageType,
    pub array_layers: u32,
    pub mip_levels: u32,
    pub samples: u32,
    pub usage: ImageUsage,
    pub device_local: bool,
}

/// How many images the swapchain is created with: one per frame slot.
pub fn swapchain_image_count() -> (r: u32)
    ensures
        r == FRAMES_IN_FLIGHT,
{
    FRAMES_IN_FLIGHT as u32
}

/// The depth image of a swapchain: 32-bit float depth, two-dimensional, the
/// size of the surface, one layer, one mip level, one sample, device local.
pub fn depth_image_request(extent: Extent2D) -> (r: ImageRequest)
    ensures
        r == (ImageRequest {
            format: DEPTH_FORMAT_D32_SFLOAT,
            extent: Extent3D { width: extent.width, height: extent.height, depth: 1 },
            image_type: ImageType::TwoDimensional,
            array_layers: 1,
            mip_levels: 1,
            samples: 1,
            usage: ImageUsage::DepthStencilAttachment,
            device_local: true,
        }),
{
    ImageRequest {
        format: DEPTH_FORMAT_D32_SFLOAT,
        extent: Extent3D { width: extent.width, height: extent.height, depth: 1 },
        image_type: ImageType::TwoDimensional,
        array_layers: 1,
        mip_levels: 1,
        samples: 1,
        usage: ImageUsage::DepthStencilAttachment,
        device_local: true,
    }
}

/// The depth attachment: its image and the view over it.
#[derive(Clone, Copy, Debug, PartialEq, Eq, Structural)]
pub struct Depth {
    pub image_view: u64,
    pub allocated_image: AllocatedImage,
}

impl Depth {
    pub fn new(image_view: u64, allocated_image: AllocatedImage) -> (r: Self)
        ensures
            r.image_view == image_view,
            r.allocated_image == allocated_image,
    {
        Self { image_view, allocated_image }
    }
}

/// The presentable images of a swapchain, one view per image, and the
/// depth attachment, all of one extent.
pub struct SwapchainState {
    pub images: Vec<u64>,
    pub image_views: Vec<u64>,
    pub depth: Depth,
    pub extent: Extent2D,
}

impl SwapchainState {
    pub open spec fn images(&self) -> Seq<u64> {
        self.images@
    }

    pub open spec fn image_views(&self) -> Seq<u64> {
        self.image_views@
    }

    /// Builds the state; `None` unless there is one view per image.
    pub fn new(images: Vec<u64>, image_views: Vec<u64>, depth: Depth, extent: Extent2D) -> (r: Option<Self>)
        ensures
            r.is_some() <==> images@.len() == image_views@.len(),
            r.is_some() ==> ({
                let s = r->Some_0;
                &&& s.images() == images@
                &&& s.image_views() == image_views@
                &&& s.depth == depth
                &&& s.extent == extent
            }),
    {
        if images.len() != image_views.len() {
            return None;
        }
        Some(SwapchainState { images, image_views, depth, extent })
    }

    /// The acquired image and its view; `None` for an index the swapchain
    /// does not have.
    pub fn image_at(&self, index: u32) -> (r: Option<(u64, u64)>)
        ensures
            r.is_some() <==> (index as int) < self.images().len() && (index as int) < self.image_views().len(),
            r.is_some() ==> r->Some_0 == (self.images()[index as int], self.image_views()[index as int]),
    {
        let i = index as usize;
        if i < self.images.len() && i < self.image_views.len() {
            Some((self.images[i], self.image_views[i]))
        } else {
            None
        }
    }

    /// Every image view, for the device to destroy before the swapchain.
    pub fn views(&self) -> (r: &[u64])
        ensures
            r@ == self.image_views(),
    {
        self.image_views.as_slice()
    }
}

} // verus!

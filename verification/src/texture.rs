//! Sampled textures: built synchronously from raw pixel data through a
//! host-visible staging buffer, destroyed asynchronously through the command
//! queue, exactly once.

use vstd::prelude::*;

use crate::buffer::{
    BUFFER_USAGE_TRANSFER_SRC, MEMORY_PROPERTY_HOST_COHERENT, MEMORY_PROPERTY_HOST_VISIBLE,
};
use crate::channel::ChannelClosedError;
use crate::write_descriptor_info::{DescriptorImageInfo, ImageLayout};
use crate::Vust;

verus! {

/// Raw device format value: four 8-bit channels, sRGB.
pub const FORMAT_R8G8B8A8_SRGB: i32 = 43;

/// Raw device filter value: nearest-neighbour sampling.
pub const FILTER_NEAREST: i32 = 0;

/// Raw device filter value: linear interpolation.
pub const FILTER_LINEAR: i32 = 1;

/// Image-usage bit: destination of transfer operations.
pub const IMAGE_USAGE_TRANSFER_DST: u32 = 0x2;

/// Image-usage bit: can be sampled from.
pub const IMAGE_USAGE_SAMPLED: u32 = 0x4;

/// A sampled texture: its device objects and whether its destruction has been
/// enqueued. Handles are raw device object ids.
pub struct Texture {
    image: u64,
    allocation: Option<gpu_allocator::vulkan::Allocation>,
    view: u64,
    sampler: u64,
    descriptor_info: DescriptorImageInfo,
    destroyed: bool,
}

impl Texture {
    pub closed spec fn spec_image(self) -> u64 {
        self.image
    }

    pub closed spec fn spec_view(self) -> u64 {
        self.view
    }

    pub closed spec fn spec_sampler(self) -> u64 {
        self.sampler
    }

    pub closed spec fn spec_destroyed(self) -> bool {
        self.destroyed
    }

    pub closed spec fn spec_descriptor_info(self) -> DescriptorImageInfo {
        self.descriptor_info
    }

    /// A fresh builder: no data, no dimensions, four sRGB channels, sampled
    /// nearest.
    pub fn builder() -> (r: TextureBuilder)
        ensures
            r.data@.len() == 0,
            r.dimensions == (0u32, 0u32),
            r.format == FORMAT_R8G8B8A8_SRGB,
            r.filter == FILTER_NEAREST,
    {
        TextureBuilder {
            name: "Default".to_owned(),
            data: Vec::new(),
            dimensions: (0, 0),
            format: FORMAT_R8G8B8A8_SRGB,
            filter: FILTER_NEAREST,
        }
    }

    /// Assemble a texture from the device objects built for it. Its
    /// descriptor-info record declares the view and sampler in the
    /// read-only-optimal layout sampled textures stay in.
    pub fn from_parts(
        image: u64,
        view: u64,
        sampler: u64,
        allocation: Option<gpu_allocator::vulkan::Allocation>,
    ) -> (r: Texture)
        ensures
            r.spec_image() == image,
            r.spec_view() == view,
            r.spec_sampler() == sampler,
            !r.spec_destroyed(),
            r.spec_descriptor_info() == (DescriptorImageInfo {
                image_layout: ImageLayout::ShaderReadOnlyOptimal,
                image_view: view,
                sampler,
            }),
    {
        Texture {
            image,
            allocation,
            view,
            sampler,
            descriptor_info: DescriptorImageInfo {
                image_layout: ImageLayout::ShaderReadOnlyOptimal,
                image_view: view,
                sampler,
            },
            destroyed: false,
        }
    }

    /// Enqueue the destruction of the texture's device objects and the return
    /// of its allocation, strictly behind every command already enqueued.
    /// Does nothing when destruction was already enqueued: a texture is
    /// destroyed exactly once.
    pub fn destroy(&mut self, vust: &Vust) -> (r: Result<(), ChannelClosedError>)
        ensures
            final(self).spec_destroyed(),
            final(self).spec_image() == old(self).spec_image(),
            final(self).spec_view() == old(self).spec_view(),
            final(self).spec_sampler() == old(self).spec_sampler(),
            final(self).spec_descriptor_info() == old(self).spec_descriptor_info(),
            old(self).spec_destroyed() ==> r is Ok,
    {
        if self.destroyed {
            return Ok(());
        }
        self.destroyed = true;
        let allocation = self.allocation.take();
        vust.destroy_texture_parts(self.image, self.view, self.sampler, allocation)
    }

    /// Whether destruction has been enqueued; a texture still alive when its
    /// owner is done with it is a leak.
    pub fn is_destroyed(&self) -> (r: bool)
        ensures
            r == self.spec_destroyed(),
    {
        self.destroyed
    }

    /// The raw device image-view handle.
    pub fn view(&self) -> (r: u64)
        ensures
            r == self.spec_view(),
    {
        self.view
    }

    /// The raw device sampler handle.
    pub fn sampler(&self) -> (r: u64)
        ensures
            r == self.spec_sampler(),
    {
        self.sampler
    }

    /// The descriptor-info record for binding this texture.
    pub fn descriptor_info(&self) -> (r: DescriptorImageInfo)
        ensures
            r == self.spec_descriptor_info(),
    {
        self.descriptor_info
    }
}

/// Everything the texture build decides before the device is touched: how the
/// staging buffer is created and written, how the image is created, which
/// layout transitions bracket the copy, and how the sampler filters.
pub struct TextureBuildPlan {
    /// Usage bits of the staging buffer: a transfer source.
    pub staging_usage: u32,
    /// Memory-property bits of the staging buffer: host visible and coherent.
    pub staging_memory_properties: u32,
    /// The staging buffer is written with the pixel data at creation.
    pub staging_write_on_creation: bool,
    pub width: u32,
    pub height: u32,
    pub format: i32,
    pub filter: i32,
    /// Usage bits of the image: transfer destination, sampled.
    pub image_usage: u32,
    /// The image's layout transition before the copy.
    pub pre_copy_from: ImageLayout,
    pub pre_copy_to: ImageLayout,
    /// The image's layout transition after the copy.
    pub post_copy_from: ImageLayout,
    pub post_copy_to: ImageLayout,
}

/// Describes a texture about to be built.
pub struct TextureBuilder {
    pub name: String,
    pub data: Vec<u8>,
    pub dimensions: (u32, u32),
    pub format: i32,
    pub filter: i32,
}

impl TextureBuilder {
    /// Name the texture, for allocator tracking and debugging.
    pub fn with_name(self, name: &str) -> (r: Self)
        ensures
            r.data == self.data,
            r.dimensions == self.dimensions,
            r.format == self.format,
            r.filter == self.filter,
    {
        let TextureBuilder { name: _, data, dimensions, format, filter } = self;
        TextureBuilder { name: name.to_owned(), data, dimensions, format, filter }
    }

    /// The raw pixel bytes the texture is filled with.
    pub fn with_data(self, data: Vec<u8>) -> (r: Self)
        ensures
            r.data == data,
            r.name == self.name,
            r.dimensions == self.dimensions,
            r.format == self.format,
            r.filter == self.filter,
    {
        let TextureBuilder { name, data: _, dimensions, format, filter } = self;
        TextureBuilder { name, data, dimensions, format, filter }
    }

    /// Width and height in pixels.
    pub fn with_dimensions(self, dimensions: (u32, u32)) -> (r: Self)
        ensures
            r.dimensions == dimensions,
            r.name == self.name,
            r.data == self.data,
            r.format == self.format,
            r.filter == self.filter,
    {
        let TextureBuilder { name, data, dimensions: _, format, filter } = self;
        TextureBuilder { name, data, dimensions, format, filter }
    }

    /// The raw device format value of the pixel data.
    pub fn with_format(self, format: i32) -> (r: Self)
        ensures
            r.format == format,
            r.name == self.name,
            r.data == self.data,
            r.dimensions == self.dimensions,
            r.filter == self.filter,
    {
        let TextureBuilder { name, data, dimensions, format: _, filter } = self;
        TextureBuilder { name, data, dimensions, format, filter }
    }

    /// The raw device filter value the sampler uses.
    pub fn with_filter(self, filter: i32) -> (r: Self)
        ensures
            r.filter == filter,
            r.name == self.name,
            r.data == self.data,
            r.dimensions == self.dimensions,
            r.format == self.format,
    {
        let TextureBuilder { name, data, dimensions, format, filter: _ } = self;
        TextureBuilder { name, data, dimensions, format, filter }
    }

    /// Decide the whole build, or nothing when there is no data: the staging
    /// buffer is a host-visible, host-coherent transfer source written at
    /// creation; the image is a sampled transfer destination of the builder's
    /// size and format; the copy is bracketed by the transitions from
    /// undefined to transfer-destination and on to read-only-optimal.
    pub fn build_plan(&self) -> (r: Option<TextureBuildPlan>)
        ensures
            r is Some <==> self.data@.len() > 0,
            r matches Some(p) ==> {
                &&& p.staging_usage == BUFFER_USAGE_TRANSFER_SRC
                &&& p.staging_memory_properties == MEMORY_PROPERTY_HOST_VISIBLE
                    | MEMORY_PROPERTY_HOST_COHERENT
                &&& p.staging_write_on_creation
                &&& p.width == self.dimensions.0
                &&& p.height == self.dimensions.1
                &&& p.format == self.format
                &&& p.filter == self.filter
                &&& p.image_usage == IMAGE_USAGE_TRANSFER_DST | IMAGE_USAGE_SAMPLED
                &&& p.pre_copy_from == ImageLayout::Undefined
                &&& p.pre_copy_to == ImageLayout::TransferDstOptimal
                &&& p.post_copy_from == ImageLayout::TransferDstOptimal
                &&& p.post_copy_to == ImageLayout::ShaderReadOnlyOptimal
            },
    {
        if self.data.len() == 0 {
            return None;
        }
        Some(
            TextureBuildPlan {
                staging_usage: BUFFER_USAGE_TRANSFER_SRC,
                staging_memory_properties: MEMORY_PROPERTY_HOST_VISIBLE
                    | MEMORY_PROPERTY_HOST_COHERENT,
                staging_write_on_creation: true,
                width: self.dimensions.0,
                height: self.dimensions.1,
                format: self.format,
                filter: self.filter,
                image_usage: IMAGE_USAGE_TRANSFER_DST | IMAGE_USAGE_SAMPLED,
                pre_copy_from: ImageLayout::Undefined,
                pre_copy_to: ImageLayout::TransferDstOptimal,
                post_copy_from: ImageLayout::TransferDstOptimal,
                post_copy_to: ImageLayout::ShaderReadOnlyOptimal,
            },
        )
    }
}

/// Source and destination access masks and pipeline stages of an image layout
/// transition, as raw device values, and whether the barrier covers the
/// depth-and-stencil aspect instead of color.
#[derive(Clone, Copy, Debug, PartialEq, Eq, Structural)]
pub struct BarrierPlan {
    pub src_access: u32,
    pub dst_access: u32,
    pub src_stage: u32,
    pub dst_stage: u32,
    pub depth_stencil_aspect: bool,
}

/// Access bit: written by a transfer operation.
pub const ACCESS_TRANSFER_WRITE: u32 = 0x1000;

/// Access bit: read by a shader.
pub const ACCESS_SHADER_READ: u32 = 0x20;

/// Access bit: read as a depth/stencil attachment.
pub const ACCESS_DEPTH_STENCIL_ATTACHMENT_READ: u32 = 0x200;

/// Access bit: written as a depth/stencil attachment.
pub const ACCESS_DEPTH_STENCIL_ATTACHMENT_WRITE: u32 = 0x400;

/// Pipeline-stage bit: before any other work.
pub const PIPELINE_STAGE_TOP_OF_PIPE: u32 = 0x1;

/// Pipeline-stage bit: transfer operations.
pub const PIPELINE_STAGE_TRANSFER: u32 = 0x1000;

/// Pipeline-stage bit: the fragment shader.
pub const PIPELINE_STAGE_FRAGMENT_SHADER: u32 = 0x80;

/// Pipeline-stage bit: early per-fragment tests.
pub const PIPELINE_STAGE_EARLY_FRAGMENT_TESTS: u32 = 0x100;

/// The barrier for an image layout transition. The three supported
/// transitions are: undefined to transfer-destination (before a copy into a
/// fresh image), transfer-destination to shader-read-only (after the copy),
/// and undefined to depth-stencil-attachment (for a fresh depth buffer, on
/// the depth-and-stencil aspect). Any other pair is unsupported and yields
/// nothing.
pub open spec fn spec_transition_barrier(from: ImageLayout, to: ImageLayout) -> Option<
    BarrierPlan,
> {
    if from == ImageLayout::Undefined && to == ImageLayout::TransferDstOptimal {
        Some(
            BarrierPlan {
                src_access: 0,
                dst_access: ACCESS_TRANSFER_WRITE,
                src_stage: PIPELINE_STAGE_TOP_OF_PIPE,
                dst_stage: PIPELINE_STAGE_TRANSFER,
                depth_stencil_aspect: false,
            },
        )
    } else if from == ImageLayout::TransferDstOptimal && to == ImageLayout::ShaderReadOnlyOptimal {
        Some(
            BarrierPlan {
                src_access: ACCESS_TRANSFER_WRITE,
                dst_access: ACCESS_SHADER_READ,
                src_stage: PIPELINE_STAGE_TRANSFER,
                dst_stage: PIPELINE_STAGE_FRAGMENT_SHADER,
                depth_stencil_aspect: false,
            },
        )
    } else if from == ImageLayout::Undefined && to == ImageLayout::DepthStencilAttachmentOptimal {
        Some(
            BarrierPlan {
                src_access: 0,
                dst_access: ACCESS_DEPTH_STENCIL_ATTACHMENT_READ
                    | ACCESS_DEPTH_STENCIL_ATTACHMENT_WRITE,
                src_stage: PIPELINE_STAGE_TOP_OF_PIPE,
                dst_stage: PIPELINE_STAGE_EARLY_FRAGMENT_TESTS,
                depth_stencil_aspect: true,
            },
        )
    } else {
        None
    }
}

/// Decide the barrier for an image layout transition; `None` exactly for the
/// unsupported pairs.
pub fn transition_barrier(from: ImageLayout, to: ImageLayout) -> (r: Option<BarrierPlan>)
    ensures
        r == spec_transition_barrier(from, to),
{
    if from == ImageLayout::Undefined && to == ImageLayout::TransferDstOptimal {
        Some(
            BarrierPlan {
                src_access: 0,
                dst_access: ACCESS_TRANSFER_WRITE,
                src_stage: PIPELINE_STAGE_TOP_OF_PIPE,
                dst_stage: PIPELINE_STAGE_TRANSFER,
                depth_stencil_aspect: false,
            },
        )
    } else if from == ImageLayout::TransferDstOptimal && to == ImageLayout::ShaderReadOnlyOptimal {
        Some(
            BarrierPlan {
                src_access: ACCESS_TRANSFER_WRITE,
                dst_access: ACCESS_SHADER_READ,
                src_stage: PIPELINE_STAGE_TRANSFER,
                dst_stage: PIPELINE_STAGE_FRAGMENT_SHADER,
                depth_stencil_aspect: false,
            },
        )
    } else if from == ImageLayout::Undefined && to == ImageLayout::DepthStencilAttachmentOptimal {
        Some(
            BarrierPlan {
                src_access: 0,
                dst_access: ACCESS_DEPTH_STENCIL_ATTACHMENT_READ
                    | ACCESS_DEPTH_STENCIL_ATTACHMENT_WRITE,
                src_stage: PIPELINE_STAGE_TOP_OF_PIPE,
                dst_stage: PIPELINE_STAGE_EARLY_FRAGMENT_TESTS,
                depth_stencil_aspect: true,
            },
        )
    } else {
        None
    }
}

} // verus!

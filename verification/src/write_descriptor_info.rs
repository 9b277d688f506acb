//! Payloads for descriptor-table writes, and their translation into the
//! plain device-level write records that the render actor hands to the device.

use vstd::prelude::*;

verus! {

/// Image layout a descriptor image binding is sampled in. Sampled textures are
/// always handed to shaders in the read-only-optimal layout.
#[derive(Clone, Copy, Debug, PartialEq, Eq, Structural)]
pub enum ImageLayout {
    Undefined,
    TransferDstOptimal,
    ShaderReadOnlyOptimal,
    DepthStencilAttachmentOptimal,
}

/// What a single descriptor binding should be pointed at: a region of a
/// buffer, or a sampled image. Handles are raw device object ids.
#[derive(Clone, Copy, Debug, PartialEq, Eq, Structural)]
pub enum WriteDescriptorInfo {
    Buffer { buffer: u64, offset: u64, range: u64 },
    Image { image_view: u64, sampler: u64 },
}

/// Device-level description of a buffer region bound to a descriptor.
#[derive(Clone, Copy, Debug, PartialEq, Eq, Structural)]
pub struct DescriptorBufferInfo {
    pub buffer: u64,
    pub offset: u64,
    pub range: u64,
}

/// Device-level description of a sampled image bound to a descriptor.
#[derive(Clone, Copy, Debug, PartialEq, Eq, Structural)]
pub struct DescriptorImageInfo {
    pub image_layout: ImageLayout,
    pub image_view: u64,
    pub sampler: u64,
}

impl WriteDescriptorInfo {
    /// The buffer-info record this payload translates to, if it is a buffer binding.
    pub open spec fn spec_buffer_info(self) -> Option<DescriptorBufferInfo> {
        match self {
            WriteDescriptorInfo::Buffer { buffer, offset, range } => Some(
                DescriptorBufferInfo { buffer, offset, range },
            ),
            WriteDescriptorInfo::Image { .. } => None,
        }
    }

    /// The image-info record this payload translates to, if it is an image
    /// binding. Sampled images are always declared in the read-only-optimal layout.
    pub open spec fn spec_image_info(self) -> Option<DescriptorImageInfo> {
        match self {
            WriteDescriptorInfo::Buffer { .. } => None,
            WriteDescriptorInfo::Image { image_view, sampler } => Some(
                DescriptorImageInfo {
                    image_layout: ImageLayout::ShaderReadOnlyOptimal,
                    image_view,
                    sampler,
                },
            ),
        }
    }

    /// Translate the payload into the pair of optional device-level records:
    /// exactly one of the two sides is populated.
    pub fn to_vk(&self) -> (r: (Option<DescriptorBufferInfo>, Option<DescriptorImageInfo>))
        ensures
            r.0 == self.spec_buffer_info(),
            r.1 == self.spec_image_info(),
            r.0 is Some <==> r.1 is None,
    {
        match self {
            WriteDescriptorInfo::Buffer { buffer, offset, range } => (
                Some(DescriptorBufferInfo { buffer: *buffer, offset: *offset, range: *range }),
                None,
            ),
            WriteDescriptorInfo::Image { image_view, sampler } => (
                None,
                Some(
                    DescriptorImageInfo {
                        image_layout: ImageLayout::ShaderReadOnlyOptimal,
                        image_view: *image_view,
                        sampler: *sampler,
                    },
                ),
            ),
        }
    }
}

} // verus!

use vstd::prelude::*;

use crate::constant::{
    BUFFER_USAGE_INDEX_BUFFER, BUFFER_USAGE_TRANSFER_DST, BUFFER_USAGE_TRANSFER_SRC,
    BUFFER_USAGE_VERTEX_BUFFER, MEMORY_DEVICE_LOCAL, MEMORY_HOST_COHERENT, MEMORY_HOST_VISIBLE,
};
use crate::swapchain::Extent2D;

verus! {

/// Bytes of one vertex: a 2D position and an RGB color, four bytes per component.
pub const VERTEX_STRIDE: u64 = 20;

/// Bytes of one 16-bit index.
pub const INDEX_SIZE: u64 = 2;

/// Memory type `i` is allowed by the resource's filter and has every requested property.
pub open spec fn memory_type_suitable(
    type_filter: u32,
    properties: u32,
    memory_types: Seq<u32>,
    i: int,
) -> bool {
    &&& 0 <= i < memory_types.len()
    &&& i < 32
    &&& type_filter & (1u32 << (i as u32)) != 0
    &&& memory_types[i] & properties == properties
}

/// Some memory type is allowed by the filter and has every requested property.
pub open spec fn has_suitable_memory_type(type_filter: u32, properties: u32, memory_types: Seq<u32>) -> bool {
    exists|i: int| #[trigger] memory_type_suitable(type_filter, properties, memory_types, i)
}

/// Tells whether any memory type is allowed by `type_filter` and has every property of
/// `properties`; without one, no memory can be allocated for the resource.
pub fn suitable_memory_type_exists(type_filter: u32, properties: u32, memory_types: &Vec<u32>) -> (r:
    bool)
    requires
        memory_types@.len() <= 32,
    ensures
        r == has_suitable_memory_type(type_filter, properties, memory_types@),
{
    let mut i: u32 = 0;
    while (i as usize) < memory_types.len()
        invariant
            memory_types@.len() <= 32,
            0 <= i <= memory_types@.len(),
            forall|j: int|
                0 <= j < i ==> !memory_type_suitable(type_filter, properties, memory_types@, j),
        decreases memory_types@.len() - i,
    {
        if type_filter & (1u32 << i) != 0 && memory_types[i as usize] & properties == properties {
            assert(memory_type_suitable(type_filter, properties, memory_types@, i as int));
            return true;
        }
        i = i + 1;
    }
    false
}

/// Finds the first memory type allowed by `type_filter` whose property flags include
/// all of `properties`; `memory_types[i]` holds the property flags of type `i`. A
/// resource with no such type cannot be backed by memory at all, so callers first
/// make sure that one exists.
pub fn find_memory_type(type_filter: u32, properties: u32, memory_types: &Vec<u32>) -> (r: u32)
    requires
        memory_types@.len() <= 32,
        has_suitable_memory_type(type_filter, properties, memory_types@),
    ensures
        memory_type_suitable(type_filter, properties, memory_types@, r as int),
        forall|j: int| 0 <= j < r ==> !memory_type_suitable(type_filter, properties, memory_types@, j),
{
    let mut i: u32 = 0;
    while (i as usize) < memory_types.len()
        invariant
            memory_types@.len() <= 32,
            0 <= i <= memory_types@.len(),
            has_suitable_memory_type(type_filter, properties, memory_types@),
            forall|j: int|
                0 <= j < i ==> !memory_type_suitable(type_filter, properties, memory_types@, j),
        decreases memory_types@.len() - i,
    {
        if type_filter & (1u32 << i) != 0 && memory_types[i as usize] & properties == properties {
            return i;
        }
        i = i + 1;
    }
    i
}

/// A buffer to create: its size, usage flags and the memory properties it needs.
#[derive(Clone, Copy, Debug, PartialEq, Eq, Structural)]
pub struct BufferRequest {
    pub size: u64,
    pub usage: u32,
    pub memory_properties: u32,
}

/// How data reaches a device-local buffer: through a host-visible, host-coherent
/// staging buffer of the same size, copied over on a transfer queue.
#[derive(Clone, Copy, Debug, PartialEq, Eq, Structural)]
pub struct UploadPlan {
    pub staging: BufferRequest,
    pub destination: BufferRequest,
    pub copy_size: u64,
}

/// The staging upload of `size` bytes into a device-local buffer with `usage`.
pub open spec fn upload_plan_for(size: u64, usage: u32) -> UploadPlan {
    UploadPlan {
        staging: BufferRequest {
            size,
            usage: BUFFER_USAGE_TRANSFER_SRC,
            memory_properties: MEMORY_HOST_VISIBLE | MEMORY_HOST_COHERENT,
        },
        destination: BufferRequest {
            size,
            usage: usage | BUFFER_USAGE_TRANSFER_DST,
            memory_properties: MEMORY_DEVICE_LOCAL,
        },
        copy_size: size,
    }
}

fn upload_plan(size: u64, usage: u32) -> (r: UploadPlan)
    ensures
        r == upload_plan_for(size, usage),
{
    UploadPlan {
        staging: BufferRequest {
            size,
            usage: BUFFER_USAGE_TRANSFER_SRC,
            memory_properties: MEMORY_HOST_VISIBLE | MEMORY_HOST_COHERENT,
        },
        destination: BufferRequest {
            size,
            usage: usage | BUFFER_USAGE_TRANSFER_DST,
            memory_properties: MEMORY_DEVICE_LOCAL,
        },
        copy_size: size,
    }
}

/// Plans the upload of `vertex_count` vertices into a device-local vertex buffer.
pub fn create_vertex_buffer(vertex_count: u64) -> (r: UploadPlan)
    requires
        vertex_count * VERTEX_STRIDE <= u64::MAX,
    ensures
        r == upload_plan_for((vertex_count * VERTEX_STRIDE) as u64, BUFFER_USAGE_VERTEX_BUFFER),
{
    upload_plan(vertex_count * VERTEX_STRIDE, BUFFER_USAGE_VERTEX_BUFFER)
}

/// Plans the upload of `index_count` 16-bit indices into a device-local index buffer.
pub fn create_index_buffer(index_count: u64) -> (r: UploadPlan)
    requires
        index_count * INDEX_SIZE <= u64::MAX,
    ensures
        r == upload_plan_for((index_count * INDEX_SIZE) as u64, BUFFER_USAGE_INDEX_BUFFER),
{
    upload_plan(index_count * INDEX_SIZE, BUFFER_USAGE_INDEX_BUFFER)
}

/// One command written into a frame's command buffer.
#[derive(Clone, Copy, Debug, PartialEq, Eq, Structural)]
pub enum DrawCommand {
    /// Begin recording, with simultaneous-use semantics.
    BeginCommandBuffer,
    /// Begin the render pass on the framebuffer of this swapchain image, over the
    /// whole extent, clearing the color attachment to opaque black.
    BeginRenderPass { framebuffer: u32, extent: Extent2D },
    /// Bind the graphics pipeline.
    BindPipeline,
    /// Set the viewport to the whole extent, depth from 0 to 1.
    SetViewport { extent: Extent2D },
    /// Set the scissor to the whole extent.
    SetScissor { extent: Extent2D },
    /// Bind the vertex buffer at offset 0.
    BindVertexBuffer,
    /// Bind the index buffer at offset 0, with 16-bit indices.
    BindIndexBuffer,
    /// Draw this many indices, one instance.
    DrawIndexed { index_count: u32 },
    EndRenderPass,
    EndCommandBuffer,
}

/// The fixed sequence of commands that draws one frame into swapchain image
/// `image_index`.
pub open spec fn draw_commands(image_index: u32, extent: Extent2D, index_count: u32) -> Seq<
    DrawCommand,
> {
    seq![
        DrawCommand::BeginCommandBuffer,
        DrawCommand::BeginRenderPass { framebuffer: image_index, extent },
        DrawCommand::BindPipeline,
        DrawCommand::SetViewport { extent },
        DrawCommand::SetScissor { extent },
        DrawCommand::BindVertexBuffer,
        DrawCommand::BindIndexBuffer,
        DrawCommand::DrawIndexed { index_count },
        DrawCommand::EndRenderPass,
        DrawCommand::EndCommandBuffer,
    ]
}

/// Lists the commands to record for swapchain image `image_index`, which must have
/// one of the `framebuffer_count` framebuffers.
pub fn record_command_buffer(
    framebuffer_count: usize,
    image_index: u32,
    extent: Extent2D,
    index_count: u32,
) -> (r: Vec<DrawCommand>)
    requires
        (image_index as int) < framebuffer_count,
    ensures
        r@ == draw_commands(image_index, extent, index_count),
{
    let r = vec![
        DrawCommand::BeginCommandBuffer,
        DrawCommand::BeginRenderPass { framebuffer: image_index, extent },
        DrawCommand::BindPipeline,
        DrawCommand::SetViewport { extent },
        DrawCommand::SetScissor { extent },
        DrawCommand::BindVertexBuffer,
        DrawCommand::BindIndexBuffer,
        DrawCommand::DrawIndexed { index_count },
        DrawCommand::EndRenderPass,
        DrawCommand::EndCommandBuffer,
    ];
    r
}

} // verus!

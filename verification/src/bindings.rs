//! What the shaders are bound to: the layout of the compute and substrate
//! bind groups, the resources in each bind group, and the vertex buffers of
//! the agent draw.

use vstd::prelude::*;
use crate::sizing::{
    F32_BYTES, FLOATS_PER_PARTICLE, NUM_PARTICLES, particle_buffer_bytes, particle_bytes,
    sim_param_buffer_bytes, sim_param_bytes,
};

verus! {

/// Floats of one corner of the agent triangle (x and y).
pub const FLOATS_PER_VERTEX: u32 = 2;

/// Corners of the triangle drawn for each agent.
pub const TRIANGLE_VERTICES: u32 = 3;

/// Bytes of one vertex attribute: two `f32` values.
pub const ATTRIBUTE_BYTES: u64 = 8;

/// The shader stage that sees a binding.
#[derive(Clone, Copy, Debug, PartialEq, Eq)]
pub enum ShaderStage {
    Compute,
    Fragment,
}

/// How a shader may use the substrate texture.
#[derive(Clone, Copy, Debug, PartialEq, Eq)]
pub enum TextureAccess {
    ReadOnly,
    ReadWrite,
}

/// The kind of resource a binding expects. A storage texture is always a
/// two-dimensional texture of RGBA 16-bit floats, the substrate's format.
#[derive(Clone, Copy, Debug, PartialEq, Eq)]
pub enum BindingKind {
    UniformBuffer,
    StorageBuffer { read_only: bool },
    StorageTexture { access: TextureAccess },
}

/// One entry of a bind group layout. Buffers carry the least size, in bytes,
/// that a buffer bound there must have.
#[derive(Clone, Copy, Debug, PartialEq, Eq)]
pub struct LayoutEntry {
    pub binding: u32,
    pub stage: ShaderStage,
    pub kind: BindingKind,
    pub min_binding_size: Option<u64>,
}

/// A resource of the simulation that a bind group entry points at.
#[derive(Clone, Copy, Debug, PartialEq, Eq)]
pub enum BoundResource {
    /// The uniform buffer of simulation parameters.
    SimParams,
    /// One of the two particle buffers, by index.
    ParticleBuffer(usize),
    /// A view of the whole substrate texture.
    SubstrateView,
}

/// One entry of a bind group.
#[derive(Clone, Copy, Debug, PartialEq, Eq)]
pub struct BindGroupEntry {
    pub binding: u32,
    pub resource: BoundResource,
}

/// Whether a vertex buffer advances per vertex or per instance.
#[derive(Clone, Copy, Debug, PartialEq, Eq)]
pub enum StepMode {
    Vertex,
    Instance,
}

/// A two-float vertex attribute at a shader location and a byte offset.
#[derive(Clone, Copy, Debug, PartialEq, Eq)]
pub struct VertexAttribute {
    pub location: u32,
    pub offset: u64,
}

/// The layout of one vertex buffer of the agent draw.
#[derive(Debug, PartialEq, Eq)]
pub struct VertexLayout {
    pub stride: u64,
    pub step: StepMode,
    pub attributes: Vec<VertexAttribute>,
}

/// The particle buffer that bind group `i` reads the agents from.
pub open spec fn source_buffer(i: int) -> int {
    i
}

/// The particle buffer that bind group `i` writes the moved agents to: the
/// other one.
pub open spec fn destination_buffer(i: int) -> int {
    (i + 1) % 2
}

/// Layout of the bind group of both compute kernels.
pub open spec fn compute_layout() -> Seq<LayoutEntry> {
    seq![
        LayoutEntry {
            binding: 0,
            stage: ShaderStage::Compute,
            kind: BindingKind::UniformBuffer,
            min_binding_size: Some(sim_param_bytes() as u64),
        },
        LayoutEntry {
            binding: 1,
            stage: ShaderStage::Compute,
            kind: BindingKind::StorageBuffer { read_only: true },
            min_binding_size: Some(particle_bytes() as u64),
        },
        LayoutEntry {
            binding: 2,
            stage: ShaderStage::Compute,
            kind: BindingKind::StorageBuffer { read_only: false },
            min_binding_size: Some(particle_bytes() as u64),
        },
        LayoutEntry {
            binding: 3,
            stage: ShaderStage::Compute,
            kind: BindingKind::StorageTexture { access: TextureAccess::ReadWrite },
            min_binding_size: None,
        },
    ]
}

/// Layout of the bind group of the substrate draw.
pub open spec fn substrate_layout() -> Seq<LayoutEntry> {
    seq![
        LayoutEntry {
            binding: 0,
            stage: ShaderStage::Fragment,
            kind: BindingKind::StorageTexture { access: TextureAccess::ReadOnly },
            min_binding_size: None,
        },
    ]
}

/// Compute bind group `i` (0 or 1): parameters, the source particle buffer,
/// the destination particle buffer and the substrate.
pub open spec fn particle_bind_group(i: int) -> Seq<BindGroupEntry> {
    seq![
        BindGroupEntry { binding: 0, resource: BoundResource::SimParams },
        BindGroupEntry {
            binding: 1,
            resource: BoundResource::ParticleBuffer(source_buffer(i) as usize),
        },
        BindGroupEntry {
            binding: 2,
            resource: BoundResource::ParticleBuffer(destination_buffer(i) as usize),
        },
        BindGroupEntry { binding: 3, resource: BoundResource::SubstrateView },
    ]
}

/// The substrate draw's bind group.
pub open spec fn substrate_bind_group() -> Seq<BindGroupEntry> {
    seq![BindGroupEntry { binding: 0, resource: BoundResource::SubstrateView }]
}

/// Whether a resource can stand at a binding of the given kind.
pub open spec fn resource_fits(kind: BindingKind, resource: BoundResource) -> bool {
    match resource {
        BoundResource::SimParams => kind == BindingKind::UniformBuffer,
        BoundResource::ParticleBuffer(_) => kind is StorageBuffer,
        BoundResource::SubstrateView => kind is StorageTexture,
    }
}

/// Whether a bind group matches a layout: entry by entry the same binding
/// numbers, each with a resource of the kind the layout expects.
pub open spec fn matches_layout(group: Seq<BindGroupEntry>, layout: Seq<LayoutEntry>) -> bool {
    &&& group.len() == layout.len()
    &&& forall|k: int|
        0 <= k < group.len() ==> {
            &&& #[trigger] group[k].binding == layout[k].binding
            &&& resource_fits(layout[k].kind, group[k].resource)
        }
}

/// Entries of the compute bind group layout.
pub fn compute_layout_entries() -> (r: Vec<LayoutEntry>)
    ensures
        r@ == compute_layout(),
{
    let particle_bytes = particle_buffer_bytes();
    vec![
        LayoutEntry {
            binding: 0,
            stage: ShaderStage::Compute,
            kind: BindingKind::UniformBuffer,
            min_binding_size: Some(sim_param_buffer_bytes()),
        },
        LayoutEntry {
            binding: 1,
            stage: ShaderStage::Compute,
            kind: BindingKind::StorageBuffer { read_only: true },
            min_binding_size: Some(particle_bytes),
        },
        LayoutEntry {
            binding: 2,
            stage: ShaderStage::Compute,
            kind: BindingKind::StorageBuffer { read_only: false },
            min_binding_size: Some(particle_bytes),
        },
        LayoutEntry {
            binding: 3,
            stage: ShaderStage::Compute,
            kind: BindingKind::StorageTexture { access: TextureAccess::ReadWrite },
            min_binding_size: None,
        },
    ]
}

/// Entries of the substrate bind group layout.
pub fn substrate_layout_entries() -> (r: Vec<LayoutEntry>)
    ensures
        r@ == substrate_layout(),
{
    vec![
        LayoutEntry {
            binding: 0,
            stage: ShaderStage::Fragment,
            kind: BindingKind::StorageTexture { access: TextureAccess::ReadOnly },
            min_binding_size: None,
        },
    ]
}

/// Entries of compute bind group `i`; the two groups swap the particle
/// buffers, so that each frame writes the buffer the previous one read.
pub fn particle_bind_group_entries(i: usize) -> (r: Vec<BindGroupEntry>)
    requires
        i < 2,
    ensures
        r@ == particle_bind_group(i as int),
{
    vec![
        BindGroupEntry { binding: 0, resource: BoundResource::SimParams },
        BindGroupEntry { binding: 1, resource: BoundResource::ParticleBuffer(i) },
        BindGroupEntry { binding: 2, resource: BoundResource::ParticleBuffer((i + 1) % 2) },
        BindGroupEntry { binding: 3, resource: BoundResource::SubstrateView },
    ]
}

/// Entries of the substrate draw's bind group.
pub fn substrate_bind_group_entries() -> (r: Vec<BindGroupEntry>)
    ensures
        r@ == substrate_bind_group(),
{
    vec![BindGroupEntry { binding: 0, resource: BoundResource::SubstrateView }]
}

/// Stride of the per-instance particle vertex buffer: one particle.
pub open spec fn particle_stride() -> u64 {
    (FLOATS_PER_PARTICLE * F32_BYTES) as u64
}

/// Attributes of the particle vertex buffer: position, then velocity.
pub open spec fn particle_attributes() -> Seq<VertexAttribute> {
    seq![
        VertexAttribute { location: 0, offset: 0 },
        VertexAttribute { location: 1, offset: ATTRIBUTE_BYTES },
    ]
}

/// Stride of the per-vertex triangle buffer: one corner.
pub open spec fn triangle_stride() -> u64 {
    (FLOATS_PER_VERTEX * F32_BYTES) as u64
}

/// Attributes of the triangle vertex buffer: the corner's position.
pub open spec fn triangle_attributes() -> Seq<VertexAttribute> {
    seq![VertexAttribute { location: 2, offset: 0 }]
}

/// Whether every attribute of a buffer lies within one stride.
pub open spec fn attributes_fit(attributes: Seq<VertexAttribute>, stride: u64) -> bool {
    forall|k: int| 0 <= k < attributes.len() ==> #[trigger] attributes[k].offset + ATTRIBUTE_BYTES <= stride
}

/// The per-instance vertex buffer of the agent draw: one particle (position
/// and velocity, two attributes of two floats) per instance.
pub fn particle_vertex_layout() -> (r: VertexLayout)
    ensures
        r.stride == particle_stride(),
        r.step == StepMode::Instance,
        r.attributes@ == particle_attributes(),
{
    VertexLayout {
        stride: (FLOATS_PER_PARTICLE * F32_BYTES) as u64,
        step: StepMode::Instance,
        attributes: vec![
            VertexAttribute { location: 0, offset: 0 },
            VertexAttribute { location: 1, offset: ATTRIBUTE_BYTES },
        ],
    }
}

/// The per-vertex buffer of the agent draw: the corners of the triangle.
pub fn triangle_vertex_layout() -> (r: VertexLayout)
    ensures
        r.stride == triangle_stride(),
        r.step == StepMode::Vertex,
        r.attributes@ == triangle_attributes(),
{
    VertexLayout {
        stride: (FLOATS_PER_VERTEX * F32_BYTES) as u64,
        step: StepMode::Vertex,
        attributes: vec![VertexAttribute { location: 2, offset: 0 }],
    }
}

/// Each compute bind group fits the compute layout, and the substrate bind
/// group fits the substrate layout.
pub proof fn lemma_bind_groups_match_layouts(i: int)
    requires
        0 <= i < 2,
    ensures
        matches_layout(particle_bind_group(i), compute_layout()),
        matches_layout(substrate_bind_group(), substrate_layout()),
{
    let g = particle_bind_group(i);
    let l = compute_layout();
    assert forall|k: int| 0 <= k < g.len() implies {
        &&& #[trigger] g[k].binding == l[k].binding
        &&& resource_fits(l[k].kind, g[k].resource)
    } by {
        if k == 0 {
        } else if k == 1 {
        } else if k == 2 {
        } else {
        }
    }
    let sg = substrate_bind_group();
    let sl = substrate_layout();
    assert forall|k: int| 0 <= k < sg.len() implies {
        &&& #[trigger] sg[k].binding == sl[k].binding
        &&& resource_fits(sl[k].kind, sg[k].resource)
    } by {}
}

/// The two compute bind groups swap the particle buffers: each reads one
/// buffer (through the read-only binding) and writes the other (through the
/// writable binding), and the buffer one group writes is the one the other
/// reads.
pub proof fn lemma_particle_buffers_swap(i: int)
    requires
        0 <= i < 2,
    ensures
        0 <= source_buffer(i) < 2,
        0 <= destination_buffer(i) < 2,
        source_buffer(i) != destination_buffer(i),
        destination_buffer(i) == source_buffer(1 - i),
        source_buffer(i) == destination_buffer(1 - i),
        particle_bind_group(i)[1].resource == BoundResource::ParticleBuffer(
            source_buffer(i) as usize,
        ),
        particle_bind_group(i)[2].resource == BoundResource::ParticleBuffer(
            destination_buffer(i) as usize,
        ),
        compute_layout()[1].kind == (BindingKind::StorageBuffer { read_only: true }),
        compute_layout()[2].kind == (BindingKind::StorageBuffer { read_only: false }),
{
}

/// The buffers are as large as the layout demands: the least sizes of the
/// uniform binding and of both particle bindings are the sizes of the
/// parameter buffer and of a particle buffer.
pub proof fn lemma_buffer_sizes_agree()
    ensures
        compute_layout()[0].min_binding_size == Some(sim_param_bytes() as u64),
        compute_layout()[1].min_binding_size == Some(particle_bytes() as u64),
        compute_layout()[2].min_binding_size == Some(particle_bytes() as u64),
        sim_param_bytes() as u64 == sim_param_bytes(),
        particle_bytes() as u64 == particle_bytes(),
{
}

/// Every attribute of both vertex buffers lies within one stride, and
/// `NUM_PARTICLES` instances of the particle stride span exactly one
/// particle buffer.
pub proof fn lemma_vertex_layouts_fit()
    ensures
        attributes_fit(particle_attributes(), particle_stride()),
        attributes_fit(triangle_attributes(), triangle_stride()),
        particle_stride() * NUM_PARTICLES == particle_bytes(),
{
    let pa = particle_attributes();
    assert forall|k: int| 0 <= k < pa.len() implies #[trigger] pa[k].offset + ATTRIBUTE_BYTES
        <= particle_stride() by {
        if k == 0 {
        } else {
        }
    }
    let ta = triangle_attributes();
    assert forall|k: int| 0 <= k < ta.len() implies #[trigger] ta[k].offset + ATTRIBUTE_BYTES
        <= triangle_stride() by {}
}

} // verus!

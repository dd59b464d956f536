//! Everything required to draw a frame: the per-frame GPU buffers, the
//! stable mesh arena, and the bound texture table.
//!
//! The per-frame buffers are provisioned once, at startup, and every frame
//! rewinds their write cursors instead of reallocating.  The engine drives
//! frames strictly one after the other and waits for the previous frame's
//! GPU work before a buffer region is reused, so a single copy of each
//! buffer suffices; the wait itself is the graphics device's business and
//! happens in the embedding, before `reset_for_frame` is called for the new
//! frame.
//!
//! The mesh arena and the texture table are deliberately not per-frame:
//! handles and texture indices are issued once and stay valid for the
//! process lifetime.

use vstd::prelude::*;

use crate::rendering::buffer::Buffer;
use crate::rendering::image::spec_sampler_for;
use crate::rendering::image::sampler_for_image;
use crate::rendering::image::Image;
use crate::rendering::image::SamplerKind;
use crate::rendering::material::Material;
use crate::rendering::material::NO_MATERIAL;
use crate::rendering::mesh_data::MeshArena;
use crate::rendering::mesh_data::MeshData;
use crate::rendering::mesh_data::MeshHandle;
use crate::rendering::scene_data::SceneData;
use crate::rendering::vertex::Vertex;
use crate::types::Mat4;
use crate::types::Vec4;
use crate::HothamError;
use crate::HothamResult;

verus! {

/// Element capacity of the vertex buffer, and of the index buffer.
pub const VERTEX_BUFFER_SIZE: usize = 1000000;

/// Element capacity of the draw-data buffer, and of the indirect-command
/// buffer: one entry per draw call, and the two buffers move in step.
pub const DRAW_DATA_BUFFER_SIZE: usize = 10000;

/// Element capacity of the materials buffer.
pub const MATERIAL_BUFFER_SIZE: usize = 10000;

/// Element capacity of the skins buffer.
pub const SKINS_BUFFER_SIZE: usize = 100;

/// Joint matrices per skin.
pub const MAX_JOINTS: usize = 64;

/// Descriptor binding of the draw-data buffer.  The five binding indices
/// are a stable contract with the shading stage; reordering them breaks
/// rendering silently.
pub const DRAW_DATA_BINDING: u32 = 0;

/// Descriptor binding of the materials buffer.
pub const MATERIALS_BINDING: u32 = 1;

/// Descriptor binding of the indirect-command buffer.
pub const DRAW_INDIRECT_BINDING: u32 = 2;

/// Descriptor binding of the skins buffer.
pub const SKINS_BINDING: u32 = 3;

/// Descriptor binding of the scene-data uniform buffer.
pub const SCENE_DATA_BINDING: u32 = 4;

/// How to draw one primitive, indexed by the draw call id.  A record's slot
/// in the draw-data buffer is the id the shading stage dereferences, so
/// records are written in exactly the order the matching indirect commands
/// are emitted.  Scalar fields are raw single-precision bit patterns.
#[derive(Clone, Copy, Debug, PartialEq, Eq, Structural)]
pub struct DrawData {
    /// The transform of the parent mesh.
    pub transform: Mat4,
    /// The inverse transpose of the transform of the parent mesh.
    pub inverse_transpose: Mat4,
    /// A bounding sphere for the primitive: centre x, y, z and radius.
    pub bounding_sphere: Vec4,
    /// The material to use; an index into the materials buffer.
    pub material_id: u32,
    /// The skin to use, or `NO_SKIN`.
    pub skin_id: u32,
}

/// One indirect draw command, laid out exactly as the device consumes it.
#[derive(Clone, Copy, Debug, PartialEq, Eq, Structural)]
pub struct DrawIndexedIndirectCommand {
    pub index_count: u32,
    pub instance_count: u32,
    pub first_index: u32,
    pub vertex_offset: i32,
    pub first_instance: u32,
}

/// The joint matrices of one skinned mesh for the current frame.
#[derive(Debug, PartialEq)]
pub struct Skin {
    /// One matrix per joint, up to `MAX_JOINTS`.
    pub joint_matrices: Vec<Mat4>,
}

/// The bound texture table: the monotonically growing count of texture
/// indices handed out.  Indices are assigned in allocation order from zero
/// and never reclaimed, so an index, once issued, names its texture for the
/// process lifetime; the descriptor slot each index addresses is written by
/// the embedding.
pub struct BoundTextureTable {
    count: u32,
}

impl BoundTextureTable {
    /// How many texture indices have been handed out.
    pub closed spec fn spec_count(self) -> u32 {
        self.count
    }

    /// Create an empty table.
    pub fn new() -> (table: BoundTextureTable)
        ensures
            table.spec_count() == 0,
    {
        BoundTextureTable { count: 0 }
    }

    /// Assign the next free index.
    pub fn allocate(&mut self) -> (index: u32)
        requires
            old(self).spec_count() < u32::MAX,
        ensures
            index == old(self).spec_count(),
            final(self).spec_count() == old(self).spec_count() + 1,
    {
        let index = self.count;
        self.count = self.count + 1;
        index
    }

    /// How many texture indices have been handed out.
    pub fn count(&self) -> (count: u32)
        ensures
            count == self.spec_count(),
    {
        self.count
    }
}

/// The GPU resource arena: per-frame buffers, the stable mesh arena, and
/// the monotonically growing bound texture table.
pub struct Resources {
    /// All the vertices that will be drawn this frame.
    pub vertex_buffer: Buffer<Vertex>,
    /// All the indices that will be drawn this frame.
    pub index_buffer: Buffer<u32>,
    /// Data for the primitives drawn this frame, indexed by draw call id.
    pub draw_data_buffer: Buffer<DrawData>,
    /// Materials, indexed by `material_id` in `DrawData`; slot
    /// `NO_MATERIAL` is reserved for the default material.
    pub materials_buffer: Buffer<Material>,
    /// The actual draw calls for this frame.
    pub draw_indirect_buffer: Buffer<DrawIndexedIndirectCommand>,
    /// Shared data used in a scene.
    pub scene_data_buffer: Buffer<SceneData>,
    /// Mesh metadata used to generate draw data.
    pub mesh_data: MeshArena,
    /// Joint matrices for the skinned meshes of this frame.
    pub skins_buffer: Buffer<Skin>,
    /// The bound texture table.
    pub textures: BoundTextureTable,
}

impl Resources {
    /// How many texture indices have been handed out; indices are assigned
    /// in allocation order from zero and never reclaimed.
    pub open spec fn spec_texture_count(self) -> u32 {
        self.textures.spec_count()
    }

    /// Every buffer is within the capacity it was provisioned with at
    /// startup, and the reserved default material is in place.
    pub open spec fn wf(self) -> bool {
        &&& self.vertex_buffer.wf()
        &&& self.vertex_buffer.capacity() == VERTEX_BUFFER_SIZE
        &&& self.index_buffer.wf()
        &&& self.index_buffer.capacity() == VERTEX_BUFFER_SIZE
        &&& self.draw_data_buffer.wf()
        &&& self.draw_data_buffer.capacity() == DRAW_DATA_BUFFER_SIZE
        &&& self.materials_buffer.wf()
        &&& self.materials_buffer.capacity() == MATERIAL_BUFFER_SIZE
        &&& self.materials_buffer@.len() >= 1
        &&& self.materials_buffer@[NO_MATERIAL as int] == Material::spec_default()
        &&& self.draw_indirect_buffer.wf()
        &&& self.draw_indirect_buffer.capacity() == DRAW_DATA_BUFFER_SIZE
        &&& self.scene_data_buffer.wf()
        &&& self.scene_data_buffer.capacity() == 1
        &&& self.skins_buffer.wf()
        &&& self.skins_buffer.capacity() == SKINS_BUFFER_SIZE
    }

    /// The state right after startup: every per-frame buffer empty but for
    /// the reserved default material, no meshes, no textures.
    pub open spec fn fresh(self) -> bool {
        &&& self.wf()
        &&& self.vertex_buffer@ == Seq::<Vertex>::empty()
        &&& self.index_buffer@ == Seq::<u32>::empty()
        &&& self.draw_data_buffer@ == Seq::<DrawData>::empty()
        &&& self.materials_buffer@ == seq![Material::spec_default()]
        &&& self.draw_indirect_buffer@ == Seq::<DrawIndexedIndirectCommand>::empty()
        &&& self.scene_data_buffer@ == Seq::<SceneData>::empty()
        &&& self.mesh_data.spec_len() == 0
        &&& self.skins_buffer@ == Seq::<Skin>::empty()
        &&& self.spec_texture_count() == 0
    }

    /// What one frame reset does: every per-frame write cursor rewinds —
    /// the materials cursor to just past the reserved default material —
    /// while capacities, the mesh arena and the texture table are exactly
    /// as they were.
    pub open spec fn resets_to(self, post: Resources) -> bool {
        &&& post.vertex_buffer@ == Seq::<Vertex>::empty()
        &&& post.vertex_buffer.capacity() == self.vertex_buffer.capacity()
        &&& post.index_buffer@ == Seq::<u32>::empty()
        &&& post.index_buffer.capacity() == self.index_buffer.capacity()
        &&& post.draw_data_buffer@ == Seq::<DrawData>::empty()
        &&& post.draw_data_buffer.capacity() == self.draw_data_buffer.capacity()
        &&& post.materials_buffer@ == self.materials_buffer@.subrange(0, 1)
        &&& post.materials_buffer.capacity() == self.materials_buffer.capacity()
        &&& post.draw_indirect_buffer@ == Seq::<DrawIndexedIndirectCommand>::empty()
        &&& post.draw_indirect_buffer.capacity() == self.draw_indirect_buffer.capacity()
        &&& post.scene_data_buffer@ == Seq::<SceneData>::empty()
        &&& post.scene_data_buffer.capacity() == self.scene_data_buffer.capacity()
        &&& post.mesh_data == self.mesh_data
        &&& post.skins_buffer@ == Seq::<Skin>::empty()
        &&& post.skins_buffer.capacity() == self.skins_buffer.capacity()
        &&& post.spec_texture_count() == self.spec_texture_count()
    }

    /// Create all the buffers at their provisioned capacities and reserve
    /// slot `NO_MATERIAL` of the materials buffer for the default material.
    pub fn new() -> (resources: Resources)
        ensures
            resources.fresh(),
    {
        let mut materials_buffer: Buffer<Material> = Buffer::new(MATERIAL_BUFFER_SIZE);
        let _reserved = materials_buffer.push(Material::default());
        proof {
            assert(materials_buffer@ =~= seq![Material::spec_default()]);
        }
        Resources {
            vertex_buffer: Buffer::new(VERTEX_BUFFER_SIZE),
            index_buffer: Buffer::new(VERTEX_BUFFER_SIZE),
            draw_data_buffer: Buffer::new(DRAW_DATA_BUFFER_SIZE),
            materials_buffer,
            draw_indirect_buffer: Buffer::new(DRAW_DATA_BUFFER_SIZE),
            scene_data_buffer: Buffer::new(1),
            mesh_data: MeshArena::new(),
            skins_buffer: Buffer::new(SKINS_BUFFER_SIZE),
            textures: BoundTextureTable::new(),
        }
    }

    /// Rewind every per-frame write cursor for a new frame.  The previous
    /// frame's contents are logically discarded; the reserved default
    /// material, the mesh arena and the texture table survive.
    pub fn reset_for_frame(&mut self)
        requires
            old(self).wf(),
        ensures
            old(self).resets_to(*final(self)),
            final(self).wf(),
    {
        self.vertex_buffer.rewind();
        self.index_buffer.rewind();
        self.draw_data_buffer.rewind();
        self.materials_buffer.rewind_to(1);
        self.draw_indirect_buffer.rewind();
        self.scene_data_buffer.rewind();
        self.skins_buffer.rewind();
    }

    /// Append one draw-data record and hand back its slot — the draw call
    /// id the shading stage will dereference — or report that the buffer is
    /// at its provisioned capacity, leaving everything untouched.
    pub fn push_draw_data(&mut self, draw_data: DrawData) -> (slot: HothamResult<usize>)
        requires
            old(self).wf(),
        ensures
            final(self).wf(),
            old(self).draw_data_buffer@.len() < DRAW_DATA_BUFFER_SIZE ==> {
                &&& slot == Ok::<usize, HothamError>(old(self).draw_data_buffer@.len() as usize)
                &&& final(self).draw_data_buffer@ == old(self).draw_data_buffer@.push(draw_data)
            },
            old(self).draw_data_buffer@.len() == DRAW_DATA_BUFFER_SIZE ==> {
                &&& slot == Err::<usize, HothamError>(HothamError::CapacityExceeded)
                &&& final(self).draw_data_buffer@ == old(self).draw_data_buffer@
            },
            final(self).draw_data_buffer.capacity() == old(self).draw_data_buffer.capacity(),
            final(self).vertex_buffer == old(self).vertex_buffer,
            final(self).index_buffer == old(self).index_buffer,
            final(self).materials_buffer == old(self).materials_buffer,
            final(self).draw_indirect_buffer == old(self).draw_indirect_buffer,
            final(self).scene_data_buffer == old(self).scene_data_buffer,
            final(self).mesh_data == old(self).mesh_data,
            final(self).skins_buffer == old(self).skins_buffer,
            final(self).spec_texture_count() == old(self).spec_texture_count(),
    {
        self.draw_data_buffer.push(draw_data)
    }

    /// Insert mesh metadata into the stable arena and hand back a handle
    /// usable across frames without re-validation: every handle issued
    /// earlier stays valid and keeps naming the content it was issued for.
    pub fn allocate_mesh(&mut self, mesh_data: MeshData) -> (handle: MeshHandle)
        requires
            old(self).mesh_data.spec_len() < usize::MAX,
        ensures
            final(self).mesh_data.spec_len() == old(self).mesh_data.spec_len() + 1,
            handle.index == old(self).mesh_data.spec_len(),
            final(self).mesh_data.valid_handle(handle),
            final(self).mesh_data.data_of(handle) == mesh_data,
            forall|other: MeshHandle|
                old(self).mesh_data.valid_handle(other) ==> {
                    &&& final(self).mesh_data.valid_handle(other)
                    &&& final(self).mesh_data.data_of(other) == old(self).mesh_data.data_of(other)
                },
            final(self).vertex_buffer == old(self).vertex_buffer,
            final(self).index_buffer == old(self).index_buffer,
            final(self).draw_data_buffer == old(self).draw_data_buffer,
            final(self).materials_buffer == old(self).materials_buffer,
            final(self).draw_indirect_buffer == old(self).draw_indirect_buffer,
            final(self).scene_data_buffer == old(self).scene_data_buffer,
            final(self).skins_buffer == old(self).skins_buffer,
            final(self).spec_texture_count() == old(self).spec_texture_count(),
            old(self).wf() ==> final(self).wf(),
    {
        self.mesh_data.allocate(mesh_data)
    }

    /// Assign the next free texture index — allocation is permanent for the
    /// process lifetime — and pick the sampler the image wants.  The
    /// embedding writes the descriptor binding for the returned index.
    pub fn allocate_texture(&mut self, image: &Image) -> (allocation: (u32, SamplerKind))
        requires
            old(self).spec_texture_count() < u32::MAX,
        ensures
            allocation.0 == old(self).spec_texture_count(),
            allocation.1 == spec_sampler_for(*image),
            final(self).spec_texture_count() == old(self).spec_texture_count() + 1,
            final(self).vertex_buffer == old(self).vertex_buffer,
            final(self).index_buffer == old(self).index_buffer,
            final(self).draw_data_buffer == old(self).draw_data_buffer,
            final(self).materials_buffer == old(self).materials_buffer,
            final(self).draw_indirect_buffer == old(self).draw_indirect_buffer,
            final(self).scene_data_buffer == old(self).scene_data_buffer,
            final(self).mesh_data == old(self).mesh_data,
            final(self).skins_buffer == old(self).skins_buffer,
            old(self).wf() ==> final(self).wf(),
    {
        let sampler = sampler_for_image(image);
        let index = self.textures.allocate();
        (index, sampler)
    }

    /// How many texture indices have been handed out.
    pub fn texture_count(&self) -> (count: u32)
        ensures
            count == self.spec_texture_count(),
    {
        self.textures.count()
    }
}

/// The draw-data slots handed out after a frame reset are sequential.
///
/// `buffers` is a run of draw-data buffer contents that starts empty — as
/// `reset_for_frame` leaves the buffer — where each step appends one of
/// `records`, as a successful `push_draw_data` does.  Then the buffer holds
/// `n` records just before the `n`-th append, and since `push_draw_data`
/// hands back exactly that count as the slot, the slots are 0, 1, 2, ... in
/// order; once the count reaches `DRAW_DATA_BUFFER_SIZE`, its contract
/// refuses the next record with `CapacityExceeded` instead.
pub proof fn lemma_draw_data_slots_sequential(buffers: Seq<Seq<DrawData>>, records: Seq<DrawData>)
    requires
        buffers.len() == records.len() + 1,
        buffers[0].len() == 0,
        forall|i: int| 0 <= i < records.len() ==> buffers[i + 1] == #[trigger] buffers[i].push(records[i]),
    ensures
        forall|n: int| 0 <= n < buffers.len() ==> #[trigger] buffers[n].len() == n,
{
    assert forall|n: int| 0 <= n < buffers.len() implies #[trigger] buffers[n].len() == n by {
        lemma_slot_count_at(buffers, records, n);
    }
}

/// The buffer holds `n` records just before the `n`-th append of the run.
proof fn lemma_slot_count_at(buffers: Seq<Seq<DrawData>>, records: Seq<DrawData>, n: int)
    requires
        buffers.len() == records.len() + 1,
        buffers[0].len() == 0,
        forall|i: int| 0 <= i < records.len() ==> buffers[i + 1] == #[trigger] buffers[i].push(records[i]),
        0 <= n < buffers.len(),
    ensures
        buffers[n].len() == n,
    decreases n,
{
    if n > 0 {
        lemma_slot_count_at(buffers, records, n - 1);
        assert(buffers[n] == buffers[n - 1].push(records[n - 1]));
    }
}

/// The `i`-th step of a run of states is one frame reset, as
/// `reset_for_frame` describes it.
pub open spec fn reset_step(states: Seq<Resources>, i: int) -> bool {
    states[i].resets_to(states[i + 1])
}

/// Mesh handles and texture indices are frame-proof.
///
/// `states` is a run of arena states where each step is one frame reset, as
/// `reset_for_frame` describes it.  A mesh handle valid at the start of the
/// run is valid at its end and still names the same metadata, however long
/// the run; the bound texture table keeps its size the whole way, so no
/// issued texture index is ever reissued or dropped either.
pub proof fn lemma_handles_survive_resets(states: Seq<Resources>, handle: MeshHandle)
    requires
        states.len() >= 1,
        forall|i: int| 0 <= i < states.len() - 1 ==> #[trigger] reset_step(states, i),
        states[0].mesh_data.valid_handle(handle),
    ensures
        states[states.len() - 1].mesh_data.valid_handle(handle),
        states[states.len() - 1].mesh_data.data_of(handle) == states[0].mesh_data.data_of(handle),
        states[states.len() - 1].spec_texture_count() == states[0].spec_texture_count(),
    decreases states.len(),
{
    if states.len() > 1 {
        let rest = states.subrange(1, states.len() as int);
        assert(reset_step(states, 0));
        assert(states[0].resets_to(states[1]));
        assert forall|i: int| 0 <= i < rest.len() - 1 implies #[trigger] reset_step(rest, i) by {
            assert(reset_step(states, i + 1));
            assert(rest[i] == states[i + 1]);
            assert(rest[i + 1] == states[i + 2]);
        }
        lemma_handles_survive_resets(rest, handle);
        assert(rest[rest.len() - 1] == states[states.len() - 1]);
    }
}

} // verus!

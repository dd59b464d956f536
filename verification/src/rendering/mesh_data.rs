//! The stable-identity mesh arena.
//!
//! Mesh metadata is allocated once, at load time, and is then named by a
//! handle that stays valid for the asset's whole lifetime: the arena only
//! ever appends, so a slot is never reused for different content while any
//! handle to it is outstanding.  Each handle also carries the generation of
//! its slot, so the handle shape would survive a scheme that reclaims
//! slots; here no slot is ever freed and every generation is zero.

use vstd::prelude::*;

use crate::rendering::resources::DrawData;
use crate::types::Mat4;
use crate::types::Vec4;

verus! {

/// Skin id marking a mesh that is not skinned.
pub const NO_SKIN: u32 = u32::MAX;

/// The per-mesh metadata that draw data is built from each frame.
/// Scalar fields are raw single-precision bit patterns.
#[derive(Clone, Copy, Debug, PartialEq, Eq, Structural)]
pub struct MeshData {
    /// World transform of the mesh.
    pub transform: Mat4,
    /// Inverse transpose of the world transform, for normals.
    pub inverse_transpose: Mat4,
    /// Bounding sphere of the mesh: centre x, y, z and radius.
    pub bounding_sphere: Vec4,
    /// The material to draw with; an index into the materials buffer.
    pub material_id: u32,
    /// The skin to deform with, or `NO_SKIN`.
    pub skin_id: u32,
}

impl MeshData {
    /// The draw-data record this mesh contributes to a frame: the same five
    /// fields, copied.
    pub open spec fn spec_draw_data(self) -> DrawData {
        DrawData {
            transform: self.transform,
            inverse_transpose: self.inverse_transpose,
            bounding_sphere: self.bounding_sphere,
            material_id: self.material_id,
            skin_id: self.skin_id,
        }
    }

    /// Build the draw-data record for this mesh.
    pub fn draw_data(&self) -> (record: DrawData)
        ensures
            record == self.spec_draw_data(),
    {
        DrawData {
            transform: self.transform,
            inverse_transpose: self.inverse_transpose,
            bounding_sphere: self.bounding_sphere,
            material_id: self.material_id,
            skin_id: self.skin_id,
        }
    }
}

/// A stable name for one allocated mesh: the slot it sits in and the
/// generation that slot had when the handle was issued.
#[derive(Clone, Copy, Debug, PartialEq, Eq, Structural)]
pub struct MeshHandle {
    pub index: usize,
    pub generation: u64,
}

/// The append-only arena of mesh metadata.
pub struct MeshArena {
    slots: Vec<(u64, MeshData)>,
}

impl MeshArena {
    /// The metadata held in each slot, in allocation order.
    pub closed spec fn contents(self) -> Seq<MeshData> {
        self.slots@.map_values(|slot: (u64, MeshData)| slot.1)
    }

    /// The generation of each slot.
    pub closed spec fn generations(self) -> Seq<u64> {
        self.slots@.map_values(|slot: (u64, MeshData)| slot.0)
    }

    /// How many meshes have been allocated.
    pub open spec fn spec_len(self) -> nat {
        self.contents().len()
    }

    /// Whether `handle` names an allocated slot of the generation it was
    /// issued for.
    pub open spec fn valid_handle(self, handle: MeshHandle) -> bool {
        &&& handle.index < self.spec_len()
        &&& self.generations()[handle.index as int] == handle.generation
    }

    /// The metadata `handle` names.
    pub open spec fn data_of(self, handle: MeshHandle) -> MeshData
        recommends
            self.valid_handle(handle),
    {
        self.contents()[handle.index as int]
    }

    /// Create an empty arena.
    pub fn new() -> (arena: MeshArena)
        ensures
            arena.spec_len() == 0,
    {
        MeshArena { slots: Vec::new() }
    }

    /// How many meshes have been allocated.
    pub fn len(&self) -> (n: usize)
        ensures
            n == self.spec_len(),
    {
        self.slots.len()
    }

    /// Allocate a slot for `data` and hand back its stable handle.  Every
    /// handle issued earlier stays valid and keeps naming the content it
    /// was issued for.
    pub fn allocate(&mut self, data: MeshData) -> (handle: MeshHandle)
        requires
            old(self).spec_len() < usize::MAX,
        ensures
            final(self).spec_len() == old(self).spec_len() + 1,
            handle.index == old(self).spec_len(),
            final(self).valid_handle(handle),
            final(self).data_of(handle) == data,
            forall|other: MeshHandle|
                old(self).valid_handle(other) ==> {
                    &&& final(self).valid_handle(other)
                    &&& final(self).data_of(other) == old(self).data_of(other)
                },
    {
        let index = self.slots.len();
        self.slots.push((0u64, data));
        let handle = MeshHandle { index, generation: 0 };
        proof {
            assert(self.contents() =~= old(self).contents().push(data));
            assert(self.generations() =~= old(self).generations().push(0u64));
        }
        handle
    }

    /// Read the metadata `handle` names.
    pub fn get(&self, handle: MeshHandle) -> (data: &MeshData)
        requires
            self.valid_handle(handle),
        ensures
            *data == self.data_of(handle),
    {
        &self.slots[handle.index].1
    }
}

} // verus!

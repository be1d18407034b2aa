//! Checks and parameters of a procedural generation dispatch: one compute
//! work-group per chunk of a box of chunks, its origin pushed as three
//! little-endian `i32`.
use vstd::prelude::*;
use crate::wire::{encode_words, le_bytes};
use crate::world::{
    as_ints, box_cells, box_chunk_indices, box_fits, ChunkBox, DIR_SIZE, WORLD_CHUNKS,
};

verus! {

/// Errors of a generation dispatch.
#[derive(Clone, Copy, Debug, PartialEq, Eq, Structural)]
pub enum DispatchError {
    /// The box reaches outside `[0, WORLD_CHUNKS)` on some axis.
    OutOfWorld,
    /// A chunk of the box has no pool slot in the directory.
    UnassignedChunk,
}

/// Whether `[origin, origin + extent)` lies inside the world on one axis.
pub open spec fn axis_in_world(origin: i32, extent: u32) -> bool {
    0 <= origin && origin + extent <= WORLD_CHUNKS
}

/// Whether the dispatch box lies inside the world on every axis.
pub open spec fn dispatch_in_world(origin: [i32; 3], extent: [u32; 3]) -> bool {
    axis_in_world(origin[0], extent[0]) && axis_in_world(origin[1], extent[1]) && axis_in_world(
        origin[2],
        extent[2],
    )
}

/// The box of chunks that a dispatch targets.
pub open spec fn dispatch_box(origin: [i32; 3], extent: [u32; 3]) -> ChunkBox {
    ChunkBox {
        min_x: origin[0] as usize,
        min_y: origin[1] as usize,
        min_z: origin[2] as usize,
        len_x: extent[0] as usize,
        len_y: extent[1] as usize,
        len_z: extent[2] as usize,
    }
}

/// Whether every chunk of `b` has a pool slot in `dir`.
pub open spec fn all_assigned(dir: Seq<u32>, b: ChunkBox) -> bool {
    forall|k: int| 0 <= k < box_cells(b).len() ==> dir[box_cells(b)[k]] != 0
}

/// The push-constant payload for `origin`: three `i32`, little-endian.
pub open spec fn push_constant_bytes(origin: [i32; 3]) -> Seq<u8> {
    le_bytes(seq![origin[0] as u32, origin[1] as u32, origin[2] as u32])
}

/// What a validated dispatch hands to the device.
pub struct GenerationPlan {
    /// The 12-byte push-constant payload.
    pub push_constants: Vec<u8>,
    /// Work-groups along x, y and z: one per chunk.
    pub groups: [u32; 3],
}

/// Checks a generation request against the world and the directory before
/// anything is submitted: the box must lie inside the world and each of its
/// chunks must already own a pool slot.
pub fn plan_generation(dir: &Vec<u32>, origin: [i32; 3], extent: [u32; 3]) -> (r: Result<
    GenerationPlan,
    DispatchError,
>)
    requires
        dir@.len() == DIR_SIZE,
    ensures
        r matches Err(DispatchError::OutOfWorld) <==> !dispatch_in_world(origin, extent),
        r matches Err(DispatchError::UnassignedChunk) <==> dispatch_in_world(origin, extent)
            && !all_assigned(dir@, dispatch_box(origin, extent)),
        r is Ok <==> dispatch_in_world(origin, extent) && all_assigned(
            dir@,
            dispatch_box(origin, extent),
        ),
        r matches Ok(p) ==> p.push_constants@ == push_constant_bytes(origin) && p.groups
            == extent,
{
    let mut a: usize = 0;
    while a < 3
        invariant
            a <= 3,
            forall|j: int| 0 <= j < a ==> axis_in_world(origin[j], extent[j]),
        decreases 3 - a,
    {
        if origin[a] < 0 || extent[a] > WORLD_CHUNKS as u32 || origin[a] as u32 > WORLD_CHUNKS
            as u32 - extent[a] {
            return Err(DispatchError::OutOfWorld);
        }
        a = a + 1;
    }
    let b = ChunkBox {
        min_x: origin[0] as usize,
        min_y: origin[1] as usize,
        min_z: origin[2] as usize,
        len_x: extent[0] as usize,
        len_y: extent[1] as usize,
        len_z: extent[2] as usize,
    };
    assert(b == dispatch_box(origin, extent));
    let cells = match box_chunk_indices(b) {
        Ok(cells) => cells,
        Err(_) => {
            return Err(DispatchError::OutOfWorld);
        },
    };
    let mut k: usize = 0;
    while k < cells.len()
        invariant
            dir@.len() == DIR_SIZE,
            dispatch_in_world(origin, extent),
            b == dispatch_box(origin, extent),
            box_fits(b),
            k <= cells@.len(),
            as_ints(cells@) == box_cells(b),
            forall|j: int| 0 <= j < cells.len() ==> cells@[j] < DIR_SIZE,
            forall|j: int| 0 <= j < k ==> dir@[box_cells(b)[j]] != 0,
        decreases cells@.len() - k,
    {
        assert(as_ints(cells@)[k as int] == cells@[k as int] as int);
        if dir[cells[k]] == 0 {
            assert(dir@[box_cells(b)[k as int]] == 0);
            return Err(DispatchError::UnassignedChunk);
        }
        k = k + 1;
    }
    let words: [u32; 3] = [origin[0] as u32, origin[1] as u32, origin[2] as u32];
    let push_constants = encode_words(&words);
    assert(words@ =~= seq![origin[0] as u32, origin[1] as u32, origin[2] as u32]);
    Ok(GenerationPlan { push_constants, groups: extent })
}

} // verus!

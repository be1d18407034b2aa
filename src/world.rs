//! The chunked world: a dense directory of pool slot ids over a coarse grid
//! of chunks, and a pool of fixed-size chunk payloads addressed by those ids.
use vstd::prelude::*;
use crate::buffer::{Buffer, BufferError, written};
use crate::wire::{encode_words, le_bytes};

verus! {

/// Voxels along one edge of a chunk.
pub const CHUNK_SIZE: usize = 32;

/// Voxels in one chunk.
pub const CHUNK_VOLUME: usize = CHUNK_SIZE * CHUNK_SIZE * CHUNK_SIZE;

/// Chunks along one edge of the world.
pub const WORLD_CHUNKS: usize = 32;

/// Cells of the directory, one per chunk of the world.
pub const DIR_SIZE: usize = WORLD_CHUNKS * WORLD_CHUNKS * WORLD_CHUNKS;

/// Pool slots, the reserved empty slot 0 included.
pub const MAX_CHUNKS: usize = 2048;

/// Position of chunk `(x, y, z)` in the directory: x fastest, then y, then z.
pub open spec fn dir_index(x: int, y: int, z: int) -> int {
    x + y * WORLD_CHUNKS + z * WORLD_CHUNKS * WORLD_CHUNKS
}

/// Whether `(x, y, z)` lies inside the world on every axis.
pub open spec fn in_world(x: int, y: int, z: int) -> bool {
    0 <= x < WORLD_CHUNKS && 0 <= y < WORLD_CHUNKS && 0 <= z < WORLD_CHUNKS
}

/// Errors of world addressing and editing.
#[derive(Clone, Copy, Debug, PartialEq, Eq, Structural)]
pub enum WorldError {
    /// A chunk or voxel coordinate lies outside its grid on some axis.
    OutOfRange,
    /// A world buffer has the wrong size, or the directory upload failed.
    Buffer(BufferError),
}

/// Directory position of chunk `(x, y, z)`; coordinates outside the world
/// are rejected, never wrapped.
pub fn chunk_index(x: usize, y: usize, z: usize) -> (r: Result<usize, WorldError>)
    ensures
        in_world(x as int, y as int, z as int) <==> r is Ok,
        r matches Ok(i) ==> i == dir_index(x as int, y as int, z as int),
        r matches Err(e) ==> e == WorldError::OutOfRange,
{
    if x >= WORLD_CHUNKS || y >= WORLD_CHUNKS || z >= WORLD_CHUNKS {
        Err(WorldError::OutOfRange)
    } else {
        Ok(x + y * WORLD_CHUNKS + z * WORLD_CHUNKS * WORLD_CHUNKS)
    }
}

/// Coordinates of directory position `i`.
pub open spec fn dir_coords(i: int) -> (int, int, int) {
    (i % WORLD_CHUNKS as int, (i / WORLD_CHUNKS as int) % WORLD_CHUNKS as int, i / (
    WORLD_CHUNKS * WORLD_CHUNKS) as int)
}

/// Every chunk of the world has a directory position in `[0, DIR_SIZE)`.
pub proof fn lemma_dir_index_in_bounds(x: int, y: int, z: int)
    requires
        in_world(x, y, z),
    ensures
        0 <= dir_index(x, y, z) < DIR_SIZE,
{
}

/// Two chunks of the world with the same directory position are the same chunk.
pub proof fn lemma_dir_index_injective(x1: int, y1: int, z1: int, x2: int, y2: int, z2: int)
    requires
        in_world(x1, y1, z1),
        in_world(x2, y2, z2),
        dir_index(x1, y1, z1) == dir_index(x2, y2, z2),
    ensures
        x1 == x2 && y1 == y2 && z1 == z2,
{
}

/// Every directory position belongs to a chunk of the world.
pub proof fn lemma_dir_index_onto(i: int)
    requires
        0 <= i < DIR_SIZE,
    ensures
        in_world(dir_coords(i).0, dir_coords(i).1, dir_coords(i).2),
        dir_index(dir_coords(i).0, dir_coords(i).1, dir_coords(i).2) == i,
{
    let x = i % 32;
    let q = i / 32;
    assert(i == x + 32 * q);
    assert(q == (q % 32) + 32 * (q / 32));
    assert(q / 32 == i / 1024) by {
        vstd::arithmetic::div_mod::lemma_div_denominator(i, 32, 32);
    }
}

/// A box of chunks: its lowest corner and its length along each axis.
#[derive(Clone, Copy, Debug, PartialEq, Eq, Structural)]
pub struct ChunkBox {
    pub min_x: usize,
    pub min_y: usize,
    pub min_z: usize,
    pub len_x: usize,
    pub len_y: usize,
    pub len_z: usize,
}

/// Whether the box lies inside the world.
pub open spec fn box_fits(b: ChunkBox) -> bool {
    b.min_x + b.len_x <= WORLD_CHUNKS && b.min_y + b.len_y <= WORLD_CHUNKS && b.min_z + b.len_z
        <= WORLD_CHUNKS
}

/// Directory positions of the row `(y, z)` of the box (box-relative), x increasing.
pub open spec fn box_row(b: ChunkBox, y: int, z: int) -> Seq<int> {
    Seq::new(b.len_x as nat, |i: int| dir_index(b.min_x + i, b.min_y + y, b.min_z + z))
}

/// The first `ny` rows of layer `z` of the box, y increasing.
pub open spec fn box_layer(b: ChunkBox, z: int, ny: int) -> Seq<int>
    decreases ny,
{
    if ny <= 0 {
        Seq::empty()
    } else {
        box_layer(b, z, ny - 1) + box_row(b, ny - 1, z)
    }
}

/// The first `nz` layers of the box, z increasing.
pub open spec fn box_layers(b: ChunkBox, nz: int) -> Seq<int>
    decreases nz,
{
    if nz <= 0 {
        Seq::empty()
    } else {
        box_layers(b, nz - 1) + box_layer(b, nz - 1, b.len_y as int)
    }
}

/// Directory positions of all chunks of the box in directory order: x
/// fastest, then y, then z.
pub open spec fn box_cells(b: ChunkBox) -> Seq<int> {
    box_layers(b, b.len_z as int)
}

/// The values of `s` as mathematical integers.
pub open spec fn as_ints(s: Seq<usize>) -> Seq<int> {
    s.map_values(|c: usize| c as int)
}

/// Whether `s` is strictly increasing.
pub open spec fn strictly_increasing(s: Seq<usize>) -> bool {
    forall|i: int, j: int| 0 <= i < j < s.len() ==> s[i] < s[j]
}

/// Directory positions of the chunks of `b`, in directory order. A box that
/// reaches outside the world is rejected.
pub fn box_chunk_indices(b: ChunkBox) -> (r: Result<Vec<usize>, WorldError>)
    ensures
        box_fits(b) <==> r is Ok,
        r matches Ok(cells) ==> as_ints(cells@) == box_cells(b) && strictly_increasing(cells@)
            && forall|k: int| 0 <= k < cells.len() ==> cells@[k] < DIR_SIZE,
        r matches Err(e) ==> e == WorldError::OutOfRange,
{
    if b.min_x > WORLD_CHUNKS || b.len_x > WORLD_CHUNKS - b.min_x || b.min_y > WORLD_CHUNKS
        || b.len_y > WORLD_CHUNKS - b.min_y || b.min_z > WORLD_CHUNKS || b.len_z > WORLD_CHUNKS
        - b.min_z {
        return Err(WorldError::OutOfRange);
    }
    let mut cells: Vec<usize> = Vec::new();
    let mut z: usize = 0;
    while z < b.len_z
        invariant
            box_fits(b),
            z <= b.len_z,
            as_ints(cells@) == box_layers(b, z as int),
            strictly_increasing(cells@),
            forall|k: int| 0 <= k < cells.len() ==> cells@[k] < DIR_SIZE,
            forall|k: int|
                0 <= k < cells.len() ==> cells@[k] < dir_index(
                    b.min_x as int,
                    b.min_y as int,
                    b.min_z + z,
                ),
        decreases b.len_z - z,
    {
        let mut y: usize = 0;
        while y < b.len_y
            invariant
                box_fits(b),
                z < b.len_z,
                y <= b.len_y,
                as_ints(cells@) == box_layers(b, z as int) + box_layer(b, z as int, y as int),
                strictly_increasing(cells@),
                forall|k: int| 0 <= k < cells.len() ==> cells@[k] < DIR_SIZE,
            forall|k: int| 0 <= k < cells.len() ==> cells@[k] < DIR_SIZE,
                forall|k: int|
                    0 <= k < cells.len() ==> cells@[k] < dir_index(
                        b.min_x as int,
                        b.min_y + y,
                        b.min_z + z,
                    ),
            decreases b.len_y - y,
        {
            let mut x: usize = 0;
            while x < b.len_x
                invariant
                    box_fits(b),
                    z < b.len_z,
                    y < b.len_y,
                    x <= b.len_x,
                    as_ints(cells@) == box_layers(b, z as int) + box_layer(b, z as int, y as int)
                        + box_row(b, y as int, z as int).take(x as int),
                    strictly_increasing(cells@),
                    forall|k: int| 0 <= k < cells.len() ==> cells@[k] < DIR_SIZE,
                forall|k: int| 0 <= k < cells.len() ==> cells@[k] < DIR_SIZE,
            forall|k: int| 0 <= k < cells.len() ==> cells@[k] < DIR_SIZE,
                    forall|k: int|
                        0 <= k < cells.len() ==> cells@[k] < dir_index(
                            b.min_x + x,
                            b.min_y + y,
                            b.min_z + z,
                        ),
                decreases b.len_x - x,
            {
                let cell = (b.min_x + x) + (b.min_y + y) * WORLD_CHUNKS + (b.min_z + z)
                    * WORLD_CHUNKS * WORLD_CHUNKS;
                let ghost before = cells@;
                cells.push(cell);
                assert(as_ints(cells@) =~= as_ints(before).push(cell as int));
                assert(box_row(b, y as int, z as int).take(x + 1) =~= box_row(
                    b,
                    y as int,
                    z as int,
                ).take(x as int).push(cell as int));
                x = x + 1;
            }
            assert(box_row(b, y as int, z as int).take(x as int) =~= box_row(
                b,
                y as int,
                z as int,
            ));
            y = y + 1;
        }
        z = z + 1;
    }
    Ok(cells)
}

/// Slot id given to the `k`-th requested chunk: ids `1, 2, ...` in request
/// order while pool slots last, then 0 (unassigned).
pub open spec fn assigned_slot(k: int) -> int {
    if k + 1 < MAX_CHUNKS {
        k + 1
    } else {
        0
    }
}

/// A directory image that may be sampled: one entry per chunk, each entry 0
/// or a pool slot below `MAX_CHUNKS`, and no pool slot shared by two chunks.
pub open spec fn directory_wf(dir: Seq<u32>) -> bool {
    &&& dir.len() == DIR_SIZE
    &&& forall|i: int| 0 <= i < dir.len() ==> dir[i] < MAX_CHUNKS
    &&& forall|i: int, j: int|
        0 <= i < dir.len() && 0 <= j < dir.len() && i != j && dir[i] != 0 ==> dir[i] != dir[j]
}

/// `dir` is the directory image for the requested chunks `cells`: the
/// `k`-th request holds slot id `k + 1` while pool slots last, every other
/// chunk is air (0).
pub open spec fn filled(cells: Seq<usize>, dir: Seq<u32>) -> bool {
    &&& dir.len() == DIR_SIZE
    &&& forall|k: int| 0 <= k < cells.len() ==> dir[cells[k] as int] == assigned_slot(k)
    &&& forall|i: int| 0 <= i < DIR_SIZE && !cells.contains(i as usize) ==> dir[i] == 0
}

/// Directory image for the requested chunks `cells`: the `k`-th request gets
/// slot id `k + 1` while pool slots last, every other chunk stays air (0).
pub fn fill_directory(cells: &Vec<usize>) -> (dir: Vec<u32>)
    requires
        cells@.no_duplicates(),
        forall|k: int| 0 <= k < cells.len() ==> cells@[k] < DIR_SIZE,
    ensures
        directory_wf(dir@),
        filled(cells@, dir@),
{
    let mut dir: Vec<u32> = vec![0u32; DIR_SIZE];
    let limit: usize = if cells.len() < MAX_CHUNKS - 1 {
        cells.len()
    } else {
        MAX_CHUNKS - 1
    };
    let mut k: usize = 0;
    while k < limit
        invariant
            cells@.no_duplicates(),
            forall|j: int| 0 <= j < cells.len() ==> cells@[j] < DIR_SIZE,
            limit <= cells.len(),
            limit < MAX_CHUNKS,
            k <= limit,
            dir.len() == DIR_SIZE,
            forall|j: int| 0 <= j < k ==> dir@[cells@[j] as int] == j + 1,
            forall|i: int|
                0 <= i < DIR_SIZE && !cells@.take(k as int).contains(i as usize) ==> dir@[i] == 0,
        decreases limit - k,
    {
        let cell = cells[k];
        dir.set(cell, (k + 1) as u32);
        assert(cells@.take(k + 1) =~= cells@.take(k as int).push(cell));
        assert forall|i: int|
            0 <= i < DIR_SIZE && !cells@.take(k + 1).contains(i as usize) implies dir@[i] == 0 by {
            assert(cells@.take(k + 1)[k as int] == cell);
            if cells@.take(k as int).contains(i as usize) {
                let m = choose|m: int| 0 <= m < k && cells@.take(k as int)[m] == i as usize;
                assert(cells@.take(k + 1)[m] == i as usize);
            }
        }
        k = k + 1;
    }
    assert forall|j: int| 0 <= j < cells.len() implies dir@[cells@[j] as int] == assigned_slot(
        j,
    ) by {
        if j >= limit {
            if cells@.take(limit as int).contains(cells@[j]) {
                let m = choose|m: int| 0 <= m < limit && cells@.take(limit as int)[m] == cells@[j];
                assert(cells@[m] == cells@[j]);
            }
        }
    }
    assert forall|i: int|
        0 <= i < DIR_SIZE && !cells@.contains(i as usize) implies dir@[i] == 0 by {
        if cells@.take(limit as int).contains(i as usize) {
            let m = choose|m: int| 0 <= m < limit && cells@.take(limit as int)[m] == i as usize;
            assert(cells@.contains(i as usize));
        }
    }
    assert forall|i: int| 0 <= i < dir.len() implies dir@[i] < MAX_CHUNKS by {
        if cells@.take(limit as int).contains(i as usize) {
            let m = choose|m: int| 0 <= m < limit && cells@.take(limit as int)[m] == i as usize;
            assert(dir@[cells@[m] as int] == m + 1);
        }
    }
    assert forall|i: int, j: int|
        0 <= i < dir.len() && 0 <= j < dir.len() && i != j && dir@[i] != 0 implies dir@[i]
        != dir@[j] by {
        if cells@.take(limit as int).contains(i as usize) {
            let m = choose|m: int| 0 <= m < limit && cells@.take(limit as int)[m] == i as usize;
            assert(dir@[cells@[m] as int] == m + 1);
            if cells@.take(limit as int).contains(j as usize) {
                let n = choose|n: int| 0 <= n < limit && cells@.take(limit as int)[n] == j as usize;
                assert(dir@[cells@[n] as int] == n + 1);
            }
        }
    }
    dir
}

/// A strictly increasing sequence holds no value twice.
pub proof fn lemma_increasing_no_duplicates(s: Seq<usize>)
    requires
        strictly_increasing(s),
    ensures
        s.no_duplicates(),
{
    assert forall|i: int, j: int| 0 <= i < s.len() && 0 <= j < s.len() && i != j implies s[i]
        != s[j] by {
        if i < j {
            assert(s[i] < s[j]);
        } else {
            assert(s[j] < s[i]);
        }
    }
}

/// Bytes of the directory buffer: one `u32` per chunk.
pub const DIR_BYTES: u64 = 131072;

/// Bytes of the pool buffer: `MAX_CHUNKS` chunks of `CHUNK_VOLUME` `u32` cells.
pub const POOL_BYTES: u64 = 268435456;

/// A ball in chunk space: its centre (which may lie outside the world) and
/// its radius, in chunks.
#[derive(Clone, Copy, Debug, PartialEq, Eq, Structural)]
pub struct Ball {
    pub center_x: i32,
    pub center_y: i32,
    pub center_z: i32,
    pub radius: u32,
}

/// Whether the chunk at directory position `i` lies within the ball: its
/// squared distance from the centre is at most the squared radius.
pub open spec fn in_ball(b: Ball, i: int) -> bool {
    let c = dir_coords(i);
    (c.0 - b.center_x) * (c.0 - b.center_x) + (c.1 - b.center_y) * (c.1 - b.center_y) + (c.2
        - b.center_z) * (c.2 - b.center_z) <= b.radius * b.radius
}

/// Directory positions of the chunks within the ball, in directory order.
pub open spec fn ball_cells(b: Ball) -> Seq<int> {
    Seq::new(DIR_SIZE as nat, |i: int| i).filter(|i: int| in_ball(b, i))
}

/// How the world is filled: which chunks request a pool slot, and in what
/// order they receive one.
#[derive(Clone, Copy, Debug, PartialEq, Eq, Structural)]
pub enum FillPolicy {
    /// Every chunk of the box, in directory order.
    Box(ChunkBox),
    /// Every chunk of the world within the ball, in directory order.
    Sphere(Ball),
    /// Every chunk of the world, in directory order.
    Everything,
    /// No chunk: all air.
    Nothing,
}

/// The chunks that `p` requests, in order, or `None` for a box that reaches
/// outside the world.
pub open spec fn policy_cells(p: FillPolicy) -> Option<Seq<int>> {
    match p {
        FillPolicy::Box(b) => if box_fits(b) {
            Some(box_cells(b))
        } else {
            None
        },
        FillPolicy::Sphere(b) => Some(ball_cells(b)),
        FillPolicy::Everything => Some(Seq::new(DIR_SIZE as nat, |i: int| i)),
        FillPolicy::Nothing => Some(Seq::empty()),
    }
}

/// Squared distance along one axis between chunk coordinate `c` and `center`.
fn axis_square(c: usize, center: i32) -> (r: i128)
    requires
        c < WORLD_CHUNKS,
    ensures
        r == (c - center) * (c - center),
        0 <= r < 18446744073709551616,
{
    let d: i128 = c as i128 - center as i128;
    assert(-4294967296 < d < 4294967296);
    assert(d * d < 18446744073709551616) by (nonlinear_arith)
        requires
            -4294967296 < d < 4294967296,
    ;
    assert(d * d >= 0) by (nonlinear_arith);
    d * d
}

/// Directory positions of the chunks within `b`, in directory order.
fn ball_chunk_indices(b: Ball) -> (r: Vec<usize>)
    ensures
        as_ints(r@) == ball_cells(b),
        strictly_increasing(r@),
        forall|k: int| 0 <= k < r.len() ==> r@[k] < DIR_SIZE,
{
    let ghost pred = |i: int| in_ball(b, i);
    let rad: i128 = b.radius as i128;
    assert(rad * rad < 18446744073709551616) by (nonlinear_arith)
        requires
            0 <= rad < 4294967296,
    ;
    let r2: i128 = rad * rad;
    let mut cells: Vec<usize> = Vec::new();
    let mut i: usize = 0;
    while i < DIR_SIZE
        invariant
            i <= DIR_SIZE,
            r2 == b.radius * b.radius,
            pred == (|i: int| in_ball(b, i)),
            as_ints(cells@) == Seq::new(i as nat, |k: int| k).filter(pred),
            strictly_increasing(cells@),
            forall|k: int| 0 <= k < cells.len() ==> cells@[k] < i,
        decreases DIR_SIZE - i,
    {
        let x = i % WORLD_CHUNKS;
        let y = (i / WORLD_CHUNKS) % WORLD_CHUNKS;
        let z = i / (WORLD_CHUNKS * WORLD_CHUNKS);
        assert(z < WORLD_CHUNKS) by (nonlinear_arith)
            requires
                z == i / 1024,
                i < 32768,
        ;
        let dist2 = axis_square(x, b.center_x) + axis_square(y, b.center_y) + axis_square(
            z,
            b.center_z,
        );
        let ghost before = cells@;
        assert(Seq::new((i + 1) as nat, |k: int| k).drop_last() =~= Seq::new(i as nat, |k: int| k));
        reveal(Seq::filter);
        if dist2 <= r2 {
            cells.push(i);
            assert(as_ints(cells@) =~= as_ints(before).push(i as int));
        } else {
            assert(cells@ == before);
        }
        i = i + 1;
    }
    cells
}

/// The chunks that `p` requests, in the order in which they receive slots.
pub fn requested_chunks(p: FillPolicy) -> (r: Result<Vec<usize>, WorldError>)
    ensures
        policy_cells(p) is Some <==> r is Ok,
        r matches Ok(cells) ==> Some(as_ints(cells@)) == policy_cells(p) && strictly_increasing(
            cells@,
        ) && forall|k: int| 0 <= k < cells.len() ==> cells@[k] < DIR_SIZE,
        r matches Err(e) ==> e == WorldError::OutOfRange,
{
    match p {
        FillPolicy::Box(b) => box_chunk_indices(b),
        FillPolicy::Sphere(b) => Ok(ball_chunk_indices(b)),
        FillPolicy::Everything => {
            let mut cells: Vec<usize> = Vec::with_capacity(DIR_SIZE);
            let mut i: usize = 0;
            while i < DIR_SIZE
                invariant
                    i <= DIR_SIZE,
                    cells@.len() == i,
                    forall|k: int| 0 <= k < i ==> cells@[k] == k,
                decreases DIR_SIZE - i,
            {
                cells.push(i);
                i = i + 1;
            }
            assert(as_ints(cells@) =~= Seq::new(DIR_SIZE as nat, |i: int| i));
            Ok(cells)
        },
        FillPolicy::Nothing => {
            let cells: Vec<usize> = Vec::new();
            assert(as_ints(cells@) =~= Seq::empty());
            Ok(cells)
        },
    }
}

/// Lowest corner along one axis of a run of `len` chunks centred in the world.
pub open spec fn centred_min(len: int) -> int {
    (WORLD_CHUNKS - len) / 2
}

/// A box of the given lengths centred in the world on every axis.
pub fn centred_box(len_x: usize, len_y: usize, len_z: usize) -> (r: Result<ChunkBox, WorldError>)
    ensures
        (len_x <= WORLD_CHUNKS && len_y <= WORLD_CHUNKS && len_z <= WORLD_CHUNKS) <==> r is Ok,
        r matches Ok(b) ==> box_fits(b) && b.len_x == len_x && b.len_y == len_y && b.len_z
            == len_z && b.min_x == centred_min(len_x as int) && b.min_y == centred_min(
            len_y as int,
        ) && b.min_z == centred_min(len_z as int),
        r matches Err(e) ==> e == WorldError::OutOfRange,
{
    if len_x > WORLD_CHUNKS || len_y > WORLD_CHUNKS || len_z > WORLD_CHUNKS {
        return Err(WorldError::OutOfRange);
    }
    Ok(
        ChunkBox {
            min_x: (WORLD_CHUNKS - len_x) / 2,
            min_y: (WORLD_CHUNKS - len_y) / 2,
            min_z: (WORLD_CHUNKS - len_z) / 2,
            len_x,
            len_y,
            len_z,
        },
    )
}

/// Pool cell of voxel `(vx, vy, vz)` of the chunk in pool slot `slot`: the
/// slot's cells follow one another, x fastest, then y, then z.
pub open spec fn pool_cell(slot: int, vx: int, vy: int, vz: int) -> int {
    slot * CHUNK_VOLUME + vx + vy * CHUNK_SIZE + vz * CHUNK_SIZE * CHUNK_SIZE
}

/// Whether `(vx, vy, vz)` is a voxel of a chunk.
pub open spec fn in_chunk(vx: int, vy: int, vz: int) -> bool {
    0 <= vx < CHUNK_SIZE && 0 <= vy < CHUNK_SIZE && 0 <= vz < CHUNK_SIZE
}

/// Sampling an air chunk (directory entry 0) reads the reserved empty slot 0;
/// sampling any other chunk reads its own slot, which lies inside the pool.
pub proof fn lemma_sample_resolves_to_slot(dir: Seq<u32>, i: int, vx: int, vy: int, vz: int)
    requires
        directory_wf(dir),
        0 <= i < DIR_SIZE,
        in_chunk(vx, vy, vz),
    ensures
        dir[i] == 0 ==> 0 <= pool_cell(dir[i] as int, vx, vy, vz) < CHUNK_VOLUME,
        dir[i] * CHUNK_VOLUME <= pool_cell(dir[i] as int, vx, vy, vz) < (dir[i] + 1)
            * CHUNK_VOLUME,
        pool_cell(dir[i] as int, vx, vy, vz) < MAX_CHUNKS * CHUNK_VOLUME,
{
}

/// `dir` is the directory image that `policy` gives, with `active` chunks
/// holding a pool slot.
pub open spec fn fills(policy: FillPolicy, dir: Seq<u32>, active: int) -> bool {
    exists|cells: Seq<usize>|
        Some(as_ints(cells)) == policy_cells(policy) && filled(cells, dir) && active
            == active_for(cells.len() as int)
}

/// Fills a directory image as `policy` says and writes it, little-endian,
/// to the start of `dir_buffer`; returns the image and the number of chunks
/// that received a slot.
fn upload_directory(dir_buffer: &mut Buffer, policy: FillPolicy) -> (r: Result<
    (Vec<u32>, u32),
    WorldError,
>)
    requires
        old(dir_buffer).wf(),
        old(dir_buffer).size == DIR_BYTES,
    ensures
        final(dir_buffer).wf(),
        final(dir_buffer).buffer == old(dir_buffer).buffer,
        final(dir_buffer).size == old(dir_buffer).size,
        final(dir_buffer).mapped() == old(dir_buffer).mapped(),
        r is Ok <==> policy_cells(policy) is Some && old(dir_buffer).mapped(),
        policy_cells(policy) is None ==> r == Err::<(Vec<u32>, u32), WorldError>(
            WorldError::OutOfRange,
        ),
        policy_cells(policy) is Some && !old(dir_buffer).mapped() ==> r == Err::<
            (Vec<u32>, u32),
            WorldError,
        >(WorldError::Buffer(BufferError::MapError)),
        r is Err ==> *final(dir_buffer) == *old(dir_buffer),
        r matches Ok((dir, active)) ==> {
            &&& directory_wf(dir@)
            &&& active < MAX_CHUNKS
            &&& fills(policy, dir@, active as int)
            &&& final(dir_buffer).contents() == written(
                old(dir_buffer).contents(),
                le_bytes(dir@),
            )
        },
{
    let cells = match requested_chunks(policy) {
        Ok(cells) => cells,
        Err(e) => {
            return Err(e);
        },
    };
    proof {
        lemma_increasing_no_duplicates(cells@);
    }
    let directory = fill_directory(&cells);
    let bytes = encode_words(directory.as_slice());
    match dir_buffer.update_slice(bytes.as_slice()) {
        Ok(()) => {},
        Err(e) => {
            return Err(WorldError::Buffer(e));
        },
    }
    let active: u32 = if cells.len() < MAX_CHUNKS - 1 {
        cells.len() as u32
    } else {
        (MAX_CHUNKS - 1) as u32
    };
    assert(Some(as_ints(cells@)) == policy_cells(policy) && filled(cells@, directory@) && active
        == active_for(cells@.len() as int));
    Ok((directory, active))
}

/// The sparse voxel world: the host image of the directory, the directory
/// buffer it is pushed to, and the device-local pool of chunk payloads.
pub struct ChunkedWorld {
    pub dir_buffer: Buffer,
    pub pool_buffer: Buffer,
    pub directory: Vec<u32>,
    pub active_chunk_count: u32,
}

/// Chunks that receive a slot when `n` are requested.
pub open spec fn active_for(n: int) -> int {
    if n < MAX_CHUNKS - 1 {
        n
    } else {
        MAX_CHUNKS - 1
    }
}

impl ChunkedWorld {
    /// Buffers of the right sizes and a directory image that may be sampled.
    pub open spec fn wf(&self) -> bool {
        &&& self.dir_buffer.wf()
        &&& self.pool_buffer.wf()
        &&& self.dir_buffer.size == DIR_BYTES
        &&& self.pool_buffer.size == POOL_BYTES
        &&& directory_wf(self.directory@)
        &&& self.active_chunk_count < MAX_CHUNKS
    }

    /// Builds the world over its two buffers: fills the directory image as
    /// `policy` says, then pushes it to the directory buffer in one write.
    /// Buffers of the wrong size are refused first, then a policy that
    /// reaches outside the world, then a directory buffer without mapping.
    pub fn new(dir_buffer: Buffer, pool_buffer: Buffer, policy: FillPolicy) -> (r: Result<
        ChunkedWorld,
        WorldError,
    >)
        requires
            dir_buffer.wf(),
            pool_buffer.wf(),
        ensures
            r is Ok <==> dir_buffer.size == DIR_BYTES && pool_buffer.size == POOL_BYTES
                && policy_cells(policy) is Some && dir_buffer.mapped(),
            !(dir_buffer.size == DIR_BYTES && pool_buffer.size == POOL_BYTES) ==> r == Err::<
                ChunkedWorld,
                WorldError,
            >(WorldError::Buffer(BufferError::AllocationError)),
            dir_buffer.size == DIR_BYTES && pool_buffer.size == POOL_BYTES && policy_cells(
                policy,
            ) is None ==> r == Err::<ChunkedWorld, WorldError>(WorldError::OutOfRange),
            dir_buffer.size == DIR_BYTES && pool_buffer.size == POOL_BYTES && policy_cells(
                policy,
            ) is Some && !dir_buffer.mapped() ==> r == Err::<ChunkedWorld, WorldError>(
                WorldError::Buffer(BufferError::MapError),
            ),
            r matches Ok(w) ==> {
                &&& w.wf()
                &&& w.pool_buffer == pool_buffer
                &&& w.dir_buffer.buffer == dir_buffer.buffer
                &&& w.dir_buffer.mapped()
                &&& fills(policy, w.directory@, w.active_chunk_count as int)
                &&& w.dir_buffer.contents() == written(
                    dir_buffer.contents(),
                    le_bytes(w.directory@),
                )
            },
    {
        if dir_buffer.size != DIR_BYTES || pool_buffer.size != POOL_BYTES {
            return Err(WorldError::Buffer(BufferError::AllocationError));
        }
        let mut dir_buffer = dir_buffer;
        match upload_directory(&mut dir_buffer, policy) {
            Ok((directory, active_chunk_count)) => Ok(
                ChunkedWorld { dir_buffer, pool_buffer, directory, active_chunk_count },
            ),
            Err(e) => Err(e),
        }
    }

    /// A world edit: refills the directory image as `policy` says and pushes
    /// it to the directory buffer in one write. On failure nothing changes.
    pub fn refill(&mut self, policy: FillPolicy) -> (r: Result<(), WorldError>)
        requires
            old(self).wf(),
        ensures
            final(self).wf(),
            r is Ok <==> policy_cells(policy) is Some && old(self).dir_buffer.mapped(),
            policy_cells(policy) is None ==> r == Err::<(), WorldError>(WorldError::OutOfRange),
            policy_cells(policy) is Some && !old(self).dir_buffer.mapped() ==> r == Err::<
                (),
                WorldError,
            >(WorldError::Buffer(BufferError::MapError)),
            r is Ok ==> {
                &&& final(self).pool_buffer == old(self).pool_buffer
                &&& final(self).dir_buffer.buffer == old(self).dir_buffer.buffer
                &&& final(self).dir_buffer.mapped()
                &&& fills(policy, final(self).directory@, final(self).active_chunk_count as int)
                &&& final(self).dir_buffer.contents() == written(
                    old(self).dir_buffer.contents(),
                    le_bytes(final(self).directory@),
                )
            },
            r is Err ==> *final(self) == *old(self),
    {
        match upload_directory(&mut self.dir_buffer, policy) {
            Ok((directory, active_chunk_count)) => {
                self.directory = directory;
                self.active_chunk_count = active_chunk_count;
                Ok(())
            },
            Err(e) => Err(e),
        }
    }

    /// Pool slot of chunk `(x, y, z)`: 0 for air, else its slot.
    pub fn slot_at(&self, x: usize, y: usize, z: usize) -> (r: Result<u32, WorldError>)
        requires
            self.wf(),
        ensures
            in_world(x as int, y as int, z as int) <==> r is Ok,
            r matches Ok(s) ==> s == self.directory@[dir_index(x as int, y as int, z as int)],
            r matches Err(e) ==> e == WorldError::OutOfRange,
    {
        match chunk_index(x, y, z) {
            Ok(i) => Ok(self.directory[i]),
            Err(e) => Err(e),
        }
    }

    /// Pool cell read when sampling voxel `(vx, vy, vz)` of chunk `(x, y, z)`.
    pub fn sample(&self, x: usize, y: usize, z: usize, vx: usize, vy: usize, vz: usize) -> (r:
        Result<usize, WorldError>)
        requires
            self.wf(),
        ensures
            (in_world(x as int, y as int, z as int) && in_chunk(vx as int, vy as int, vz as int))
                <==> r is Ok,
            r matches Ok(c) ==> c == pool_cell(
                self.directory@[dir_index(x as int, y as int, z as int)] as int,
                vx as int,
                vy as int,
                vz as int,
            ),
            r matches Err(e) ==> e == WorldError::OutOfRange,
    {
        if vx >= CHUNK_SIZE || vy >= CHUNK_SIZE || vz >= CHUNK_SIZE {
            return Err(WorldError::OutOfRange);
        }
        let slot = match self.slot_at(x, y, z) {
            Ok(s) => s,
            Err(e) => {
                return Err(e);
            },
        };
        proof {
            lemma_sample_resolves_to_slot(
                self.directory@,
                dir_index(x as int, y as int, z as int),
                vx as int,
                vy as int,
                vz as int,
            );
        }
        Ok(slot as usize * CHUNK_VOLUME + vx + vy * CHUNK_SIZE + vz * CHUNK_SIZE * CHUNK_SIZE)
    }
}

} // verus!

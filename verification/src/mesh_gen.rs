//! The world occupancy grid, generation jobs and the chunk mesher.

use crate::rvkp::mesh::{Mesh, RVertex3d};
use crate::rvkp::view::{all_drawable, VkView};
use crate::utils::{
    coord_to_index, idx_to_vec3, in_grid, index_x, index_y, index_z, lemma_index_coord_index,
    random, vec3_to_idx, Coord3,
};
use vstd::prelude::*;

verus! {

/// Edge length of a chunk, in voxels.
pub const CHUNK_SIZE: usize = 32;

/// Edge length of the world, in chunks.
pub const WORLD_SIZE: usize = 32;

/// Number of voxels in a chunk.
pub const CHUNK_VOLUME: usize = 32768;

/// Number of chunks in the world.
pub const WORLD_VOLUME: usize = 32768;

/// Why a job was not created or not meshed.
#[derive(Clone, Copy, Debug, PartialEq, Eq, Structural)]
pub enum MeshGenError {
    /// A chunk coordinate lies outside the world.
    OutOfRange,
    /// The voxel buffer does not hold one entry per voxel of a chunk.
    VoxelCount,
}

/// Whether `(x, y, z)` names a chunk of the world.
pub open spec fn in_world(x: int, y: int, z: int) -> bool {
    in_grid(x, y, z, WORLD_SIZE as int)
}

/// The grid entry of the chunk at `(x, y, z)`.
pub open spec fn chunk_index(x: int, y: int, z: int) -> int {
    coord_to_index(x, y, z, WORLD_SIZE as int)
}

/// One occupancy flag per chunk of the world: `true` once the generation of
/// that chunk has been claimed.
pub struct WorldGrid {
    chunks: Vec<bool>,
}

impl View for WorldGrid {
    type V = Seq<bool>;

    closed spec fn view(&self) -> Seq<bool> {
        self.chunks@
    }
}

impl WorldGrid {
    #[verifier::type_invariant]
    spec fn well_formed(self) -> bool {
        self.chunks.len() == WORLD_VOLUME
    }

    /// A grid in which no chunk is claimed.
    pub fn new() -> (grid: Self)
        ensures
            grid@ == Seq::new(WORLD_VOLUME as nat, |i: int| false),
    {
        let mut chunks: Vec<bool> = Vec::with_capacity(WORLD_VOLUME);
        let mut i: usize = 0;
        while i < WORLD_VOLUME
            invariant
                i <= WORLD_VOLUME,
                chunks.len() == i,
                forall|j: int| 0 <= j < i ==> !chunks[j],
            decreases WORLD_VOLUME - i,
        {
            chunks.push(false);
            i += 1;
        }
        assert(chunks@ =~= Seq::new(WORLD_VOLUME as nat, |i: int| false));
        WorldGrid { chunks }
    }

    /// Whether the chunk at `(x, y, z)` is claimed.
    pub fn is_claimed(&self, x: usize, y: usize, z: usize) -> (r: Result<bool, MeshGenError>)
        ensures
            self@.len() == WORLD_VOLUME,
            in_world(x as int, y as int, z as int) ==> r == Ok::<bool, MeshGenError>(
                self@[chunk_index(x as int, y as int, z as int)],
            ),
            !in_world(x as int, y as int, z as int) ==> r == Err::<bool, MeshGenError>(
                MeshGenError::OutOfRange,
            ),
    {
        proof {
            use_type_invariant(self);
        }
        if x >= WORLD_SIZE || y >= WORLD_SIZE || z >= WORLD_SIZE {
            return Err(MeshGenError::OutOfRange);
        }
        let idx: usize = vec3_to_idx(x, y, z, WORLD_SIZE);
        Ok(self.chunks[idx])
    }

    /// Claims the chunk at `(x, y, z)`: sets its flag and tells whether this
    /// call was the one that set it. A coordinate outside the world is
    /// refused and leaves the grid as it was.
    pub fn claim(&mut self, x: usize, y: usize, z: usize) -> (r: Result<bool, MeshGenError>)
        ensures
            final(self)@.len() == WORLD_VOLUME,
            old(self)@.len() == WORLD_VOLUME,
            in_world(x as int, y as int, z as int) ==> r == Ok::<bool, MeshGenError>(
                !old(self)@[chunk_index(x as int, y as int, z as int)],
            ) && final(self)@ == old(self)@.update(
                chunk_index(x as int, y as int, z as int),
                true,
            ),
            !in_world(x as int, y as int, z as int) ==> r == Err::<bool, MeshGenError>(
                MeshGenError::OutOfRange,
            ) && final(self)@ == old(self)@,
            forall|i: int| 0 <= i < WORLD_VOLUME && old(self)@[i] ==> final(self)@[i],
    {
        proof {
            use_type_invariant(&*self);
        }
        if x >= WORLD_SIZE || y >= WORLD_SIZE || z >= WORLD_SIZE {
            return Err(MeshGenError::OutOfRange);
        }
        let idx: usize = vec3_to_idx(x, y, z, WORLD_SIZE);
        let was_claimed: bool = self.chunks[idx];
        self.chunks[idx] = true;
        Ok(!was_claimed)
    }

    /// The chunk with the lowest grid index that nobody has claimed, if there
    /// is one.
    pub fn next_unclaimed(&self) -> (r: Option<Coord3>)
        ensures
            self@.len() == WORLD_VOLUME,
            match r {
                Some(c) => in_world(c.x as int, c.y as int, c.z as int) && !self@[chunk_index(
                    c.x as int,
                    c.y as int,
                    c.z as int,
                )] && forall|i: int|
                    0 <= i < chunk_index(c.x as int, c.y as int, c.z as int) ==> self@[i],
                None => forall|i: int| 0 <= i < WORLD_VOLUME ==> self@[i],
            },
    {
        proof {
            use_type_invariant(self);
        }
        let mut i: usize = 0;
        while i < WORLD_VOLUME
            invariant
                i <= WORLD_VOLUME,
                self.chunks.len() == WORLD_VOLUME,
                forall|j: int| 0 <= j < i ==> self.chunks[j],
            decreases WORLD_VOLUME - i,
        {
            if !self.chunks[i] {
                proof {
                    lemma_index_coord_index(i as int, WORLD_SIZE as int);
                }
                return Some(idx_to_vec3(i, WORLD_SIZE));
            }
            i += 1;
        }
        None
    }
}

/// The liveness rule for a drawn sample: a voxel is live on an even sample.
pub fn voxel_is_live(sample: u32) -> (live: bool)
    ensures
        live == (sample % 2 == 0),
{
    sample % 2 == 0
}

/// A request to mesh one chunk: the chunk's coordinate and one liveness flag
/// per voxel of it.
pub struct VoxelMeshGenJob {
    /// The liveness flags, in flat-index order.
    pub voxels: Vec<bool>,
    /// The chunk coordinate.
    pub pos: Coord3,
}

impl VoxelMeshGenJob {
    /// A job for the chunk at `(x, y, z)` over the given liveness flags.
    /// Nothing is claimed and nothing is checked: the mesher refuses a job
    /// that it cannot work on.
    pub fn new(voxels: Vec<bool>, x: usize, y: usize, z: usize) -> (job: Self)
        ensures
            job.voxels@ == voxels@,
            job.pos == (Coord3 { x, y, z }),
    {
        VoxelMeshGenJob { voxels, pos: Coord3 { x, y, z } }
    }

    /// Claims the chunk at `(x, y, z)` and, if this call made the claim,
    /// returns a job for it with freshly drawn liveness flags. `Ok(None)`
    /// says that the chunk was claimed before. A coordinate outside the world
    /// is refused, and then the grid stays as it was.
    pub fn chunk(grid: &mut WorldGrid, x: usize, y: usize, z: usize) -> (r: Result<
        Option<Self>,
        MeshGenError,
    >)
        ensures
            old(grid)@.len() == WORLD_VOLUME,
            final(grid)@.len() == WORLD_VOLUME,
            forall|i: int| 0 <= i < WORLD_VOLUME && old(grid)@[i] ==> final(grid)@[i],
            !in_world(x as int, y as int, z as int) ==> final(grid)@ == old(grid)@ && r is Err
                && r->Err_0 == MeshGenError::OutOfRange,
            in_world(x as int, y as int, z as int) ==> final(grid)@ == old(grid)@.update(
                chunk_index(x as int, y as int, z as int),
                true,
            ),
            in_world(x as int, y as int, z as int) && old(grid)@[chunk_index(
                x as int,
                y as int,
                z as int,
            )] ==> r is Ok && r->Ok_0 is None,
            in_world(x as int, y as int, z as int) && !old(grid)@[chunk_index(
                x as int,
                y as int,
                z as int,
            )] ==> r is Ok && r->Ok_0 is Some && r->Ok_0->0.pos == (Coord3 { x, y, z })
                && r->Ok_0->0.voxels@.len() == CHUNK_VOLUME,
    {
        match grid.claim(x, y, z) {
            Err(e) => Err(e),
            Ok(false) => Ok(None),
            Ok(true) => {
                let mut voxels: Vec<bool> = Vec::with_capacity(CHUNK_VOLUME);
                let mut i: usize = 0;
                while i < CHUNK_VOLUME
                    invariant
                        i <= CHUNK_VOLUME,
                        voxels.len() == i,
                    decreases CHUNK_VOLUME - i,
                {
                    voxels.push(voxel_is_live(random(0, 10)));
                    i += 1;
                }
                Ok(Some(VoxelMeshGenJob { voxels, pos: Coord3 { x, y, z } }))
            },
        }
    }
}

/// The vertex and index data of one chunk mesh.
pub struct ChunkGeometry {
    pub verts: Vec<RVertex3d>,
    pub inds: Vec<u32>,
}

/// Corner `k` of the unit cube whose lowest corner is `(x, y, z)`: the
/// corners are counted with `z` changing fastest and `x` slowest.
pub open spec fn cube_corner(x: int, y: int, z: int, k: int) -> RVertex3d {
    RVertex3d { x: (x + k / 4) as u32, y: (y + (k / 2) % 2) as u32, z: (z + k % 2) as u32 }
}

/// The eight corners of the unit cube whose lowest corner is `(x, y, z)`.
pub open spec fn cube_at(x: int, y: int, z: int) -> Seq<RVertex3d> {
    Seq::new(8, |k: int| cube_corner(x, y, z, k))
}

/// The corners named by the twelve triangles of a cube, two triangles per
/// face: front, back, bottom, top, left, right.
pub open spec fn face_pattern() -> Seq<u32> {
    seq![
        0u32, 1, 2, 1, 2, 3,
        4, 5, 6, 5, 6, 7,
        0, 1, 4, 1, 4, 5,
        2, 3, 6, 3, 6, 7,
        0, 2, 4, 2, 4, 6,
        1, 3, 5, 3, 5, 7,
    ]
}

/// The index entries of a cube whose first corner is vertex `base`.
pub open spec fn cube_indices(base: int) -> Seq<u32> {
    Seq::new(36, |k: int| (base + face_pattern()[k]) as u32)
}

/// World position of the lowest corner of voxel `i` of the chunk at `pos`:
/// the voxel's place in the chunk, moved by the chunk's origin.
pub open spec fn voxel_x(pos: Coord3, i: int) -> int {
    index_x(i, CHUNK_SIZE as int) + pos.x * CHUNK_SIZE
}

pub open spec fn voxel_y(pos: Coord3, i: int) -> int {
    index_y(i, CHUNK_SIZE as int) + pos.y * CHUNK_SIZE
}

pub open spec fn voxel_z(pos: Coord3, i: int) -> int {
    index_z(i, CHUNK_SIZE as int) + pos.z * CHUNK_SIZE
}

/// Number of live voxels among the first `n`.
pub open spec fn live_count(voxels: Seq<bool>, n: int) -> int
    decreases n,
{
    if n <= 0 {
        0
    } else {
        live_count(voxels, n - 1) + if voxels[n - 1] {
            1int
        } else {
            0int
        }
    }
}

/// The vertex buffer for the first `n` voxels: the cubes of the live ones,
/// in flat-index order.
pub open spec fn mesh_vertices(voxels: Seq<bool>, pos: Coord3, n: int) -> Seq<RVertex3d>
    decreases n,
{
    if n <= 0 {
        Seq::empty()
    } else if voxels[n - 1] {
        mesh_vertices(voxels, pos, n - 1) + cube_at(
            voxel_x(pos, n - 1),
            voxel_y(pos, n - 1),
            voxel_z(pos, n - 1),
        )
    } else {
        mesh_vertices(voxels, pos, n - 1)
    }
}

/// The index buffer for the first `n` voxels. The cube of a live voxel
/// refers to its own eight vertices: its base is eight times the number of
/// live voxels before it.
pub open spec fn mesh_indices(voxels: Seq<bool>, n: int) -> Seq<u32>
    decreases n,
{
    if n <= 0 {
        Seq::empty()
    } else if voxels[n - 1] {
        mesh_indices(voxels, n - 1) + cube_indices(8 * live_count(voxels, n - 1))
    } else {
        mesh_indices(voxels, n - 1)
    }
}

/// Why the mesher refuses a job, if it does: a voxel buffer of the wrong
/// length first, then a chunk outside the world.
pub open spec fn job_error(voxels: Seq<bool>, pos: Coord3) -> Option<MeshGenError> {
    if voxels.len() != CHUNK_VOLUME {
        Some(MeshGenError::VoxelCount)
    } else if !in_world(pos.x as int, pos.y as int, pos.z as int) {
        Some(MeshGenError::OutOfRange)
    } else {
        None
    }
}

fn push_cube_vertices(verts: &mut Vec<RVertex3d>, x: u32, y: u32, z: u32)
    requires
        x < u32::MAX,
        y < u32::MAX,
        z < u32::MAX,
    ensures
        final(verts)@ == old(verts)@ + cube_at(x as int, y as int, z as int),
{
    let ghost before = verts@;
    let mut k: u32 = 0;
    while k < 8
        invariant
            k <= 8,
            x < u32::MAX,
            y < u32::MAX,
            z < u32::MAX,
            verts@ == before + cube_at(x as int, y as int, z as int).subrange(0, k as int),
        decreases 8 - k,
    {
        let corner = RVertex3d::new(x + k / 4, y + (k / 2) % 2, z + k % 2);
        verts.push(corner);
        assert(corner == cube_corner(x as int, y as int, z as int, k as int));
        assert(verts@ =~= before + cube_at(x as int, y as int, z as int).subrange(
            0,
            k as int + 1,
        ));
        k += 1;
    }
    assert(cube_at(x as int, y as int, z as int).subrange(0, 8) =~= cube_at(
        x as int,
        y as int,
        z as int,
    ));
}

fn push_cube_indices(inds: &mut Vec<u32>, base: u32)
    requires
        base <= u32::MAX - 7,
    ensures
        final(inds)@ == old(inds)@ + cube_indices(base as int),
{
    let pattern: [u32; 36] = [
        0, 1, 2, 1, 2, 3,
        4, 5, 6, 5, 6, 7,
        0, 1, 4, 1, 4, 5,
        2, 3, 6, 3, 6, 7,
        0, 2, 4, 2, 4, 6,
        1, 3, 5, 3, 5, 7,
    ];
    assert(pattern@ =~= face_pattern());
    let ghost before = inds@;
    let mut k: usize = 0;
    while k < 36
        invariant
            k <= 36,
            base <= u32::MAX - 7,
            pattern@ == face_pattern(),
            forall|j: int| 0 <= j < 36 ==> face_pattern()[j] <= 7,
            inds@ == before + cube_indices(base as int).subrange(0, k as int),
        decreases 36 - k,
    {
        inds.push(base + pattern[k]);
        assert(inds@ =~= before + cube_indices(base as int).subrange(0, k as int + 1));
        k += 1;
    }
    assert(cube_indices(base as int).subrange(0, 36) =~= cube_indices(base as int));
}

/// The chunk mesher.
pub struct VoxelMeshGen {}

impl VoxelMeshGen {
    /// Meshes one chunk: a cube of eight vertices and twelve triangles for
    /// each live voxel, in flat-index order, with no faces left out. The
    /// result depends on the job alone. A job whose voxel buffer has the
    /// wrong length, or whose chunk lies outside the world, is refused.
    pub fn execute(job: VoxelMeshGenJob) -> (r: Result<ChunkGeometry, MeshGenError>)
        ensures
            match r {
                Ok(g) => job_error(job.voxels@, job.pos) is None && g.verts@ == mesh_vertices(
                    job.voxels@,
                    job.pos,
                    CHUNK_VOLUME as int,
                ) && g.inds@ == mesh_indices(job.voxels@, CHUNK_VOLUME as int) && g.verts.len()
                    == 8 * live_count(job.voxels@, CHUNK_VOLUME as int) && g.inds.len() == 36
                    * live_count(job.voxels@, CHUNK_VOLUME as int) && forall|k: int|
                    0 <= k < g.inds.len() ==> (#[trigger] g.inds[k]) < g.verts.len(),
                Err(e) => job_error(job.voxels@, job.pos) == Some(e),
            },
    {
        let voxels = job.voxels;
        let pos = job.pos;
        if voxels.len() != CHUNK_VOLUME {
            return Err(MeshGenError::VoxelCount);
        }
        if pos.x >= WORLD_SIZE || pos.y >= WORLD_SIZE || pos.z >= WORLD_SIZE {
            return Err(MeshGenError::OutOfRange);
        }
        let mut verts: Vec<RVertex3d> = Vec::new();
        let mut inds: Vec<u32> = Vec::new();
        let mut live: u32 = 0;
        let mut i: usize = 0;
        while i < CHUNK_VOLUME
            invariant
                i <= CHUNK_VOLUME,
                voxels.len() == CHUNK_VOLUME,
                pos.x < WORLD_SIZE,
                pos.y < WORLD_SIZE,
                pos.z < WORLD_SIZE,
                live == live_count(voxels@, i as int),
                live <= i,
                verts@ == mesh_vertices(voxels@, pos, i as int),
                inds@ == mesh_indices(voxels@, i as int),
            decreases CHUNK_VOLUME - i,
        {
            if voxels[i] {
                let local = idx_to_vec3(i, CHUNK_SIZE);
                proof {
                    lemma_index_coord_index(i as int, CHUNK_SIZE as int);
                }
                let x: usize = local.x + pos.x * CHUNK_SIZE;
                let y: usize = local.y + pos.y * CHUNK_SIZE;
                let z: usize = local.z + pos.z * CHUNK_SIZE;
                push_cube_vertices(&mut verts, x as u32, y as u32, z as u32);
                push_cube_indices(&mut inds, live * 8);
                live += 1;
            }
            i += 1;
        }
        proof {
            lemma_mesh_shape(voxels@, pos, CHUNK_VOLUME as int);
        }
        Ok(ChunkGeometry { verts, inds })
    }
}

/// The grid after a run of claims, made one after the other in the order of
/// `attempts`, each entry the grid index of the chunk that is asked for.
pub open spec fn grid_after(grid: Seq<bool>, attempts: Seq<int>) -> Seq<bool>
    decreases attempts.len(),
{
    if attempts.len() == 0 {
        grid
    } else {
        grid_after(grid, attempts.drop_last()).update(attempts.last(), true)
    }
}

/// How many of the claims in `attempts` ask for the grid entry `c` and find
/// it unclaimed, so that they win the chunk.
pub open spec fn claims_won(grid: Seq<bool>, attempts: Seq<int>, c: int) -> int
    decreases attempts.len(),
{
    if attempts.len() == 0 {
        0
    } else {
        claims_won(grid, attempts.drop_last(), c) + if attempts.last() == c && !grid_after(
            grid,
            attempts.drop_last(),
        )[c] {
            1int
        } else {
            0int
        }
    }
}

/// However claims are ordered, a chunk is won at most once: exactly once if
/// it was unclaimed and some claim asks for it, and never otherwise. After the
/// run the chunk is claimed if it was before or if it was asked for.
pub proof fn lemma_one_claim_wins(grid: Seq<bool>, attempts: Seq<int>, c: int)
    requires
        0 <= c < grid.len(),
        forall|i: int| 0 <= i < attempts.len() ==> 0 <= #[trigger] attempts[i] < grid.len(),
    ensures
        grid_after(grid, attempts).len() == grid.len(),
        grid_after(grid, attempts)[c] == (grid[c] || attempts.contains(c)),
        claims_won(grid, attempts, c) == if !grid[c] && attempts.contains(c) {
            1int
        } else {
            0int
        },
    decreases attempts.len(),
{
    if attempts.len() > 0 {
        let head = attempts.drop_last();
        lemma_one_claim_wins(grid, head, c);
        assert(attempts.contains(c) == (head.contains(c) || attempts.last() == c)) by {
            if head.contains(c) {
                let i = choose|i: int| 0 <= i < head.len() && head[i] == c;
                assert(attempts[i] == c);
            }
            if attempts.last() == c {
                assert(attempts[attempts.len() - 1] == c);
            }
            if attempts.contains(c) {
                let i = choose|i: int| 0 <= i < attempts.len() && attempts[i] == c;
                if i < head.len() {
                    assert(head[i] == c);
                }
            }
        }
    }
}

/// A run of claims never releases a chunk.
pub proof fn lemma_claims_never_release(grid: Seq<bool>, attempts: Seq<int>, c: int)
    requires
        0 <= c < grid.len(),
        grid[c],
        forall|i: int| 0 <= i < attempts.len() ==> 0 <= #[trigger] attempts[i] < grid.len(),
    ensures
        grid_after(grid, attempts)[c],
{
    lemma_one_claim_wins(grid, attempts, c);
}

/// The shape of a mesh: eight vertices and thirty-six index entries for each
/// live voxel, and every index entry names a vertex of the mesh.
pub proof fn lemma_mesh_shape(voxels: Seq<bool>, pos: Coord3, n: int)
    requires
        0 <= n <= CHUNK_VOLUME,
    ensures
        0 <= live_count(voxels, n) <= n,
        mesh_vertices(voxels, pos, n).len() == 8 * live_count(voxels, n),
        mesh_indices(voxels, n).len() == 36 * live_count(voxels, n),
        forall|k: int|
            0 <= k < mesh_indices(voxels, n).len() ==> (#[trigger] mesh_indices(voxels, n)[k])
                < mesh_vertices(voxels, pos, n).len(),
    decreases n,
{
    if n > 0 {
        lemma_mesh_shape(voxels, pos, n - 1);
        if voxels[n - 1] {
            let base = 8 * live_count(voxels, n - 1);
            let before = mesh_indices(voxels, n - 1);
            assert forall|k: int| 0 <= k < mesh_indices(voxels, n).len() implies (
            #[trigger] mesh_indices(voxels, n)[k]) < mesh_vertices(voxels, pos, n).len() by {
                if k >= before.len() {
                    let j = k - before.len();
                    assert(mesh_indices(voxels, n)[k] == cube_indices(base)[j]);
                    assert(face_pattern()[j] <= 7);
                } else {
                    assert(mesh_indices(voxels, n)[k] == before[k]);
                }
            }
        }
    }
}

/// One turn of the background worker: meshes the job and appends a mesh of
/// that geometry to the view's store. The geometry is handed back for
/// upload. A job that the mesher refuses leaves the view as it was.
pub fn process_job(job: VoxelMeshGenJob, view: &mut VkView) -> (r: Result<
    ChunkGeometry,
    MeshGenError,
>)
    ensures
        final(view).viewport == old(view).viewport,
        final(view).surface_extent == old(view).surface_extent,
        final(view).framebuffers == old(view).framebuffers,
        final(view).command_buffers == old(view).command_buffers,
        all_drawable(old(view).meshes@) ==> all_drawable(final(view).meshes@),
        match r {
            Ok(g) => job_error(job.voxels@, job.pos) is None && g.verts@ == mesh_vertices(
                job.voxels@,
                job.pos,
                CHUNK_VOLUME as int,
            ) && g.inds@ == mesh_indices(job.voxels@, CHUNK_VOLUME as int)
                && final(view).meshes@ == old(view).meshes@.push(
                Mesh { vert_buf: Some(g.verts.len()), ind_buf: Some(g.inds.len()), inst_buf: None },
            ),
            Err(e) => job_error(job.voxels@, job.pos) == Some(e)
                && final(view).meshes@ == old(view).meshes@,
        },
{
    match VoxelMeshGen::execute(job) {
        Ok(geometry) => {
            view.push_mesh(Mesh::new(geometry.verts.len(), geometry.inds.len()));
            Ok(geometry)
        },
        Err(e) => Err(e),
    }
}

/// Every vertex of a chunk's mesh lies in the cube that the chunk takes up
/// in the world, its far faces included.
pub proof fn lemma_vertices_in_chunk(voxels: Seq<bool>, pos: Coord3, n: int, k: int)
    requires
        0 <= n <= CHUNK_VOLUME,
        in_world(pos.x as int, pos.y as int, pos.z as int),
        0 <= k < mesh_vertices(voxels, pos, n).len(),
    ensures
        pos.x * CHUNK_SIZE <= mesh_vertices(voxels, pos, n)[k].x <= pos.x * CHUNK_SIZE
            + CHUNK_SIZE,
        pos.y * CHUNK_SIZE <= mesh_vertices(voxels, pos, n)[k].y <= pos.y * CHUNK_SIZE
            + CHUNK_SIZE,
        pos.z * CHUNK_SIZE <= mesh_vertices(voxels, pos, n)[k].z <= pos.z * CHUNK_SIZE
            + CHUNK_SIZE,
    decreases n,
{
    if n > 0 {
        let before = mesh_vertices(voxels, pos, n - 1);
        if voxels[n - 1] && k >= before.len() {
            lemma_index_coord_index(n - 1, CHUNK_SIZE as int);
            let j = k - before.len();
            assert(mesh_vertices(voxels, pos, n)[k] == cube_corner(
                voxel_x(pos, n - 1),
                voxel_y(pos, n - 1),
                voxel_z(pos, n - 1),
                j,
            ));
        } else {
            lemma_vertices_in_chunk(voxels, pos, n - 1, k);
        }
    }
}

/// Meshing depends on the job's content alone: two jobs with the same chunk
/// and the same liveness flags are refused alike or give the same buffers.
pub proof fn lemma_meshing_is_a_function_of_the_job(a: VoxelMeshGenJob, b: VoxelMeshGenJob)
    requires
        a.voxels@ == b.voxels@,
        a.pos == b.pos,
    ensures
        job_error(a.voxels@, a.pos) == job_error(b.voxels@, b.pos),
        mesh_vertices(a.voxels@, a.pos, CHUNK_VOLUME as int) == mesh_vertices(
            b.voxels@,
            b.pos,
            CHUNK_VOLUME as int,
        ),
        mesh_indices(a.voxels@, CHUNK_VOLUME as int) == mesh_indices(
            b.voxels@,
            CHUNK_VOLUME as int,
        ),
{
}

} // verus!

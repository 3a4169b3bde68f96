use vstd::prelude::*;

verus! {

/// What a cell of the world holds.
#[derive(Clone, Copy, Debug, PartialEq, Eq, Structural)]
pub enum VoxelType {
    Empty,
    Ground,
    Wall,
}

/// A stored (non-empty) cell: its integer coordinate and its type.
#[derive(Clone, Copy, Debug, PartialEq, Eq, Structural)]
pub struct Voxel {
    pub x: i32,
    pub y: i32,
    pub z: i32,
    pub voxel_type: VoxelType,
}

impl Voxel {
    /// This entry is for the coordinate (x, y, z).
    pub open spec fn is_at(self, x: int, y: int, z: int) -> bool {
        self.x as int == x && self.y as int == y && self.z as int == z
    }
}

/// A bounded grid of `width` x `height` x `depth` cells that stores only its
/// non-empty cells.
#[derive(Clone, Debug)]
pub struct World {
    pub width: i32,
    pub height: i32,
    pub depth: i32,
    pub voxels: Vec<Voxel>,
}

/// Width, height and depth of the default grid.
pub const DEFAULT_WORLD_SIZE: i32 = 25;

/// Index `i` of `s` holds an entry for the coordinate (x, y, z).
pub open spec fn entry_at(s: Seq<Voxel>, i: int, x: int, y: int, z: int) -> bool {
    0 <= i < s.len() && s[i].is_at(x, y, z)
}

impl World {
    /// (x, y, z) lies inside the grid.
    pub open spec fn in_bounds(&self, x: int, y: int, z: int) -> bool {
        0 <= x < self.width && 0 <= y < self.height && 0 <= z < self.depth
    }

    /// Dimensions are positive; every entry is in bounds and non-empty; no two
    /// entries share a coordinate.
    pub open spec fn wf(&self) -> bool {
        &&& self.width > 0
        &&& self.height > 0
        &&& self.depth > 0
        &&& forall|i: int|
            0 <= i < self.voxels@.len() ==> {
                &&& self.in_bounds(
                    #[trigger] self.voxels@[i].x as int,
                    self.voxels@[i].y as int,
                    self.voxels@[i].z as int,
                )
                &&& self.voxels@[i].voxel_type != VoxelType::Empty
            }
        &&& forall|i: int, j: int|
            0 <= i < j < self.voxels@.len() ==> !(#[trigger] self.voxels@[i]).is_at(
                (#[trigger] self.voxels@[j]).x as int,
                self.voxels@[j].y as int,
                self.voxels@[j].z as int,
            )
    }

    /// The type of the cell at (x, y, z): the stored entry's type, or `Empty`
    /// where there is none or the coordinate lies outside the grid.
    pub open spec fn cell(&self, x: int, y: int, z: int) -> VoxelType {
        if self.in_bounds(x, y, z) && exists|i: int| entry_at(self.voxels@, i, x, y, z) {
            self.voxels@[choose|i: int| entry_at(self.voxels@, i, x, y, z)].voxel_type
        } else {
            VoxelType::Empty
        }
    }

    /// How many cells are stored.
    pub open spec fn stored_count(&self) -> nat {
        self.voxels@.len()
    }

    /// A grid with the given dimensions and no stored cell.
    pub fn new(width: i32, height: i32, depth: i32) -> (r: World)
        requires
            width > 0,
            height > 0,
            depth > 0,
        ensures
            r.wf(),
            r.width == width,
            r.height == height,
            r.depth == depth,
            r.stored_count() == 0,
            forall|x: int, y: int, z: int| r.cell(x, y, z) == VoxelType::Empty,
    {
        World { width, height, depth, voxels: Vec::new() }
    }

    /// Number of stored (non-empty) cells.
    pub fn voxel_count(&self) -> (r: usize)
        ensures
            r == self.stored_count(),
    {
        self.voxels.len()
    }
}

impl Default for World {
    fn default() -> (r: World)
        ensures
            r.wf(),
            r.width == DEFAULT_WORLD_SIZE,
            r.height == DEFAULT_WORLD_SIZE,
            r.depth == DEFAULT_WORLD_SIZE,
            r.stored_count() == 0,
    {
        World::new(DEFAULT_WORLD_SIZE, DEFAULT_WORLD_SIZE, DEFAULT_WORLD_SIZE)
    }
}

/// With unique coordinates, an entry found at index `k` is the one `cell` reads.
proof fn lemma_cell_witness(w: &World, k: int, x: int, y: int, z: int)
    requires
        w.wf(),
        entry_at(w.voxels@, k, x, y, z),
    ensures
        w.cell(x, y, z) == w.voxels@[k].voxel_type,
{
    let c = choose|i: int| entry_at(w.voxels@, i, x, y, z);
    if c < k {
        assert(!w.voxels@[c].is_at(w.voxels@[k].x as int, w.voxels@[k].y as int, w.voxels@[k].z as int));
    } else if k < c {
        assert(!w.voxels@[k].is_at(w.voxels@[c].x as int, w.voxels@[c].y as int, w.voxels@[c].z as int));
    }
}

/// (x, y, z) lies inside the grid.
pub fn is_valid_position(world: &World, x: i32, y: i32, z: i32) -> (r: bool)
    ensures
        r == world.in_bounds(x as int, y as int, z as int),
{
    x >= 0 && x < world.width && y >= 0 && y < world.height && z >= 0 && z < world.depth
}

/// Index of the entry stored for (x, y, z), if any.
fn find_entry(world: &World, x: i32, y: i32, z: i32) -> (r: Option<usize>)
    requires
        world.wf(),
    ensures
        r matches Some(k) ==> entry_at(world.voxels@, k as int, x as int, y as int, z as int),
        r is None ==> forall|i: int| !entry_at(world.voxels@, i, x as int, y as int, z as int),
{
    let mut i: usize = 0;
    while i < world.voxels.len()
        invariant
            i <= world.voxels@.len(),
            forall|j: int| 0 <= j < i ==> !entry_at(world.voxels@, j, x as int, y as int, z as int),
        decreases world.voxels@.len() - i,
    {
        let v = &world.voxels[i];
        if v.x == x && v.y == y && v.z == z {
            return Some(i);
        }
        i = i + 1;
    }
    None
}

/// The type of the cell at (x, y, z); `Empty` outside the grid.
pub fn get_voxel(world: &World, x: i32, y: i32, z: i32) -> (r: VoxelType)
    requires
        world.wf(),
    ensures
        r == world.cell(x as int, y as int, z as int),
{
    if !is_valid_position(world, x, y, z) {
        return VoxelType::Empty;
    }
    match find_entry(world, x, y, z) {
        Some(k) => {
            proof {
                lemma_cell_witness(world, k as int, x as int, y as int, z as int);
            }
            world.voxels[k].voxel_type
        },
        None => VoxelType::Empty,
    }
}

/// The number of stored cells after writing `t` at (x, y, z): one more where an
/// empty cell in bounds gets a solid type, one less where a solid cell is
/// cleared, the same otherwise.
pub open spec fn count_after_set(w: &World, x: int, y: int, z: int, t: VoxelType) -> int {
    if !w.in_bounds(x, y, z) {
        w.stored_count() as int
    } else if w.cell(x, y, z) == VoxelType::Empty && t != VoxelType::Empty {
        w.stored_count() as int + 1
    } else if w.cell(x, y, z) != VoxelType::Empty && t == VoxelType::Empty {
        w.stored_count() as int - 1
    } else {
        w.stored_count() as int
    }
}

/// The grid after writing `t` at (x, y, z), cell by cell.
pub open spec fn cell_after_set(
    w: &World,
    x: int,
    y: int,
    z: int,
    t: VoxelType,
    a: int,
    b: int,
    c: int,
) -> VoxelType {
    if w.in_bounds(x, y, z) && a == x && b == y && c == z {
        t
    } else {
        w.cell(a, b, c)
    }
}

/// `w2` is `w` after writing `t` at (x, y, z): same dimensions, still
/// well-formed, every cell as `cell_after_set` gives it, and the number of
/// stored cells as `count_after_set` gives it.
pub open spec fn set_result(w: &World, x: int, y: int, z: int, t: VoxelType, w2: &World) -> bool {
    &&& w2.wf()
    &&& w2.width == w.width
    &&& w2.height == w.height
    &&& w2.depth == w.depth
    &&& forall|a: int, b: int, c: int|
        #[trigger] w2.cell(a, b, c) == cell_after_set(w, x, y, z, t, a, b, c)
    &&& w2.stored_count() == count_after_set(w, x, y, z, t)
}

/// Writes `voxel_type` at (x, y, z). Outside the grid nothing changes; `Empty`
/// removes the stored entry; a solid type replaces or adds it.
pub fn set_voxel(world: &mut World, x: i32, y: i32, z: i32, voxel_type: VoxelType)
    requires
        old(world).wf(),
    ensures
        set_result(old(world), x as int, y as int, z as int, voxel_type, final(world)),
{
    if !is_valid_position(world, x, y, z) {
        return;
    }
    let ghost w0 = *world;
    let ghost (xi, yi, zi) = (x as int, y as int, z as int);
    match find_entry(world, x, y, z) {
        Some(k) => {
            proof {
                lemma_cell_witness(&w0, k as int, xi, yi, zi);
            }
            if voxel_type == VoxelType::Empty {
                world.voxels.remove(k);
                proof {
                    let s0 = w0.voxels@;
                    let s1 = world.voxels@;
                    assert forall|i: int| 0 <= i < s1.len() implies (i < k ==> s1[i] == s0[i]) && (
                    k <= i ==> s1[i] == s0[i + 1]) by {}
                    assert forall|i: int, j: int| 0 <= i < j < s1.len() implies !(
                    #[trigger] s1[i]).is_at(
                        (#[trigger] s1[j]).x as int,
                        s1[j].y as int,
                        s1[j].z as int,
                    ) by {
                        let i0 = if i < k { i } else { i + 1 };
                        let j0 = if j < k { j } else { j + 1 };
                        assert(s1[i] == s0[i0] && s1[j] == s0[j0]);
                        assert(!s0[i0].is_at(s0[j0].x as int, s0[j0].y as int, s0[j0].z as int));
                    }
                    assert forall|i: int| 0 <= i < s1.len() implies {
                        &&& world.in_bounds(
                            #[trigger] s1[i].x as int,
                            s1[i].y as int,
                            s1[i].z as int,
                        )
                        &&& s1[i].voxel_type != VoxelType::Empty
                    } by {
                        let i0 = if i < k { i } else { i + 1 };
                        assert(s1[i] == s0[i0]);
                    }
                    assert forall|a: int, b: int, c: int|
                        #[trigger] world.cell(a, b, c) == cell_after_set(
                            &w0,
                            xi,
                            yi,
                            zi,
                            voxel_type,
                            a,
                            b,
                            c,
                        ) by {
                        if a == xi && b == yi && c == zi {
                            assert forall|i: int| !entry_at(s1, i, a, b, c) by {
                                if 0 <= i < s1.len() {
                                    let i0 = if i < k { i } else { i + 1 };
                                    assert(s1[i] == s0[i0]);
                                    if i0 < k {
                                        assert(!s0[i0].is_at(s0[k as int].x as int, s0[k as int].y as int, s0[k as int].z as int));
                                    } else {
                                        assert(!s0[k as int].is_at(s0[i0].x as int, s0[i0].y as int, s0[i0].z as int));
                                    }
                                }
                            }
                        } else if exists|i: int| entry_at(s0, i, a, b, c) {
                            let i0 = choose|i: int| entry_at(s0, i, a, b, c);
                            lemma_cell_witness(&w0, i0, a, b, c);
                            let i1 = if i0 < k { i0 } else { i0 - 1 };
                            assert(s1[i1] == s0[i0]);
                            lemma_cell_witness(world, i1, a, b, c);
                        } else {
                            assert forall|i: int| !entry_at(s1, i, a, b, c) by {
                                if 0 <= i < s1.len() {
                                    let i0 = if i < k { i } else { i + 1 };
                                    assert(s1[i] == s0[i0]);
                                    assert(!entry_at(s0, i0, a, b, c));
                                }
                            }
                        }
                    }
                }
            } else {
                world.voxels[k] = Voxel { x, y, z, voxel_type };
                proof {
                    let s0 = w0.voxels@;
                    let s1 = world.voxels@;
                    assert(s1 == s0.update(k as int, Voxel { x, y, z, voxel_type }));
                    assert forall|i: int, j: int| 0 <= i < j < s1.len() implies !(
                    #[trigger] s1[i]).is_at(
                        (#[trigger] s1[j]).x as int,
                        s1[j].y as int,
                        s1[j].z as int,
                    ) by {
                        assert(!s0[i].is_at(s0[j].x as int, s0[j].y as int, s0[j].z as int));
                    }
                    assert forall|a: int, b: int, c: int|
                        #[trigger] world.cell(a, b, c) == cell_after_set(
                            &w0,
                            xi,
                            yi,
                            zi,
                            voxel_type,
                            a,
                            b,
                            c,
                        ) by {
                        if a == xi && b == yi && c == zi {
                            lemma_cell_witness(world, k as int, a, b, c);
                        } else if exists|i: int| entry_at(s0, i, a, b, c) {
                            let i0 = choose|i: int| entry_at(s0, i, a, b, c);
                            lemma_cell_witness(&w0, i0, a, b, c);
                            lemma_cell_witness(world, i0, a, b, c);
                        } else {
                            assert forall|i: int| !entry_at(s1, i, a, b, c) by {
                                assert(!entry_at(s0, i, a, b, c));
                            }
                        }
                    }
                }
            }
        },
        None => {
            if voxel_type != VoxelType::Empty {
                world.voxels.push(Voxel { x, y, z, voxel_type });
                proof {
                    let s0 = w0.voxels@;
                    let s1 = world.voxels@;
                    let n = s0.len() as int;
                    assert(s1 == s0.push(Voxel { x, y, z, voxel_type }));
                    assert forall|i: int, j: int| 0 <= i < j < s1.len() implies !(
                    #[trigger] s1[i]).is_at(
                        (#[trigger] s1[j]).x as int,
                        s1[j].y as int,
                        s1[j].z as int,
                    ) by {
                        if j == n {
                            assert(!entry_at(s0, i, xi, yi, zi));
                        } else {
                            assert(!s0[i].is_at(s0[j].x as int, s0[j].y as int, s0[j].z as int));
                        }
                    }
                    assert forall|a: int, b: int, c: int|
                        #[trigger] world.cell(a, b, c) == cell_after_set(
                            &w0,
                            xi,
                            yi,
                            zi,
                            voxel_type,
                            a,
                            b,
                            c,
                        ) by {
                        if a == xi && b == yi && c == zi {
                            lemma_cell_witness(world, n, a, b, c);
                        } else if exists|i: int| entry_at(s0, i, a, b, c) {
                            let i0 = choose|i: int| entry_at(s0, i, a, b, c);
                            lemma_cell_witness(&w0, i0, a, b, c);
                            lemma_cell_witness(world, i0, a, b, c);
                        } else {
                            assert forall|i: int| !entry_at(s1, i, a, b, c) by {
                                if i < n {
                                    assert(!entry_at(s0, i, a, b, c));
                                }
                            }
                        }
                    }
                }
            }
        },
    }
}

/// Layer y = 0 of the grid holds `Ground` in every column after this call.
pub open spec fn ground_layer_cell(w: &World, a: int, b: int, c: int) -> VoxelType {
    if b == 0 && 0 <= a < w.width && 0 <= c < w.depth {
        VoxelType::Ground
    } else {
        w.cell(a, b, c)
    }
}

/// Writes `Ground` into every cell of the bottom layer (y = 0); all other
/// cells keep their type.
pub fn fill_ground_layer(world: &mut World)
    requires
        old(world).wf(),
    ensures
        final(world).wf(),
        final(world).width == old(world).width,
        final(world).height == old(world).height,
        final(world).depth == old(world).depth,
        forall|a: int, b: int, c: int|
            #[trigger] final(world).cell(a, b, c) == ground_layer_cell(old(world), a, b, c),
{
    let ghost w0 = *world;
    let mut x: i32 = 0;
    while x < world.width
        invariant
            world.wf(),
            world.width == w0.width,
            world.height == w0.height,
            world.depth == w0.depth,
            0 <= x <= world.width,
            forall|a: int, b: int, c: int|
                #[trigger] world.cell(a, b, c) == if b == 0 && 0 <= a < x && 0 <= c < w0.depth {
                    VoxelType::Ground
                } else {
                    w0.cell(a, b, c)
                },
        decreases world.width - x,
    {
        let mut z: i32 = 0;
        while z < world.depth
            invariant
                world.wf(),
                world.width == w0.width,
                world.height == w0.height,
                world.depth == w0.depth,
                0 <= x < world.width,
                0 <= z <= world.depth,
                forall|a: int, b: int, c: int|
                    #[trigger] world.cell(a, b, c) == if b == 0 && ((0 <= a < x && 0 <= c
                        < w0.depth) || (a == x && 0 <= c < z)) {
                        VoxelType::Ground
                    } else {
                        w0.cell(a, b, c)
                    },
            decreases world.depth - z,
        {
            let ghost before = *world;
            set_voxel(world, x, 0, z, VoxelType::Ground);
            assert forall|a: int, b: int, c: int|
                #[trigger] world.cell(a, b, c) == if b == 0 && ((0 <= a < x && 0 <= c < w0.depth)
                    || (a == x && 0 <= c < z + 1)) {
                    VoxelType::Ground
                } else {
                    w0.cell(a, b, c)
                } by {
                assert(world.cell(a, b, c) == cell_after_set(
                    &before,
                    x as int,
                    0,
                    z as int,
                    VoxelType::Ground,
                    a,
                    b,
                    c,
                ));
                assert(before.cell(a, b, c) == before.cell(a, b, c));
            }
            z = z + 1;
        }
        x = x + 1;
    }
    assert forall|a: int, b: int, c: int|
        #[trigger] world.cell(a, b, c) == ground_layer_cell(&w0, a, b, c) by {
        assert(world.cell(a, b, c) == world.cell(a, b, c));
    }
}

impl World {
    /// A grid with the given dimensions whose bottom layer (y = 0) is `Ground`
    /// in every column, and every other cell `Empty`.
    pub fn seeded(width: i32, height: i32, depth: i32) -> (r: World)
        requires
            width > 0,
            height > 0,
            depth > 0,
        ensures
            r.wf(),
            r.width == width,
            r.height == height,
            r.depth == depth,
            forall|a: int, b: int, c: int|
                #[trigger] r.cell(a, b, c) == if b == 0 && 0 <= a < width && 0 <= c < depth {
                    VoxelType::Ground
                } else {
                    VoxelType::Empty
                },
    {
        let mut w = World::new(width, height, depth);
        fill_ground_layer(&mut w);
        assert forall|a: int, b: int, c: int|
            #[trigger] w.cell(a, b, c) == if b == 0 && 0 <= a < width && 0 <= c < depth {
                VoxelType::Ground
            } else {
                VoxelType::Empty
            } by {
            assert(w.cell(a, b, c) == w.cell(a, b, c));
        }
        w
    }
}

/// Writing a type at an in-bounds cell and then reading that cell gives the
/// type back, `Empty` included.
pub proof fn lemma_set_get_round_trip(
    w: &World,
    w2: &World,
    x: int,
    y: int,
    z: int,
    t: VoxelType,
)
    requires
        w.wf(),
        w.in_bounds(x, y, z),
        set_result(w, x, y, z, t, w2),
    ensures
        w2.cell(x, y, z) == t,
{
}

/// Writing a type and then `Empty` at the same cell leaves no entry there;
/// where the cell was empty before, the number of stored cells is back to
/// what it was.
pub proof fn lemma_set_then_clear(
    w: &World,
    w1: &World,
    w2: &World,
    x: int,
    y: int,
    z: int,
    t: VoxelType,
)
    requires
        w.wf(),
        set_result(w, x, y, z, t, w1),
        set_result(w1, x, y, z, VoxelType::Empty, w2),
    ensures
        w2.cell(x, y, z) == VoxelType::Empty,
        forall|i: int| !entry_at(w2.voxels@, i, x, y, z),
        w.cell(x, y, z) == VoxelType::Empty ==> w2.stored_count() == w.stored_count(),
{
    assert(w2.cell(x, y, z) == VoxelType::Empty);
    assert forall|i: int| !entry_at(w2.voxels@, i, x, y, z) by {
        if entry_at(w2.voxels@, i, x, y, z) {
            lemma_cell_witness(w2, i, x, y, z);
        }
    }
}

/// Outside the grid every cell reads `Empty`, and a write there changes no
/// cell and no count.
pub proof fn lemma_out_of_bounds(w: &World, w2: &World, x: int, y: int, z: int, t: VoxelType)
    requires
        w.wf(),
        !w.in_bounds(x, y, z),
        set_result(w, x, y, z, t, w2),
    ensures
        w.cell(x, y, z) == VoxelType::Empty,
        w2.cell(x, y, z) == VoxelType::Empty,
        forall|a: int, b: int, c: int| #[trigger] w2.cell(a, b, c) == w.cell(a, b, c),
        w2.stored_count() == w.stored_count(),
{
    assert forall|a: int, b: int, c: int| #[trigger] w2.cell(a, b, c) == w.cell(a, b, c) by {
        assert(w2.cell(a, b, c) == cell_after_set(w, x, y, z, t, a, b, c));
    }
}

} // verus!

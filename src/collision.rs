use vstd::prelude::*;

use crate::grid::{get_voxel, set_result, Voxel, VoxelType, World};

verus! {

/// The cells that a box (a player) covers, on the integer grid.
///
/// Columns run over `min_x..=max_x` and `min_z..=max_z`, layers over
/// `min_y..=max_y`; `bottom_y` is the layer under the box's feet. Along each
/// axis `overlap_*[i]` says whether the box overlaps the cell at `min_* + i`
/// on that axis.
#[derive(Clone, Debug)]
pub struct Footprint {
    pub min_x: i32,
    pub max_x: i32,
    pub min_y: i32,
    pub max_y: i32,
    pub min_z: i32,
    pub max_z: i32,
    pub bottom_y: i32,
    pub overlap_x: Vec<bool>,
    pub overlap_y: Vec<bool>,
    pub overlap_z: Vec<bool>,
}

impl Footprint {
    /// Each range is non-empty and each overlap list has one entry per cell of
    /// its range.
    pub open spec fn wf(&self) -> bool {
        &&& self.min_x <= self.max_x
        &&& self.min_y <= self.max_y
        &&& self.min_z <= self.max_z
        &&& self.overlap_x@.len() == self.max_x - self.min_x + 1
        &&& self.overlap_y@.len() == self.max_y - self.min_y + 1
        &&& self.overlap_z@.len() == self.max_z - self.min_z + 1
    }

    pub open spec fn covers_column(&self, x: int, z: int) -> bool {
        self.min_x <= x <= self.max_x && self.min_z <= z <= self.max_z
    }

    pub open spec fn covers(&self, x: int, y: int, z: int) -> bool {
        self.covers_column(x, z) && self.min_y <= y <= self.max_y
    }

    /// The box overlaps the cell (x, y, z) on all three axes.
    pub open spec fn overlaps(&self, x: int, y: int, z: int) -> bool {
        &&& self.covers(x, y, z)
        &&& self.overlap_x@[x - self.min_x]
        &&& self.overlap_y@[y - self.min_y]
        &&& self.overlap_z@[z - self.min_z]
    }
}

/// Column (x, z) of the footprint has no `Ground` under the box's feet.
pub open spec fn missing_ground(w: &World, fp: &Footprint, x: int, z: int) -> bool {
    fp.covers_column(x, z) && w.cell(x, fp.bottom_y as int, z) != VoxelType::Ground
}

/// Every column of the footprint stands on `Ground`.
pub open spec fn ground_supported(w: &World, fp: &Footprint) -> bool {
    forall|x: int, z: int| !missing_ground(w, fp, x, z)
}

/// A `Wall` cell in the footprint that the box overlaps.
pub open spec fn blocking(w: &World, fp: &Footprint, x: int, y: int, z: int) -> bool {
    fp.overlaps(x, y, z) && w.cell(x, y, z) == VoxelType::Wall
}

/// Some cell of the footprint blocks the box.
pub open spec fn has_blocking(w: &World, fp: &Footprint) -> bool {
    exists|x: int, y: int, z: int| blocking(w, fp, x, y, z)
}

/// (a, c) comes before (x, z): x first, then z.
pub open spec fn before2(a: int, c: int, x: int, z: int) -> bool {
    a < x || (a == x && c < z)
}

/// (a, b, c) comes before (x, y, z): x first, then y, then z.
pub open spec fn before3(a: int, b: int, c: int, x: int, y: int, z: int) -> bool {
    a < x || (a == x && (b < y || (b == y && c < z)))
}

/// `v` is the first column, in x-then-z order, that lacks ground support.
pub open spec fn first_missing_ground(w: &World, fp: &Footprint, v: Voxel) -> bool {
    &&& missing_ground(w, fp, v.x as int, v.z as int)
    &&& v.y == fp.bottom_y
    &&& v.voxel_type == w.cell(v.x as int, v.y as int, v.z as int)
    &&& forall|a: int, c: int|
        before2(a, c, v.x as int, v.z as int) ==> !#[trigger] missing_ground(w, fp, a, c)
}

/// `v` is the first blocking wall, in x-then-y-then-z order.
pub open spec fn first_blocking(w: &World, fp: &Footprint, v: Voxel) -> bool {
    &&& blocking(w, fp, v.x as int, v.y as int, v.z as int)
    &&& v.voxel_type == VoxelType::Wall
    &&& forall|a: int, b: int, c: int|
        before3(a, b, c, v.x as int, v.y as int, v.z as int) ==> !#[trigger] blocking(
            w,
            fp,
            a,
            b,
            c,
        )
}

/// What `check_voxel_collision` reports for a box: the first column without
/// ground support; where every column has it, the first blocking wall; else
/// nothing.
pub open spec fn collision_result(w: &World, fp: &Footprint, r: Option<Voxel>) -> bool {
    if !ground_supported(w, fp) {
        r matches Some(v) && first_missing_ground(w, fp, v)
    } else if has_blocking(w, fp) {
        r matches Some(v) && first_blocking(w, fp, v)
    } else {
        r is None
    }
}

/// The first column of the footprint, in x-then-z order, without `Ground`
/// under the box's feet.
fn find_missing_ground(world: &World, fp: &Footprint) -> (r: Option<Voxel>)
    requires
        world.wf(),
        fp.wf(),
    ensures
        r is None ==> ground_supported(world, fp),
        r matches Some(v) ==> first_missing_ground(world, fp, v),
{
    let mut x: i64 = fp.min_x as i64;
    while x <= fp.max_x as i64
        invariant
            fp.wf(),
            world.wf(),
            fp.min_x <= x <= fp.max_x + 1,
            forall|a: int, c: int| a < x ==> !#[trigger] missing_ground(world, fp, a, c),
        decreases fp.max_x + 1 - x,
    {
        let mut z: i64 = fp.min_z as i64;
        while z <= fp.max_z as i64
            invariant
                fp.wf(),
                world.wf(),
                fp.min_x <= x <= fp.max_x,
                fp.min_z <= z <= fp.max_z + 1,
                forall|a: int, c: int|
                    before2(a, c, x as int, z as int) ==> !#[trigger] missing_ground(
                        world,
                        fp,
                        a,
                        c,
                    ),
            decreases fp.max_z + 1 - z,
        {
            let t = get_voxel(world, x as i32, fp.bottom_y, z as i32);
            if t != VoxelType::Ground {
                return Some(Voxel { x: x as i32, y: fp.bottom_y, z: z as i32, voxel_type: t });
            }
            z = z + 1;
        }
        x = x + 1;
    }
    None
}

/// The first blocking wall of the footprint, in x-then-y-then-z order.
fn find_blocking_wall(world: &World, fp: &Footprint) -> (r: Option<Voxel>)
    requires
        world.wf(),
        fp.wf(),
    ensures
        r is None ==> !has_blocking(world, fp),
        r matches Some(v) ==> first_blocking(world, fp, v),
{
    let mut x: i64 = fp.min_x as i64;
    while x <= fp.max_x as i64
        invariant
            fp.wf(),
            world.wf(),
            fp.min_x <= x <= fp.max_x + 1,
            forall|a: int, b: int, c: int| a < x ==> !#[trigger] blocking(world, fp, a, b, c),
        decreases fp.max_x + 1 - x,
    {
        let mut y: i64 = fp.min_y as i64;
        while y <= fp.max_y as i64
            invariant
                fp.wf(),
                world.wf(),
                fp.min_x <= x <= fp.max_x,
                fp.min_y <= y <= fp.max_y + 1,
                forall|a: int, b: int, c: int|
                    (a < x || (a == x && b < y)) ==> !#[trigger] blocking(world, fp, a, b, c),
            decreases fp.max_y + 1 - y,
        {
            let mut z: i64 = fp.min_z as i64;
            while z <= fp.max_z as i64
                invariant
                    fp.wf(),
                    world.wf(),
                    fp.min_x <= x <= fp.max_x,
                    fp.min_y <= y <= fp.max_y,
                    fp.min_z <= z <= fp.max_z + 1,
                    forall|a: int, b: int, c: int|
                        before3(a, b, c, x as int, y as int, z as int) ==> !#[trigger] blocking(
                            world,
                            fp,
                            a,
                            b,
                            c,
                        ),
                decreases fp.max_z + 1 - z,
            {
                let t = get_voxel(world, x as i32, y as i32, z as i32);
                if t == VoxelType::Wall && fp.overlap_x[(x - fp.min_x as i64) as usize]
                    && fp.overlap_y[(y - fp.min_y as i64) as usize] && fp.overlap_z[(z
                    - fp.min_z as i64) as usize] {
                    return Some(Voxel { x: x as i32, y: y as i32, z: z as i32, voxel_type: t });
                }
                z = z + 1;
            }
            y = y + 1;
        }
        x = x + 1;
    }
    None
}

/// Whether a box with this footprint collides with the world: a column
/// without ground support comes first (a gap counts as a collision), then a
/// wall that the box overlaps. `Ground` never blocks.
pub fn check_voxel_collision(world: &World, fp: &Footprint) -> (r: Option<Voxel>)
    requires
        world.wf(),
        fp.wf(),
    ensures
        collision_result(world, fp, r),
{
    match find_missing_ground(world, fp) {
        Some(v) => Some(v),
        None => find_blocking_wall(world, fp),
    }
}

/// A box whose every column stands on `Ground` and that overlaps no `Wall`
/// does not collide.
pub proof fn lemma_standing_clear(w: &World, fp: &Footprint, r: Option<Voxel>)
    requires
        w.wf(),
        fp.wf(),
        forall|x: int, z: int|
            fp.covers_column(x, z) ==> #[trigger] w.cell(x, fp.bottom_y as int, z)
                == VoxelType::Ground,
        forall|x: int, y: int, z: int|
            fp.overlaps(x, y, z) ==> #[trigger] w.cell(x, y, z) != VoxelType::Wall,
        collision_result(w, fp, r),
    ensures
        r is None,
{
    assert forall|x: int, z: int| !missing_ground(w, fp, x, z) by {
        if fp.covers_column(x, z) {
            assert(w.cell(x, fp.bottom_y as int, z) == VoxelType::Ground);
        }
    }
    assert forall|x: int, y: int, z: int| !blocking(w, fp, x, y, z) by {
        if fp.overlaps(x, y, z) {
            assert(w.cell(x, y, z) != VoxelType::Wall);
        }
    }
}

/// Clearing a cell under the feet of a box (in one of its columns, at
/// `bottom_y`) makes the box collide where it stands.
pub proof fn lemma_removed_ground_collides(
    w: &World,
    w2: &World,
    fp: &Footprint,
    x: int,
    z: int,
    r: Option<Voxel>,
)
    requires
        w.wf(),
        fp.wf(),
        fp.covers_column(x, z),
        set_result(w, x, fp.bottom_y as int, z, VoxelType::Empty, w2),
        collision_result(w2, fp, r),
    ensures
        r is Some,
{
    assert(w2.cell(x, fp.bottom_y as int, z) == VoxelType::Empty);
    assert(missing_ground(w2, fp, x, z));
}

} // verus!

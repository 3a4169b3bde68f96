use vstd::prelude::*;

use crate::grid::{get_voxel, is_valid_position, set_result, set_voxel, VoxelType, World};

verus! {

/// The face of a cell that a ray hit, by the dominant axis of its normal.
#[derive(Clone, Copy, Debug, PartialEq, Eq, Structural)]
pub enum Face {
    PosX,
    NegX,
    PosY,
    NegY,
    PosZ,
    NegZ,
}

/// The cell a ray picked and the face it entered through.
#[derive(Clone, Copy, Debug, PartialEq, Eq, Structural)]
pub struct Pick {
    pub x: i32,
    pub y: i32,
    pub z: i32,
    pub face: Face,
}

/// A change to the grid that a click asks for.
#[derive(Clone, Copy, Debug, PartialEq, Eq, Structural)]
pub enum EditAction {
    Place { x: i32, y: i32, z: i32 },
    Remove { x: i32, y: i32, z: i32 },
}

/// The cell next to (x, y, z) across the given face.
pub open spec fn neighbor(x: int, y: int, z: int, face: Face) -> (int, int, int) {
    match face {
        Face::PosX => (x + 1, y, z),
        Face::NegX => (x - 1, y, z),
        Face::PosY => (x, y + 1, z),
        Face::NegY => (x, y - 1, z),
        Face::PosZ => (x, y, z + 1),
        Face::NegZ => (x, y, z - 1),
    }
}

/// The coordinates are far enough from the ends of `i32` to step to a
/// neighbor.
pub open spec fn steppable(p: Pick) -> bool {
    &&& i32::MIN < p.x < i32::MAX
    &&& i32::MIN < p.y < i32::MAX
    &&& i32::MIN < p.z < i32::MAX
}

/// The cell next to the picked one, across the face the ray entered through.
pub fn adjacent_cell(p: Pick) -> (r: (i32, i32, i32))
    requires
        steppable(p),
    ensures
        (r.0 as int, r.1 as int, r.2 as int) == neighbor(p.x as int, p.y as int, p.z as int, p.face),
{
    match p.face {
        Face::PosX => (p.x + 1, p.y, p.z),
        Face::NegX => (p.x - 1, p.y, p.z),
        Face::PosY => (p.x, p.y + 1, p.z),
        Face::NegY => (p.x, p.y - 1, p.z),
        Face::PosZ => (p.x, p.y, p.z + 1),
        Face::NegZ => (p.x, p.y, p.z - 1),
    }
}

/// Where a ray that hit no voxel meets the ground plane: the column (x, z)
/// of the bottom layer, hit from above, if it lies inside the grid.
pub fn ground_pick(world: &World, x: i32, z: i32) -> (r: Option<Pick>)
    ensures
        r == (if 0 <= x < world.width && 0 <= z < world.depth {
            Some(Pick { x, y: 0, z, face: Face::PosY })
        } else {
            None
        }),
{
    if x >= 0 && x < world.width && z >= 0 && z < world.depth {
        Some(Pick { x, y: 0, z, face: Face::PosY })
    } else {
        None
    }
}

/// The cell that a click at `p` works on: in build mode the picked cell where
/// it is empty, else the cell across the hit face; in remove mode the picked
/// cell.
pub open spec fn target_of(w: &World, p: Pick, build_mode: bool) -> (int, int, int) {
    if build_mode && w.cell(p.x as int, p.y as int, p.z as int) != VoxelType::Empty {
        neighbor(p.x as int, p.y as int, p.z as int, p.face)
    } else {
        (p.x as int, p.y as int, p.z as int)
    }
}

/// The cell to highlight under the cursor, as `target_of` gives it.
pub fn hovered_voxel(world: &World, pick: Option<Pick>, build_mode: bool) -> (r: Option<
    (i32, i32, i32),
>)
    requires
        world.wf(),
        pick matches Some(p) ==> steppable(p),
    ensures
        r is Some <==> pick is Some,
        pick matches Some(p) ==> r matches Some(c) && (c.0 as int, c.1 as int, c.2 as int)
            == target_of(world, p, build_mode),
{
    match pick {
        None => None,
        Some(p) => {
            if build_mode && get_voxel(world, p.x, p.y, p.z) != VoxelType::Empty {
                Some(adjacent_cell(p))
            } else {
                Some((p.x, p.y, p.z))
            }
        },
    }
}

/// What a click at `p` asks for, before the check against the players:
/// - build mode, picked cell empty: place there;
/// - build mode, picked cell solid: place across the hit face, where that cell
///   is inside the grid and empty, else nothing;
/// - remove mode: remove the picked cell where it is solid, else nothing.
pub open spec fn planned_edit(w: &World, p: Pick, build_mode: bool) -> Option<EditAction> {
    let (x, y, z) = (p.x as int, p.y as int, p.z as int);
    if build_mode {
        if w.cell(x, y, z) == VoxelType::Empty {
            Some(EditAction::Place { x: p.x, y: p.y, z: p.z })
        } else {
            let n = neighbor(x, y, z, p.face);
            if w.in_bounds(n.0, n.1, n.2) && w.cell(n.0, n.1, n.2) == VoxelType::Empty {
                Some(EditAction::Place { x: n.0 as i32, y: n.1 as i32, z: n.2 as i32 })
            } else {
                None
            }
        }
    } else if w.cell(x, y, z) != VoxelType::Empty {
        Some(EditAction::Remove { x: p.x, y: p.y, z: p.z })
    } else {
        None
    }
}

/// The edit a click at `p` asks for, as `planned_edit` gives it.
pub fn plan_edit(world: &World, p: Pick, build_mode: bool) -> (r: Option<EditAction>)
    requires
        world.wf(),
        steppable(p),
    ensures
        r == planned_edit(world, p, build_mode),
{
    let existing = get_voxel(world, p.x, p.y, p.z);
    if build_mode {
        if existing == VoxelType::Empty {
            Some(EditAction::Place { x: p.x, y: p.y, z: p.z })
        } else {
            let (nx, ny, nz) = adjacent_cell(p);
            if is_valid_position(world, nx, ny, nz) && get_voxel(world, nx, ny, nz)
                == VoxelType::Empty {
                Some(EditAction::Place { x: nx, y: ny, z: nz })
            } else {
                None
            }
        }
    } else if existing != VoxelType::Empty {
        Some(EditAction::Remove { x: p.x, y: p.y, z: p.z })
    } else {
        None
    }
}

/// The type a placed cell gets: `Ground` on the bottom layer or below the
/// reference level, `Wall` elsewhere.
pub open spec fn placed_type_spec(y: int, reference_level: int) -> VoxelType {
    if y == 0 || y < reference_level {
        VoxelType::Ground
    } else {
        VoxelType::Wall
    }
}

/// The type for a cell placed at height `y`. `reference_level` is the lowest
/// integer not below the reference player's height, so that `y` is below that
/// height exactly when it is below `reference_level`.
pub fn placed_type(y: i32, reference_level: i32) -> (r: VoxelType)
    ensures
        r == placed_type_spec(y as int, reference_level as int),
{
    if y == 0 || y < reference_level {
        VoxelType::Ground
    } else {
        VoxelType::Wall
    }
}

/// The cell an edit works on.
pub open spec fn action_cell(a: EditAction) -> (int, int, int) {
    match a {
        EditAction::Place { x, y, z } => (x as int, y as int, z as int),
        EditAction::Remove { x, y, z } => (x as int, y as int, z as int),
    }
}

/// The type an edit writes.
pub open spec fn action_type(a: EditAction, reference_level: int) -> VoxelType {
    match a {
        EditAction::Place { y, .. } => placed_type_spec(y as int, reference_level),
        EditAction::Remove { .. } => VoxelType::Empty,
    }
}

/// Carries out an edit unless a player occupies its cell: a placement writes
/// `Ground` or `Wall` as `placed_type` decides, a removal writes `Empty`.
/// Returns whether the grid was written.
pub fn apply_edit(world: &mut World, action: EditAction, occupied: bool, reference_level: i32) -> (r:
    bool)
    requires
        old(world).wf(),
    ensures
        r == !occupied,
        occupied ==> *final(world) == *old(world),
        !occupied ==> set_result(
            old(world),
            action_cell(action).0,
            action_cell(action).1,
            action_cell(action).2,
            action_type(action, reference_level as int),
            final(world),
        ),
{
    if occupied {
        return false;
    }
    match action {
        EditAction::Place { x, y, z } => {
            let t = placed_type(y, reference_level);
            set_voxel(world, x, y, z, t);
        },
        EditAction::Remove { x, y, z } => {
            set_voxel(world, x, y, z, VoxelType::Empty);
        },
    }
    true
}

/// In build mode, a click on a face of a solid cell places the new cell across
/// that face, not in the clicked cell.
pub proof fn lemma_build_on_face(w: &World, p: Pick)
    requires
        w.wf(),
        steppable(p),
        w.cell(p.x as int, p.y as int, p.z as int) != VoxelType::Empty,
        ({
            let n = neighbor(p.x as int, p.y as int, p.z as int, p.face);
            w.in_bounds(n.0, n.1, n.2) && w.cell(n.0, n.1, n.2) == VoxelType::Empty
        }),
    ensures
        planned_edit(w, p, true) matches Some(a) && action_cell(a) == neighbor(
            p.x as int,
            p.y as int,
            p.z as int,
            p.face,
        ) && action_cell(a) != (p.x as int, p.y as int, p.z as int),
{
}

} // verus!

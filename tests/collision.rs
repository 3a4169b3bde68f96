use voxel_battle::{check_voxel_collision, set_voxel, Footprint, Voxel, VoxelType, World};

/// The footprint of a player of size (0.5, 1, 0.5) standing at (12, 1, 12)
/// with one-unit cells.
fn standing_player() -> Footprint {
    Footprint {
        min_x: 11,
        max_x: 13,
        min_y: 0,
        max_y: 2,
        min_z: 11,
        max_z: 13,
        bottom_y: 0,
        overlap_x: vec![false, true, false],
        overlap_y: vec![false, true, false],
        overlap_z: vec![false, true, false],
    }
}

#[test]
fn standing_on_ground_does_not_collide() {
    let w = World::seeded(25, 25, 25);
    assert_eq!(check_voxel_collision(&w, &standing_player()), None);
}

#[test]
fn removing_ground_under_the_feet_collides() {
    let mut w = World::seeded(25, 25, 25);
    set_voxel(&mut w, 12, 0, 12, VoxelType::Empty);
    assert_eq!(
        check_voxel_collision(&w, &standing_player()),
        Some(Voxel { x: 12, y: 0, z: 12, voxel_type: VoxelType::Empty })
    );
}

#[test]
fn first_gap_in_x_then_z_order_is_reported() {
    let mut w = World::seeded(25, 25, 25);
    set_voxel(&mut w, 13, 0, 11, VoxelType::Empty);
    set_voxel(&mut w, 12, 0, 13, VoxelType::Wall);
    assert_eq!(
        check_voxel_collision(&w, &standing_player()),
        Some(Voxel { x: 12, y: 0, z: 13, voxel_type: VoxelType::Wall })
    );
}

#[test]
fn leaving_the_grid_counts_as_a_gap() {
    let w = World::seeded(25, 25, 25);
    let mut fp = standing_player();
    fp.min_x = 24;
    fp.max_x = 26;
    assert_eq!(
        check_voxel_collision(&w, &fp),
        Some(Voxel { x: 25, y: 0, z: 11, voxel_type: VoxelType::Empty })
    );
}

#[test]
fn overlapping_wall_blocks() {
    let mut w = World::seeded(25, 25, 25);
    set_voxel(&mut w, 12, 1, 12, VoxelType::Wall);
    assert_eq!(
        check_voxel_collision(&w, &standing_player()),
        Some(Voxel { x: 12, y: 1, z: 12, voxel_type: VoxelType::Wall })
    );
}

#[test]
fn wall_in_range_but_not_overlapping_does_not_block() {
    let mut w = World::seeded(25, 25, 25);
    set_voxel(&mut w, 13, 1, 12, VoxelType::Wall);
    set_voxel(&mut w, 12, 2, 12, VoxelType::Wall);
    assert_eq!(check_voxel_collision(&w, &standing_player()), None);
}

#[test]
fn ground_never_blocks_sideways() {
    let mut w = World::seeded(25, 25, 25);
    set_voxel(&mut w, 12, 1, 12, VoxelType::Ground);
    assert_eq!(check_voxel_collision(&w, &standing_player()), None);
}

#[test]
fn first_wall_in_x_y_z_order_is_reported() {
    let mut w = World::seeded(25, 25, 25);
    let mut fp = standing_player();
    fp.overlap_x = vec![true, true, true];
    fp.overlap_y = vec![true, true, true];
    fp.overlap_z = vec![true, true, true];
    set_voxel(&mut w, 12, 1, 11, VoxelType::Wall);
    set_voxel(&mut w, 11, 2, 13, VoxelType::Wall);
    set_voxel(&mut w, 11, 2, 12, VoxelType::Wall);
    assert_eq!(
        check_voxel_collision(&w, &fp),
        Some(Voxel { x: 11, y: 2, z: 12, voxel_type: VoxelType::Wall })
    );
}

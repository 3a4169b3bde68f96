use voxel_battle::grid::{fill_ground_layer, is_valid_position};
use voxel_battle::{get_voxel, set_voxel, VoxelType, World};

#[test]
fn default_world_is_25_cubed_and_empty() {
    let w = World::default();
    assert_eq!((w.width, w.height, w.depth), (25, 25, 25));
    assert_eq!(w.voxel_count(), 0);
    assert_eq!(get_voxel(&w, 12, 0, 12), VoxelType::Empty);
}

#[test]
fn set_then_get_round_trips_every_type() {
    let mut w = World::default();
    for t in [VoxelType::Ground, VoxelType::Wall, VoxelType::Empty] {
        set_voxel(&mut w, 3, 4, 5, t);
        assert_eq!(get_voxel(&w, 3, 4, 5), t);
    }
    set_voxel(&mut w, 0, 0, 0, VoxelType::Wall);
    set_voxel(&mut w, 24, 24, 24, VoxelType::Ground);
    assert_eq!(get_voxel(&w, 0, 0, 0), VoxelType::Wall);
    assert_eq!(get_voxel(&w, 24, 24, 24), VoxelType::Ground);
}

#[test]
fn overwriting_keeps_one_entry() {
    let mut w = World::default();
    set_voxel(&mut w, 1, 1, 1, VoxelType::Ground);
    set_voxel(&mut w, 1, 1, 1, VoxelType::Wall);
    assert_eq!(w.voxel_count(), 1);
    assert_eq!(get_voxel(&w, 1, 1, 1), VoxelType::Wall);
}

#[test]
fn set_then_clear_restores_count() {
    let mut w = World::seeded(25, 25, 25);
    let before = w.voxel_count();
    set_voxel(&mut w, 7, 3, 9, VoxelType::Wall);
    assert_eq!(w.voxel_count(), before + 1);
    set_voxel(&mut w, 7, 3, 9, VoxelType::Empty);
    assert_eq!(w.voxel_count(), before);
    assert_eq!(get_voxel(&w, 7, 3, 9), VoxelType::Empty);
    assert!(w.voxels.iter().all(|v| (v.x, v.y, v.z) != (7, 3, 9)));
}

#[test]
fn clearing_an_empty_cell_is_idempotent() {
    let mut w = World::default();
    set_voxel(&mut w, 2, 2, 2, VoxelType::Empty);
    set_voxel(&mut w, 2, 2, 2, VoxelType::Empty);
    assert_eq!(w.voxel_count(), 0);
}

#[test]
fn clearing_a_stored_cell_removes_its_entry() {
    let mut w = World::seeded(25, 25, 25);
    let before = w.voxel_count();
    set_voxel(&mut w, 4, 0, 4, VoxelType::Empty);
    assert_eq!(w.voxel_count(), before - 1);
    assert_eq!(get_voxel(&w, 4, 0, 4), VoxelType::Empty);
    assert_eq!(get_voxel(&w, 4, 0, 5), VoxelType::Ground);
}

#[test]
fn out_of_bounds_reads_empty_and_writes_nothing() {
    let mut w = World::seeded(25, 25, 25);
    let before = w.voxel_count();
    for (x, y, z) in [(-1, 0, 0), (25, 0, 0), (0, -1, 0), (0, 25, 0), (0, 0, -1), (0, 0, 25), (i32::MIN, i32::MAX, 0)] {
        assert_eq!(get_voxel(&w, x, y, z), VoxelType::Empty);
        set_voxel(&mut w, x, y, z, VoxelType::Wall);
        assert_eq!(get_voxel(&w, x, y, z), VoxelType::Empty);
        assert!(!is_valid_position(&w, x, y, z));
    }
    assert_eq!(w.voxel_count(), before);
}

#[test]
fn seeded_world_has_a_full_ground_layer() {
    let w = World::seeded(25, 25, 25);
    assert_eq!(w.voxel_count(), 625);
    for x in 0..25 {
        for z in 0..25 {
            assert_eq!(get_voxel(&w, x, 0, z), VoxelType::Ground);
            assert_eq!(get_voxel(&w, x, 1, z), VoxelType::Empty);
        }
    }
}

#[test]
fn fill_ground_layer_keeps_other_cells() {
    let mut w = World::new(3, 4, 2);
    set_voxel(&mut w, 1, 2, 1, VoxelType::Wall);
    set_voxel(&mut w, 0, 0, 0, VoxelType::Wall);
    fill_ground_layer(&mut w);
    assert_eq!(get_voxel(&w, 1, 2, 1), VoxelType::Wall);
    assert_eq!(get_voxel(&w, 0, 0, 0), VoxelType::Ground);
    assert_eq!(w.voxel_count(), 7);
}

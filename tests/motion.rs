use voxel_battle::motion::{
    resolve_move, transition_progress_ppm, MoveOutcome, DASH_COOLDOWN_US, DASH_END_US,
    DASH_TRANSITION_US,
};
use voxel_battle::DashState;

#[test]
fn dash_starts_with_full_cycle_and_ends_after_a_fifth_of_a_second() {
    let mut s = DashState::new();
    assert!(s.begin_tick(16_000, true, true));
    assert_eq!(s.finish_tick(), None);
    assert!(s.is_dashing);
    assert_eq!(s.dash_cooldown_us, 800_000);

    assert!(!s.begin_tick(200_000, false, true));
    assert_eq!(s.finish_tick(), Some(0));
    assert!(!s.is_dashing);
    assert_eq!(s.dash_cooldown_us, 600_000);
}

#[test]
fn dash_ends_after_several_short_ticks() {
    let mut s = DashState::new();
    assert!(s.begin_tick(10_000, true, true));
    assert_eq!(s.finish_tick(), None);
    let mut ticks: i32 = 0;
    while s.is_dashing {
        s.begin_tick(50_000, false, true);
        s.finish_tick();
        ticks += 1;
    }
    assert_eq!(ticks, 4);
    assert_eq!(s.dash_cooldown_us, 600_000);
}

#[test]
fn dash_needs_movement_input() {
    let mut s = DashState::new();
    assert!(!s.begin_tick(16_000, true, false));
    assert!(!s.is_dashing);
}

#[test]
fn dash_waits_for_the_cooldown() {
    let mut s = DashState::new();
    assert!(s.begin_tick(0, true, true));
    s.finish_tick();
    s.begin_tick(300_000, false, true);
    assert_eq!(s.finish_tick(), Some(100_000));
    assert!(!s.begin_tick(100_000, true, true));
    assert_eq!(s.dash_cooldown_us, 400_000);
    assert!(!s.begin_tick(399_999, true, true));
    assert!(s.begin_tick(1, true, true));
    assert_eq!(s.dash_cooldown_us, DASH_COOLDOWN_US);
}

#[test]
fn no_dash_while_dashing() {
    let mut s = DashState::new();
    assert!(s.begin_tick(0, true, true));
    assert!(!s.begin_tick(100_000, true, true));
    assert!(s.is_dashing);
    assert_eq!(s.dash_cooldown_us, 700_000);
}

#[test]
fn idle_player_with_zero_input_does_not_dash() {
    let mut s = DashState::new();
    assert!(!s.begin_tick(16_000, false, false));
    assert_eq!(s.finish_tick(), None);
    assert_eq!(s, DashState::new());
}

#[test]
fn collision_stops_the_dash_but_not_the_timer() {
    let mut s = DashState::new();
    s.begin_tick(0, true, true);
    s.stop();
    assert!(!s.is_dashing);
    assert_eq!(s.dash_cooldown_us, 800_000);
    assert_eq!(s.finish_tick(), None);
}

#[test]
fn transition_progress_is_clamped_to_one() {
    assert_eq!(transition_progress_ppm(0), 0);
    assert_eq!(transition_progress_ppm(15_000), 500_000);
    assert_eq!(transition_progress_ppm(1), 33);
    assert_eq!(transition_progress_ppm(DASH_TRANSITION_US), 1_000_000);
    assert_eq!(transition_progress_ppm(DASH_END_US), 1_000_000);
}

fn footprint_at(x: i32, y_bottom: i32, z: i32) -> voxel_battle::Footprint {
    voxel_battle::Footprint {
        min_x: x - 1,
        max_x: x + 1,
        min_y: y_bottom,
        max_y: y_bottom + 2,
        min_z: z - 1,
        max_z: z + 1,
        bottom_y: y_bottom,
        overlap_x: vec![false, true, false],
        overlap_y: vec![false, true, false],
        overlap_z: vec![false, true, false],
    }
}

#[test]
fn zero_displacement_stays_without_checking() {
    let w = voxel_battle::World::new(25, 25, 25);
    let mut s = DashState::new();
    s.begin_tick(0, true, true);
    assert_eq!(resolve_move(&w, &mut s, false, &footprint_at(12, 0, 12)), MoveOutcome::Stay);
    assert!(s.is_dashing);
}

#[test]
fn free_move_keeps_the_dash() {
    let w = voxel_battle::World::seeded(25, 25, 25);
    let mut s = DashState::new();
    s.begin_tick(0, true, true);
    assert_eq!(resolve_move(&w, &mut s, true, &footprint_at(12, 0, 12)), MoveOutcome::Moved);
    assert!(s.is_dashing);
}

#[test]
fn blocked_move_ends_the_dash() {
    let mut w = voxel_battle::World::seeded(25, 25, 25);
    voxel_battle::set_voxel(&mut w, 13, 1, 12, voxel_battle::VoxelType::Wall);
    let mut s = DashState::new();
    s.begin_tick(0, true, true);
    assert_eq!(resolve_move(&w, &mut s, true, &footprint_at(13, 0, 12)), MoveOutcome::Blocked);
    assert!(!s.is_dashing);
    assert_eq!(s.dash_cooldown_us, 800_000);
    let mut idle = DashState::new();
    assert_eq!(resolve_move(&w, &mut idle, true, &footprint_at(30, 0, 12)), MoveOutcome::Blocked);
}

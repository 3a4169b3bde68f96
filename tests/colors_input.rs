use voxel_battle::colors::{available_colors, player_colors};
use voxel_battle::input::{
    gamepad_player_id, gamepad_slot, keyboard_movement, may_spawn, should_scan_gamepads,
};
use voxel_battle::{generate_random_color, Color};

#[test]
fn player_colors_are_the_five_listed() {
    let c = player_colors();
    assert_eq!(c.len(), 5);
    assert_eq!(c[0], Color { r: 44, g: 93, b: 55, a: 255 });
    assert_eq!(c[4], Color { r: 75, g: 45, b: 159, a: 255 });
}

#[test]
fn available_colors_keep_order_and_drop_excluded() {
    let list = player_colors();
    let excluded = vec![list[1], list[3]];
    assert_eq!(available_colors(&excluded, &list), vec![list[0], list[2], list[4]]);
    assert_eq!(available_colors(&[], &list), list);
}

#[test]
fn random_color_is_none_when_all_are_used() {
    let list = player_colors();
    assert_eq!(generate_random_color(&list, &list), None);
    assert_eq!(generate_random_color(&[], &[]), None);
}

#[test]
fn random_color_is_the_only_one_left() {
    let list = player_colors();
    let excluded = vec![list[0], list[1], list[2], list[4]];
    for _ in 0..20 {
        assert_eq!(generate_random_color(&excluded, &list), Some(list[3]));
    }
}

#[test]
fn random_color_is_never_excluded() {
    let list = player_colors();
    let excluded = vec![list[0], list[2]];
    for _ in 0..50 {
        let c = generate_random_color(&excluded, &list).unwrap();
        assert!(list.contains(&c));
        assert!(!excluded.contains(&c));
    }
}

#[test]
fn keyboard_keys_give_unit_axes() {
    assert_eq!(keyboard_movement(false, false, false, false), (0, 0));
    assert_eq!(keyboard_movement(true, false, false, false), (1, 0));
    assert_eq!(keyboard_movement(false, true, false, true), (-1, -1));
    assert_eq!(keyboard_movement(true, true, true, false), (0, 1));
}

#[test]
fn spawning_needs_room_and_a_request() {
    assert!(may_spawn(false, 0, true));
    assert!(may_spawn(false, 4, true));
    assert!(!may_spawn(false, 5, true));
    assert!(!may_spawn(true, 1, true));
    assert!(!may_spawn(false, 1, false));
}

#[test]
fn gamepad_slots_map_to_player_ids() {
    assert_eq!(gamepad_player_id(0), 1);
    assert_eq!(gamepad_player_id(3), 4);
    assert_eq!(gamepad_slot(1), 0);
    assert_eq!(gamepad_slot(4), 3);
    assert!(should_scan_gamepads(1, 0));
    assert!(!should_scan_gamepads(5, 0));
    assert!(!should_scan_gamepads(1, 5));
}

use vstd::prelude::*;

verus! {

/// At most this many players take part.
pub const MAX_PLAYERS: usize = 5;

/// Gamepads are looked for in slots `0..GAMEPAD_SLOTS`; the pad in slot `i`
/// belongs to player `i + 1` (player 0 is the keyboard).
pub const GAMEPAD_SLOTS: i32 = 4;

/// One movement axis from two keys: +1 for the positive key, -1 for the
/// negative one, 0 for both or neither.
pub open spec fn axis_spec(positive: bool, negative: bool) -> int {
    (if positive { 1int } else { 0int }) - (if negative { 1int } else { 0int })
}

/// The keyboard's movement vector: x from right/left (D/A), y from back/forward
/// (S/W).
pub fn keyboard_movement(right: bool, left: bool, back: bool, forward: bool) -> (r: (i32, i32))
    ensures
        r.0 == axis_spec(right, left),
        r.1 == axis_spec(back, forward),
{
    let mut x: i32 = 0;
    let mut y: i32 = 0;
    if right {
        x = x + 1;
    }
    if left {
        x = x - 1;
    }
    if back {
        y = y + 1;
    }
    if forward {
        y = y - 1;
    }
    (x, y)
}

/// A player may be created when it has not joined yet, there is room, and its
/// device asked to join this tick.
pub fn may_spawn(already_joined: bool, player_count: usize, join_requested: bool) -> (r: bool)
    ensures
        r == (!already_joined && player_count < MAX_PLAYERS && join_requested),
{
    !already_joined && player_count < MAX_PLAYERS && join_requested
}

/// The player that the gamepad in `slot` drives.
pub fn gamepad_player_id(slot: i32) -> (r: i32)
    requires
        0 <= slot < GAMEPAD_SLOTS,
    ensures
        r == slot + 1,
{
    slot + 1
}

/// The gamepad slot of player `id` (a gamepad player, id at least 1).
pub fn gamepad_slot(id: i32) -> (r: i32)
    requires
        id >= 1,
    ensures
        r == id - 1,
{
    id - 1
}

/// New gamepads are looked for only while fewer than `MAX_PLAYERS` ids were
/// handed out and fewer than `MAX_PLAYERS` players joined.
pub fn should_scan_gamepads(next_player_id: i32, player_count: usize) -> (r: bool)
    ensures
        r == (next_player_id < MAX_PLAYERS as i32 && player_count < MAX_PLAYERS),
{
    next_player_id < MAX_PLAYERS as i32 && player_count < MAX_PLAYERS
}

} // verus!

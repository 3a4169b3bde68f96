use vstd::prelude::*;

use crate::collision::{check_voxel_collision, ground_supported, has_blocking, Footprint};
use crate::grid::World;

verus! {

/// Length of the whole dash cycle (dash plus cooldown), in microseconds.
pub const DASH_COOLDOWN_US: i64 = 800_000;

/// The dash is over once the cycle timer has come down to this value, that is
/// 0.2 s after it started.
pub const DASH_END_US: i64 = 600_000;

/// Window over which the velocity blends back after a dash ends.
pub const DASH_TRANSITION_US: i64 = 30_000;

/// Longest tick the timer accepts: one hour.
pub const MAX_TICK_US: i64 = 3_600_000_000;

/// The dash part of a player's state: whether a dash is under way, and the
/// time left on the dash cycle, in microseconds (at most zero means a new dash
/// may start).
#[derive(Clone, Copy, Debug, PartialEq, Eq, Structural)]
pub struct DashState {
    pub is_dashing: bool,
    pub dash_cooldown_us: i64,
}

/// What the start of a tick does to the dash state, and whether a dash starts:
/// the timer runs down while positive; a dash starts when it is requested, none
/// is under way, the timer has run out and there is movement input, and then
/// the timer is set to the full cycle.
pub open spec fn begin_tick_spec(s: DashState, delta_us: int, pressed: bool, has_input: bool) -> (
    DashState,
    bool,
) {
    let cd = if s.dash_cooldown_us > 0 {
        s.dash_cooldown_us - delta_us
    } else {
        s.dash_cooldown_us as int
    };
    if pressed && !s.is_dashing && cd <= 0 && has_input {
        (DashState { is_dashing: true, dash_cooldown_us: DASH_COOLDOWN_US }, true)
    } else {
        (DashState { is_dashing: s.is_dashing, dash_cooldown_us: cd as i64 }, false)
    }
}

/// What the end of a tick does: a dash whose timer has reached `DASH_END_US`
/// stops.
pub open spec fn finish_tick_spec(s: DashState) -> DashState {
    if s.is_dashing && s.dash_cooldown_us <= DASH_END_US {
        DashState { is_dashing: false, ..s }
    } else {
        s
    }
}

/// One whole tick of the timer: its start, then its end.
pub open spec fn tick_spec(s: DashState, delta_us: int, pressed: bool, has_input: bool) -> DashState {
    finish_tick_spec(begin_tick_spec(s, delta_us, pressed, has_input).0)
}

impl DashState {
    /// The timer stays within one cycle above zero and one longest tick below.
    pub open spec fn wf(&self) -> bool {
        -MAX_TICK_US <= self.dash_cooldown_us <= DASH_COOLDOWN_US
    }

    /// Not dashing, with the timer run out.
    pub fn new() -> (r: DashState)
        ensures
            r.wf(),
            !r.is_dashing,
            r.dash_cooldown_us == 0,
    {
        DashState { is_dashing: false, dash_cooldown_us: 0 }
    }

    /// The start of a tick of `delta_us` microseconds: runs the timer down and
    /// starts a dash where one is due. Returns whether a dash started.
    pub fn begin_tick(&mut self, delta_us: i64, dash_pressed: bool, has_input: bool) -> (r: bool)
        requires
            old(self).wf(),
            0 <= delta_us <= MAX_TICK_US,
        ensures
            final(self).wf(),
            (*final(self), r) == begin_tick_spec(*old(self), delta_us as int, dash_pressed, has_input),
    {
        if self.dash_cooldown_us > 0 {
            self.dash_cooldown_us = self.dash_cooldown_us - delta_us;
        }
        if dash_pressed && !self.is_dashing && self.dash_cooldown_us <= 0 && has_input {
            self.is_dashing = true;
            self.dash_cooldown_us = DASH_COOLDOWN_US;
            true
        } else {
            false
        }
    }

    /// The end of a tick: stops a dash whose time is up. Returns, when it did,
    /// how far the timer has gone past the dash's end, in microseconds.
    pub fn finish_tick(&mut self) -> (r: Option<i64>)
        requires
            old(self).wf(),
        ensures
            final(self).wf(),
            *final(self) == finish_tick_spec(*old(self)),
            r == (if old(self).is_dashing && old(self).dash_cooldown_us <= DASH_END_US {
                Some((DASH_END_US - old(self).dash_cooldown_us) as i64)
            } else {
                None
            }),
    {
        if self.is_dashing && self.dash_cooldown_us <= DASH_END_US {
            self.is_dashing = false;
            Some(DASH_END_US - self.dash_cooldown_us)
        } else {
            None
        }
    }

    /// A collision stops the dash at once; the timer keeps running.
    pub fn stop(&mut self)
        requires
            old(self).wf(),
        ensures
            final(self).wf(),
            !final(self).is_dashing,
            final(self).dash_cooldown_us == old(self).dash_cooldown_us,
    {
        self.is_dashing = false;
    }
}

/// What becomes of a tick's movement.
#[derive(Clone, Copy, Debug, PartialEq, Eq, Structural)]
pub enum MoveOutcome {
    /// No displacement this tick: nothing was checked.
    Stay,
    /// The new position is free: the player moves there.
    Moved,
    /// The new position collides: the player stays, stops, and any dash ends.
    Blocked,
}

/// Settles a tick's movement: with no displacement nothing is checked; else the
/// box at the new position (`footprint`) is checked against the world, and a
/// collision ends the dash. There is no sliding along the obstacle.
pub fn resolve_move(world: &World, dash: &mut DashState, has_displacement: bool, footprint: &Footprint) -> (r:
    MoveOutcome)
    requires
        world.wf(),
        footprint.wf(),
        old(dash).wf(),
    ensures
        final(dash).wf(),
        !has_displacement ==> r == MoveOutcome::Stay,
        has_displacement ==> r == (if ground_supported(world, footprint) && !has_blocking(
            world,
            footprint,
        ) {
            MoveOutcome::Moved
        } else {
            MoveOutcome::Blocked
        }),
        r == MoveOutcome::Blocked ==> !final(dash).is_dashing,
        r != MoveOutcome::Blocked ==> *final(dash) == *old(dash),
        final(dash).dash_cooldown_us == old(dash).dash_cooldown_us,
{
    if !has_displacement {
        return MoveOutcome::Stay;
    }
    let c = check_voxel_collision(world, footprint);
    match c {
        None => MoveOutcome::Moved,
        Some(_) => {
            dash.stop();
            MoveOutcome::Blocked
        },
    }
}

/// How far the blend back to the pre-dash velocity has gone, in millionths:
/// the time past the dash's end over `DASH_TRANSITION_US`, at most one whole.
pub fn transition_progress_ppm(past_end_us: i64) -> (r: i64)
    requires
        0 <= past_end_us,
    ensures
        r == if past_end_us >= DASH_TRANSITION_US {
            1_000_000
        } else {
            past_end_us * 1_000_000 / DASH_TRANSITION_US as int
        },
        0 <= r <= 1_000_000,
{
    if past_end_us >= DASH_TRANSITION_US {
        1_000_000
    } else {
        assert(past_end_us * 1_000_000 / DASH_TRANSITION_US as int <= 1_000_000) by (nonlinear_arith)
            requires
                0 <= past_end_us < DASH_TRANSITION_US,
        ;
        past_end_us * 1_000_000 / DASH_TRANSITION_US
    }
}

/// Ticks with no dash request, one after another, each of the given length.
pub open spec fn run_idle(s: DashState, deltas: Seq<int>) -> DashState
    decreases deltas.len(),
{
    if deltas.len() == 0 {
        s
    } else {
        run_idle(tick_spec(s, deltas[0], false, false), deltas.subrange(1, deltas.len() as int))
    }
}

/// The sum of the tick lengths.
pub open spec fn total(deltas: Seq<int>) -> int
    decreases deltas.len(),
{
    if deltas.len() == 0 {
        0
    } else {
        deltas[0] + total(deltas.subrange(1, deltas.len() as int))
    }
}

/// The tick on which a dash starts leaves the player dashing with the full
/// cycle on the timer.
pub proof fn lemma_dash_starts(s: DashState, delta_us: int, has_input: bool)
    requires
        s.wf(),
        !s.is_dashing,
        begin_tick_spec(s, delta_us, true, has_input).1,
    ensures
        has_input,
        tick_spec(s, delta_us, true, has_input) == (DashState {
            is_dashing: true,
            dash_cooldown_us: DASH_COOLDOWN_US,
        }),
{
}

/// Without a dash request, a player who is not dashing does not start to.
pub proof fn lemma_idle_stays_idle(s: DashState, deltas: Seq<int>)
    requires
        !s.is_dashing,
    ensures
        !run_idle(s, deltas).is_dashing,
    decreases deltas.len(),
{
    if deltas.len() > 0 {
        lemma_idle_stays_idle(
            tick_spec(s, deltas[0], false, false),
            deltas.subrange(1, deltas.len() as int),
        );
    }
}

/// Once ticks adding up to at least the dash's length (0.2 s) have passed, the
/// dash is over: from a dash with `c` on the timer, any run of ticks totalling
/// at least `c - DASH_END_US` ends it.
pub proof fn lemma_dash_ends(s: DashState, deltas: Seq<int>)
    requires
        s.wf(),
        deltas.len() > 0,
        forall|i: int| 0 <= i < deltas.len() ==> 0 <= #[trigger] deltas[i] <= MAX_TICK_US,
        s.is_dashing ==> s.dash_cooldown_us <= DASH_END_US + total(deltas),
    ensures
        !run_idle(s, deltas).is_dashing,
    decreases deltas.len(),
{
    let rest = deltas.subrange(1, deltas.len() as int);
    let s1 = tick_spec(s, deltas[0], false, false);
    assert(total(deltas) == deltas[0] + total(rest));
    if !s1.is_dashing {
        lemma_idle_stays_idle(s1, rest);
    } else {
        assert(rest.len() > 0);
        assert forall|i: int| 0 <= i < rest.len() implies 0 <= #[trigger] rest[i] <= MAX_TICK_US by {
            assert(rest[i] == deltas[i + 1]);
        }
        lemma_dash_ends(s1, rest);
    }
}

/// Right after the tick that starts a dash, any ticks that add up to 0.2 s end
/// it.
pub proof fn lemma_dash_lasts_its_window(s: DashState, delta_us: int, has_input: bool, deltas: Seq<int>)
    requires
        s.wf(),
        !s.is_dashing,
        begin_tick_spec(s, delta_us, true, has_input).1,
        deltas.len() > 0,
        forall|i: int| 0 <= i < deltas.len() ==> 0 <= #[trigger] deltas[i] <= MAX_TICK_US,
        total(deltas) >= DASH_COOLDOWN_US - DASH_END_US,
    ensures
        tick_spec(s, delta_us, true, has_input).is_dashing,
        !run_idle(tick_spec(s, delta_us, true, has_input), deltas).is_dashing,
{
    lemma_dash_ends(tick_spec(s, delta_us, true, has_input), deltas);
}

} // verus!

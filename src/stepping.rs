//! Angular stepping of a scanning sonar driven by software: one transducer
//! shot per step, sweeping a full circle or bouncing inside a sector.
use vstd::prelude::*;

verus! {

/// Steps in one revolution of the scanning head.
pub const STEPS_PER_REVOLUTION: u16 = 400;

/// A sector from `start` to `stop` covers the whole circle.
pub open spec fn spec_is_full_circle(start: int, stop: int) -> bool {
    start == 0 && stop == 399
}

/// The angle after `cur` and the direction of travel after it (`1` forward,
/// `-1` backward; any positive direction counts as forward).
pub open spec fn spec_next_step(
    cur: int,
    step: int,
    full_circle: bool,
    dir: int,
    start: int,
    stop: int,
) -> (int, int) {
    if full_circle {
        if cur + step >= 400 {
            (0, dir)
        } else {
            (cur + step, dir)
        }
    } else if dir > 0 {
        if cur + step > stop {
            (stop, -1)
        } else {
            (cur + step, dir)
        }
    } else {
        if cur - step <= start {
            (start, 1)
        } else {
            (cur - step, dir)
        }
    }
}

/// Whether `start..=stop` is the full circle.
pub fn is_full_circle(start_angle: u16, stop_angle: u16) -> (r: bool)
    ensures
        r == spec_is_full_circle(start_angle as int, stop_angle as int),
{
    start_angle == 0 && stop_angle == 399
}

/// Advances the sweep by one step. On the full circle the angle wraps to 0
/// once it would reach 400; inside a sector it bounces, clamping to the
/// boundary and turning round.
pub fn calculate_next_angle(
    current_angle: u16,
    step_size: u16,
    is_full_circle: bool,
    direction: &mut i16,
    start_angle: u16,
    stop_angle: u16,
) -> (r: u16)
    ensures
        (r as int, *final(direction) as int) == spec_next_step(
            current_angle as int,
            step_size as int,
            is_full_circle,
            *old(direction) as int,
            start_angle as int,
            stop_angle as int,
        ),
{
    let ahead: u32 = current_angle as u32 + step_size as u32;
    if is_full_circle {
        if ahead >= 400 {
            0
        } else {
            ahead as u16
        }
    } else if *direction > 0 {
        if ahead > stop_angle as u32 {
            *direction = -1;
            stop_angle
        } else {
            ahead as u16
        }
    } else {
        if current_angle as i32 - step_size as i32 <= start_angle as i32 {
            *direction = 1;
            start_angle
        } else {
            current_angle - step_size
        }
    }
}

/// The angle after `k` steps of a full-circle sweep that starts at 0.
pub open spec fn spec_circle_angle(step: int, k: nat) -> int
    decreases k,
{
    if k == 0 {
        0
    } else {
        spec_next_step(spec_circle_angle(step, (k - 1) as nat), step, true, 1, 0, 399).0
    }
}

/// Number of steps of size `step` that make one revolution: the ceiling of
/// 400 / `step`.
pub open spec fn spec_revolution_steps(step: int) -> int {
    (400 + step - 1) / step
}

proof fn lemma_circle_prefix(step: int, k: nat)
    requires
        step >= 1,
        k * step < 400,
    ensures
        spec_circle_angle(step, k) == k * step,
    decreases k,
{
    if k > 0 {
        assert((k - 1) * step == k * step - step) by (nonlinear_arith);
        lemma_circle_prefix(step, (k - 1) as nat);
        let prev = spec_circle_angle(step, (k - 1) as nat);
        assert(prev + step < 400);
        assert(spec_circle_angle(step, k) == spec_next_step(prev, step, true, 1, 0, 399).0);
        assert(spec_next_step(prev, step, true, 1, 0, 399).0 == prev + step);
    } else {
        assert(k * step == 0) by (nonlinear_arith)
            requires
                k == 0,
        ;
    }
}

/// A full-circle sweep from angle 0 with step `step` stays inside `0..=399`
/// and is back at 0 after exactly ceil(400 / step) steps, not before.
pub proof fn lemma_full_circle_returns(step: int)
    requires
        1 <= step <= 65535,
    ensures
        spec_revolution_steps(step) >= 1,
        spec_circle_angle(step, spec_revolution_steps(step) as nat) == 0,
        forall|k: nat|
            k <= spec_revolution_steps(step) ==> 0 <= #[trigger] spec_circle_angle(step, k) <= 399,
        forall|k: nat|
            0 < k < spec_revolution_steps(step) ==> #[trigger] spec_circle_angle(step, k) != 0,
{
    let n = spec_revolution_steps(step);
    assert(n >= 1) by (nonlinear_arith)
        requires
            n == (400 + step - 1) / step,
            step >= 1,
    ;
    assert((n - 1) * step < 400 && n * step >= 400) by (nonlinear_arith)
        requires
            n == (400 + step - 1) / step,
            step >= 1,
    ;
    assert forall|k: nat| k < n implies #[trigger] spec_circle_angle(step, k) == k * step
        && k * step < 400 by {
        assert(k * step <= (n - 1) * step) by (nonlinear_arith)
            requires
                k <= n - 1,
                step >= 1,
        ;
        lemma_circle_prefix(step, k);
    }
    let last = (n - 1) as nat;
    assert(spec_circle_angle(step, last) == last * step);
    assert(last * step + step == n * step) by (nonlinear_arith)
        requires
            last == n - 1,
    ;
    assert(spec_circle_angle(step, n as nat) == 0);
    assert forall|k: nat| k <= n implies 0 <= #[trigger] spec_circle_angle(step, k) <= 399 by {
        if k < n {
            assert(0 <= k * step) by (nonlinear_arith)
                requires
                    step >= 1,
            ;
        }
    }
    assert forall|k: nat| 0 < k < n implies #[trigger] spec_circle_angle(step, k) != 0 by {
        assert(k * step >= 1) by (nonlinear_arith)
            requires
                k >= 1,
                step >= 1,
        ;
    }
}

/// The angle and direction after `k` steps of a sector sweep.
pub open spec fn spec_sector_state(
    angle: int,
    dir: int,
    step: int,
    start: int,
    stop: int,
    k: nat,
) -> (int, int)
    decreases k,
{
    if k == 0 {
        (angle, dir)
    } else {
        let prev = spec_sector_state(angle, dir, step, start, stop, (k - 1) as nat);
        spec_next_step(prev.0, step, false, prev.1, start, stop)
    }
}

/// One step of a sector sweep keeps the angle inside `start..=stop`; the
/// direction turns exactly when the move would pass the boundary ahead
/// (going forward: beyond `stop`; going back: down to `start` or beyond), and
/// then the angle is that boundary.
pub proof fn lemma_sector_step(cur: int, step: int, dir: int, start: int, stop: int)
    requires
        start <= cur <= stop,
        step >= 0,
    ensures
        ({
            let (next, ndir) = spec_next_step(cur, step, false, dir, start, stop);
            &&& start <= next <= stop
            &&& (dir > 0 ==> ((ndir != dir) <==> cur + step > stop))
            &&& (dir <= 0 ==> ((ndir != dir) <==> cur - step <= start))
            &&& (ndir != dir && dir > 0 ==> next == stop && ndir == -1)
            &&& (ndir != dir && dir <= 0 ==> next == start && ndir == 1)
        }),
{
}

/// A sector sweep that starts inside `start..=stop` never leaves it, and at
/// every step its direction turns exactly when the move would pass the
/// boundary ahead, landing on that boundary.
pub proof fn lemma_sector_sweep_bounded(
    angle: int,
    dir: int,
    step: int,
    start: int,
    stop: int,
    k: nat,
)
    requires
        start <= angle <= stop,
        step >= 0,
    ensures
        ({
            let (cur, cdir) = spec_sector_state(angle, dir, step, start, stop, k);
            let (next, ndir) = spec_sector_state(angle, dir, step, start, stop, k + 1);
            &&& start <= cur <= stop
            &&& start <= next <= stop
            &&& (cdir > 0 ==> ((ndir != cdir) <==> cur + step > stop))
            &&& (cdir <= 0 ==> ((ndir != cdir) <==> cur - step <= start))
            &&& (ndir != cdir && cdir > 0 ==> next == stop)
            &&& (ndir != cdir && cdir <= 0 ==> next == start)
        }),
    decreases k,
{
    if k > 0 {
        lemma_sector_sweep_bounded(angle, dir, step, start, stop, (k - 1) as nat);
    }
    let (cur, cdir) = spec_sector_state(angle, dir, step, start, stop, k);
    lemma_sector_step(cur, step, cdir, start, stop);
}

} // verus!

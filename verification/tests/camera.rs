//! The camera integrator: command application, integration steps, the
//! fixed-point curves and the minimum-scale guarantee on concrete runs.

use gfaestus::channel::CommandQueue;
use gfaestus::curve::friction_fx;
use gfaestus::curve::pow10_fx;
use gfaestus::curve::zoom_mult;
use gfaestus::fixed::fx_add;
use gfaestus::fixed::fx_clamp;
use gfaestus::fixed::fx_mul;
use gfaestus::geometry::Point;
use gfaestus::ui::AnimTimer;
use gfaestus::ui::UICmd;
use gfaestus::ui::UIState;
use gfaestus::view::MIN_SCALE;

const MICRO: i64 = 1_000_000;

#[test]
fn fixed_point_multiplication_is_exact() {
    assert_eq!(fx_mul(2 * MICRO, 3 * MICRO), 6 * MICRO);
    assert_eq!(fx_mul(-2 * MICRO, 3 * MICRO), -6 * MICRO);
    assert_eq!(fx_mul(500_000, 500_000), 250_000);
    assert_eq!(fx_mul(i64::MAX, 2 * MICRO), i64::MAX);
    assert_eq!(fx_mul(i64::MAX, -2 * MICRO), i64::MIN);
    assert_eq!(fx_add(i64::MAX, 1), i64::MAX);
    assert_eq!(fx_add(i64::MIN, -1), i64::MIN);
    assert_eq!(fx_clamp(700, -600, 600), 600);
    assert_eq!(fx_clamp(-700, -600, 600), -600);
}

#[test]
fn pow10_matches_known_points() {
    // 10^0 and 10^1 are exact; 10^0.5 comes from the first table entry.
    assert_eq!(pow10_fx(0), MICRO);
    assert_eq!(pow10_fx(MICRO), 10 * MICRO);
    assert_eq!(pow10_fx(500_000), 3_162_278);
    // 10^-1 is one tenth.
    assert_eq!(pow10_fx(-MICRO), 100_000);
    // Far below the precision floor everything truncates to zero.
    assert_eq!(pow10_fx(-8 * MICRO), 0);
}

#[test]
fn friction_is_point_nine_at_zero_elapsed() {
    // f = 1 - 10^(0 - 1) = 0.9 exactly.
    assert_eq!(friction_fx(0), 900_000);
    // At one elapsed second the factor reaches zero.
    assert_eq!(friction_fx(MICRO), 0);
}

#[test]
fn zoom_multiplier_is_log2_above_two() {
    assert_eq!(zoom_mult(MICRO), MICRO);
    assert_eq!(zoom_mult(2 * MICRO), MICRO);
    assert_eq!(zoom_mult(8 * MICRO), 3 * MICRO);
    assert_eq!(zoom_mult(500_000), MICRO);
}

#[test]
fn set_scale_then_zero_time_tick_gives_exact_scale() {
    // Submit `SetScale { 2.0 }`, drain, then integrate one tick with t = 0:
    // the zero-time tick is a no-op on momentum but the command applied on
    // drain is visible, so the scale is exactly 2.0.
    let mut queue: CommandQueue<UICmd> = CommandQueue::new();
    queue.push(UICmd::SetScale { scale: 2 * MICRO });
    let mut state = UIState::new(800 * MICRO, 600 * MICRO);
    state.drain_cmds(&mut queue);
    state.update_anim(0);
    assert_eq!(state.view.scale, 2 * MICRO);
    assert_eq!(state.view.center, Point { x: 0, y: 0 });
}

#[test]
fn scale_never_drops_below_minimum_under_zoom_and_pan() {
    let mut state = UIState::new(800 * MICRO, 600 * MICRO);
    // Zoom out hard and keep panning over many ticks.
    for _ in 0..50 {
        state.apply_cmd(UICmd::Zoom { delta: -40 * MICRO });
        state.apply_cmd(UICmd::Pan { delta: Point { x: 100 * MICRO, y: -100 * MICRO } });
        state.update_anim(7_000);
        assert!(state.view.scale >= MIN_SCALE);
    }
    // The zoom momentum pushed the scale all the way to the floor.
    assert_eq!(state.view.scale, MIN_SCALE);
}

#[test]
fn pan_momentum_is_clamped_per_axis() {
    let mut state = UIState::new(800 * MICRO, 600 * MICRO);
    state.apply_cmd(UICmd::Pan { delta: Point { x: 700 * MICRO, y: -700 * MICRO } });
    assert_eq!(state.anim.view_delta.x, 600 * MICRO);
    assert_eq!(state.anim.view_delta.y, -600 * MICRO);
}

#[test]
fn tiny_zoom_momentum_snaps_to_zero() {
    let mut state = UIState::new(800 * MICRO, 600 * MICRO);
    state.apply_cmd(UICmd::Zoom { delta: 9 });
    // delta * max(1, log2(1.0)) = 9 micro-units, below the snap threshold:
    // one tick decays it and snaps it to exactly zero.
    state.update_anim(0);
    assert_eq!(state.anim.scale_delta, 0);
}

#[test]
fn resize_only_touches_the_viewport() {
    let mut state = UIState::new(800 * MICRO, 600 * MICRO);
    state.apply_cmd(UICmd::Resize { width: 1024 * MICRO, height: 768 * MICRO });
    assert_eq!(state.view.width, 1024 * MICRO);
    assert_eq!(state.view.height, 768 * MICRO);
    assert_eq!(state.view.scale, MICRO);
}

#[test]
fn pan_constant_folds_released_axis_into_momentum() {
    let mut state = UIState::new(800 * MICRO, 600 * MICRO);
    state.apply_cmd(UICmd::PanConstant { delta: Point { x: 5 * MICRO, y: 0 } });
    // Releasing the x axis folds the constant velocity back into the
    // decaying one.
    state.apply_cmd(UICmd::PanConstant { delta: Point { x: 0, y: 0 } });
    assert_eq!(state.anim.view_delta.x, 5 * MICRO);
    assert_eq!(state.anim.view_const_delta, Point { x: 0, y: 0 });
}

#[test]
fn timer_fires_once_accumulated_time_passes_the_interval() {
    let mut timer = AnimTimer::new();
    assert_eq!(timer.advance(3_000), None);
    assert_eq!(timer.advance(3_000), None);
    // 9000 micro-seconds accumulated: past the 144 Hz interval.
    assert_eq!(timer.advance(3_000), Some(9_000));
    assert_eq!(timer.advance(0), None);
}

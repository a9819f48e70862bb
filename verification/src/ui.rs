//! The camera animation state machine.
//!
//! A dedicated thread owns a [`UIState`] and advances it at a fixed virtual
//! rate: each iteration accumulates wall time through an [`AnimTimer`],
//! applies drained [`UICmd`] values in order, integrates one step once the
//! accumulator passes the target interval, and publishes the resulting
//! [`ViewState`] through a single-slot channel. Everything here is pure
//! state: the thread, the clock and the channel live with the caller.

use vstd::prelude::*;

use crate::channel::CommandQueue;
use crate::curve::friction_fx;
use crate::curve::friction_spec;
use crate::curve::zoom_mult;
use crate::curve::zoom_mult_spec;
use crate::fixed::clamp_spec;
use crate::fixed::fx_add;
use crate::fixed::fx_add_spec;
use crate::fixed::fx_clamp;
use crate::fixed::fx_mul;
use crate::fixed::fx_mul_spec;
use crate::geometry::Point;
use crate::view::MIN_SCALE;
use crate::view::ViewState;

verus! {

/// Pan momentum is clamped to this magnitude per axis: `600.0`.
pub const MAX_PAN_SPEED: i64 = 600_000_000;

/// Zoom momentum below this magnitude snaps to zero: `0.00001`.
pub const SCALE_SNAP_EPS: i64 = 10;

/// The target integration interval, one 144th of a second in micro-seconds.
pub const TICK_MICROS: i64 = 6_944;

/// Camera momentum, owned exclusively by the animation thread: decaying pan
/// and zoom velocities plus a constant pan velocity that friction never
/// touches.
#[derive(Clone, Copy, Debug, PartialEq, Eq, Structural)]
pub struct UIAnimState {
    pub view_const_delta: Point,
    pub view_delta: Point,
    pub scale_delta: i64,
}

impl UIAnimState {
    /// Momentum at rest.
    pub fn at_rest() -> (a: UIAnimState)
        ensures
            a == (UIAnimState {
                view_const_delta: Point { x: 0, y: 0 },
                view_delta: Point { x: 0, y: 0 },
                scale_delta: 0,
            }),
    {
        UIAnimState {
            view_const_delta: Point { x: 0, y: 0 },
            view_delta: Point { x: 0, y: 0 },
            scale_delta: 0,
        }
    }
}

/// A camera command, produced by input handling and consumed only by the
/// animation state machine.
#[derive(Clone, Copy, Debug, PartialEq, Eq, Structural)]
pub enum UICmd {
    PanConstant { delta: Point },
    Pan { delta: Point },
    Zoom { delta: i64 },
    SetCenter { center: Point },
    SetScale { scale: i64 },
    Resize { width: i64, height: i64 },
}

/// Input gestures that the window loop translates into camera commands.
#[derive(Clone, Copy, Debug, PartialEq, Eq, Structural)]
pub enum UIInputState {
    Mouse1Down,
    Mouse2Down,
    KeyUpDown,
    KeyRightDown,
    KeyDownDown,
    KeyLeftDown,
}

/// The animation thread's whole state: current momentum and the view it
/// publishes after each integration step.
#[derive(Clone, Copy, Debug, PartialEq, Eq, Structural)]
pub struct UIState {
    pub anim: UIAnimState,
    pub view: ViewState,
}

/// The state after one integration step over `t` elapsed micro-seconds:
/// zoom advances by `t * scale_delta` and is clamped at [`MIN_SCALE`]; the
/// center advances by `t * velocity * scale` so that visual pan speed is
/// zoom-invariant; decaying momentum shrinks by the friction factor and
/// zoom momentum snaps to zero below [`SCALE_SNAP_EPS`].
pub open spec fn update_anim_spec(s: UIState, t: i64) -> UIState {
    let f = friction_spec(t);
    let dx = fx_add_spec(s.anim.view_delta.x, s.anim.view_const_delta.x);
    let dy = fx_add_spec(s.anim.view_delta.y, s.anim.view_const_delta.y);
    let scale_raw = fx_add_spec(s.view.scale, fx_mul_spec(t, s.anim.scale_delta));
    let scale = if scale_raw >= MIN_SCALE {
        scale_raw
    } else {
        MIN_SCALE
    };
    let cx = fx_add_spec(s.view.center.x, fx_mul_spec(fx_mul_spec(t, dx), scale));
    let cy = fx_add_spec(s.view.center.y, fx_mul_spec(fx_mul_spec(t, dy), scale));
    let sd_raw = fx_mul_spec(s.anim.scale_delta, f);
    let sd = if -SCALE_SNAP_EPS < sd_raw < SCALE_SNAP_EPS {
        0
    } else {
        sd_raw
    };
    UIState {
        anim: UIAnimState {
            view_const_delta: s.anim.view_const_delta,
            view_delta: Point {
                x: fx_mul_spec(s.anim.view_delta.x, f),
                y: fx_mul_spec(s.anim.view_delta.y, f),
            },
            scale_delta: sd,
        },
        view: ViewState {
            center: Point { x: cx, y: cy },
            scale,
            width: s.view.width,
            height: s.view.height,
        },
    }
}

/// The state after one camera command is applied: `Pan` adds momentum
/// clamped to [`MAX_PAN_SPEED`] per axis, `Zoom` adds momentum scaled by
/// `max(1, log2(scale))`, `PanConstant` replaces the constant velocity
/// (folding a released axis back into the decaying one), `SetCenter` and
/// `SetScale` jump the view and cancel decaying momentum, `Resize` only
/// records the viewport.
pub open spec fn apply_cmd_spec(s: UIState, cmd: UICmd) -> UIState {
    match cmd {
        UICmd::PanConstant { delta } => {
            let vx = if delta.x == 0 {
                s.anim.view_const_delta.x
            } else {
                s.anim.view_delta.x
            };
            let vy = if delta.y == 0 {
                s.anim.view_const_delta.y
            } else {
                s.anim.view_delta.y
            };
            UIState {
                anim: UIAnimState {
                    view_const_delta: delta,
                    view_delta: Point { x: vx, y: vy },
                    scale_delta: s.anim.scale_delta,
                },
                view: s.view,
            }
        },
        UICmd::Pan { delta } => UIState {
            anim: UIAnimState {
                view_const_delta: s.anim.view_const_delta,
                view_delta: Point {
                    x: clamp_spec(
                        fx_add_spec(s.anim.view_delta.x, delta.x),
                        (-MAX_PAN_SPEED) as i64,
                        MAX_PAN_SPEED,
                    ),
                    y: clamp_spec(
                        fx_add_spec(s.anim.view_delta.y, delta.y),
                        (-MAX_PAN_SPEED) as i64,
                        MAX_PAN_SPEED,
                    ),
                },
                scale_delta: s.anim.scale_delta,
            },
            view: s.view,
        },
        UICmd::Zoom { delta } => UIState {
            anim: UIAnimState {
                view_const_delta: s.anim.view_const_delta,
                view_delta: s.anim.view_delta,
                scale_delta: fx_add_spec(
                    s.anim.scale_delta,
                    fx_mul_spec(delta, zoom_mult_spec(s.view.scale)),
                ),
            },
            view: s.view,
        },
        UICmd::SetCenter { center } => UIState {
            anim: UIAnimState {
                view_const_delta: s.anim.view_const_delta,
                view_delta: Point { x: 0, y: 0 },
                scale_delta: 0,
            },
            view: ViewState {
                center,
                scale: s.view.scale,
                width: s.view.width,
                height: s.view.height,
            },
        },
        UICmd::SetScale { scale } => UIState {
            anim: UIAnimState {
                view_const_delta: s.anim.view_const_delta,
                view_delta: Point { x: 0, y: 0 },
                scale_delta: 0,
            },
            view: ViewState {
                center: s.view.center,
                scale,
                width: s.view.width,
                height: s.view.height,
            },
        },
        UICmd::Resize { width, height } => UIState {
            anim: s.anim,
            view: ViewState { center: s.view.center, scale: s.view.scale, width, height },
        },
    }
}

impl UIState {
    /// A fresh camera: unit scale at the origin, momentum at rest.
    pub fn new(width: i64, height: i64) -> (s: UIState)
        ensures
            s.view == (ViewState { center: Point { x: 0, y: 0 }, scale: 1_000_000, width, height }),
            s.anim == (UIAnimState {
                view_const_delta: Point { x: 0, y: 0 },
                view_delta: Point { x: 0, y: 0 },
                scale_delta: 0,
            }),
    {
        UIState { anim: UIAnimState::at_rest(), view: ViewState::new(width, height) }
    }

    /// One integration step over `t` elapsed micro-seconds.
    pub fn update_anim(&mut self, t: i64)
        requires
            t >= 0,
        ensures
            *final(self) == update_anim_spec(*old(self), t),
            final(self).view.scale >= MIN_SCALE,
    {
        let f = friction_fx(t);
        let dx = fx_add(self.anim.view_delta.x, self.anim.view_const_delta.x);
        let dy = fx_add(self.anim.view_delta.y, self.anim.view_const_delta.y);
        let scale_raw = fx_add(self.view.scale, fx_mul(t, self.anim.scale_delta));
        let scale = if scale_raw >= MIN_SCALE {
            scale_raw
        } else {
            MIN_SCALE
        };
        let cx = fx_add(self.view.center.x, fx_mul(fx_mul(t, dx), scale));
        let cy = fx_add(self.view.center.y, fx_mul(fx_mul(t, dy), scale));
        let vdx = fx_mul(self.anim.view_delta.x, f);
        let vdy = fx_mul(self.anim.view_delta.y, f);
        let sd_raw = fx_mul(self.anim.scale_delta, f);
        let sd = if -SCALE_SNAP_EPS < sd_raw && sd_raw < SCALE_SNAP_EPS {
            0
        } else {
            sd_raw
        };
        self.view.scale = scale;
        self.view.center = Point { x: cx, y: cy };
        self.anim.view_delta = Point { x: vdx, y: vdy };
        self.anim.scale_delta = sd;
    }

    /// Apply one camera command.
    pub fn apply_cmd(&mut self, cmd: UICmd)
        ensures
            *final(self) == apply_cmd_spec(*old(self), cmd),
    {
        match cmd {
            UICmd::PanConstant { delta } => {
                if delta.x == 0 {
                    self.anim.view_delta.x = self.anim.view_const_delta.x;
                }
                if delta.y == 0 {
                    self.anim.view_delta.y = self.anim.view_const_delta.y;
                }
                self.anim.view_const_delta = delta;
            },
            UICmd::Pan { delta } => {
                let nx = fx_add(self.anim.view_delta.x, delta.x);
                let ny = fx_add(self.anim.view_delta.y, delta.y);
                self.anim.view_delta = Point {
                    x: fx_clamp(nx, -MAX_PAN_SPEED, MAX_PAN_SPEED),
                    y: fx_clamp(ny, -MAX_PAN_SPEED, MAX_PAN_SPEED),
                };
            },
            UICmd::Zoom { delta } => {
                let mult = zoom_mult(self.view.scale);
                self.anim.scale_delta = fx_add(self.anim.scale_delta, fx_mul(delta, mult));
            },
            UICmd::SetCenter { center } => {
                self.anim.view_delta = Point { x: 0, y: 0 };
                self.anim.scale_delta = 0;
                self.view.center = center;
            },
            UICmd::SetScale { scale } => {
                self.anim.view_delta = Point { x: 0, y: 0 };
                self.anim.scale_delta = 0;
                self.view.scale = scale;
            },
            UICmd::Resize { width, height } => {
                self.view.width = width;
                self.view.height = height;
            },
        }
    }
}

/// The state after a queue's commands are applied in enqueue order.
pub open spec fn apply_cmds_spec(s: UIState, cmds: Seq<UICmd>) -> UIState
    decreases cmds.len(),
{
    if cmds.len() == 0 {
        s
    } else {
        apply_cmd_spec(apply_cmds_spec(s, cmds.drop_last()), cmds.last())
    }
}

impl UIState {
    /// Drain a command queue once, applying every command in enqueue
    /// order; no reordering and no coalescing.
    #[verifier::loop_isolation(false)]
    pub fn drain_cmds(&mut self, queue: &mut CommandQueue<UICmd>)
        ensures
            *final(self) == apply_cmds_spec(*old(self), old(queue)@),
            final(queue)@ == Seq::<UICmd>::empty(),
    {
        let ghost cmds0 = queue@;
        proof {
            assert(cmds0.skip(0) =~= cmds0);
        }
        while queue.len() > 0
            invariant
                queue@.len() <= cmds0.len(),
                queue@ == cmds0.skip(cmds0.len() - queue@.len()),
                *self == apply_cmds_spec(*old(self), cmds0.take(cmds0.len() - queue@.len())),
            decreases queue@.len(),
        {
            let ghost i = cmds0.len() - queue@.len();
            match queue.pop_front() {
                None => {
                    proof {
                        assert(false);
                    }
                },
                Some(cmd) => {
                    proof {
                        assert(cmd == cmds0[i]);
                        assert(queue@ =~= cmds0.skip(i + 1));
                        assert(cmds0.take(i + 1).drop_last() =~= cmds0.take(i));
                        assert(cmds0.take(i + 1).last() == cmds0[i]);
                    }
                    self.apply_cmd(cmd);
                },
            }
        }
        proof {
            assert(cmds0.take(cmds0.len() as int) =~= cmds0);
        }
    }
}

/// The virtual-rate accumulator the animation thread runs on: wall time
/// piles up until it passes [`TICK_MICROS`], then one integration step is
/// due and the accumulator resets.
pub struct AnimTimer {
    pub since_last_update: i64,
}

impl AnimTimer {
    /// A timer with nothing accumulated.
    pub fn new() -> (t: AnimTimer)
        ensures
            t.since_last_update == 0,
    {
        AnimTimer { since_last_update: 0 }
    }

    /// Record `elapsed` micro-seconds; when the accumulated time passes the
    /// target interval, return it as the integration step size and reset.
    pub fn advance(&mut self, elapsed: i64) -> (step: Option<i64>)
        requires
            elapsed >= 0,
            old(self).since_last_update >= 0,
        ensures
            ({
                let sum = fx_add_spec(old(self).since_last_update, elapsed);
                if sum > TICK_MICROS {
                    step == Some(sum) && final(self).since_last_update == 0
                } else {
                    step is None && final(self).since_last_update == sum
                }
            }),
            final(self).since_last_update >= 0,
            step is Some ==> step.unwrap() >= 0,
    {
        let sum = fx_add(self.since_last_update, elapsed);
        if sum > TICK_MICROS {
            self.since_last_update = 0;
            Some(sum)
        } else {
            self.since_last_update = sum;
            None
        }
    }
}

/// One step of the animation thread's history: a drained command or an
/// integration tick.
#[derive(Clone, Copy, Debug, PartialEq, Eq, Structural)]
pub enum AnimEvent {
    Cmd(UICmd),
    Tick(i64),
}

/// Commands that only steer momentum or the viewport, never the scale
/// itself.
pub open spec fn momentum_cmd(cmd: UICmd) -> bool {
    match cmd {
        UICmd::PanConstant { .. } => true,
        UICmd::Pan { .. } => true,
        UICmd::Zoom { .. } => true,
        UICmd::Resize { .. } => true,
        UICmd::SetCenter { .. } => false,
        UICmd::SetScale { .. } => false,
    }
}

/// An event the minimum-scale law quantifies over: a `Zoom`/`Pan`-style
/// command, or a tick over a non-negative elapsed time.
pub open spec fn wf_anim_event(ev: AnimEvent) -> bool {
    match ev {
        AnimEvent::Cmd(c) => momentum_cmd(c),
        AnimEvent::Tick(t) => t >= 0,
    }
}

/// The state after a whole sequence of commands and ticks.
pub open spec fn run_anim_events(s: UIState, evs: Seq<AnimEvent>) -> UIState
    decreases evs.len(),
{
    if evs.len() == 0 {
        s
    } else {
        let s1 = match evs[0] {
            AnimEvent::Cmd(c) => apply_cmd_spec(s, c),
            AnimEvent::Tick(t) => update_anim_spec(s, t),
        };
        run_anim_events(s1, evs.drop_first())
    }
}

/// Under any sequence of `Zoom`/`Pan`-style commands and elapsed-time
/// steps, the view scale never drops below [`MIN_SCALE`].
pub proof fn lemma_scale_never_below_min(s: UIState, evs: Seq<AnimEvent>)
    requires
        s.view.scale >= MIN_SCALE,
        forall|i: int| 0 <= i < evs.len() ==> wf_anim_event(#[trigger] evs[i]),
    ensures
        run_anim_events(s, evs).view.scale >= MIN_SCALE,
    decreases evs.len(),
{
    if evs.len() > 0 {
        let s1 = match evs[0] {
            AnimEvent::Cmd(c) => apply_cmd_spec(s, c),
            AnimEvent::Tick(t) => update_anim_spec(s, t),
        };
        assert(s1.view.scale >= MIN_SCALE);
        assert(forall|i: int|
            0 <= i < evs.drop_first().len() ==> wf_anim_event(#[trigger] evs.drop_first()[i]));
        lemma_scale_never_below_min(s1, evs.drop_first());
    }
}

} // verus!

//! Balls: their hold-and-hang states, what a click drops, and gravity.

use vstd::prelude::*;

use crate::food::DropType;
use crate::player::UserData;
use crate::states::DayState;
use crate::timer::{spec_tick, Timer};
use crate::work::{hang_time_divisor, spec_hang_divisor};

verus! {

/// What a pachinko ball costs to drop.
pub const BALL_COST: i64 = 3;

/// The gravity a new game starts with.
pub const DEFAULT_GRAVITY: i64 = -500;

/// The strongest pull gravity can be set to.
pub const MIN_GRAVITY: i64 = -1000;

/// The weakest pull gravity can be set to: none.
pub const MAX_GRAVITY: i64 = 0;

/// How much one press of a gravity key changes gravity.
pub const GRAVITY_STEP: i64 = 100;

/// Where a ball is in its life: falling freely, grabbed by the pointer, or
/// hanging on its timer before it falls.
#[derive(Debug, Clone, Copy, PartialEq, Eq, Structural)]
pub enum BallState {
    Free,
    Held,
    Hanging(Timer),
}

/// Whether a ball in this state moves under gravity and its velocity.
pub fn integrates(state: &BallState) -> (r: bool)
    ensures
        r == (*state == BallState::Free),
{
    match state {
        BallState::Free => true,
        _ => false,
    }
}

/// A hanging ball's timer is well formed.
pub open spec fn ball_state_ok(state: BallState) -> bool {
    match state {
        BallState::Hanging(t) => t.wf(),
        _ => true,
    }
}

/// Advances a hanging ball's timer by `delta` nanoseconds divided by the
/// royal slowdown; the tick its timer runs out the ball is let go, at rest.
/// Returns whether it was let go.
pub fn drop_work_ball(state: &mut BallState, delta: u64, user: &UserData) -> (r: bool)
    requires
        ball_state_ok(*old(state)),
        user.wf(),
    ensures
        ball_state_ok(*final(state)),
        match *old(state) {
            BallState::Hanging(t) => {
                let ticked = spec_tick(t, (delta as int / spec_hang_divisor(user.royal as int)) as u64);
                if ticked.times_finished_this_tick > 0 {
                    r && *final(state) == BallState::Free
                } else {
                    !r && *final(state) == BallState::Hanging(ticked)
                }
            },
            _ => !r && *final(state) == *old(state),
        },
{
    match state {
        BallState::Hanging(t) => {
            let mut timer = *t;
            let d = hang_time_divisor(user);
            timer.tick(delta / d);
            if timer.just_finished() {
                *state = BallState::Free;
                true
            } else {
                *state = BallState::Hanging(timer);
                false
            }
        },
        _ => false,
    }
}

/// A press on a hanging ball within its reach grabs it.
pub fn grab_work_ball(state: &mut BallState, pressed_on_ball: bool)
    ensures
        (*old(state) is Hanging && pressed_on_ball) ==> *final(state) == BallState::Held,
        !(*old(state) is Hanging && pressed_on_ball) ==> *final(state) == *old(state),
{
    if pressed_on_ball {
        if let BallState::Hanging(_) = state {
            *state = BallState::Held;
        }
    }
}

/// Releasing the pointer lets a held ball go.
pub fn launch_ball(state: &mut BallState, released: bool)
    ensures
        (*old(state) == BallState::Held && released) ==> *final(state) == BallState::Free,
        !(*old(state) == BallState::Held && released) ==> *final(state) == *old(state),
{
    if released && *state == BallState::Held {
        *state = BallState::Free;
    }
}

/// The item a click in the drop zone asks for in phase `day`: the drawn item
/// in the morning, a mouth in the evening, a pachinko ball otherwise.
pub open spec fn spec_click_drop(day: DayState, morning_draw: DropType) -> DropType {
    match day {
        DayState::Morning => morning_draw,
        DayState::Evening => DropType::Mouth,
        _ => DropType::Ball,
    }
}

/// The ball that a click in the drop zone spawns in phase `day`, held by the
/// pointer. A pachinko ball costs 3 money and is not spawned when the player
/// cannot pay; other items are free. `morning_draw` is the random item used in
/// the morning.
pub fn ball_for_click(day: DayState, user: &mut UserData, morning_draw: DropType) -> (r: Option<DropType>)
    requires
        old(user).wf(),
    ensures
        final(user).wf(),
        ({
            let d = spec_click_drop(day, morning_draw);
            if d != DropType::Ball {
                r == Some(d) && *final(user) == *old(user)
            } else if old(user).money >= BALL_COST {
                &&& r == Some(DropType::Ball)
                &&& *final(user) == (UserData { money: (old(user).money - BALL_COST) as i64, ..*old(user) })
            } else {
                r.is_none() && *final(user) == *old(user)
            }
        }),
{
    let drop = match day {
        DayState::Morning => morning_draw,
        DayState::Evening => DropType::Mouth,
        _ => DropType::Ball,
    };
    if drop != DropType::Ball {
        return Some(drop);
    }
    if user.money >= BALL_COST {
        user.money = user.money - BALL_COST;
        Some(DropType::Ball)
    } else {
        None
    }
}

/// The pull of gravity on balls, in pixels per second squared; negative
/// pulls down.
#[derive(Debug, Clone, Copy, PartialEq, Eq, Structural)]
pub struct Gravity(pub i64);

impl Gravity {
    /// Gravity lies in `[-1000, 0]`.
    pub open spec fn wf(&self) -> bool {
        MIN_GRAVITY <= self.0 <= MAX_GRAVITY
    }
}

impl Default for Gravity {
    fn default() -> (r: Gravity)
        ensures
            r == Gravity(DEFAULT_GRAVITY),
    {
        Gravity(DEFAULT_GRAVITY)
    }
}

/// `g` held within the gravity bounds.
pub open spec fn spec_gravity_clamp(g: int) -> int {
    if g < MIN_GRAVITY {
        MIN_GRAVITY as int
    } else if g > MAX_GRAVITY {
        MAX_GRAVITY as int
    } else {
        g
    }
}

/// The gravity keys: one pulls harder by 100, the other weaker by 100, in
/// that order, each result held within `[-1000, 0]`.
pub fn adjust_gravity(gravity: &mut Gravity, stronger: bool, weaker: bool)
    requires
        old(gravity).wf(),
    ensures
        final(gravity).wf(),
        ({
            let g1 = if stronger {
                spec_gravity_clamp(old(gravity).0 - GRAVITY_STEP)
            } else {
                old(gravity).0 as int
            };
            let g2 = if weaker {
                spec_gravity_clamp(g1 + GRAVITY_STEP)
            } else {
                g1
            };
            final(gravity).0 == g2
        }),
{
    if stronger {
        let g = gravity.0 - GRAVITY_STEP;
        gravity.0 = if g < MIN_GRAVITY {
            MIN_GRAVITY
        } else {
            g
        };
    }
    if weaker {
        let g = gravity.0 + GRAVITY_STEP;
        gravity.0 = if g > MAX_GRAVITY {
            MAX_GRAVITY
        } else {
            g
        };
    }
}

} // verus!

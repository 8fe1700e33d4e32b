//! The morning minigame: balls hang under the ceiling, the player drops them
//! into labelled baskets, and matching the label pays best.

use vstd::prelude::*;

use crate::events::{BallTargetHit, EntityId};
use crate::food::DropType;
use crate::player::UserData;
use crate::stats::{add_stat, spec_clamp};
use crate::timer::{spec_tick, Timer, TimerMode};

verus! {

/// How long a fresh ball hangs before it falls, in milliseconds.
pub const HANG_TIME_MILLIS: u64 = 10_000;

/// The time between two ball spawns, in milliseconds.
pub const SPAWN_TIME_MILLIS: u64 = 1_000;

/// The repeating timer that paces ball spawns.
pub fn initialise_spawn_timer() -> (r: Timer)
    ensures
        r.wf(),
        r == Timer::from_millis_spec(SPAWN_TIME_MILLIS, TimerMode::Repeating),
{
    Timer::from_millis(SPAWN_TIME_MILLIS, TimerMode::Repeating)
}

/// The one-shot timer a fresh ball hangs on.
pub fn new_hang_timer() -> (r: Timer)
    ensures
        r.wf(),
        r == Timer::from_millis_spec(HANG_TIME_MILLIS, TimerMode::Once),
{
    Timer::from_millis(HANG_TIME_MILLIS, TimerMode::Once)
}

/// `x` held within `[lo, hi]`.
pub open spec fn spec_between(x: int, lo: int, hi: int) -> int {
    if x < lo {
        lo
    } else if x > hi {
        hi
    } else {
        x
    }
}

/// How much slower the spawn timer runs: a tenth of royal favour, from 1 to 10.
pub open spec fn spec_spawn_divisor(royal: int) -> int {
    spec_between(royal / 10, 1, 10)
}

/// How much slower a hang timer runs: a twentieth of royal favour, from 1 to 5.
pub open spec fn spec_hang_divisor(royal: int) -> int {
    spec_between(royal / 20, 1, 5)
}

/// The factor by which royal favour slows the spawn timer.
pub fn spawn_time_divisor(user: &UserData) -> (r: u64)
    requires
        user.wf(),
    ensures
        r == spec_spawn_divisor(user.royal as int),
        1 <= r <= 10,
{
    let d = user.royal / 10;
    if d < 1 {
        1
    } else if d > 10 {
        10
    } else {
        d as u64
    }
}

/// The factor by which royal favour slows a hang timer.
pub fn hang_time_divisor(user: &UserData) -> (r: u64)
    requires
        user.wf(),
    ensures
        r == spec_hang_divisor(user.royal as int),
        1 <= r <= 5,
{
    let d = user.royal / 20;
    if d < 1 {
        1
    } else if d > 5 {
        5
    } else {
        d as u64
    }
}

/// Advances the spawn timer by `delta` nanoseconds divided by the royal
/// slowdown, and tells whether a ball is due.
pub fn tick_spawn_timer(timer: &mut Timer, delta: u64, user: &UserData) -> (r: bool)
    requires
        old(timer).wf(),
        user.wf(),
    ensures
        final(timer).wf(),
        *final(timer) == spec_tick(*old(timer), (delta as int / spec_spawn_divisor(user.royal as int)) as u64),
        r == (final(timer).times_finished_this_tick > 0),
{
    let d = spawn_time_divisor(user);
    timer.tick(delta / d);
    timer.just_finished()
}

/// A basket on the floor: its label target and the item it asks for, with
/// the two sprites that make up the basket.
#[derive(Debug, Clone, Copy, PartialEq, Eq, Structural)]
pub struct BasketLabel {
    pub target: EntityId,
    pub label: DropType,
    pub top: EntityId,
    pub bottom: EntityId,
}

/// The position of the first basket from `k` on whose label target is `t`.
pub open spec fn spec_find_from(labels: Seq<BasketLabel>, t: EntityId, k: int) -> Option<int>
    decreases labels.len() - k,
{
    if k < 0 || k >= labels.len() {
        None
    } else if labels[k].target == t {
        Some(k)
    } else {
        spec_find_from(labels, t, k + 1)
    }
}

/// The first basket whose label target is `t`.
pub open spec fn spec_basket_for(labels: Seq<BasketLabel>, t: EntityId) -> Option<BasketLabel> {
    match spec_find_from(labels, t, 0) {
        Some(k) => Some(labels[k]),
        None => None,
    }
}

/// The first basket whose label target is `t`, if any.
fn find_basket(labels: &Vec<BasketLabel>, t: EntityId) -> (r: Option<BasketLabel>)
    ensures
        r == spec_basket_for(labels@, t),
{
    let mut i: usize = 0;
    while i < labels.len()
        invariant
            0 <= i <= labels.len(),
            spec_find_from(labels@, t, 0) == spec_find_from(labels@, t, i as int),
        decreases labels.len() - i,
    {
        if labels[i].target == t {
            return Some(labels[i]);
        }
        i = i + 1;
    }
    None
}

/// Money and stress after one ball lands on a target: in a basket with the
/// ball's label it pays 10; in another basket it pays 1 and adds 5 stress;
/// elsewhere nothing changes.
pub open spec fn spec_work_one(money: int, stress: int, hit: BallTargetHit, labels: Seq<BasketLabel>) -> (int, int) {
    match spec_basket_for(labels, hit.target) {
        Some(b) => if b.label == hit.ball_type {
            (spec_clamp(money + 10), stress)
        } else {
            (spec_clamp(money + 1), spec_clamp(stress + 5))
        },
        None => (money, stress),
    }
}

/// Money and stress after all of `hits`, in order.
pub open spec fn spec_work(money: int, stress: int, hits: Seq<BallTargetHit>, labels: Seq<BasketLabel>) -> (int, int)
    decreases hits.len(),
{
    if hits.len() == 0 {
        (money, stress)
    } else {
        let prev = spec_work(money, stress, hits.drop_last(), labels);
        spec_work_one(prev.0, prev.1, hits.last(), labels)
    }
}

/// The baskets that `hits` filled with their own label, in order.
pub open spec fn spec_filled(hits: Seq<BallTargetHit>, labels: Seq<BasketLabel>) -> Seq<BasketLabel>
    decreases hits.len(),
{
    if hits.len() == 0 {
        Seq::empty()
    } else {
        let prev = spec_filled(hits.drop_last(), labels);
        match spec_basket_for(labels, hits.last().target) {
            Some(b) => if b.label == hits.last().ball_type {
                prev.push(b)
            } else {
                prev
            },
            None => prev,
        }
    }
}

/// Scores this tick's landings against the baskets: a ball in the basket of
/// its own label pays 10 money; a ball in another basket pays 1 and adds 5
/// stress; each change is clamped to `[0, 100]`. Landings on other targets do
/// nothing. Returns the filled baskets, which are to be replaced by fresh
/// ones with new labels.
pub fn handle_work_balls(hits: &Vec<BallTargetHit>, labels: &Vec<BasketLabel>, user: &mut UserData) -> (r:
    Vec<BasketLabel>)
    requires
        old(user).wf(),
    ensures
        final(user).wf(),
        (final(user).money as int, final(user).stress as int) == spec_work(
            old(user).money as int,
            old(user).stress as int,
            hits@,
            labels@,
        ),
        *final(user) == (UserData { money: final(user).money, stress: final(user).stress, ..*old(user) }),
        r@ == spec_filled(hits@, labels@),
{
    let mut filled: Vec<BasketLabel> = Vec::new();
    let mut i: usize = 0;
    while i < hits.len()
        invariant
            0 <= i <= hits.len(),
            user.wf(),
            (user.money as int, user.stress as int) == spec_work(
                old(user).money as int,
                old(user).stress as int,
                hits@.subrange(0, i as int),
                labels@,
            ),
            *user == (UserData { money: user.money, stress: user.stress, ..*old(user) }),
            filled@ == spec_filled(hits@.subrange(0, i as int), labels@),
        decreases hits.len() - i,
    {
        proof {
            assert(hits@.subrange(0, i + 1).drop_last() == hits@.subrange(0, i as int));
        }
        let hit = hits[i];
        match find_basket(labels, hit.target) {
            Some(b) => {
                if b.label == hit.ball_type {
                    user.money = add_stat(user.money, 10);
                    filled.push(b);
                } else {
                    user.money = add_stat(user.money, 1);
                    user.stress = add_stat(user.stress, 5);
                }
            },
            None => {},
        }
        i = i + 1;
    }
    proof {
        assert(hits@.subrange(0, hits@.len() as int) == hits@);
    }
    filled
}

} // verus!

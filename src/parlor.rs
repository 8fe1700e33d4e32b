//! The night minigame: a pachinko parlor with bells to ring and a prize
//! window once all of them ring.

use vstd::prelude::*;

use crate::events::{BallCollisionEventType, BallTargetHit, EntityId};
use crate::food::DropType;
use crate::pegs::PegType;
use crate::player::UserData;
use crate::rng::random_ratio;
use crate::states::{DayState, GameState, PauseState, StateChange};
use crate::timer::{spec_tick, Timer, TimerMode};

verus! {

/// How many bells the parlor board holds.
pub const BELL_COUNT: usize = 6;

/// How long the prize window lasts, in milliseconds.
pub const PRIZE_TIME_MILLIS: u64 = 10_000;

/// The time between two prize launches, in milliseconds.
pub const PRIZE_LAUNCH_TIME_MILLIS: u64 = 500;

/// A bell peg and whether it has been rung.
#[derive(Debug, Clone, Copy, PartialEq, Eq, Structural)]
pub struct Bell {
    pub peg: EntityId,
    pub rung: bool,
}

/// The bell peg that a collision rings, if any.
pub open spec fn spec_bell_hit(e: BallCollisionEventType) -> Option<EntityId> {
    match e {
        BallCollisionEventType::Peg { peg_type: PegType::ItemPeg(DropType::Bell), peg, .. } => Some(
            peg,
        ),
        _ => None,
    }
}

/// How many of `events` ring a bell.
pub open spec fn spec_bell_hits(events: Seq<BallCollisionEventType>) -> nat
    decreases events.len(),
{
    if events.len() == 0 {
        0
    } else {
        spec_bell_hits(events.drop_last()) + if spec_bell_hit(events.last()) is Some {
            1nat
        } else {
            0nat
        }
    }
}

/// Some collision among `events` rings the bell on peg `peg`.
pub open spec fn rings(events: Seq<BallCollisionEventType>, peg: EntityId) -> bool {
    exists|i: int| 0 <= i < events.len() && spec_bell_hit(#[trigger] events[i]) == Some(peg)
}

/// The smaller of two integers.
pub open spec fn spec_min(a: int, b: int) -> int {
    if a < b {
        a
    } else {
        b
    }
}

/// Rings the bells that this tick's collisions touched, and pays 2 money for
/// each collision with a bell, up to 100.
pub fn ring_bells(events: &Vec<BallCollisionEventType>, bells: &mut Vec<Bell>, user: &mut UserData)
    requires
        old(user).wf(),
    ensures
        final(user).wf(),
        final(user).money == spec_min(old(user).money + 2 * spec_bell_hits(events@), 100),
        *final(user) == (UserData { money: final(user).money, ..*old(user) }),
        final(bells)@.len() == old(bells)@.len(),
        forall|j: int|
            0 <= j < old(bells)@.len() ==> (#[trigger] final(bells)@[j]).peg == old(bells)@[j].peg
                && final(bells)@[j].rung == (old(bells)@[j].rung || rings(events@, old(bells)@[j].peg)),
{
    let ghost start = bells@;
    let mut i: usize = 0;
    while i < events.len()
        invariant
            0 <= i <= events.len(),
            user.wf(),
            user.money == spec_min(old(user).money + 2 * spec_bell_hits(events@.subrange(0, i as int)), 100),
            *user == (UserData { money: user.money, ..*old(user) }),
            bells@.len() == start.len(),
            forall|j: int|
                0 <= j < start.len() ==> (#[trigger] bells@[j]).peg == start[j].peg && bells@[j].rung
                    == (start[j].rung || rings(events@.subrange(0, i as int), start[j].peg)),
        decreases events.len() - i,
    {
        let ghost prefix = events@.subrange(0, i as int);
        let ghost next = events@.subrange(0, i + 1);
        proof {
            assert(next.drop_last() == prefix);
            assert forall|p: EntityId|
                rings(next, p) <==> (rings(prefix, p) || spec_bell_hit(events@[i as int]) == Some(
                    p,
                )) by {
                if rings(prefix, p) {
                    let w = choose|w: int|
                        0 <= w < prefix.len() && spec_bell_hit(#[trigger] prefix[w]) == Some(p);
                    assert(next[w] == prefix[w]);
                }
                if spec_bell_hit(events@[i as int]) == Some(p) {
                    assert(next[i as int] == events@[i as int]);
                }
                if rings(next, p) && spec_bell_hit(events@[i as int]) != Some(p) {
                    let w = choose|w: int|
                        0 <= w < next.len() && spec_bell_hit(#[trigger] next[w]) == Some(p);
                    assert(prefix[w] == next[w]);
                }
            }
        }
        match events[i] {
            BallCollisionEventType::Peg { peg_type: PegType::ItemPeg(DropType::Bell), peg, .. } => {
                let mut k: usize = 0;
                while k < bells.len()
                    invariant
                        0 <= k <= bells@.len(),
                        bells@.len() == start.len(),
                        forall|p: EntityId|
                            rings(next, p) <==> (rings(prefix, p) || p == peg),
                        forall|j: int|
                            0 <= j < start.len() ==> (#[trigger] bells@[j]).peg == start[j].peg,
                        forall|j: int|
                            0 <= j < k ==> (#[trigger] bells@[j]).rung == (start[j].rung || rings(
                                next,
                                start[j].peg,
                            )),
                        forall|j: int|
                            k <= j < start.len() ==> (#[trigger] bells@[j]).rung == (start[j].rung
                                || rings(prefix, start[j].peg)),
                    decreases bells.len() - k,
                {
                    let b = bells[k];
                    if b.peg == peg {
                        bells.set(k, Bell { peg: b.peg, rung: true });
                    }
                    k = k + 1;
                }
                user.money = if user.money + 2 > 100 {
                    100
                } else {
                    user.money + 2
                };
            },
            _ => {},
        }
        i = i + 1;
    }
    proof {
        assert(events@.subrange(0, events@.len() as int) == events@);
    }
}

/// Pays 1 money, up to 100, for each ball that lands in a hole.
pub fn handle_parlor_balls(hits: &Vec<BallTargetHit>, user: &mut UserData)
    requires
        old(user).wf(),
    ensures
        final(user).wf(),
        final(user).money == spec_min(old(user).money + hits@.len(), 100),
        *final(user) == (UserData { money: final(user).money, ..*old(user) }),
{
    let mut i: usize = 0;
    while i < hits.len()
        invariant
            0 <= i <= hits.len(),
            user.wf(),
            user.money == spec_min(old(user).money + i, 100),
            *user == (UserData { money: user.money, ..*old(user) }),
        decreases hits.len() - i,
    {
        user.money = if user.money + 1 > 100 {
            100
        } else {
            user.money + 1
        };
        i = i + 1;
    }
}

/// How many of `bells` have been rung.
pub open spec fn spec_count_rung(bells: Seq<Bell>) -> nat
    decreases bells.len(),
{
    if bells.len() == 0 {
        0
    } else {
        spec_count_rung(bells.drop_last()) + if bells.last().rung {
            1nat
        } else {
            0nat
        }
    }
}

/// How many bells have been rung.
pub fn count_rung_bells(bells: &Vec<Bell>) -> (r: usize)
    ensures
        r == spec_count_rung(bells@),
{
    let mut n: usize = 0;
    let mut i: usize = 0;
    while i < bells.len()
        invariant
            0 <= i <= bells.len(),
            n == spec_count_rung(bells@.subrange(0, i as int)),
            n <= i,
        decreases bells.len() - i,
    {
        proof {
            assert(bells@.subrange(0, i + 1).drop_last() == bells@.subrange(0, i as int));
        }
        if bells[i].rung {
            n = n + 1;
        }
        i = i + 1;
    }
    proof {
        assert(bells@.subrange(0, bells@.len() as int) == bells@);
    }
    n
}

/// The prize window and the launch cadence within it.
#[derive(Debug, Clone, Copy, PartialEq, Eq, Structural)]
pub struct PrizeTimers {
    pub prize: Timer,
    pub launch: Timer,
}

impl PrizeTimers {
    /// Both timers are well formed.
    pub open spec fn wf(&self) -> bool {
        self.prize.wf() && self.launch.wf()
    }

    /// A ten second prize window with a launch every half second.
    pub fn new() -> (r: PrizeTimers)
        ensures
            r.wf(),
            r.prize == Timer::from_millis_spec(PRIZE_TIME_MILLIS, TimerMode::Once),
            r.launch == Timer::from_millis_spec(PRIZE_LAUNCH_TIME_MILLIS, TimerMode::Repeating),
    {
        PrizeTimers {
            prize: Timer::from_millis(PRIZE_TIME_MILLIS, TimerMode::Once),
            launch: Timer::from_millis(PRIZE_LAUNCH_TIME_MILLIS, TimerMode::Repeating),
        }
    }
}

/// The prize a draw stands for: a diamond on a high draw, money otherwise.
pub open spec fn spec_prize_for(high: bool) -> DropType {
    if high {
        DropType::Diamond
    } else {
        DropType::Money
    }
}

/// The prize a draw stands for.
pub fn prize_for_draw(high: bool) -> (r: DropType)
    ensures
        r == spec_prize_for(high),
{
    if high {
        DropType::Diamond
    } else {
        DropType::Money
    }
}

/// Draws whether the next prize is of the high tier: true seven times in ten.
pub fn draw_prize() -> (r: bool) {
    random_ratio(7, 10)
}

/// What one tick of the prize window asks for: a prize ball to launch, and
/// the state change that ends the night.
#[derive(Debug, Clone, Copy, PartialEq, Eq, Structural)]
pub struct PrizeOutcome {
    pub prize: Option<DropType>,
    pub change: Option<StateChange>,
}

/// The state change that closes the prize window: the outro, at dawn, with
/// the board paused.
pub open spec fn spec_prize_end() -> StateChange {
    StateChange {
        game: Some(GameState::Outro),
        day: Some(DayState::Dawn),
        pause: Some(PauseState::Paused),
    }
}

/// One tick of the prize window. Nothing happens until all six bells ring.
/// Then both timers advance by `delta` nanoseconds, and each time the launch
/// timer comes round a prize is launched, a diamond if `high_draw` holds and
/// money otherwise; if by then the prize window has run out, every bell is
/// silenced, the window starts over, and the night ends in the outro, at
/// dawn, paused.
pub fn spawn_prize(timers: &mut PrizeTimers, bells: &mut Vec<Bell>, delta: u64, high_draw: bool) -> (r:
    PrizeOutcome)
    requires
        old(timers).wf(),
    ensures
        final(timers).wf(),
        ({
            let p = spec_tick(old(timers).prize, delta);
            let l = spec_tick(old(timers).launch, delta);
            if spec_count_rung(old(bells)@) != BELL_COUNT {
                &&& r == (PrizeOutcome { prize: None, change: None })
                &&& *final(timers) == *old(timers)
                &&& final(bells)@ == old(bells)@
            } else if l.times_finished_this_tick == 0 {
                &&& r == (PrizeOutcome { prize: None, change: None })
                &&& *final(timers) == (PrizeTimers { prize: p, launch: l })
                &&& final(bells)@ == old(bells)@
            } else if !p.finished {
                &&& r == (PrizeOutcome { prize: Some(spec_prize_for(high_draw)), change: None })
                &&& *final(timers) == (PrizeTimers { prize: p, launch: l })
                &&& final(bells)@ == old(bells)@
            } else {
                &&& r == (PrizeOutcome {
                    prize: Some(spec_prize_for(high_draw)),
                    change: Some(spec_prize_end()),
                })
                &&& *final(timers) == (PrizeTimers {
                    prize: Timer { elapsed: 0, finished: false, times_finished_this_tick: 0, ..p },
                    launch: l,
                })
                &&& final(bells)@.len() == old(bells)@.len()
                &&& forall|j: int|
                    0 <= j < old(bells)@.len() ==> #[trigger] final(bells)@[j] == (Bell {
                        peg: old(bells)@[j].peg,
                        rung: false,
                    })
            }
        }),
{
    if count_rung_bells(bells) != BELL_COUNT {
        return PrizeOutcome { prize: None, change: None };
    }
    timers.prize.tick(delta);
    timers.launch.tick(delta);
    if !timers.launch.just_finished() {
        return PrizeOutcome { prize: None, change: None };
    }
    let prize = prize_for_draw(high_draw);
    if !timers.prize.finished() {
        return PrizeOutcome { prize: Some(prize), change: None };
    }
    let ghost start = bells@;
    let mut k: usize = 0;
    while k < bells.len()
        invariant
            0 <= k <= bells@.len(),
            bells@.len() == start.len(),
            forall|j: int| 0 <= j < k ==> #[trigger] bells@[j] == (Bell { peg: start[j].peg, rung: false }),
            forall|j: int| k <= j < start.len() ==> #[trigger] bells@[j] == start[j],
        decreases bells.len() - k,
    {
        let peg = bells[k].peg;
        bells.set(k, Bell { peg, rung: false });
        k = k + 1;
    }
    timers.prize.reset();
    PrizeOutcome {
        prize: Some(prize),
        change: Some(StateChange {
            game: Some(GameState::Outro),
            day: Some(DayState::Dawn),
            pause: Some(PauseState::Paused),
        }),
    }
}

/// Whether the drug pegs move: once royal favour is above 50.
pub fn drug_pegs_move(user: &UserData) -> (r: bool)
    ensures
        r == (user.royal > 50),
{
    user.royal > 50
}

} // verus!

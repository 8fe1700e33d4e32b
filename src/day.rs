//! The day clock: when a phase ends, what the player record becomes, and
//! what is saved.

use vstd::prelude::*;

use crate::player::{spec_saves, SaveData, UserData};
use crate::states::{next_day_state, spec_next_day, DayState, PauseState};
use crate::timer::{spec_tick, Timer, TimerMode, NANOS_PER_MILLI};

verus! {

/// How long each phase of the day lasts, in milliseconds.
pub const DAY_LENGTH_MILLIS: u64 = 75_000;

/// How long the player may stay out of money, in milliseconds.
pub const OUT_OF_MONEY_MILLIS: u64 = 5_000;

/// The one-shot grace timer that runs while the player is out of money.
pub fn initialise_money_timer() -> (r: Timer)
    ensures
        r.wf(),
        r == Timer::from_millis_spec(OUT_OF_MONEY_MILLIS, TimerMode::Once),
{
    Timer::from_millis(OUT_OF_MONEY_MILLIS, TimerMode::Once)
}

/// The day timer as it stands when a phase begins.
pub open spec fn spec_day_timer() -> Timer {
    Timer {
        duration: (DAY_LENGTH_MILLIS * NANOS_PER_MILLI) as u64,
        elapsed: 0,
        mode: TimerMode::Once,
        finished: false,
        times_finished_this_tick: 0,
    }
}

/// A fresh one-shot timer for the length of a phase.
pub fn initialise_clock() -> (r: Timer)
    ensures
        r.wf(),
        r == spec_day_timer(),
{
    Timer::from_millis(DAY_LENGTH_MILLIS, TimerMode::Once)
}

/// Royal favour after a night: down 50 above 50, else down 10 above 20.
pub open spec fn spec_royal_decay(royal: i64) -> i64 {
    if royal > 50 {
        (royal - 50) as i64
    } else if royal > 20 {
        (royal - 10) as i64
    } else {
        royal
    }
}

/// A day counter after one more day, held at its largest value.
pub open spec fn spec_next_count(day: u64) -> u64 {
    if day < u64::MAX {
        (day + 1) as u64
    } else {
        day
    }
}

/// The player record on entering phase `next`: a new morning counts one more
/// day and lets royal favour decay; every phase starts with its level not yet
/// begun.
pub open spec fn spec_enter_phase(u: UserData, next: DayState) -> UserData {
    UserData {
        day: if next == DayState::Morning {
            spec_next_count(u.day)
        } else {
            u.day
        },
        royal: if next == DayState::Morning {
            spec_royal_decay(u.royal)
        } else {
            u.royal
        },
        time: next,
        lvl_init: false,
        ..u
    }
}

/// What a phase change asks for: the next phase, a paused board, and the
/// snapshot to store.
#[derive(Debug, Clone)]
pub struct DayAdvance {
    pub next_day: DayState,
    pub next_pause: PauseState,
    pub save: SaveData,
}

/// Updates the player record on entering phase `next`.
pub fn enter_phase(user: &mut UserData, next: DayState)
    requires
        old(user).wf(),
    ensures
        final(user).wf(),
        *final(user) == spec_enter_phase(*old(user), next),
{
    if next == DayState::Morning {
        if user.day < u64::MAX {
            user.day = user.day + 1;
        }
        if user.royal > 50 {
            user.royal = user.royal - 50;
        } else if user.royal > 20 {
            user.royal = user.royal - 10;
        }
    }
    user.time = next;
    user.lvl_init = false;
}

/// One tick of the day clock. The day timer advances by `delta` nanoseconds;
/// once it has run out, and unless a prize launch is under way (its timer has
/// started), the phase ends: the player record enters the next phase, the day
/// timer starts over, and the result asks for that phase, a paused board and
/// the snapshot of the updated record.
pub fn advance_time(
    current: DayState,
    day_timer: &mut Timer,
    delta: u64,
    prize_launch: &Timer,
    user: &mut UserData,
) -> (r: Option<DayAdvance>)
    requires
        old(day_timer).wf(),
        old(user).wf(),
    ensures
        final(day_timer).wf(),
        final(user).wf(),
        ({
            let ticked = spec_tick(*old(day_timer), delta);
            let next = spec_next_day(current);
            if prize_launch.elapsed == 0 && ticked.finished {
                &&& r.is_some()
                &&& r.unwrap().next_day == next
                &&& r.unwrap().next_pause == PauseState::Paused
                &&& spec_saves(r.unwrap().save, *final(user))
                &&& *final(user) == spec_enter_phase(*old(user), next)
                &&& *final(day_timer) == spec_day_timer()
            } else {
                &&& r.is_none()
                &&& *final(user) == *old(user)
                &&& *final(day_timer) == ticked
            }
        }),
{
    day_timer.tick(delta);
    if !prize_launch.is_started() && day_timer.finished() {
        let next = next_day_state(current);
        enter_phase(user, next);
        *day_timer = initialise_clock();
        let save = user.snapshot();
        Some(DayAdvance { next_day: next, next_pause: PauseState::Paused, save })
    } else {
        None
    }
}

/// Starting in the morning, four phase ends in a row pass through evening,
/// night, morning and evening, and only the move into the morning counts a
/// day (the counter stays put once at its largest value).
pub proof fn lemma_day_cycle(u: UserData)
    requires
        u.wf(),
        u.time == DayState::Morning,
    ensures
        ({
            let d1 = spec_next_day(u.time);
            let d2 = spec_next_day(d1);
            let d3 = spec_next_day(d2);
            let d4 = spec_next_day(d3);
            let u1 = spec_enter_phase(u, d1);
            let u2 = spec_enter_phase(u1, d2);
            let u3 = spec_enter_phase(u2, d3);
            let u4 = spec_enter_phase(u3, d4);
            &&& d1 == DayState::Evening
            &&& d2 == DayState::Night
            &&& d3 == DayState::Morning
            &&& d4 == DayState::Evening
            &&& u1.day == u.day
            &&& u2.day == u.day
            &&& u3.day == spec_next_count(u.day)
            &&& u4.day == u3.day
            &&& u.day < u64::MAX ==> u3.day == u.day + 1
            &&& u4.time == DayState::Evening
        }),
{
}

} // verus!

//! One tick of minigame reactions, gated by the three state machines.

use vstd::prelude::*;

use crate::events::{BallCollisionEventType, BallTargetHit, EntityId};
use crate::feeding::{eat_food, handle_mouth_soup, increase_addiction, spec_drug_hits, spec_eat, spec_sat_add, spec_soup_stress, consumed_in, strictly_sorted};
use crate::parlor::{handle_parlor_balls, ring_bells, rings, spec_bell_hits, spec_min, Bell};
use crate::player::UserData;
use crate::states::{pachinko_systems_run, spec_pachinko_runs, DayState, GameState, PauseState};
use crate::work::{handle_work_balls, spec_filled, spec_work, BasketLabel};

verus! {

/// What this tick's reactions ask the board to do.
#[derive(Debug, Clone)]
pub struct Reactions {
    /// Item pegs eaten in the evening, each once, in increasing order.
    pub eaten: Vec<EntityId>,
    /// Baskets filled with their own label in the morning, to be replaced.
    pub filled: Vec<BasketLabel>,
}

/// Hands this tick's collisions and landings to the minigame of the current
/// phase, and only while play runs (the game screen, unpaused, not at dawn):
/// in the morning the baskets score the landings; in the evening the touched
/// items are eaten, drugs are counted and the soup relieves stress; at night
/// the bells ring and the holes pay.
pub fn react(
    game: GameState,
    pause: PauseState,
    day: DayState,
    collisions: &Vec<BallCollisionEventType>,
    hits: &Vec<BallTargetHit>,
    user: &mut UserData,
    bells: &mut Vec<Bell>,
    labels: &Vec<BasketLabel>,
    soups: &Vec<EntityId>,
) -> (r: Reactions)
    requires
        old(user).wf(),
    ensures
        final(user).wf(),
        !spec_pachinko_runs(game, pause, day) ==> {
            &&& *final(user) == *old(user)
            &&& final(bells)@ == old(bells)@
            &&& r.eaten@.len() == 0
            &&& r.filled@.len() == 0
        },
        spec_pachinko_runs(game, pause, day) && day == DayState::Morning ==> {
            &&& (final(user).money as int, final(user).stress as int) == spec_work(
                old(user).money as int,
                old(user).stress as int,
                hits@,
                labels@,
            )
            &&& *final(user) == (UserData { money: final(user).money, stress: final(user).stress, ..*old(user) })
            &&& r.filled@ == spec_filled(hits@, labels@)
            &&& r.eaten@.len() == 0
            &&& final(bells)@ == old(bells)@
        },
        spec_pachinko_runs(game, pause, day) && day == DayState::Evening ==> {
            let eaten = spec_eat(old(user).stress as int, old(user).royal as int, collisions@);
            &&& final(user).royal == eaten.1
            &&& final(user).stress == spec_soup_stress(eaten.0, hits@, soups@)
            &&& final(user).drugs_taken == spec_sat_add(old(user).drugs_taken, spec_drug_hits(collisions@))
            &&& *final(user) == (UserData {
                stress: final(user).stress,
                royal: final(user).royal,
                drugs_taken: final(user).drugs_taken,
                ..*old(user)
            })
            &&& strictly_sorted(r.eaten@)
            &&& forall|id: EntityId| r.eaten@.contains(id) <==> consumed_in(collisions@, collisions@.len() as int, id)
            &&& r.filled@.len() == 0
            &&& final(bells)@ == old(bells)@
        },
        spec_pachinko_runs(game, pause, day) && day == DayState::Night ==> {
            &&& final(user).money == spec_min(
                spec_min(old(user).money + 2 * spec_bell_hits(collisions@), 100) + hits@.len(),
                100,
            )
            &&& *final(user) == (UserData { money: final(user).money, ..*old(user) })
            &&& final(bells)@.len() == old(bells)@.len()
            &&& forall|j: int|
                0 <= j < old(bells)@.len() ==> (#[trigger] final(bells)@[j]).peg == old(bells)@[j].peg
                    && final(bells)@[j].rung == (old(bells)@[j].rung || rings(collisions@, old(bells)@[j].peg))
            &&& r.eaten@.len() == 0
            &&& r.filled@.len() == 0
        },
{
    let mut out = Reactions { eaten: Vec::new(), filled: Vec::new() };
    if !pachinko_systems_run(game, pause, day) {
        return out;
    }
    match day {
        DayState::Morning => {
            out.filled = handle_work_balls(hits, labels, user);
        },
        DayState::Evening => {
            out.eaten = eat_food(collisions, user);
            increase_addiction(collisions, user);
            handle_mouth_soup(hits, soups, user);
        },
        DayState::Night => {
            ring_bells(collisions, bells, user);
            handle_parlor_balls(hits, user);
        },
        DayState::Dawn => {},
    }
    out
}

} // verus!

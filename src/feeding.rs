//! The evening minigame: a mouth-ball eats the item pegs it touches and is
//! fed into a moving soup bowl.

use vstd::prelude::*;

use crate::events::{BallCollisionEventType, BallTargetHit, EntityId};
use crate::food::{spec_category, spec_edible, DropCategory, DropType};
use crate::pegs::PegType;
use crate::parlor::drug_pegs_move;
use crate::player::UserData;
use crate::states::DayState;
use crate::stats::{add_stat, spec_clamp};

verus! {

/// Drugs taken from which the addiction pegs start to move.
pub const ADDICTION_THRESHOLD: u64 = 1;

/// Drugs taken from which the hardcore addiction pegs start to move.
pub const HARDCORE_ADDICTION_THRESHOLD: u64 = 30;

/// The item on the peg that a collision touched, if it carries one.
pub open spec fn spec_item_hit(e: BallCollisionEventType) -> Option<DropType> {
    match e {
        BallCollisionEventType::Peg { peg_type: PegType::ItemPeg(d), .. } => Some(d),
        _ => None,
    }
}

/// The peg that a collision consumes: an item peg whose item is a drug or
/// edible.
pub open spec fn spec_consumed(e: BallCollisionEventType) -> Option<EntityId> {
    match e {
        BallCollisionEventType::Peg { peg_type: PegType::ItemPeg(d), peg, .. } => {
            if spec_category(d) == DropCategory::Drug || spec_edible(d) {
                Some(peg)
            } else {
                None
            }
        },
        _ => None,
    }
}

/// Stress and royal favour after eating the item of one collision: a drug
/// adds 5 to both, another edible item takes 1 off stress, an inedible one
/// adds 5 to stress.
pub open spec fn spec_eat_one(stress: int, royal: int, e: BallCollisionEventType) -> (int, int) {
    match spec_item_hit(e) {
        Some(d) => {
            if spec_category(d) == DropCategory::Drug {
                (spec_clamp(stress + 5), spec_clamp(royal + 5))
            } else if spec_edible(d) {
                (spec_clamp(stress - 1), royal)
            } else {
                (spec_clamp(stress + 5), royal)
            }
        },
        None => (stress, royal),
    }
}

/// Stress and royal favour after eating the items of `events` in order.
pub open spec fn spec_eat(stress: int, royal: int, events: Seq<BallCollisionEventType>) -> (int, int)
    decreases events.len(),
{
    if events.len() == 0 {
        (stress, royal)
    } else {
        let prev = spec_eat(stress, royal, events.drop_last());
        spec_eat_one(prev.0, prev.1, events.last())
    }
}

/// A sequence of ids in strictly increasing order, hence without repeats.
pub open spec fn strictly_sorted(s: Seq<EntityId>) -> bool {
    forall|i: int, j: int| 0 <= i < j < s.len() ==> s[i] < s[j]
}

/// Some collision among the first `n` of `events` consumes peg `id`.
pub open spec fn consumed_in(events: Seq<BallCollisionEventType>, n: int, id: EntityId) -> bool {
    exists|i: int| 0 <= i < n && spec_consumed(#[trigger] events[i]) == Some(id)
}

/// Inserts `id` into the strictly sorted `ids`, unless it is already there.
fn insert_sorted(ids: &mut Vec<EntityId>, id: EntityId)
    requires
        strictly_sorted(old(ids)@),
    ensures
        strictly_sorted(final(ids)@),
        forall|x: EntityId| final(ids)@.contains(x) <==> (old(ids)@.contains(x) || x == id),
{
    let ghost before = ids@;
    let mut i: usize = 0;
    while i < ids.len() && ids[i] < id
        invariant
            0 <= i <= ids.len(),
            ids@ == before,
            strictly_sorted(ids@),
            forall|k: int| 0 <= k < i ==> ids@[k] < id,
        decreases ids.len() - i,
    {
        i = i + 1;
    }
    if i < ids.len() && ids[i] == id {
        return;
    }
    ids.insert(i, id);
    assert(ids@ == before.insert(i as int, id));
    assert forall|x: EntityId| ids@.contains(x) <==> (before.contains(x) || x == id) by {
        if x == id {
            assert(ids@[i as int] == id);
        }
        if before.contains(x) {
            let k = choose|k: int| 0 <= k < before.len() && before[k] == x;
            if k < i {
                assert(ids@[k] == x);
            } else {
                assert(ids@[k + 1] == x);
            }
        }
        if ids@.contains(x) {
            let k = choose|k: int| 0 <= k < ids@.len() && ids@[k] == x;
            if k < i {
                assert(before[k] == x);
            } else if k > i {
                assert(before[k - 1] == x);
            }
        }
    }
}

/// Eats the items of this tick's collisions, in order: drugs raise stress and
/// royal favour by 5, other edible items lower stress by 1, inedible ones
/// raise it by 5, each change clamped to `[0, 100]`. Returns the pegs to
/// remove (the drugs and edible items that were touched), each once and in
/// increasing order, so that a peg hit twice in one tick is removed once.
pub fn eat_food(events: &Vec<BallCollisionEventType>, user: &mut UserData) -> (r: Vec<EntityId>)
    requires
        old(user).wf(),
    ensures
        final(user).wf(),
        (final(user).stress as int, final(user).royal as int) == spec_eat(
            old(user).stress as int,
            old(user).royal as int,
            events@,
        ),
        *final(user) == (UserData { stress: final(user).stress, royal: final(user).royal, ..*old(user) }),
        strictly_sorted(r@),
        forall|id: EntityId| r@.contains(id) <==> consumed_in(events@, events@.len() as int, id),
{
    let mut pegs: Vec<EntityId> = Vec::new();
    let mut i: usize = 0;
    while i < events.len()
        invariant
            0 <= i <= events.len(),
            user.wf(),
            (user.stress as int, user.royal as int) == spec_eat(
                old(user).stress as int,
                old(user).royal as int,
                events@.subrange(0, i as int),
            ),
            *user == (UserData { stress: user.stress, royal: user.royal, ..*old(user) }),
            strictly_sorted(pegs@),
            forall|id: EntityId| pegs@.contains(id) <==> consumed_in(events@, i as int, id),
        decreases events.len() - i,
    {
        let e = events[i];
        proof {
            assert(events@.subrange(0, i + 1).drop_last() == events@.subrange(0, i as int));
        }
        match e {
            BallCollisionEventType::Peg { peg_type: PegType::ItemPeg(d), peg, .. } => {
                if d.get_type() == DropCategory::Drug {
                    user.royal = add_stat(user.royal, 5);
                    user.stress = add_stat(user.stress, 5);
                    insert_sorted(&mut pegs, peg);
                } else if d.is_edible() {
                    user.stress = add_stat(user.stress, -1);
                    insert_sorted(&mut pegs, peg);
                } else {
                    user.stress = add_stat(user.stress, 5);
                }
            },
            _ => {},
        }
        assert forall|id: EntityId| pegs@.contains(id) <==> consumed_in(events@, i + 1, id) by {
            if consumed_in(events@, i + 1, id) && spec_consumed(events@[i as int]) != Some(id) {
                let k = choose|k: int| 0 <= k < i + 1 && spec_consumed(#[trigger] events@[k]) == Some(id);
                assert(k < i);
            }
        }
        i = i + 1;
    }
    proof {
        assert(events@.subrange(0, events@.len() as int) == events@);
    }
    pegs
}

/// Collisions among `events` with a peg that carries a drug.
pub open spec fn spec_drug_hits(events: Seq<BallCollisionEventType>) -> nat
    decreases events.len(),
{
    if events.len() == 0 {
        0
    } else {
        spec_drug_hits(events.drop_last()) + match spec_item_hit(events.last()) {
            Some(d) => if spec_category(d) == DropCategory::Drug {
                1nat
            } else {
                0nat
            },
            None => 0nat,
        }
    }
}

/// `n` plus `k`, held at the largest `u64`.
pub open spec fn spec_sat_add(n: u64, k: nat) -> u64 {
    if n + k > u64::MAX {
        u64::MAX
    } else {
        (n + k) as u64
    }
}

/// Counts one drug taken for each collision with a peg that carries a drug
/// (mushroom, pill, shot or weed); the counter stops at its largest value.
pub fn increase_addiction(events: &Vec<BallCollisionEventType>, user: &mut UserData)
    ensures
        *final(user) == (UserData {
            drugs_taken: spec_sat_add(old(user).drugs_taken, spec_drug_hits(events@)),
            ..*old(user)
        }),
{
    let mut i: usize = 0;
    while i < events.len()
        invariant
            0 <= i <= events.len(),
            *user == (UserData {
                drugs_taken: spec_sat_add(old(user).drugs_taken, spec_drug_hits(events@.subrange(0, i as int))),
                ..*old(user)
            }),
        decreases events.len() - i,
    {
        proof {
            assert(events@.subrange(0, i + 1).drop_last() == events@.subrange(0, i as int));
        }
        match events[i] {
            BallCollisionEventType::Peg { peg_type: PegType::ItemPeg(d), .. } => {
                if d == DropType::Pill || d == DropType::Mushroom || d == DropType::Shot || d
                    == DropType::Weed {
                    if user.drugs_taken < u64::MAX {
                        user.drugs_taken = user.drugs_taken + 1;
                    }
                }
            },
            _ => {},
        }
        i = i + 1;
    }
    proof {
        assert(events@.subrange(0, events@.len() as int) == events@);
    }
}

/// Stress after `hits`: each ball that lands in one of the `soups` takes 10
/// off, clamped at zero.
pub open spec fn spec_soup_stress(stress: int, hits: Seq<BallTargetHit>, soups: Seq<EntityId>) -> int
    decreases hits.len(),
{
    if hits.len() == 0 {
        stress
    } else {
        let prev = spec_soup_stress(stress, hits.drop_last(), soups);
        if soups.contains(hits.last().target) {
            spec_clamp(prev - 10)
        } else {
            prev
        }
    }
}

/// Whether `id` is one of `ids`.
fn contains_id(ids: &Vec<EntityId>, id: EntityId) -> (r: bool)
    ensures
        r == ids@.contains(id),
{
    let mut i: usize = 0;
    while i < ids.len()
        invariant
            0 <= i <= ids.len(),
            forall|k: int| 0 <= k < i ==> ids@[k] != id,
        decreases ids.len() - i,
    {
        if ids[i] == id {
            return true;
        }
        i = i + 1;
    }
    false
}

/// Each ball fed into a soup bowl (a target among `soups`) relieves 10 stress.
pub fn handle_mouth_soup(hits: &Vec<BallTargetHit>, soups: &Vec<EntityId>, user: &mut UserData)
    requires
        old(user).wf(),
    ensures
        final(user).wf(),
        final(user).stress as int == spec_soup_stress(old(user).stress as int, hits@, soups@),
        *final(user) == (UserData { stress: final(user).stress, ..*old(user) }),
{
    let mut i: usize = 0;
    while i < hits.len()
        invariant
            0 <= i <= hits.len(),
            user.wf(),
            user.stress as int == spec_soup_stress(
                old(user).stress as int,
                hits@.subrange(0, i as int),
                soups@,
            ),
            *user == (UserData { stress: user.stress, ..*old(user) }),
        decreases hits.len() - i,
    {
        proof {
            assert(hits@.subrange(0, i + 1).drop_last() == hits@.subrange(0, i as int));
        }
        if contains_id(soups, hits[i].target) {
            user.stress = add_stat(user.stress, -10);
        }
        i = i + 1;
    }
    proof {
        assert(hits@.subrange(0, hits@.len() as int) == hits@);
    }
}

/// Whether the addiction pegs move: from the first drug taken on.
pub fn addiction_pegs_move(user: &UserData) -> (r: bool)
    ensures
        r == (user.drugs_taken >= ADDICTION_THRESHOLD),
{
    user.drugs_taken >= ADDICTION_THRESHOLD
}

/// Whether the hardcore addiction pegs move: from the thirtieth drug on.
pub fn hardcore_addiction_pegs_move(user: &UserData) -> (r: bool)
    ensures
        r == (user.drugs_taken >= HARDCORE_ADDICTION_THRESHOLD),
{
    user.drugs_taken >= HARDCORE_ADDICTION_THRESHOLD
}

/// The groups of moving pegs, each set off by its own condition.
#[derive(Debug, Clone, Copy, PartialEq, Eq, Structural)]
pub enum SwingGroup {
    /// Pegs that always swing while their board is in play.
    Always,
    /// The weed pegs of the evening, from the first drug on.
    Addiction,
    /// The mushroom, shot and pill pegs of the evening, from the thirtieth drug on.
    HardcoreAddiction,
    /// The drug pegs, at night once royal favour is above 50.
    Drug,
}

/// Whether the pegs of `group` move this tick, in phase `day`, for the
/// player record `user`.
pub fn swing_moves(group: SwingGroup, user: &UserData, day: DayState) -> (r: bool)
    ensures
        r == match group {
            SwingGroup::Always => true,
            SwingGroup::Addiction => user.drugs_taken >= ADDICTION_THRESHOLD,
            SwingGroup::HardcoreAddiction => user.drugs_taken >= HARDCORE_ADDICTION_THRESHOLD,
            SwingGroup::Drug => day == DayState::Night && user.royal > 50,
        },
{
    match group {
        SwingGroup::Always => true,
        SwingGroup::Addiction => addiction_pegs_move(user),
        SwingGroup::HardcoreAddiction => hardcore_addiction_pegs_move(user),
        SwingGroup::Drug => day == DayState::Night && drug_pegs_move(user),
    }
}

} // verus!

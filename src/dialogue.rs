//! What the companion says, from the player's record and the day clock.

use vstd::prelude::*;

use crate::player::UserData;
use crate::states::DayState;
use crate::timer::Timer;

verus! {

/// The companion's line for a player record: it depends on the phase, and
/// within it on money in the morning, royal favour in the evening, and at
/// night on whether the day is odd, then on flirt or stress.
pub open spec fn spec_next_line(u: UserData) -> Seq<char> {
    match u.time {
        DayState::Dawn => "How did you even get here?"@,
        DayState::Morning => if u.money > 50 {
            "You know, sometimes I think you should be MY boss!"@
        } else {
            "Pack those baskets rookie! Make sure you don't mess up the orders or it'll be stressful for the customers... and you!"@
        },
        DayState::Evening => if u.royal > 50 {
            "Now you're starting to see things my way! hahaHAHAHAHAHA"@
        } else {
            "Hey, nice soup you got there. Care to share? I've got a few ingredients of my own I could add..."@
        },
        DayState::Night => if u.day % 2 == 1 {
            if u.flirt > 50 {
                "Hey, why don't we get out of this place? I know a nice coffee shop nearby!"@
            } else {
                "Ah, so you met gramps? He's got some crazy theories. You'll probably see him again if you come back tomorrow."@
            }
        } else {
            if u.stress > 50 {
                "Wow, you're looking pretty burnt out. Trust me, I know how it feels. Come on, let's take a break and go for a walk, it'll help us freshen up."@
            } else {
                "Ah, a new face! You looking for tips from the master? You wanna hit all the bells to trigger the jackpot, but you'd have to be HIGH to even believe it's possible."@
            }
        },
    }
}

/// The companion's line for the player record `u`.
pub fn next_line(u: &UserData) -> (r: String)
    ensures
        r@ == spec_next_line(*u),
{
    match u.time {
        DayState::Dawn => "How did you even get here?".to_owned(),
        DayState::Morning => if u.money > 50 {
            "You know, sometimes I think you should be MY boss!".to_owned()
        } else {
            "Pack those baskets rookie! Make sure you don't mess up the orders or it'll be stressful for the customers... and you!".to_owned()
        },
        DayState::Evening => if u.royal > 50 {
            "Now you're starting to see things my way! hahaHAHAHAHAHA".to_owned()
        } else {
            "Hey, nice soup you got there. Care to share? I've got a few ingredients of my own I could add...".to_owned()
        },
        DayState::Night => if u.day % 2 == 1 {
            if u.flirt > 50 {
                "Hey, why don't we get out of this place? I know a nice coffee shop nearby!".to_owned()
            } else {
                "Ah, so you met gramps? He's got some crazy theories. You'll probably see him again if you come back tomorrow.".to_owned()
            }
        } else {
            if u.stress > 50 {
                "Wow, you're looking pretty burnt out. Trust me, I know how it feels. Come on, let's take a break and go for a walk, it'll help us freshen up.".to_owned()
            } else {
                "Ah, a new face! You looking for tips from the master? You wanna hit all the bells to trigger the jackpot, but you'd have to be HIGH to even believe it's possible.".to_owned()
            }
        },
    }
}

/// The line shown while the day timer `day_timer` runs: the companion's line
/// for the first three quarters of the phase, then a reminder that it is
/// almost over.
pub fn update_dialogue(u: &UserData, day_timer: &Timer) -> (r: String)
    ensures
        day_timer.elapsed as int * 4 < day_timer.duration as int * 3 ==> r@ == spec_next_line(*u),
        !(day_timer.elapsed as int * 4 < day_timer.duration as int * 3) ==> r@ == "Uh oh, looks like it's almost time for you to go!"@,
{
    if day_timer.fraction_below(3, 4) {
        next_line(u)
    } else {
        "Uh oh, looks like it's almost time for you to go!".to_owned()
    }
}

} // verus!

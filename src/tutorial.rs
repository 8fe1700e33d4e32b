//! The pause popup: what it says, and what its confirm button does.

use vstd::prelude::*;

use crate::player::UserData;
use crate::states::{DayState, PauseState, StateChange};

verus! {

/// The heading of the popup for a phase.
pub open spec fn spec_phase_title(day: DayState) -> Seq<char> {
    match day {
        DayState::Dawn => "Error"@,
        DayState::Morning => "Work - Morning"@,
        DayState::Evening => "Dinner - Evening"@,
        DayState::Night => "Arcade - Night"@,
    }
}

/// The heading of the popup for a phase: the minigame and the time of day.
pub fn phase_title(day: DayState) -> (r: &'static str)
    ensures
        r@ == spec_phase_title(day),
{
    match day {
        DayState::Dawn => "Error",
        DayState::Morning => "Work - Morning",
        DayState::Evening => "Dinner - Evening",
        DayState::Night => "Arcade - Night",
    }
}

/// What the popup shows: a plain pause once the level has begun, otherwise
/// the phase's heading with the day number, to begin it.
#[derive(Debug, Clone, Copy, PartialEq, Eq)]
pub enum PopupText {
    Paused,
    Begin { title: &'static str, day: u64 },
}

/// The popup text for the player record `u`.
pub fn popup_text(u: &UserData) -> (r: PopupText)
    ensures
        u.lvl_init ==> r == PopupText::Paused,
        !u.lvl_init ==> (match r {
            PopupText::Begin { title, day } => title@ == spec_phase_title(u.time) && day == u.day,
            PopupText::Paused => false,
        }),
{
    if u.lvl_init {
        PopupText::Paused
    } else {
        PopupText::Begin { title: phase_title(u.time), day: u.day }
    }
}

/// The label of the popup's button: "Resume" once the level has begun,
/// "Begin" before.
pub fn popup_button_text(u: &UserData) -> (r: &'static str)
    ensures
        u.lvl_init ==> r@ == "Resume"@,
        !u.lvl_init ==> r@ == "Begin"@,
{
    if u.lvl_init {
        "Resume"
    } else {
        "Begin"
    }
}

/// A click on the popup's button: play resumes in the player's phase (moving
/// there if the board shows another), and the level counts as begun.
pub fn confirm_button_interaction(clicked: bool, current: DayState, user: &mut UserData) -> (r: StateChange)
    ensures
        !clicked ==> *final(user) == *old(user) && r == (StateChange { game: None, day: None, pause: None }),
        clicked ==> *final(user) == (UserData { lvl_init: true, ..*old(user) }) && r == (StateChange {
            game: None,
            day: if current != old(user).time {
                Some(old(user).time)
            } else {
                None
            },
            pause: Some(PauseState::Unpaused),
        }),
{
    if !clicked {
        return StateChange { game: None, day: None, pause: None };
    }
    let day = if current != user.time {
        Some(user.time)
    } else {
        None
    };
    user.lvl_init = true;
    StateChange { game: None, day, pause: Some(PauseState::Unpaused) }
}

} // verus!

//! The three independent state machines (game screen, day phase, pause) and
//! the rule that gates gameplay on their combination.

use vstd::prelude::*;

verus! {

/// Which screen the game is on.
#[derive(Debug, Clone, Copy, PartialEq, Eq, Structural, Hash)]
pub enum GameState {
    Boot,
    Menu,
    Intro,
    Game,
    Outro,
}

/// The phase of the day, each bound to a minigame: work in the morning,
/// feeding in the evening, the parlor at night. `Dawn` holds no board.
#[derive(Debug, Clone, Copy, PartialEq, Eq, Structural, Hash)]
pub enum DayState {
    Dawn,
    Morning,
    Evening,
    Night,
}

/// Whether play is paused; `Initial` until the first toggle after a reset.
#[derive(Debug, Clone, Copy, PartialEq, Eq, Structural, Hash)]
pub enum PauseState {
    Initial,
    Paused,
    Unpaused,
}

impl Default for GameState {
    fn default() -> (r: GameState)
        ensures
            r == GameState::Boot,
    {
        GameState::Boot
    }
}

impl Default for DayState {
    fn default() -> (r: DayState)
        ensures
            r == DayState::Dawn,
    {
        DayState::Dawn
    }
}

impl Default for PauseState {
    fn default() -> (r: PauseState)
        ensures
            r == PauseState::Initial,
    {
        PauseState::Initial
    }
}

/// Requested next values of the three state machines; `None` leaves one as it is.
#[derive(Debug, Clone, Copy, PartialEq, Eq, Structural)]
pub struct StateChange {
    pub game: Option<GameState>,
    pub day: Option<DayState>,
    pub pause: Option<PauseState>,
}

/// The phase that follows `d` when the day timer runs out; night wraps to morning.
pub open spec fn spec_next_day(d: DayState) -> DayState {
    match d {
        DayState::Dawn => DayState::Morning,
        DayState::Morning => DayState::Evening,
        DayState::Evening => DayState::Night,
        DayState::Night => DayState::Morning,
    }
}

/// The phase that follows `d` when the day timer runs out.
pub fn next_day_state(d: DayState) -> (r: DayState)
    ensures
        r == spec_next_day(d),
{
    match d {
        DayState::Dawn => DayState::Morning,
        DayState::Morning => DayState::Evening,
        DayState::Evening => DayState::Night,
        DayState::Night => DayState::Morning,
    }
}

/// Whether the systems that move balls, pegs and stats run: only in the game
/// screen, unpaused, and outside dawn.
pub open spec fn spec_pachinko_runs(game: GameState, pause: PauseState, day: DayState) -> bool {
    game == GameState::Game && pause == PauseState::Unpaused && day != DayState::Dawn
}

/// Whether the systems that move balls, pegs and stats run this tick.
pub fn pachinko_systems_run(game: GameState, pause: PauseState, day: DayState) -> (r: bool)
    ensures
        r == spec_pachinko_runs(game, pause, day),
{
    game == GameState::Game && pause == PauseState::Unpaused && day != DayState::Dawn
}

/// Whether the minigame bound to `phase` runs this tick: the game screen,
/// unpaused, in that phase.
pub fn phase_systems_run(phase: DayState, game: GameState, pause: PauseState, day: DayState) -> (r: bool)
    ensures
        r == (day == phase && game == GameState::Game && pause == PauseState::Unpaused),
        r && phase != DayState::Dawn ==> spec_pachinko_runs(game, pause, day),
{
    day == phase && game == GameState::Game && pause == PauseState::Unpaused
}

/// The pause state requested by the pause key: a press unpauses unless play
/// is already unpaused, in which case it pauses.
pub fn toggle_pause_state(pressed: bool, state: PauseState) -> (r: Option<PauseState>)
    ensures
        !pressed ==> r.is_none(),
        pressed && state != PauseState::Unpaused ==> r == Some(PauseState::Unpaused),
        pressed && state == PauseState::Unpaused ==> r == Some(PauseState::Paused),
{
    if pressed {
        if state != PauseState::Unpaused {
            Some(PauseState::Unpaused)
        } else {
            Some(PauseState::Paused)
        }
    } else {
        None
    }
}

/// The phase requested by the phase shortcut keys, checked in the order
/// morning, evening, night; a key for the current phase does nothing, and the
/// last key that applies wins.
pub fn set_day_state(morning: bool, evening: bool, night: bool, state: DayState) -> (r: Option<DayState>)
    ensures
        r == (if night && state != DayState::Night {
            Some(DayState::Night)
        } else if evening && state != DayState::Evening {
            Some(DayState::Evening)
        } else if morning && state != DayState::Morning {
            Some(DayState::Morning)
        } else {
            None
        }),
{
    let mut next: Option<DayState> = None;
    if morning && state != DayState::Morning {
        next = Some(DayState::Morning);
    }
    if evening && state != DayState::Evening {
        next = Some(DayState::Evening);
    }
    if night && state != DayState::Night {
        next = Some(DayState::Night);
    }
    next
}

/// Whether a shortcut to screen `target` applies: its key is down and the game
/// is on another screen.
pub open spec fn spec_screen_key_applies(key: bool, target: GameState, game: GameState) -> bool {
    key && game != target
}

/// The changes requested by the screen shortcut keys, checked in the order
/// menu, intro, game, outro. Each one that applies moves to its screen, resets
/// the day to dawn and, unless it already is, the pause state to `Initial`;
/// the last one that applies picks the screen.
pub fn set_game_state(
    menu: bool,
    intro: bool,
    play: bool,
    outro: bool,
    game: GameState,
    pause: PauseState,
) -> (r: StateChange)
    ensures
        ({
            let m = spec_screen_key_applies(menu, GameState::Menu, game);
            let i = spec_screen_key_applies(intro, GameState::Intro, game);
            let g = spec_screen_key_applies(play, GameState::Game, game);
            let o = spec_screen_key_applies(outro, GameState::Outro, game);
            let any = m || i || g || o;
            &&& r.game == (if o {
                Some(GameState::Outro)
            } else if g {
                Some(GameState::Game)
            } else if i {
                Some(GameState::Intro)
            } else if m {
                Some(GameState::Menu)
            } else {
                None
            })
            &&& r.day == (if any {
                Some(DayState::Dawn)
            } else {
                None
            })
            &&& r.pause == (if any && pause != PauseState::Initial {
                Some(PauseState::Initial)
            } else {
                None
            })
        }),
{
    let mut change = StateChange { game: None, day: None, pause: None };
    if menu && game != GameState::Menu {
        change.game = Some(GameState::Menu);
        change.day = Some(DayState::Dawn);
        if pause != PauseState::Initial {
            change.pause = Some(PauseState::Initial);
        }
    }
    if intro && game != GameState::Intro {
        change.game = Some(GameState::Intro);
        change.day = Some(DayState::Dawn);
        if pause != PauseState::Initial {
            change.pause = Some(PauseState::Initial);
        }
    }
    if play && game != GameState::Game {
        change.game = Some(GameState::Game);
        change.day = Some(DayState::Dawn);
        if pause != PauseState::Initial {
            change.pause = Some(PauseState::Initial);
        }
    }
    if outro && game != GameState::Outro {
        change.game = Some(GameState::Outro);
        change.day = Some(DayState::Dawn);
        if pause != PauseState::Initial {
            change.pause = Some(PauseState::Initial);
        }
    }
    change
}

} // verus!

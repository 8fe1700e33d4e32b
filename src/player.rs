//! The player's persistent record and its save snapshot.

use vstd::prelude::*;

use crate::states::{DayState, GameState, PauseState, StateChange};
use crate::stats::{clamp_stat, spec_clamp, stat_ok};

verus! {

/// The player's record that carries over between phases. Only the reactions
/// to collision events and the phase transitions change it.
#[derive(Debug, Clone)]
pub struct UserData {
    pub name: String,
    pub money: i64,
    pub stress: i64,
    pub flirt: i64,
    pub royal: i64,
    pub drugs_taken: u64,
    pub day: u64,
    pub time: DayState,
    pub lvl_init: bool,
}

/// The snapshot of a `UserData` that is written to storage.
#[derive(Debug, Clone)]
pub struct SaveData {
    pub name: String,
    pub money: i64,
    pub stress: i64,
    pub flirt: i64,
    pub royal: i64,
    pub drugs_taken: u64,
    pub day: u64,
    pub time: DayState,
    pub lvl_init: bool,
}

/// The save record `s` holds exactly the values of `u`.
pub open spec fn spec_saves(s: SaveData, u: UserData) -> bool {
    &&& s.name@ == u.name@
    &&& s.money == u.money
    &&& s.stress == u.stress
    &&& s.flirt == u.flirt
    &&& s.royal == u.royal
    &&& s.drugs_taken == u.drugs_taken
    &&& s.day == u.day
    &&& s.time == u.time
    &&& s.lvl_init == u.lvl_init
}

impl UserData {
    /// Every stat lies in `[0, 100]`.
    pub open spec fn wf(&self) -> bool {
        &&& stat_ok(self.money as int)
        &&& stat_ok(self.stress as int)
        &&& stat_ok(self.flirt as int)
        &&& stat_ok(self.royal as int)
    }

    /// The record a new game starts from: thirty money, half flirt, the
    /// night phase of day zero.
    pub fn new_game() -> (r: UserData)
        ensures
            r.wf(),
            r.name@ == "BevyEnjoyer123"@,
            r.money == 30,
            r.stress == 0,
            r.flirt == 50,
            r.royal == 0,
            r.drugs_taken == 0,
            r.day == 0,
            r.time == DayState::Night,
            !r.lvl_init,
    {
        UserData {
            name: "BevyEnjoyer123".to_owned(),
            money: 30,
            stress: 0,
            flirt: 50,
            royal: 0,
            drugs_taken: 0,
            day: 0,
            time: DayState::Night,
            lvl_init: false,
        }
    }

    /// The save record that holds this record's values.
    pub fn snapshot(&self) -> (r: SaveData)
        ensures
            spec_saves(r, *self),
    {
        SaveData {
            name: self.name.clone(),
            money: self.money,
            stress: self.stress,
            flirt: self.flirt,
            royal: self.royal,
            drugs_taken: self.drugs_taken,
            day: self.day,
            time: self.time,
            lvl_init: self.lvl_init,
        }
    }

    /// Resumes from a save record: its values are taken over, each stat
    /// clamped to `[0, 100]`, the level is marked not yet begun, and the game
    /// goes, paused, to the saved phase (staying in the current phase if the
    /// record was saved at dawn).
    pub fn load_save(&mut self, save: &SaveData) -> (r: StateChange)
        ensures
            final(self).wf(),
            final(self).name@ == save.name@,
            final(self).money == spec_clamp(save.money as int),
            final(self).stress == spec_clamp(save.stress as int),
            final(self).flirt == spec_clamp(save.flirt as int),
            final(self).royal == spec_clamp(save.royal as int),
            final(self).drugs_taken == save.drugs_taken,
            final(self).day == save.day,
            final(self).time == save.time,
            !final(self).lvl_init,
            r.game == Some(GameState::Game),
            r.pause == Some(PauseState::Paused),
            r.day == (if save.time == DayState::Dawn {
                None
            } else {
                Some(save.time)
            }),
    {
        self.name = save.name.clone();
        self.money = clamp_stat(save.money);
        self.stress = clamp_stat(save.stress);
        self.flirt = clamp_stat(save.flirt);
        self.royal = clamp_stat(save.royal);
        self.drugs_taken = save.drugs_taken;
        self.day = save.day;
        self.time = save.time;
        self.lvl_init = false;
        let day = match save.time {
            DayState::Dawn => None,
            other => Some(other),
        };
        StateChange { game: Some(GameState::Game), day, pause: Some(PauseState::Paused) }
    }
}

} // verus!

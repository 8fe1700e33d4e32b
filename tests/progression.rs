use pachinko::cutscene::{intro_cutscene, outro_cutscene, CutsceneStep, NextScreen, PlayingCutscene};
use pachinko::day::{advance_time, enter_phase, initialise_clock, DAY_LENGTH_MILLIS};
use pachinko::dialogue::{update_dialogue, next_line};
use pachinko::food::{
    random_drop_type, random_drug, random_droppable_except_mouth_ball_and_seven, random_inedible_except_special,
    random_non_drug_edible, standard_drop, DropCategory, DropType,
};
use pachinko::layout::{food_item_grid, shallow_triangle, shallow_triangles, wall_column};
use pachinko::player::{SaveData, UserData};
use pachinko::states::{
    next_day_state, pachinko_systems_run, phase_systems_run, set_day_state, set_game_state, toggle_pause_state,
    DayState, GameState, PauseState,
};
use pachinko::stats::{add_stat, clamp_stat};
use pachinko::targets::{target_center_x, target_details, target_radius};
use pachinko::timer::{Timer, TimerMode, NANOS_PER_MILLI};
use pachinko::tutorial::{confirm_button_interaction, popup_button_text, popup_text, PopupText};

const ALL_DROPS: [DropType; 33] = [
    DropType::Apple, DropType::Bagel, DropType::Ball, DropType::Bell, DropType::Bun, DropType::Cassette,
    DropType::Cauliflower, DropType::Cd, DropType::Cheese, DropType::Cherry, DropType::Crown, DropType::Diamond,
    DropType::Donut, DropType::Egg, DropType::FriedEgg, DropType::Garlic, DropType::Grapes, DropType::Headphones,
    DropType::Lemon, DropType::Lettuce, DropType::Money, DropType::Mouth, DropType::Mushroom, DropType::Onion,
    DropType::Orange, DropType::Pepper, DropType::Pill, DropType::Pumpkin, DropType::Ramen, DropType::Salt,
    DropType::Seven, DropType::Shot, DropType::Weed,
];

fn morning_user(day: u64, royal: i64) -> UserData {
    UserData {
        name: "tester".to_string(),
        money: 40,
        stress: 20,
        flirt: 50,
        royal,
        drugs_taken: 2,
        day,
        time: DayState::Morning,
        lvl_init: true,
    }
}

#[test]
fn every_drop_type_has_path_category_and_edibility() {
    for d in ALL_DROPS.iter() {
        let path = d.get_path();
        assert!(path.starts_with("droppables/") && path.ends_with(".png"));
        let _ = d.get_type();
        let _ = d.is_edible();
    }
    assert_eq!(DropType::Pill.get_type(), DropCategory::Drug);
    assert!(DropType::Pill.is_edible());
    assert_eq!(DropType::Bell.get_type(), DropCategory::Fruit);
    assert!(!DropType::Bell.is_edible());
    assert_eq!(DropType::Pepper.get_path(), "droppables/onion.png");
    assert_eq!(DropType::FriedEgg.get_path(), "droppables/fried_egg.png");
    assert_eq!(DropType::Pumpkin.get_type(), DropCategory::Veg);
}

#[test]
fn random_pickers_keep_to_their_sets() {
    for _ in 0..200 {
        assert_eq!(random_drug().get_type(), DropCategory::Drug);
        let e = random_non_drug_edible();
        assert!(e.is_edible() && e.get_type() != DropCategory::Drug);
        assert!(!random_inedible_except_special().is_edible());
        let d = random_droppable_except_mouth_ball_and_seven();
        assert!(d != DropType::Mouth && d != DropType::Ball && d != DropType::Seven);
        assert_ne!(random_drop_type().get_type(), DropCategory::Drug);
    }
    assert_eq!(standard_drop(0), DropType::Apple);
    assert_eq!(standard_drop(19), DropType::Salt);
    assert_eq!(standard_drop(20), DropType::Ball);
}

#[test]
fn stat_changes_are_clamped() {
    assert_eq!(add_stat(40, 5), 45);
    assert_eq!(add_stat(95, 10), 100);
    assert_eq!(add_stat(3, -10), 0);
    assert_eq!(add_stat(50, i64::MAX), 100);
    assert_eq!(add_stat(50, i64::MIN), 0);
    assert_eq!(add_stat(0, 0), 0);
    assert_eq!(clamp_stat(-7), 0);
    assert_eq!(clamp_stat(170), 100);
}

#[test]
fn four_day_timer_expiries_from_morning() {
    let mut u = morning_user(3, 0);
    let mut phase = DayState::Morning;
    let mut timer = initialise_clock();
    let launch = Timer::from_millis(500, TimerMode::Repeating);
    let mut seen = vec![phase];
    let mut days = vec![u.day];
    for _ in 0..4 {
        let mut advanced = None;
        while advanced.is_none() {
            advanced = advance_time(phase, &mut timer, 5_000 * NANOS_PER_MILLI, &launch, &mut u);
        }
        let adv = advanced.unwrap();
        assert_eq!(adv.next_pause, PauseState::Paused);
        assert_eq!(adv.save.day, u.day);
        assert_eq!(adv.save.time, adv.next_day);
        assert!(!adv.save.lvl_init);
        phase = adv.next_day;
        seen.push(phase);
        days.push(u.day);
    }
    assert_eq!(seen, vec![DayState::Morning, DayState::Evening, DayState::Night, DayState::Morning, DayState::Evening]);
    assert_eq!(days, vec![3, 3, 3, 4, 4]);
}

#[test]
fn prize_launch_defers_the_phase_change() {
    let mut u = morning_user(1, 0);
    let mut timer = initialise_clock();
    let mut launch = Timer::from_millis(500, TimerMode::Repeating);
    launch.tick(100 * NANOS_PER_MILLI);
    assert!(advance_time(DayState::Night, &mut timer, DAY_LENGTH_MILLIS * NANOS_PER_MILLI, &launch, &mut u).is_none());
    assert!(timer.finished());
    launch.reset();
    let adv = advance_time(DayState::Night, &mut timer, 0, &launch, &mut u).expect("phase ends");
    assert_eq!(adv.next_day, DayState::Morning);
    assert_eq!(u.day, 2);
}

#[test]
fn royal_decays_on_each_new_morning() {
    let mut u = morning_user(0, 80);
    enter_phase(&mut u, DayState::Morning);
    assert_eq!(u.royal, 30);
    enter_phase(&mut u, DayState::Morning);
    assert_eq!(u.royal, 20);
    enter_phase(&mut u, DayState::Morning);
    assert_eq!(u.royal, 20);
    enter_phase(&mut u, DayState::Evening);
    assert_eq!(u.day, 3);
    assert_eq!(u.time, DayState::Evening);
    assert!(!u.lvl_init);
}

#[test]
fn timers_finish_on_the_crossing_tick_only() {
    let mut once = Timer::from_millis(1_000, TimerMode::Once);
    once.tick(600 * NANOS_PER_MILLI);
    assert!(!once.finished() && !once.just_finished());
    once.tick(600 * NANOS_PER_MILLI);
    assert!(once.finished() && once.just_finished());
    assert_eq!(once.elapsed, 1_000 * NANOS_PER_MILLI);
    once.tick(600 * NANOS_PER_MILLI);
    assert!(once.finished() && !once.just_finished());

    let mut rep = Timer::from_millis(1_000, TimerMode::Repeating);
    rep.tick(2_500 * NANOS_PER_MILLI);
    assert_eq!(rep.times_finished_this_tick, 2);
    assert_eq!(rep.elapsed, 500 * NANOS_PER_MILLI);
    rep.tick(100 * NANOS_PER_MILLI);
    assert!(!rep.just_finished());
    assert!(rep.is_started());
    assert!(rep.fraction_below(3, 4));
}

#[test]
fn day_phases_wrap_and_gate_play() {
    assert_eq!(next_day_state(DayState::Dawn), DayState::Morning);
    assert_eq!(next_day_state(DayState::Night), DayState::Morning);
    assert!(pachinko_systems_run(GameState::Game, PauseState::Unpaused, DayState::Evening));
    assert!(!pachinko_systems_run(GameState::Game, PauseState::Paused, DayState::Evening));
    assert!(!pachinko_systems_run(GameState::Game, PauseState::Unpaused, DayState::Dawn));
    assert!(!pachinko_systems_run(GameState::Menu, PauseState::Unpaused, DayState::Night));
    assert!(phase_systems_run(DayState::Night, GameState::Game, PauseState::Unpaused, DayState::Night));
    assert!(!phase_systems_run(DayState::Morning, GameState::Game, PauseState::Unpaused, DayState::Night));
}

#[test]
fn pause_and_debug_shortcuts() {
    assert_eq!(toggle_pause_state(true, PauseState::Initial), Some(PauseState::Unpaused));
    assert_eq!(toggle_pause_state(true, PauseState::Unpaused), Some(PauseState::Paused));
    assert_eq!(toggle_pause_state(false, PauseState::Paused), None);
    assert_eq!(set_day_state(true, false, false, DayState::Morning), None);
    assert_eq!(set_day_state(true, true, false, DayState::Night), Some(DayState::Evening));
    let change = set_game_state(true, false, false, false, GameState::Game, PauseState::Unpaused);
    assert_eq!(change.game, Some(GameState::Menu));
    assert_eq!(change.day, Some(DayState::Dawn));
    assert_eq!(change.pause, Some(PauseState::Initial));
    let none = set_game_state(false, false, true, false, GameState::Game, PauseState::Initial);
    assert_eq!((none.game, none.day, none.pause), (None, None, None));
}

#[test]
fn new_game_and_loading_a_save() {
    let fresh = UserData::new_game();
    assert_eq!(fresh.name, "BevyEnjoyer123");
    assert_eq!((fresh.money, fresh.stress, fresh.flirt, fresh.royal), (30, 0, 50, 0));
    assert_eq!(fresh.time, DayState::Night);
    let save = SaveData {
        name: "saved".to_string(),
        money: 150,
        stress: -3,
        flirt: 60,
        royal: 70,
        drugs_taken: 4,
        day: 9,
        time: DayState::Evening,
        lvl_init: true,
    };
    let mut u = UserData::new_game();
    let change = u.load_save(&save);
    assert_eq!(u.name, "saved");
    assert_eq!((u.money, u.stress, u.flirt, u.royal), (100, 0, 60, 70));
    assert_eq!((u.drugs_taken, u.day, u.time, u.lvl_init), (4, 9, DayState::Evening, false));
    assert_eq!(change.game, Some(GameState::Game));
    assert_eq!(change.day, Some(DayState::Evening));
    assert_eq!(change.pause, Some(PauseState::Paused));
    let snap = u.snapshot();
    assert_eq!((snap.money, snap.day, snap.time), (100, 9, DayState::Evening));
}

#[test]
fn companion_lines() {
    let mut u = morning_user(1, 0);
    u.money = 51;
    assert_eq!(next_line(&u), "You know, sometimes I think you should be MY boss!");
    u.time = DayState::Night;
    u.flirt = 60;
    assert_eq!(next_line(&u), "Hey, why don't we get out of this place? I know a nice coffee shop nearby!");
    u.day = 2;
    u.stress = 10;
    assert!(next_line(&u).starts_with("Ah, a new face!"));
    let mut timer = initialise_clock();
    assert_eq!(update_dialogue(&u, &timer), next_line(&u));
    timer.tick(60_000 * NANOS_PER_MILLI);
    assert_eq!(update_dialogue(&u, &timer), "Uh oh, looks like it's almost time for you to go!");
}

#[test]
fn targets_are_spread_along_the_floor() {
    let d = target_details(DayState::Morning);
    assert_eq!(d.amount, 5);
    assert_eq!(target_center_x(&d, 0), 124);
    assert_eq!(target_center_x(&d, 1), 312);
    assert_eq!(target_radius(&d).radius, 64);
    assert_eq!(d.top_sprite, "sprites/handle.png");
    let n = target_details(DayState::Night);
    assert_eq!(target_center_x(&n, 2), 800);
    assert_eq!(target_details(DayState::Dawn).amount, 0);
}

#[test]
fn peg_layouts() {
    assert_eq!(shallow_triangle(500, 190), vec![(500, 190), (475, 170), (450, 150), (525, 170), (550, 150)]);
    let two = shallow_triangles(&vec![(150, 600), (850, 600)]);
    assert_eq!(two.len(), 10);
    assert_eq!(two[5], (850, 600));
    assert_eq!(wall_column(16, 144, 3), vec![(16, 144), (16, 192), (16, 240)]);
    assert_eq!(wall_column(0, i64::MAX - 48, 2), vec![(0, i64::MAX - 48), (0, i64::MAX)]);
    assert!(wall_column(0, 0, 0).is_empty());
    let grid = food_item_grid();
    assert_eq!(grid.len(), 19 * 13 - 10);
    assert!(grid.contains(&(56, 48)));
    assert!(grid.contains(&(80, 96)));
    assert!(!grid.contains(&(8 * 48 + 56 + 24, 5 * 48 + 48)));
}

#[test]
fn out_of_money_grace_is_five_seconds() {
    let mut t = pachinko::day::initialise_money_timer();
    t.tick(4_999 * NANOS_PER_MILLI);
    assert!(!t.finished());
    t.tick(NANOS_PER_MILLI);
    assert!(t.just_finished());
}

#[test]
fn popup_begins_then_resumes() {
    let mut u = morning_user(4, 0);
    u.lvl_init = false;
    assert_eq!(popup_text(&u), PopupText::Begin { title: "Work - Morning", day: 4 });
    assert_eq!(popup_button_text(&u), "Begin");
    let change = confirm_button_interaction(true, DayState::Night, &mut u);
    assert_eq!(change.day, Some(DayState::Morning));
    assert_eq!(change.pause, Some(PauseState::Unpaused));
    assert!(u.lvl_init);
    assert_eq!(popup_text(&u), PopupText::Paused);
    assert_eq!(popup_button_text(&u), "Resume");
    let same = confirm_button_interaction(true, DayState::Morning, &mut u);
    assert_eq!(same.day, None);
    let idle = confirm_button_interaction(false, DayState::Night, &mut u);
    assert_eq!((idle.game, idle.day, idle.pause), (None, None, None));
}

#[test]
fn intro_plays_every_caption_then_leads_to_the_night() {
    let intro = intro_cutscene();
    let mut playing = PlayingCutscene::new(&intro);
    assert!(!playing.playing());
    assert_eq!(playing.play(&intro, 10_000 * NANOS_PER_MILLI), CutsceneStep::Waiting);
    playing.start(&intro);
    assert!(playing.playing());
    let mut advanced = 0;
    let mut end = None;
    for _ in 0..10_000 {
        match playing.play(&intro, 100 * NANOS_PER_MILLI) {
            CutsceneStep::Waiting => (),
            CutsceneStep::Advanced => advanced += 1,
            CutsceneStep::Finished(next) => {
                end = Some(next);
                break;
            }
        }
    }
    assert_eq!(advanced, 14);
    assert_eq!((playing.current_slide, playing.current_caption), (5, 1));
    assert_eq!(end, Some(Some(NextScreen { game: GameState::Game, pause: PauseState::Paused, day: DayState::Night })));
    assert!(!playing.playing());
}

#[test]
fn captions_move_within_a_slide_then_to_the_next() {
    let intro = intro_cutscene();
    let mut playing = PlayingCutscene::new(&intro);
    playing.start(&intro);
    assert!(!playing.advance_slide(&intro));
    assert_eq!((playing.current_slide, playing.current_caption), (0, 1));
    assert_eq!(playing.timer.duration, 2_800 * NANOS_PER_MILLI);
    playing.advance_slide(&intro);
    playing.advance_slide(&intro);
    assert_eq!((playing.current_slide, playing.current_caption), (1, 0));
    assert_eq!(playing.timer.duration, 1_600 * NANOS_PER_MILLI);
    let outro = outro_cutscene();
    assert_eq!(outro.slides.len(), 11);
    assert_eq!(outro.slides[1].captions[0].duration_millis, 14_500);
}

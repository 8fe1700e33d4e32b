use pachinko::balls::{adjust_gravity, ball_for_click, drop_work_ball, grab_work_ball, integrates, launch_ball, BallState, Gravity};
use pachinko::events::{BallCollisionEventType, BallTargetHit};
use pachinko::feeding::{swing_moves, SwingGroup, addiction_pegs_move, eat_food, handle_mouth_soup, hardcore_addiction_pegs_move, increase_addiction};
use pachinko::food::DropType;
use pachinko::parlor::{count_rung_bells, draw_prize, drug_pegs_move, handle_parlor_balls, ring_bells, spawn_prize, Bell, PrizeTimers};
use pachinko::pegs::PegType;
use pachinko::player::UserData;
use pachinko::states::{DayState, GameState, PauseState};
use pachinko::timer::NANOS_PER_MILLI;
use pachinko::work::{handle_work_balls, hang_time_divisor, new_hang_timer, spawn_time_divisor, BasketLabel};

fn user(money: i64, stress: i64, royal: i64) -> UserData {
    UserData {
        name: "tester".to_string(),
        money,
        stress,
        flirt: 50,
        royal,
        drugs_taken: 0,
        day: 1,
        time: DayState::Evening,
        lvl_init: true,
    }
}

fn peg_hit(ball: Option<DropType>, item: Option<DropType>, peg: u64) -> BallCollisionEventType {
    BallCollisionEventType::Peg {
        ball_type: ball,
        peg_type: match item {
            Some(d) => PegType::ItemPeg(d),
            None => PegType::PachinkoPeg,
        },
        ball: 1,
        peg,
    }
}

#[test]
fn pill_ball_eats_apple_peg() {
    let mut u = user(30, 10, 0);
    let events = vec![peg_hit(Some(DropType::Pill), Some(DropType::Apple), 7)];
    let pegs = eat_food(&events, &mut u);
    increase_addiction(&events, &mut u);
    assert_eq!(u.stress, 9);
    assert_eq!(u.royal, 0);
    assert_eq!(pegs, vec![7]);
    assert_eq!(u.drugs_taken, 0);
}

#[test]
fn eating_at_zero_stress_stays_at_zero() {
    let mut u = user(30, 0, 0);
    let events = vec![peg_hit(Some(DropType::Mouth), Some(DropType::Apple), 7)];
    let pegs = eat_food(&events, &mut u);
    assert_eq!(u.stress, 0);
    assert_eq!(pegs, vec![7]);
}

#[test]
fn drug_peg_raises_stress_royal_and_addiction() {
    let mut u = user(30, 98, 97);
    let events = vec![peg_hit(Some(DropType::Mouth), Some(DropType::Weed), 4)];
    let pegs = eat_food(&events, &mut u);
    increase_addiction(&events, &mut u);
    assert_eq!(u.stress, 100);
    assert_eq!(u.royal, 100);
    assert_eq!(pegs, vec![4]);
    assert_eq!(u.drugs_taken, 1);
    assert!(addiction_pegs_move(&u));
    assert!(!hardcore_addiction_pegs_move(&u));
}

#[test]
fn inedible_peg_stresses_and_stays() {
    let mut u = user(30, 10, 0);
    let events = vec![peg_hit(Some(DropType::Mouth), Some(DropType::Cd), 4), peg_hit(None, None, 5), BallCollisionEventType::Ball];
    let pegs = eat_food(&events, &mut u);
    assert_eq!(u.stress, 15);
    assert!(pegs.is_empty());
}

#[test]
fn pegs_hit_twice_are_removed_once_in_order() {
    let mut u = user(30, 50, 0);
    let events = vec![
        peg_hit(Some(DropType::Mouth), Some(DropType::Apple), 9),
        peg_hit(Some(DropType::Mouth), Some(DropType::Bun), 3),
        peg_hit(Some(DropType::Mouth), Some(DropType::Apple), 9),
    ];
    let pegs = eat_food(&events, &mut u);
    assert_eq!(pegs, vec![3, 9]);
    assert_eq!(u.stress, 47);
}

#[test]
fn addiction_thresholds_trigger_exactly() {
    let mut u = user(30, 0, 0);
    assert!(!addiction_pegs_move(&u));
    u.drugs_taken = 1;
    assert!(addiction_pegs_move(&u));
    u.drugs_taken = 29;
    assert!(!hardcore_addiction_pegs_move(&u));
    u.drugs_taken = 30;
    assert!(hardcore_addiction_pegs_move(&u));
}

#[test]
fn soup_relieves_stress() {
    let mut u = user(30, 15, 0);
    let hits = vec![
        BallTargetHit { ball_type: DropType::Mouth, target: 11 },
        BallTargetHit { ball_type: DropType::Mouth, target: 12 },
        BallTargetHit { ball_type: DropType::Mouth, target: 11 },
    ];
    handle_mouth_soup(&hits, &vec![11], &mut u);
    assert_eq!(u.stress, 0);
}

#[test]
fn bells_ring_and_pay() {
    let mut u = user(97, 0, 0);
    let mut bells = vec![Bell { peg: 5, rung: false }, Bell { peg: 6, rung: false }];
    let events = vec![peg_hit(Some(DropType::Ball), Some(DropType::Bell), 5), peg_hit(Some(DropType::Ball), Some(DropType::Apple), 6)];
    ring_bells(&events, &mut bells, &mut u);
    assert_eq!(bells, vec![Bell { peg: 5, rung: true }, Bell { peg: 6, rung: false }]);
    assert_eq!(u.money, 99);
    assert_eq!(count_rung_bells(&bells), 1);
}

#[test]
fn holes_pay_one_each_up_to_hundred() {
    let mut u = user(98, 0, 0);
    let hits = vec![BallTargetHit { ball_type: DropType::Ball, target: 1 }; 3];
    handle_parlor_balls(&hits, &mut u);
    assert_eq!(u.money, 100);
}

fn all_rung() -> Vec<Bell> {
    (0..6).map(|i| Bell { peg: i, rung: true }).collect()
}

#[test]
fn prize_window_launches_then_ends_the_night() {
    let mut timers = PrizeTimers::new();
    let mut bells = all_rung();
    let half_second = 500 * NANOS_PER_MILLI;
    let mut prizes = Vec::new();
    let mut end = None;
    for k in 0..20 {
        let out = spawn_prize(&mut timers, &mut bells, half_second, k % 2 == 0);
        if let Some(p) = out.prize {
            prizes.push(p);
        }
        if out.change.is_some() {
            end = Some((k, out.change.unwrap()));
            break;
        }
    }
    assert_eq!(prizes.len(), 20);
    assert_eq!(prizes[0], DropType::Diamond);
    assert_eq!(prizes[1], DropType::Money);
    let (k, change) = end.expect("the prize window ends");
    assert_eq!(k, 19);
    assert_eq!(change.game, Some(GameState::Outro));
    assert_eq!(change.day, Some(DayState::Dawn));
    assert_eq!(change.pause, Some(PauseState::Paused));
    assert!(bells.iter().all(|b| !b.rung));
    assert_eq!(timers.prize.elapsed, 0);
}

#[test]
fn prize_waits_for_all_bells() {
    let mut timers = PrizeTimers::new();
    let mut bells = all_rung();
    bells[3].rung = false;
    let out = spawn_prize(&mut timers, &mut bells, 20_000 * NANOS_PER_MILLI, true);
    assert_eq!(out.prize, None);
    assert_eq!(out.change, None);
    assert_eq!(timers, PrizeTimers::new());
}

#[test]
fn prize_draw_takes_both_values() {
    let draws: Vec<bool> = (0..2000).map(|_| draw_prize()).collect();
    assert!(draws.iter().any(|d| *d));
    assert!(draws.iter().any(|d| !*d));
}

#[test]
fn drug_pegs_move_above_half_royal() {
    assert!(!drug_pegs_move(&user(0, 0, 50)));
    assert!(drug_pegs_move(&user(0, 0, 51)));
}

#[test]
fn baskets_score_by_label() {
    let mut u = user(20, 10, 0);
    let labels = vec![
        BasketLabel { target: 100, label: DropType::Apple, top: 101, bottom: 102 },
        BasketLabel { target: 200, label: DropType::Cd, top: 201, bottom: 202 },
    ];
    let hits = vec![
        BallTargetHit { ball_type: DropType::Apple, target: 100 },
        BallTargetHit { ball_type: DropType::Apple, target: 200 },
        BallTargetHit { ball_type: DropType::Apple, target: 999 },
    ];
    let filled = handle_work_balls(&hits, &labels, &mut u);
    assert_eq!(u.money, 31);
    assert_eq!(u.stress, 15);
    assert_eq!(filled, vec![labels[0]]);
}

#[test]
fn royal_slows_spawn_and_hang_timers() {
    assert_eq!(spawn_time_divisor(&user(0, 0, 0)), 1);
    assert_eq!(spawn_time_divisor(&user(0, 0, 25)), 2);
    assert_eq!(spawn_time_divisor(&user(0, 0, 100)), 10);
    assert_eq!(hang_time_divisor(&user(0, 0, 19)), 1);
    assert_eq!(hang_time_divisor(&user(0, 0, 45)), 2);
    assert_eq!(hang_time_divisor(&user(0, 0, 100)), 5);
}

#[test]
fn hanging_ball_falls_when_its_timer_runs_out() {
    let u = user(0, 0, 40);
    let mut state = BallState::Hanging(new_hang_timer());
    assert!(!integrates(&state));
    assert!(!drop_work_ball(&mut state, 10_000 * NANOS_PER_MILLI, &u));
    assert!(drop_work_ball(&mut state, 10_000 * NANOS_PER_MILLI, &u));
    assert_eq!(state, BallState::Free);
    assert!(integrates(&state));
}

#[test]
fn grabbed_ball_is_held_until_release() {
    let mut state = BallState::Hanging(new_hang_timer());
    grab_work_ball(&mut state, false);
    assert!(matches!(state, BallState::Hanging(_)));
    grab_work_ball(&mut state, true);
    assert_eq!(state, BallState::Held);
    launch_ball(&mut state, false);
    assert_eq!(state, BallState::Held);
    launch_ball(&mut state, true);
    assert_eq!(state, BallState::Free);
}

#[test]
fn clicks_drop_by_phase_and_balls_cost_money() {
    let mut u = user(3, 0, 0);
    assert_eq!(ball_for_click(DayState::Night, &mut u, DropType::Apple), Some(DropType::Ball));
    assert_eq!(u.money, 0);
    assert_eq!(ball_for_click(DayState::Night, &mut u, DropType::Apple), None);
    assert_eq!(u.money, 0);
    assert_eq!(ball_for_click(DayState::Evening, &mut u, DropType::Apple), Some(DropType::Mouth));
    assert_eq!(ball_for_click(DayState::Morning, &mut u, DropType::Cheese), Some(DropType::Cheese));
    assert_eq!(u.money, 0);
}

#[test]
fn gravity_keys_stay_in_bounds() {
    let mut g = Gravity::default();
    assert_eq!(g, Gravity(-500));
    adjust_gravity(&mut g, true, false);
    assert_eq!(g, Gravity(-600));
    let mut g = Gravity(-1000);
    adjust_gravity(&mut g, true, false);
    assert_eq!(g, Gravity(-1000));
    let mut g = Gravity(0);
    adjust_gravity(&mut g, false, true);
    assert_eq!(g, Gravity(0));
    let mut g = Gravity(-1000);
    adjust_gravity(&mut g, true, true);
    assert_eq!(g, Gravity(-900));
}

#[test]
fn reactions_wait_while_paused() {
    let mut u = user(30, 10, 0);
    let mut bells = vec![Bell { peg: 5, rung: false }];
    let events = vec![peg_hit(Some(DropType::Ball), Some(DropType::Bell), 5)];
    let out = pachinko::reactions::react(
        GameState::Game, PauseState::Paused, DayState::Night, &events, &vec![], &mut u, &mut bells, &vec![], &vec![],
    );
    assert!(out.eaten.is_empty() && out.filled.is_empty());
    assert_eq!(u.money, 30);
    assert!(!bells[0].rung);
}

#[test]
fn evening_reactions_eat_count_and_feed() {
    let mut u = user(30, 10, 0);
    let mut bells = Vec::new();
    let events = vec![
        peg_hit(Some(DropType::Mouth), Some(DropType::Shot), 8),
        peg_hit(Some(DropType::Mouth), Some(DropType::Donut), 2),
    ];
    let hits = vec![BallTargetHit { ball_type: DropType::Mouth, target: 40 }];
    let out = pachinko::reactions::react(
        GameState::Game, PauseState::Unpaused, DayState::Evening, &events, &hits, &mut u, &mut bells, &vec![], &vec![40],
    );
    assert_eq!(out.eaten, vec![2, 8]);
    assert_eq!(u.royal, 5);
    assert_eq!(u.stress, 4);
    assert_eq!(u.drugs_taken, 1);
    assert_eq!(u.money, 30);
}

#[test]
fn night_reactions_ring_and_pay() {
    let mut u = user(30, 10, 0);
    let mut bells = vec![Bell { peg: 5, rung: false }];
    let events = vec![peg_hit(Some(DropType::Ball), Some(DropType::Bell), 5)];
    let hits = vec![BallTargetHit { ball_type: DropType::Ball, target: 60 }];
    let out = pachinko::reactions::react(
        GameState::Game, PauseState::Unpaused, DayState::Night, &events, &hits, &mut u, &mut bells, &vec![], &vec![],
    );
    assert!(out.eaten.is_empty());
    assert_eq!(u.money, 33);
    assert!(bells[0].rung);
}

#[test]
fn matching_basket_pays_without_stress() {
    let mut u = UserData::new_game();
    let labels = vec![BasketLabel { target: 100, label: DropType::Apple, top: 101, bottom: 102 }];
    let hits = vec![BallTargetHit { ball_type: DropType::Apple, target: 100 }];
    let filled = handle_work_balls(&hits, &labels, &mut u);
    assert_eq!(u.money, 40);
    assert_eq!(u.stress, 0);
    assert_eq!(filled.len(), 1);
}

#[test]
fn swing_groups_start_at_their_thresholds() {
    let mut u = user(30, 0, 60);
    assert!(swing_moves(SwingGroup::Always, &u, DayState::Morning));
    assert!(!swing_moves(SwingGroup::Addiction, &u, DayState::Evening));
    u.drugs_taken = 1;
    assert!(swing_moves(SwingGroup::Addiction, &u, DayState::Evening));
    assert!(!swing_moves(SwingGroup::HardcoreAddiction, &u, DayState::Evening));
    u.drugs_taken = 30;
    assert!(swing_moves(SwingGroup::HardcoreAddiction, &u, DayState::Evening));
    assert!(swing_moves(SwingGroup::Drug, &u, DayState::Night));
    assert!(!swing_moves(SwingGroup::Drug, &u, DayState::Evening));
    u.royal = 50;
    assert!(!swing_moves(SwingGroup::Drug, &u, DayState::Night));
}

use frogger::frog::Frog;
use frogger::game::GameState;
use frogger::goal::GoalSlot;
use frogger::object::Direction;
use frogger::object::MovingObject;
use frogger::object::ObjColor;

fn fresh_goals() -> Vec<GoalSlot> {
    (0..5).map(|i| GoalSlot { col: 3 * (i + 1), occupied: false }).collect()
}

/// A deterministic game with no moving objects and fresh goals.
fn bare_state() -> GameState {
    GameState {
        frog: Frog::new(),
        cars: Vec::new(),
        logs: Vec::new(),
        goals: fresh_goals(),
        lives: 3,
        score: 0,
        game_over: false,
        won: false,
    }
}

#[test]
fn safe_rows_without_hazards_are_harmless() {
    let mut g = bare_state();
    g.frog.move_up();
    g.update(16);
    g.frog.move_up();
    g.update(16);
    g.frog.move_up();
    g.update(16);
    assert_eq!(g.frog.row, 11);
    assert_eq!(g.lives, 3);
    assert!(!g.game_over);
}

#[test]
fn road_collision_costs_a_life_and_resets_frog() {
    let mut g = bare_state();
    g.frog.row = 8;
    g.cars.push(MovingObject::new(320_000, 8, 2, 0, Direction::Right, ObjColor::Yellow));
    g.update(16);
    assert_eq!(g.lives, 2);
    assert_eq!((g.frog.col, g.frog.row), (10, 14));
    assert!(!g.game_over);
    assert_eq!(g.score, 0);
}

#[test]
fn hazard_on_other_row_does_not_collide() {
    let mut g = bare_state();
    g.frog.row = 8;
    g.cars.push(MovingObject::new(320_000, 9, 2, 0, Direction::Right, ObjColor::Blue));
    g.update(16);
    assert_eq!(g.lives, 3);
    assert_eq!(g.frog.row, 8);
}

#[test]
fn river_without_platform_drowns() {
    let mut g = bare_state();
    g.frog.row = 3;
    g.update(16);
    assert_eq!(g.lives, 2);
    assert_eq!((g.frog.col, g.frog.row), (10, 14));
    assert!(!g.game_over);
}

#[test]
fn riding_platform_carries_frog() {
    let mut g = bare_state();
    g.frog.row = 2;
    // After advancing 50 px the platform covers the frog's cell.
    g.logs.push(MovingObject::new(280_000, 2, 3, 100, Direction::Right, ObjColor::Brown));
    g.update(500);
    assert_eq!(g.lives, 3);
    assert!(g.frog.is_riding);
    assert_eq!(g.frog.riding_offset, 50_000);
    assert_eq!(g.frog.col, 10);
    assert_eq!(g.logs[0].x, 330_000);
}

#[test]
fn drifting_off_screen_while_riding_costs_a_life() {
    let mut g = bare_state();
    g.frog.col = 0;
    g.frog.row = 1;
    g.logs.push(MovingObject::new(10_000, 1, 4, 100, Direction::Left, ObjColor::Brown));
    g.update(1_000);
    assert_eq!(g.lives, 2);
    assert_eq!((g.frog.col, g.frog.row), (10, 14));
}

#[test]
fn claiming_final_slot_wins_with_hundred_points() {
    let mut g = bare_state();
    for i in 0..4 {
        g.goals[i].occupied = true;
    }
    g.score = 400;
    g.frog.col = 15;
    g.frog.row = 0;
    g.update(16);
    assert!(g.goals[4].occupied);
    assert_eq!(g.score, 500);
    assert!(g.won);
    assert!(g.game_over);
    assert_eq!(g.lives, 3);
    assert_eq!((g.frog.col, g.frog.row), (10, 14));
}

#[test]
fn claiming_one_slot_scores_and_continues() {
    let mut g = bare_state();
    g.frog.col = 6;
    g.frog.row = 0;
    g.update(16);
    assert!(g.goals[1].occupied);
    assert!(!g.goals[0].occupied);
    assert_eq!(g.score, 100);
    assert!(!g.won);
    assert!(!g.game_over);
    assert_eq!((g.frog.col, g.frog.row), (10, 14));
}

#[test]
fn missing_every_slot_costs_a_life() {
    let mut g = bare_state();
    // Center 144_000 is 32_000 from both nearest slot centers: out of reach.
    g.frog.col = 4;
    g.frog.row = 0;
    g.update(16);
    assert_eq!(g.lives, 2);
    assert!(g.goals.iter().all(|s| !s.occupied));
    assert_eq!(g.score, 0);
}

#[test]
fn overlapping_slots_resolve_by_lowest_index() {
    let mut g = bare_state();
    g.goals = vec![
        GoalSlot { col: 3, occupied: false },
        GoalSlot { col: 4, occupied: false },
    ];
    // Center 130_000 is within reach of both slot centers (112_000, 144_000)
    // and nearer the second slot; the first still wins by index order.
    g.frog.col = 4;
    g.frog.row = 0;
    g.frog.riding_offset = -14_000;
    g.frog.is_riding = true;
    g.check_goal_reached();
    assert!(g.goals[0].occupied);
    assert!(!g.goals[1].occupied);
}

#[test]
fn claimed_slots_never_revert() {
    let mut g = bare_state();
    g.goals[2].occupied = true;
    g.score = 100;
    g.update(16);
    g.frog.move_up();
    g.update(16);
    g.frog.row = 8;
    g.cars.push(MovingObject::new(320_000, 8, 2, 0, Direction::Right, ObjColor::Red));
    g.update(16);
    assert!(g.goals[2].occupied);
}

#[test]
fn three_losses_end_the_game() {
    let mut g = bare_state();
    g.cars.push(MovingObject::new(320_000, 8, 2, 0, Direction::Right, ObjColor::Red));
    g.frog.row = 8;
    g.update(16);
    assert_eq!(g.lives, 2);
    g.frog.col = 10;
    g.frog.row = 8;
    g.update(16);
    assert_eq!(g.lives, 1);
    g.frog.col = 10;
    g.frog.row = 8;
    g.update(16);
    assert_eq!(g.lives, 0);
    assert!(g.game_over);
    assert!(!g.won);
    // The last loss ends the game without resetting the actor.
    assert_eq!(g.frog.row, 8);
}

#[test]
fn finished_game_ignores_ticks() {
    let mut g = bare_state();
    g.cars.push(MovingObject::new(100_000, 7, 2, 80, Direction::Left, ObjColor::Red));
    g.game_over = true;
    g.frog.row = 7;
    g.update(1_000);
    assert_eq!(g.lives, 3);
    assert_eq!(g.frog.row, 7);
    assert_eq!(g.cars[0].x, 100_000);
}

#[test]
fn kill_frog_spares_world_and_score() {
    let mut g = bare_state();
    g.score = 200;
    g.goals[0].occupied = true;
    g.goals[1].occupied = true;
    g.frog.row = 5;
    g.kill_frog();
    assert_eq!(g.lives, 2);
    assert_eq!(g.score, 200);
    assert!(g.goals[0].occupied && g.goals[1].occupied);
    assert_eq!((g.frog.col, g.frog.row), (10, 14));
    assert!(!g.game_over);
}

#[test]
fn last_kill_leaves_frog_in_place() {
    let mut g = bare_state();
    g.lives = 1;
    g.frog.row = 9;
    g.frog.col = 5;
    g.kill_frog();
    assert_eq!(g.lives, 0);
    assert!(g.game_over);
    assert!(!g.won);
    assert_eq!((g.frog.col, g.frog.row), (5, 9));
}

#[test]
fn new_game_has_fresh_shape() {
    let g = GameState::new();
    assert_eq!(g.lives, 3);
    assert_eq!(g.score, 0);
    assert!(!g.game_over);
    assert!(!g.won);
    assert_eq!((g.frog.col, g.frog.row), (10, 14));
    assert_eq!(g.goals.len(), 5);
    for (i, s) in g.goals.iter().enumerate() {
        assert_eq!(s.col, 3 * (i as i64 + 1));
        assert!(!s.occupied);
    }
    assert!(g.cars.len() >= 12 && g.cars.len() <= 18);
    assert!(g.logs.len() >= 10 && g.logs.len() <= 15);
    for r in 7..=12 {
        let n = g.cars.iter().filter(|c| c.row == r).count();
        assert!(n >= 2 && n <= 3, "lane {} holds {} hazards", r, n);
    }
    for r in 1..=5 {
        let n = g.logs.iter().filter(|l| l.row == r).count();
        assert!(n >= 2 && n <= 3, "lane {} holds {} platforms", r, n);
    }
    for c in &g.cars {
        assert!(c.x >= -20_000 && c.x <= 640_000);
        if c.row == 7 {
            assert_eq!(c.width, 2);
            assert_eq!(c.speed, 80);
            assert_eq!(c.direction, Direction::Left);
            assert_eq!(c.color, ObjColor::Red);
        }
        if c.row == 10 {
            assert_eq!(c.width, 4);
            assert_eq!(c.speed, 120);
            assert_eq!(c.direction, Direction::Right);
        }
    }
    for l in &g.logs {
        assert!(l.x >= -30_000 && l.x <= 640_000);
        assert_eq!(l.color, ObjColor::Brown);
        if l.row == 3 {
            assert_eq!(l.width, 5);
            assert_eq!(l.speed, 40);
            assert_eq!(l.direction, Direction::Right);
        }
    }
}

#[test]
fn new_game_lanes_are_evenly_spaced_up_to_jitter() {
    let g = GameState::new();
    for r in 7..=12 {
        let lane: Vec<i64> = g.cars.iter().filter(|c| c.row == r).map(|c| c.x).collect();
        let n = lane.len() as i64;
        for (k, &x) in lane.iter().enumerate() {
            let even = k as i64 * (640_000 / n);
            assert!(
                even - 20_000 <= x && x < even + 20_000,
                "hazard {} of lane {} at {} strays from {}",
                k,
                r,
                x,
                even
            );
        }
    }
    for r in 1..=5 {
        let lane: Vec<i64> = g.logs.iter().filter(|l| l.row == r).map(|l| l.x).collect();
        let n = lane.len() as i64;
        for (k, &x) in lane.iter().enumerate() {
            let even = k as i64 * (640_000 / n);
            assert!(
                even - 30_000 <= x && x < even + 30_000,
                "platform {} of lane {} at {} strays from {}",
                k,
                r,
                x,
                even
            );
        }
    }
}

#[test]
fn reset_restores_observables_every_time() {
    let mut g = GameState::new();
    g.frog.row = 8;
    g.cars.push(MovingObject::new(320_000, 8, 2, 0, Direction::Right, ObjColor::Red));
    g.update(16);
    g.reset();
    let first = (g.lives, g.score, g.game_over, g.won, g.frog.col, g.frog.row);
    let first_goals: Vec<(i64, bool)> = g.goals.iter().map(|s| (s.col, s.occupied)).collect();
    g.reset();
    let second = (g.lives, g.score, g.game_over, g.won, g.frog.col, g.frog.row);
    let second_goals: Vec<(i64, bool)> = g.goals.iter().map(|s| (s.col, s.occupied)).collect();
    assert_eq!(first, second);
    assert_eq!(first_goals, second_goals);
    assert_eq!(first, (3, 0, false, false, 10, 14));
}

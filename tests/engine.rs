use game_engine::game::{can_tap, can_update, distance_of, rand_angle};
use game_engine::models::{FULL_TURN, MAX_SPEED, MIN_WINDOW};
use game_engine::{new_game, tap, update, GameState};

fn session(angle: u32, dot_angle: u32) -> GameState {
    let mut s = new_game(0);
    s.angle = angle;
    s.dot_angle = dot_angle;
    s
}

#[test]
fn new_game_starts_fresh() {
    let s = new_game(1 << 31);
    assert_eq!(s.angle, 0);
    assert_eq!(s.speed, 2_500_000);
    assert_eq!(s.dot_angle, 3_141_592);
    assert_eq!(s.score, 0);
    assert_eq!(s.lives, 3);
    assert_eq!(s.hit_window, 250_000);
    assert_eq!(s.time_alive, 0);
    assert!(!s.game_over);
}

#[test]
fn rand_angle_covers_one_turn() {
    assert_eq!(rand_angle(0), 0);
    assert_eq!(rand_angle(1 << 31), 3_141_592);
    assert_eq!(rand_angle(u32::MAX), 6_283_184);
    assert!(rand_angle(u32::MAX) < FULL_TURN);
}

#[test]
fn tap_on_target_scores() {
    let mut s = new_game(12_345);
    s.angle = s.dot_angle;
    tap(&mut s, 1 << 30);
    assert_eq!(s.score, 1);
    assert_eq!(s.speed, 2_580_200);
    assert_eq!(s.hit_window, 242_500);
    assert_eq!(s.dot_angle, rand_angle(1 << 30));
    assert_eq!(s.lives, 3);
    assert!(!s.game_over);
}

#[test]
fn three_misses_end_the_game() {
    let mut s = session(3_000_000, 0);
    tap(&mut s, 0);
    assert_eq!(s.lives, 2);
    assert!(!s.game_over);
    tap(&mut s, 0);
    assert_eq!(s.lives, 1);
    assert!(!s.game_over);
    tap(&mut s, 0);
    assert_eq!(s.lives, 0);
    assert!(s.game_over);
    assert_eq!(s.score, 0);
}

#[test]
fn update_wraps_by_the_excess() {
    let mut s = session(6_000_000, 0);
    update(&mut s, 200_000);
    assert_eq!(s.angle, 216_815);
    assert_eq!(s.time_alive, 200_000);
}

#[test]
fn update_without_wrap_advances() {
    let mut s = new_game(0);
    update(&mut s, 16_667);
    assert_eq!(s.angle, 41_667);
    assert_eq!(s.time_alive, 16_667);
}

#[test]
fn update_landing_on_full_turn_wraps_to_zero() {
    let mut s = session(5_783_185, 0);
    update(&mut s, 200_000);
    assert_eq!(s.angle, 0);
}

#[test]
fn update_after_game_over_is_frozen() {
    let mut s = session(3_000_000, 0);
    s.lives = 0;
    s.game_over = true;
    let before = s;
    update(&mut s, 100_000);
    assert_eq!(s, before);
    assert_eq!(s.angle, 3_000_000);
    assert_eq!(s.time_alive, 0);
}

#[test]
fn tap_after_game_over_is_ignored() {
    let mut s = session(1_000, 1_000);
    s.lives = 0;
    s.game_over = true;
    let before = s;
    tap(&mut s, 5);
    assert_eq!(s, before);
}

#[test]
fn speed_is_capped() {
    let mut s = session(10, 10);
    s.speed = 5_490_000;
    s.score = 10;
    tap(&mut s, 0);
    assert_eq!(s.score, 11);
    assert_eq!(s.speed, MAX_SPEED);
}

#[test]
fn speed_gain_grows_with_score() {
    let mut s = session(10, 10);
    s.score = 99;
    tap(&mut s, 0);
    assert_eq!(s.speed, 2_500_000 + 80_000 + 100 * 200);
}

#[test]
fn hit_window_is_floored() {
    let mut s = session(10, 10);
    s.hit_window = 51_000;
    tap(&mut s, 0);
    assert_eq!(s.hit_window, MIN_WINDOW);
}

#[test]
fn hit_window_shrink_rounds_down() {
    let mut s = session(10, 10);
    s.hit_window = 235_225;
    tap(&mut s, 0);
    assert_eq!(s.hit_window, 228_168);
}

#[test]
fn edge_of_window_is_a_miss() {
    let mut s = session(250_000, 0);
    tap(&mut s, 0);
    assert_eq!(s.score, 0);
    assert_eq!(s.lives, 2);
    let mut s = session(249_999, 0);
    tap(&mut s, 0);
    assert_eq!(s.score, 1);
}

#[test]
fn distance_is_raw_not_shortest_arc() {
    assert_eq!(distance_of(10, FULL_TURN - 10), FULL_TURN - 20);
    assert_eq!(distance_of(FULL_TURN - 10, 10), FULL_TURN - 20);
    let mut s = session(10, FULL_TURN - 10);
    tap(&mut s, 0);
    assert_eq!(s.score, 0);
    assert_eq!(s.lives, 2);
}

#[test]
fn score_never_drops_over_a_session() {
    let mut s = new_game(77);
    let mut last = s.score;
    for i in 0..40u32 {
        if i % 3 == 0 {
            s.angle = s.dot_angle;
        }
        tap(&mut s, i.wrapping_mul(2_654_435_761));
        assert!(s.score >= last);
        last = s.score;
        update(&mut s, 16_667);
    }
    assert!(s.game_over);
}

#[test]
fn bounds_hold_over_many_steps_and_hits() {
    let mut s = new_game(3);
    for i in 0..500u32 {
        s.angle = s.dot_angle;
        tap(&mut s, i.wrapping_mul(40_503));
        update(&mut s, 33_333);
        assert!(s.angle < FULL_TURN);
        assert!(s.speed >= 2_500_000 && s.speed <= MAX_SPEED);
        assert!(s.hit_window >= MIN_WINDOW && s.hit_window <= 250_000);
        assert!(s.lives <= 3);
    }
    assert_eq!(s.score, 500);
    assert_eq!(s.speed, MAX_SPEED);
    assert_eq!(s.hit_window, MIN_WINDOW);
}

#[test]
fn can_update_rejects_a_full_revolution() {
    let s = new_game(0);
    assert!(can_update(&s, 2_000_000));
    assert!(!can_update(&s, 3_000_000));
    let mut over = s;
    over.lives = 0;
    over.game_over = true;
    assert!(can_update(&over, u64::MAX));
    let mut late = s;
    late.time_alive = u64::MAX - 5;
    assert!(!can_update(&late, 6));
    assert!(can_update(&late, 5));
}

#[test]
fn can_tap_rejects_score_overflow_on_hit() {
    let mut s = session(10, 10);
    s.score = u32::MAX;
    assert!(!can_tap(&s));
    s.angle = 3_000_000;
    assert!(can_tap(&s));
}

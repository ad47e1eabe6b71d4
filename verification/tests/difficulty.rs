use flappy_dragon::obstacle::Obstacle;
use flappy_dragon::player::Player;
use flappy_dragon::sky::{sky_bg_color_at, SKY_PHASE_US, SKY_TOTAL_US};
use flappy_dragon::tuning::MICROS_PER_MS;
use flappy_dragon::{frame_duration_for, gap_size_for, player_x_speed_for};

fn channel(v: u8) -> f32 {
    v as f32 / 255.0
}

#[test]
fn frame_duration_classic_is_fixed() {
    assert_eq!(frame_duration_for(0, true), 75 * MICROS_PER_MS);
    assert_eq!(frame_duration_for(100, true), 75 * MICROS_PER_MS);
}

#[test]
fn frame_duration_new_decreases_with_score() {
    assert_eq!(frame_duration_for(0, false), 75 * MICROS_PER_MS);
    assert_eq!(frame_duration_for(70, false), 40 * MICROS_PER_MS); // cap reached at 70, not 30
    assert_eq!(frame_duration_for(100, false), 40 * MICROS_PER_MS);
}

#[test]
fn gap_size_classic_shrinks_every_pipe() {
    assert_eq!(gap_size_for(0, true), 20);
    assert_eq!(gap_size_for(10, true), 10);
    assert_eq!(gap_size_for(20, true), 2); // capped
    assert_eq!(gap_size_for(50, true), 2);
}

#[test]
fn gap_size_new_shrinks_every_20_pipes() {
    assert_eq!(gap_size_for(0, false), 16);
    assert_eq!(gap_size_for(19, false), 16);
    assert_eq!(gap_size_for(20, false), 14);
    assert_eq!(gap_size_for(80, false), 8); // capped at 4 only from score 120
}

#[test]
fn player_x_speed_classic_is_fixed() {
    assert_eq!(player_x_speed_for(0, true), 2);
    assert_eq!(player_x_speed_for(50, true), 2);
}

#[test]
fn player_x_speed_new_is_fixed() {
    assert_eq!(player_x_speed_for(0, false), 2);
    assert_eq!(player_x_speed_for(9, false), 2);
    assert_eq!(player_x_speed_for(10, false), 2); // no longer increases at score 10
    assert_eq!(player_x_speed_for(20, false), 2);
}

#[test]
fn sky_color_at_dawn() {
    let c = sky_bg_color_at(0);
    assert!((channel(c.r) - 255.0 / 255.0).abs() < 0.01);
    assert!((channel(c.g) - 100.0 / 255.0).abs() < 0.01);
    assert!((channel(c.b) - 50.0 / 255.0).abs() < 0.01);
}

#[test]
fn sky_color_at_night() {
    let c = sky_bg_color_at(SKY_PHASE_US * 5); // start of night
    assert!((channel(c.r) - 10.0 / 255.0).abs() < 0.01);
    assert!((channel(c.g) - 10.0 / 255.0).abs() < 0.01);
    assert!((channel(c.b) - 55.0 / 255.0).abs() < 0.01);
}

#[test]
fn sky_color_wraps_after_full_cycle() {
    let c0 = sky_bg_color_at(0);
    let c1 = sky_bg_color_at(SKY_TOTAL_US);
    assert!((channel(c0.r) - channel(c1.r)).abs() < 0.01);
    assert!((channel(c0.g) - channel(c1.g)).abs() < 0.01);
    assert!((channel(c0.b) - channel(c1.b)).abs() < 0.01);
}

#[test]
fn hit_obstacle_classic_is_1_wide() {
    // In classic mode, only self.x matches; self.x + 1 does not kill the dragon
    let obs = Obstacle { x: 10, gap_y: 25, size: 10, classic_mode: true };
    let player_at_x = Player { x: 10, y: 5, velocity: 0 }; // above gap: hit
    let player_adj = Player { x: 11, y: 5, velocity: 0 }; // x + 1: no hit
    assert!(obs.hit_obstacle(&player_at_x));
    assert!(!obs.hit_obstacle(&player_adj));
}

#[test]
fn hit_obstacle_new_is_2_wide() {
    // On the journey, both self.x and self.x + 1 kill the dragon
    let obs = Obstacle { x: 10, gap_y: 25, size: 10, classic_mode: false };
    let player_at_x = Player { x: 10, y: 5, velocity: 0 };
    let player_at_x1 = Player { x: 11, y: 5, velocity: 0 };
    let player_at_x2 = Player { x: 12, y: 5, velocity: 0 };
    assert!(obs.hit_obstacle(&player_at_x));
    assert!(obs.hit_obstacle(&player_at_x1));
    assert!(!obs.hit_obstacle(&player_at_x2));
}

use flappy_dragon::game::{FrameInput, GameMode, Key, Screen, State};
use flappy_dragon::journey::stage_for;
use flappy_dragon::sky::{sky_bodies, SKY_PHASE_US, SKY_TOTAL_US};
use flappy_dragon::weather::{
    next_weather_from_roll, weather_timer_from_roll, MAX_CLOUDS,
};
use flappy_dragon::{frame_duration_for, gap_size_for, pause_game, resume_game, HostLink};

#[test]
fn frame_duration_stays_between_40_and_75_ms_and_never_grows() {
    let mut last = frame_duration_for(0, false);
    for score in 0..2000 {
        let d = frame_duration_for(score, false);
        assert!((40_000..=75_000).contains(&d));
        assert!(d <= last);
        last = d;
        assert_eq!(frame_duration_for(score, true), 75_000);
    }
}

#[test]
fn gap_never_widens() {
    for classic in [true, false] {
        let mut last = gap_size_for(0, classic);
        for score in 0..2000 {
            let g = gap_size_for(score, classic);
            assert!(g <= last);
            assert!(g >= if classic { 2 } else { 4 });
            last = g;
        }
    }
}

#[test]
fn sun_stays_left_of_moon_at_dawn() {
    let mut t = 0;
    while t < SKY_PHASE_US {
        let b = sky_bodies(t, 0);
        let (sun, moon) = (b.sun.unwrap(), b.moon.unwrap());
        assert!(sun.x + 1 < moon.x);
        assert!(sun.x >= 5 && moon.x <= 74);
        t += 997_003;
    }
}

#[test]
fn sky_repeats_daily_and_stars_sleep_by_day() {
    for k in 0..60u64 {
        let t = k * 3_000_017;
        assert_eq!(sky_bodies(t, 1), sky_bodies(t + SKY_TOTAL_US, 1));
        let phase = (t % SKY_TOTAL_US) / SKY_PHASE_US;
        if (1..=3).contains(&phase) {
            assert_eq!(sky_bodies(t, 0).stars, None);
        }
    }
}

#[test]
fn weather_moves_at_most_two_steps() {
    for current in 0u8..=4 {
        for roll in 0..10 {
            let next = next_weather_from_roll(current, roll);
            assert!(next <= 4);
            assert!((next as i32 - current as i32).abs() <= 2);
        }
    }
}

#[test]
fn random_draws_stay_in_range() {
    let mut states_seen = std::collections::HashSet::new();
    for _ in 0..300 {
        let mut s = State::new(false);
        s.score = 10;
        s.obstacle.size = 16;
        s.weather_state = 0;
        s.weather_timer = 1;
        s.update_weather(1);
        assert!(s.weather_state <= 1);
        states_seen.insert(s.weather_state);
        if s.weather_state == 1 {
            assert_eq!(s.clouds.len(), 1);
            let c = s.clouds[0];
            assert!((3..10).contains(&c.y) && (4..9).contains(&c.width));
            assert!(c.x >= 83_000_000 && c.x < 103_000_000 && c.x % 1_000_000 == 0);
        } else {
            assert!(s.clouds.is_empty());
        }
    }
    assert_eq!(states_seen.len(), 2);
}

#[test]
fn weather_lasts_15_to_44_seconds() {
    assert_eq!(weather_timer_from_roll(0), 15_000_000);
    assert_eq!(weather_timer_from_roll(7), 22_000_000);
    assert_eq!(weather_timer_from_roll(29), 44_000_000);
}

#[test]
fn weather_timer_comes_from_the_draw() {
    let mut seen = std::collections::HashSet::new();
    for _ in 0..200 {
        let mut s = State::new(false);
        s.score = 10;
        s.obstacle.size = 16;
        s.weather_timer = 1;
        s.update_weather(1);
        assert!((15_000_000..45_000_000).contains(&s.weather_timer));
        assert_eq!(s.weather_timer % 1_000_000, 0);
        seen.insert(s.weather_timer);
    }
    assert!(seen.len() > 1);
}

#[test]
fn clouds_come_one_at_a_time_and_never_exceed_ten() {
    let mut s = State::new(false);
    s.score = 10;
    s.obstacle.size = 16;
    s.weather_state = 3;
    s.weather_timer = 1_000_000_000;
    for _ in 0..40 {
        let before = s.clouds.len();
        s.update_weather(10_000);
        assert!(s.clouds.len() <= before + 1);
        assert!(s.clouds.len() <= MAX_CLOUDS);
    }
    assert_eq!(s.clouds.len(), 10);
}

#[test]
fn requests_leave_waiting_alone_and_score_steps_by_one() {
    let mut s = State::new(true);
    let mut link = HostLink::new();
    pause_game(&mut link);
    resume_game(&mut link);
    s.tick(&mut link, FrameInput { delta_us: 0, key: Key::NoKey, web: true });
    assert_eq!(s.mode, GameMode::Waiting);
    s.mode = GameMode::Playing;
    let mut last = s.score;
    for _ in 0..200 {
        if s.mode != GameMode::Playing {
            break;
        }
        // keep the dragon in the middle of the gap
        s.player.y = s.obstacle.gap_y;
        s.tick(&mut link, FrameInput { delta_us: 80_000, key: Key::NoKey, web: true });
        assert!(s.score == last || s.score == last + 1);
        last = s.score;
    }
    assert!(last > 0);
}

#[test]
fn journey_progress_stays_within_its_stretch() {
    for score in 0..=1400 {
        let st = stage_for(score);
        assert!(st.span > 0 && st.progress >= 0 && st.progress <= st.span);
    }
}

#[test]
fn paused_game_is_frozen() {
    let mut s = State::new(false);
    s.mode = GameMode::Paused;
    let mut link = HostLink::new();
    let (x, y, score, sky) = (s.player.x, s.player.y, s.score, s.sky_time);
    for _ in 0..5 {
        assert_eq!(
            s.tick(&mut link, FrameInput { delta_us: 500_000, key: Key::Other, web: false }),
            Screen::Paused
        );
    }
    assert_eq!((s.player.x, s.player.y, s.score, s.sky_time), (x, y, score, sky));
}

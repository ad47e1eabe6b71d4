use flappy_dragon::game::{FrameInput, GameMode, Key, Screen, State};
use flappy_dragon::{begin_play, flap, get_player_y, pause_game, resume_game, start_game, HostLink};

fn web(delta_us: u64) -> FrameInput {
    FrameInput { delta_us, key: Key::NoKey, web: true }
}

fn started(classic: bool) -> (State, HostLink) {
    let mut s = State::new(classic);
    let mut link = HostLink::new();
    begin_play(&mut link);
    assert_eq!(s.tick(&mut link, web(0)), Screen::Waiting);
    assert_eq!(s.mode, GameMode::Playing);
    (s, link)
}

#[test]
fn fresh_game_waits() {
    let s = State::new(false);
    assert_eq!(s.mode, GameMode::Waiting);
    assert_eq!((s.player.x, s.player.y, s.player.velocity), (5, 25, 0));
    assert_eq!(s.obstacle.x, 83);
    assert_eq!(s.obstacle.size, 16);
    assert!(s.obstacle.gap_y >= 10 && s.obstacle.gap_y < 40);
    assert_eq!(s.score, 0);
    assert_eq!(s.weather_timer, 20_000_000);
    assert!(s.clouds.is_empty());
    assert_eq!(State::new(true).obstacle.size, 20);
}

#[test]
fn waiting_drops_flaps_until_begin() {
    let mut s = State::new(false);
    let mut link = HostLink::new();
    flap(&mut link);
    assert_eq!(s.tick(&mut link, web(16_000)), Screen::Waiting);
    assert!(!link.flap);
    assert_eq!(s.mode, GameMode::Waiting);
    assert_eq!(get_player_y(&link), 25);
    begin_play(&mut link);
    s.tick(&mut link, web(16_000));
    assert_eq!(s.mode, GameMode::Playing);
    assert!(!link.begin);
}

#[test]
fn dragon_moves_once_the_frame_time_has_gathered() {
    let (mut s, mut link) = started(true);
    match s.tick(&mut link, web(50_000)) {
        Screen::Playing(Some(frame)) => assert_eq!(frame.score_shown, 0),
        other => panic!("unexpected screen {:?}", other),
    }
    assert_eq!(s.player.x, 5);
    assert_eq!(s.frame_time, 50_000);
    s.tick(&mut link, web(30_000));
    assert_eq!(s.player.x, 7);
    assert_eq!(s.frame_time, 0);
    assert_eq!(s.player.velocity, 1);
}

#[test]
fn space_and_page_flaps() {
    let (mut s, mut link) = started(true);
    s.tick(&mut link, FrameInput { delta_us: 1000, key: Key::Space, web: false });
    assert_eq!(s.player.velocity, -6);
    s.player.velocity = 0;
    flap(&mut link);
    s.tick(&mut link, web(1000));
    assert_eq!(s.player.velocity, -6);
    assert!(!link.flap);
}

#[test]
fn passing_a_pipe_scores_and_places_the_next() {
    let (mut s, mut link) = started(true);
    s.obstacle.x = 6;
    s.obstacle.gap_y = 25;
    let frame = match s.tick(&mut link, web(80_000)) {
        Screen::Playing(Some(frame)) => frame,
        other => panic!("unexpected screen {:?}", other),
    };
    assert_eq!(frame.obstacle_shown.x, 6);
    assert_eq!(s.score, 1);
    assert_eq!(s.obstacle.x, 7 + 83);
    assert_eq!(s.obstacle.size, 19);
    assert_eq!(s.mode, GameMode::Playing);
}

#[test]
fn crash_into_pipe_ends_and_reports_once() {
    let (mut s, mut link) = started(false);
    s.obstacle.x = 5;
    s.obstacle.gap_y = 39;
    s.tick(&mut link, web(1000));
    assert_eq!(s.mode, GameMode::End);
    assert_eq!(s.tick(&mut link, web(1000)), Screen::GameOver(Some(0)));
    assert_eq!(s.tick(&mut link, web(1000)), Screen::GameOver(None));
    pause_game(&mut link);
    resume_game(&mut link);
    s.tick(&mut link, web(1000));
    assert_eq!(s.mode, GameMode::End);
}

#[test]
fn falling_off_the_bottom_ends() {
    let (mut s, mut link) = started(true);
    s.player.y = 50;
    s.player.velocity = 4;
    s.tick(&mut link, web(80_000));
    assert_eq!(s.player.y, 52);
    assert_eq!(s.mode, GameMode::End);
    // the page is told a row on the screen
    assert_eq!(get_player_y(&link), 49);
}

#[test]
fn touching_the_top_ends() {
    let (mut s, mut link) = started(true);
    s.player.y = 1;
    s.player.velocity = -6;
    s.tick(&mut link, web(80_000));
    assert_eq!(s.player.y, 0);
    assert_eq!(s.mode, GameMode::End);
}

#[test]
fn pause_and_resume() {
    let (mut s, mut link) = started(false);
    pause_game(&mut link);
    assert_eq!(s.tick(&mut link, web(80_000)), Screen::Paused);
    assert_eq!(s.mode, GameMode::Paused);
    assert_eq!(s.player.x, 5);
    assert_eq!(s.sky_time, 0);
    // in a web page keys do not resume
    s.tick(&mut link, FrameInput { delta_us: 1000, key: Key::Space, web: true });
    assert_eq!(s.mode, GameMode::Paused);
    resume_game(&mut link);
    s.tick(&mut link, web(1000));
    assert_eq!(s.mode, GameMode::Playing);
    // on a terminal, Escape resumes
    pause_game(&mut link);
    s.tick(&mut link, web(0));
    s.tick(&mut link, FrameInput { delta_us: 1000, key: Key::Escape, web: false });
    assert_eq!(s.mode, GameMode::Playing);
}

#[test]
fn sky_clock_runs_only_on_the_journey_below_space() {
    let (mut s, mut link) = started(false);
    s.tick(&mut link, web(16_000));
    assert_eq!(s.sky_time, 16_000);
    let (mut c, mut link) = started(true);
    c.tick(&mut link, web(16_000));
    assert_eq!(c.sky_time, 0);
}

#[test]
fn weather_starts_after_five_pipes() {
    let (mut s, mut link) = started(false);
    s.obstacle.x = 60;
    s.tick(&mut link, web(30_000_000));
    assert_eq!(s.weather_timer, 20_000_000);
    s.score = 5;
    s.obstacle.size = 16;
    s.tick(&mut link, web(1_000_000));
    assert_eq!(s.weather_timer, 19_000_000);
    s.tick(&mut link, web(19_000_000));
    assert!(s.weather_timer >= 15_000_000 && s.weather_timer < 45_000_000);
    assert!(s.weather_state <= 1);
    assert!(s.clouds.len() <= 1);
}

#[test]
fn journey_is_won_after_1400_pipes() {
    let (mut s, mut link) = started(false);
    s.score = 1400;
    s.obstacle.size = 4;
    assert_eq!(s.tick(&mut link, web(1000)), Screen::Playing(None));
    assert_eq!(s.mode, GameMode::Win);
    assert_eq!(s.tick(&mut link, web(1000)), Screen::Won(Some(1400)));
    assert_eq!(s.tick(&mut link, web(1000)), Screen::Won(None));
}

#[test]
fn restart_from_the_page() {
    let mut link = HostLink::new();
    assert!(start_game(&mut link, false));
    let mut s = State::new(false);
    begin_play(&mut link);
    s.tick(&mut link, web(0));
    s.score = 3;
    s.obstacle.size = 16;
    assert!(!start_game(&mut link, true));
    assert!(link.restart && link.classic_mode);
    assert_eq!(s.tick(&mut link, web(1000)), Screen::Restarted);
    assert!(!link.restart);
    assert!(s.classic_mode);
    assert_eq!(s.score, 0);
    assert_eq!(s.mode, GameMode::Waiting);
}

#[test]
fn row_fifty_is_reported_as_the_last_screen_row() {
    let (mut s, mut link) = started(true);
    s.player.y = 48;
    s.player.velocity = 4;
    s.tick(&mut link, web(80_000));
    assert_eq!(s.player.y, 50);
    assert_eq!(s.mode, GameMode::Playing);
    assert_eq!(get_player_y(&link), 49);
}

#[test]
fn frozen_weather_draws_nothing() {
    let mut s = State::new(false);
    s.weather_state = 2;
    s.weather_timer = 1;
    for score in [0, 4, 200, 1000] {
        s.score = score;
        s.update_weather(5_000_000);
        assert_eq!(s.weather_state, 2);
        assert_eq!(s.weather_timer, 1);
        assert!(s.clouds.is_empty());
    }
}

//! The game's state and its step from frame to frame: waiting, playing,
//! pausing, crashing and winning.
use crate::host::{page_row, spec_page_row, spec_start_game, HostLink, LAST_PAGE_ROW};
use crate::obstacle::{Obstacle, GAP_CENTRE_END, GAP_CENTRE_MIN};
use crate::player::{spec_fall, spec_next_row, Player, FLAP_VELOCITY};
use crate::rng::{draw, new_rng};
use crate::sky::SKY_TOTAL_US;
use crate::tuning::{
    frame_duration_for, player_x_speed_for, spec_frame_duration, spec_gap_size, PHASE_ATMO_END,
    PHASE_OORT_END, SCREEN_HEIGHT, SCREEN_WIDTH,
};
use crate::weather::{
    cloud_target, drift_clouds, next_weather_from_roll, spec_spawned, weather_timer_from_roll,
    width_range,
    spec_cloud_target, spec_width_range, spec_drift, spec_next_weather, spec_weather_timer,
    weather_rolls, Cloud, MAX_CLOUDS,
};
use bracket_lib::prelude::RandomNumberGenerator;
use vstd::prelude::*;

verus! {

/// What the game is doing.
#[derive(Clone, Copy, Debug, PartialEq, Eq, Structural)]
pub enum GameMode {
    Waiting,
    Playing,
    Paused,
    End,
    Win,
}

/// The key pressed during a frame, as far as the game cares.
#[derive(Clone, Copy, Debug, PartialEq, Eq, Structural)]
pub enum Key {
    NoKey,
    Space,
    Escape,
    Other,
}

/// What one frame brings: the time elapsed since the last one, the key
/// pressed, and whether the game runs in a web page (where the page, not the
/// keyboard, resumes a paused game).
#[derive(Clone, Copy, Debug, PartialEq, Eq, Structural)]
pub struct FrameInput {
    pub delta_us: u64,
    pub key: Key,
    pub web: bool,
}

/// What a frame of play draws from the state as it was before the frame:
/// the score in the heads-up display and the backdrop, the sky clock for the
/// backdrop, the weather for the sun and moon, and the pipe as it stood
/// before the dragon passed it.
#[derive(Clone, Copy, Debug, PartialEq, Eq, Structural)]
pub struct PlayFrame {
    pub score_shown: i32,
    pub sky_time_shown: u64,
    pub weather_shown: u8,
    pub obstacle_shown: Obstacle,
}

/// What a frame shows. `Playing(None)` is the frame in which the journey was
/// completed, which draws nothing. `GameOver` and `Won` carry the score to
/// report to the host page, the first time only.
#[derive(Clone, Copy, Debug, PartialEq, Eq, Structural)]
pub enum Screen {
    Restarted,
    Waiting,
    Playing(Option<PlayFrame>),
    Paused,
    GameOver(Option<u32>),
    Won(Option<u32>),
}

/// The whole game. Times are in microseconds: `frame_time` since the dragon
/// last moved, `sky_time` on the day clock (kept modulo a day),
/// `weather_timer` until the weather next changes. `draws` records, in
/// order, every value the generator `rng` has given the game.
pub struct State {
    pub player: Player,
    pub frame_time: u64,
    pub obstacle: Obstacle,
    pub mode: GameMode,
    pub score: i32,
    pub classic_mode: bool,
    pub sky_time: u64,
    pub weather_state: u8,
    pub weather_timer: u64,
    pub clouds: Vec<Cloud>,
    pub rng: RandomNumberGenerator,
    pub draws: Ghost<Seq<int>>,
    pub game_over_reported: bool,
    pub win_reported: bool,
}

/// Column at which the dragon starts.
pub const START_X: i32 = 5;

/// Row at which the dragon starts.
pub const START_Y: i32 = 25;

/// The first weather lasts 20 seconds.
pub const FIRST_WEATHER_US: u64 = 20_000_000;

/// Pipes passed before clouds start to form.
pub const CLOUDS_FROM_SCORE: i32 = 5;

/// How the weather and the clouds change over `delta` microseconds at the
/// given score, where `draws` are the values the game's generator gave
/// before the step and `draws2` those after it.
///
/// Before 5 pipes and from 200 on nothing changes and nothing is drawn.
/// Otherwise: when the timer runs out, a roll from 0 to 9 (for a weather from
/// clear to storm) picks the next weather and a roll from 0 to 29 sets the
/// time it lasts; the clouds drift; then, if the sky holds fewer clouds than
/// the weather wants, three rolls (row, width, offset past the right edge)
/// bring one new cloud in. Every roll is the next value of `draws2` after
/// `draws`, in that order, and nothing else is drawn.
pub open spec fn weather_step(
    score: int,
    weather: int,
    timer: int,
    clouds: Seq<Cloud>,
    delta: int,
    draws: Seq<int>,
    weather2: int,
    timer2: int,
    clouds2: Seq<Cloud>,
    draws2: Seq<int>,
) -> bool {
    if score < CLOUDS_FROM_SCORE || score >= PHASE_ATMO_END {
        &&& weather2 == weather
        &&& timer2 == timer
        &&& clouds2 == clouds
        &&& draws2 == draws
    } else {
        let n0 = draws.len() as int;
        let expired = delta >= timer;
        let wn: int = if expired && weather_rolls(weather) {
            1
        } else {
            0
        };
        let tn: int = if expired {
            1
        } else {
            0
        };
        let kept = spec_drift(clouds, delta);
        let spawn = kept.len() < spec_cloud_target(weather2);
        let cn: int = if spawn {
            3
        } else {
            0
        };
        let k = n0 + wn + tn;
        &&& draws2.len() == k + cn
        &&& draws2.subrange(0, n0) == draws
        &&& if expired {
            &&& (weather_rolls(weather) ==> 0 <= draws2[n0] < 10 && weather2 == spec_next_weather(
                weather,
                draws2[n0],
            ))
            &&& (!weather_rolls(weather) ==> weather2 == 0)
            &&& 0 <= draws2[n0 + wn] < 30
            &&& timer2 == spec_weather_timer(draws2[n0 + wn])
        } else {
            weather2 == weather && timer2 == timer - delta
        }
        &&& if spawn {
            &&& 3 <= draws2[k] < 10
            &&& spec_width_range(weather2).0 <= draws2[k + 1] < spec_width_range(weather2).1
            &&& 0 <= draws2[k + 2] < 20
            &&& clouds2 == kept.push(spec_spawned(draws2[k], draws2[k + 1], draws2[k + 2]))
        } else {
            clouds2 == kept
        }
    }
}

/// A freshly started game in the given mode (its first pipe's gap is drawn at random).
pub open spec fn is_fresh(s: State, classic: bool) -> bool {
    &&& s.player == Player { x: START_X, y: START_Y, velocity: 0 }
    &&& s.frame_time == 0
    &&& s.obstacle.x == SCREEN_WIDTH
    &&& GAP_CENTRE_MIN <= s.obstacle.gap_y < GAP_CENTRE_END
    &&& s.obstacle.size == spec_gap_size(0, classic)
    &&& s.obstacle.classic_mode == classic
    &&& s.draws@ == seq![s.obstacle.gap_y as int]
    &&& s.mode == GameMode::Waiting
    &&& s.score == 0
    &&& s.classic_mode == classic
    &&& s.sky_time == 0
    &&& s.weather_state == 0
    &&& s.weather_timer == FIRST_WEATHER_US
    &&& s.clouds@.len() == 0
    &&& !s.game_over_reported
    &&& !s.win_reported
}

/// One frame of play, as a relation between the state before, the state
/// after, the time elapsed, whether the dragon flapped, and what is drawn.
///
/// A journey that has passed 1400 pipes is won and nothing else happens.
/// Otherwise: on the journey below 200 pipes the sky clock runs and the
/// weather steps; when more time than the frame duration has gathered, the
/// dragon moves (and the gathered time restarts from zero); a flap then sets
/// its velocity; if the dragon has gone past the pipe the score rises by one
/// and a new pipe, sized for the new score, stands a screen's width ahead,
/// its gap centred on the row the generator gives next (from 10 to 39);
/// the dragon crashes when it leaves the screen at the top or bottom or hits
/// the pipe.
pub open spec fn spec_play(
    old: State,
    new: State,
    delta: int,
    flap: bool,
    frame: Option<PlayFrame>,
) -> bool {
    if !old.classic_mode && old.score >= PHASE_OORT_END {
        &&& frame is None
        &&& new == State { mode: GameMode::Win, ..old }
    } else {
        let sky_moves = !old.classic_mode && old.score < PHASE_ATMO_END;
        let elapsed = old.frame_time + delta;
        let moves = elapsed > spec_frame_duration(old.score as int, old.classic_mode);
        let velocity = spec_fall(old.player.velocity as int);
        let moved = if moves {
            Player {
                x: (old.player.x + 2) as i32,
                y: spec_next_row(old.player.y as int, velocity) as i32,
                velocity: velocity as i32,
            }
        } else {
            old.player
        };
        let player = if flap {
            Player { velocity: FLAP_VELOCITY, ..moved }
        } else {
            moved
        };
        let passed = player.x > old.obstacle.x + old.obstacle.pipe_width() - 1;
        let score = if passed {
            old.score + 1
        } else {
            old.score as int
        };
        let tape = if passed {
            new.draws@.drop_last()
        } else {
            new.draws@
        };
        &&& frame == Some(
            PlayFrame {
                score_shown: old.score,
                sky_time_shown: old.sky_time,
                weather_shown: old.weather_state,
                obstacle_shown: old.obstacle,
            },
        )
        &&& new.sky_time == if sky_moves {
            (old.sky_time + delta) % (SKY_TOTAL_US as int)
        } else {
            old.sky_time as int
        }
        &&& if sky_moves {
            weather_step(
                old.score as int,
                old.weather_state as int,
                old.weather_timer as int,
                old.clouds@,
                delta,
                old.draws@,
                new.weather_state as int,
                new.weather_timer as int,
                new.clouds@,
                tape,
            )
        } else {
            &&& new.weather_state == old.weather_state
            &&& new.weather_timer == old.weather_timer
            &&& new.clouds@ == old.clouds@
            &&& tape == old.draws@
        }
        &&& new.frame_time == if moves {
            0int
        } else {
            elapsed
        }
        &&& new.player == player
        &&& new.score == score
        &&& if passed {
            &&& new.obstacle.x == player.x + SCREEN_WIDTH
            &&& new.draws@.len() > 0
            &&& new.obstacle.gap_y == new.draws@.last()
            &&& GAP_CENTRE_MIN <= new.obstacle.gap_y < GAP_CENTRE_END
            &&& new.obstacle.size == spec_gap_size(score as int, old.classic_mode)
            &&& new.obstacle.classic_mode == old.classic_mode
        } else {
            new.obstacle == old.obstacle
        }
        &&& new.mode == if player.y <= 0 || player.y > SCREEN_HEIGHT || new.obstacle.spec_hit(
            player,
        ) {
            GameMode::End
        } else {
            old.mode
        }
        &&& new.classic_mode == old.classic_mode
        &&& new.game_over_reported == old.game_over_reported
        &&& new.win_reported == old.win_reported
    }
}

/// The mode after the page's pause and resume requests: a pause stops only a
/// game in play, a resume restarts only a paused one.
pub open spec fn mode_after_requests(mode: GameMode, link: HostLink) -> GameMode {
    let paused = if link.pause && mode == GameMode::Playing {
        GameMode::Paused
    } else {
        mode
    };
    if link.resume && paused == GameMode::Paused {
        GameMode::Playing
    } else {
        paused
    }
}

/// One frame of the game, as a relation between the state and the link
/// before and after, the frame's input and what the frame shows.
///
/// A waiting restart starts a fresh game in the mode last asked for and does
/// nothing else. Otherwise the pause and resume requests are taken, then:
/// waiting, the game begins when asked; playing, a frame of play runs, with a
/// flap if Space was pressed or one was asked for; paused, outside a web page
/// Space or Escape resumes; crashed or won, the score is reported once.
/// Waiting, playing (unless the journey was just completed) and pausing
/// draw the dragon, whose row goes to the page, and drop a flap asked for.
pub open spec fn spec_tick(
    old: State,
    link: HostLink,
    new: State,
    link2: HostLink,
    input: FrameInput,
    screen: Screen,
) -> bool {
    if link.restart {
        &&& screen == Screen::Restarted
        &&& is_fresh(new, link.classic_mode)
        &&& link2 == HostLink { restart: false, ..link }
    } else {
        let taken = HostLink { pause: false, resume: false, ..link };
        let mid = State { mode: mode_after_requests(old.mode, link), ..old };
        match mid.mode {
            GameMode::Waiting => {
                &&& screen == Screen::Waiting
                &&& new == State {
                    mode: if link.begin {
                        GameMode::Playing
                    } else {
                        GameMode::Waiting
                    },
                    ..mid
                }
                &&& link2 == HostLink {
                    player_y: spec_page_row(old.player.y as int) as i32,
                    begin: false,
                    flap: false,
                    ..taken
                }
            },
            GameMode::Playing => {
                &&& screen is Playing
                &&& spec_play(
                    mid,
                    new,
                    input.delta_us as int,
                    input.key == Key::Space || link.flap,
                    screen->Playing_0,
                )
                &&& link2 == if screen->Playing_0 is Some {
                    HostLink {
                        player_y: spec_page_row(new.player.y as int) as i32,
                        flap: false,
                        ..taken
                    }
                } else {
                    taken
                }
            },
            GameMode::Paused => {
                &&& screen == Screen::Paused
                &&& new == State {
                    mode: if !input.web && (input.key == Key::Space || input.key == Key::Escape) {
                        GameMode::Playing
                    } else {
                        GameMode::Paused
                    },
                    ..mid
                }
                &&& link2 == HostLink {
                    player_y: spec_page_row(old.player.y as int) as i32,
                    flap: if input.web {
                        false
                    } else {
                        link.flap
                    },
                    ..taken
                }
            },
            GameMode::End => {
                &&& screen == Screen::GameOver(
                    if old.game_over_reported {
                        None
                    } else {
                        Some(old.score as u32)
                    },
                )
                &&& new == State { game_over_reported: true, ..mid }
                &&& link2 == taken
            },
            GameMode::Win => {
                &&& screen == Screen::Won(
                    if old.win_reported {
                        None
                    } else {
                        Some(old.score as u32)
                    },
                )
                &&& new == State { win_reported: true, ..mid }
                &&& link2 == taken
            },
        }
    }
}

/// The score never drops, and a frame of play passes at most one pipe.
pub proof fn lemma_play_score_steps(
    old: State,
    new: State,
    delta: int,
    flap: bool,
    frame: Option<PlayFrame>,
)
    requires
        spec_play(old, new, delta, flap, frame),
    ensures
        old.score <= new.score <= old.score + 1,
{
}

/// A frame of play scores exactly when the dragon ends it beyond the pipe's
/// last column (the pipe's own column in classic mode, the second of its two
/// on the journey); the dragon moves two columns at a time and only when more
/// time than the frame duration has gathered.
pub proof fn lemma_passing_scores(
    old: State,
    new: State,
    delta: int,
    flap: bool,
    frame: Option<PlayFrame>,
)
    requires
        old.wf(),
        spec_play(old, new, delta, flap, frame),
        old.classic_mode || old.score < PHASE_OORT_END,
    ensures
        new.score == old.score + 1 <==> new.player.x >= old.obstacle.x + (if old.classic_mode {
            1int
        } else {
            2int
        }),
        new.score == old.score <==> new.player.x < old.obstacle.x + (if old.classic_mode {
            1int
        } else {
            2int
        }),
        new.player.x == old.player.x || new.player.x == old.player.x + 2,
        new.player.x == old.player.x + 2 <==> old.frame_time + delta > spec_frame_duration(
            old.score as int,
            old.classic_mode,
        ),
{
}

/// The generator's record only grows: a frame of play keeps every value
/// drawn before it, in order, and adds the new ones after them.
pub proof fn lemma_play_keeps_earlier_draws(
    old: State,
    new: State,
    delta: int,
    flap: bool,
    frame: Option<PlayFrame>,
)
    requires
        spec_play(old, new, delta, flap, frame),
    ensures
        old.draws@.len() <= new.draws@.len(),
        new.draws@.subrange(0, old.draws@.len() as int) == old.draws@,
{
    if !old.classic_mode && old.score >= PHASE_OORT_END {
        assert(new.draws@.subrange(0, old.draws@.len() as int) =~= old.draws@);
    } else {
        let tape = if new.score == old.score + 1 {
            new.draws@.drop_last()
        } else {
            new.draws@
        };
        assert(tape.subrange(0, old.draws@.len() as int) =~= old.draws@);
        assert(new.draws@.subrange(0, old.draws@.len() as int) =~= tape.subrange(
            0,
            old.draws@.len() as int,
        ));
    }
}

/// Over a frame of the game that is not a restart, the generator's record
/// keeps every earlier value in order; only a frame of play adds to it.
pub proof fn lemma_tick_keeps_earlier_draws(
    old: State,
    link: HostLink,
    new: State,
    link2: HostLink,
    input: FrameInput,
    screen: Screen,
)
    requires
        spec_tick(old, link, new, link2, input, screen),
        !link.restart,
    ensures
        old.draws@.len() <= new.draws@.len(),
        new.draws@.subrange(0, old.draws@.len() as int) == old.draws@,
        !(screen is Playing) ==> new.draws@ == old.draws@,
{
    let mid = State { mode: mode_after_requests(old.mode, link), ..old };
    if mid.mode == GameMode::Playing {
        lemma_play_keeps_earlier_draws(mid, new, input.delta_us as int, input.key == Key::Space
            || link.flap, screen->Playing_0);
    } else {
        assert(new.draws@.subrange(0, old.draws@.len() as int) =~= old.draws@);
    }
}

/// When the dragon passes a pipe, the next pipe is placed a screen's width
/// ahead with its gap centred on the value the game's generator gave last in
/// that frame: a row from 10 to 39, drawn after all earlier values. Where no
/// weather is rolled (classic mode, or on the journey below 5 or from 200
/// pipes) that row is the only value drawn in the frame.
pub proof fn lemma_new_pipe_takes_the_draw(
    old: State,
    new: State,
    delta: int,
    flap: bool,
    frame: Option<PlayFrame>,
)
    requires
        spec_play(old, new, delta, flap, frame),
        new.score == old.score + 1,
    ensures
        old.draws@.len() < new.draws@.len(),
        new.draws@.subrange(0, old.draws@.len() as int) == old.draws@,
        new.obstacle.gap_y == new.draws@.last(),
        GAP_CENTRE_MIN <= new.obstacle.gap_y < GAP_CENTRE_END,
        new.obstacle.x == new.player.x + SCREEN_WIDTH,
        (old.classic_mode || old.score < CLOUDS_FROM_SCORE || old.score >= PHASE_ATMO_END)
            ==> new.draws@ == old.draws@.push(new.obstacle.gap_y as int),
{
    lemma_play_keeps_earlier_draws(old, new, delta, flap, frame);
    let tape = new.draws@.drop_last();
    assert(tape.subrange(0, old.draws@.len() as int) =~= old.draws@);
    if old.classic_mode || old.score < CLOUDS_FROM_SCORE || old.score >= PHASE_ATMO_END {
        assert(tape == old.draws@);
        assert(new.draws@ =~= tape.push(new.draws@.last()));
    }
}

/// A journey that has passed 1400 pipes is won by the next frame of play,
/// which draws nothing.
pub proof fn lemma_journey_is_won(
    old: State,
    new: State,
    delta: int,
    flap: bool,
    frame: Option<PlayFrame>,
)
    requires
        spec_play(old, new, delta, flap, frame),
        !old.classic_mode,
        old.score >= PHASE_OORT_END,
    ensures
        new.mode == GameMode::Win,
        frame is None,
{
}

/// A pause request stops only a game in play and a resume request restarts
/// only a paused game; no request touches the waiting, crashed or won screens.
pub proof fn lemma_requests_touch_only_play(mode: GameMode, link: HostLink)
    ensures
        mode_after_requests(mode, link) == mode || (mode == GameMode::Playing
            && mode_after_requests(mode, link) == GameMode::Paused) || (mode == GameMode::Paused
            && mode_after_requests(mode, link) == GameMode::Playing),
        (mode == GameMode::Waiting || mode == GameMode::End || mode == GameMode::Win)
            ==> mode_after_requests(mode, link) == mode,
{
}

/// A crashed or won game stays so until the page restarts it.
pub proof fn lemma_game_end_is_final(
    old: State,
    link: HostLink,
    new: State,
    link2: HostLink,
    input: FrameInput,
    screen: Screen,
)
    requires
        spec_tick(old, link, new, link2, input, screen),
        !link.restart,
        old.mode == GameMode::End || old.mode == GameMode::Win,
    ensures
        new.mode == old.mode,
        new.score == old.score,
        new.player == old.player,
{
}

/// While the game is paused, nothing but the mode changes.
pub proof fn lemma_pause_freezes_game(
    old: State,
    link: HostLink,
    new: State,
    link2: HostLink,
    input: FrameInput,
    screen: Screen,
)
    requires
        spec_tick(old, link, new, link2, input, screen),
        !link.restart,
        mode_after_requests(old.mode, link) == GameMode::Paused,
    ensures
        new == (State { mode: new.mode, ..old }),
{
}

/// No phantom flap: a flap asked for on the waiting screen, or while paused
/// in a web page, is dropped, so play resumes without one.
pub proof fn lemma_no_phantom_flap(
    old: State,
    link: HostLink,
    new: State,
    link2: HostLink,
    input: FrameInput,
    screen: Screen,
)
    requires
        spec_tick(old, link, new, link2, input, screen),
        !link.restart,
        mode_after_requests(old.mode, link) == GameMode::Waiting || (mode_after_requests(
            old.mode,
            link,
        ) == GameMode::Paused && input.web),
    ensures
        !link2.flap,
{
}

/// A restart always yields a fresh game, whatever state the game was in.
pub proof fn lemma_restart_is_fresh(
    old: State,
    link: HostLink,
    new: State,
    link2: HostLink,
    input: FrameInput,
    screen: Screen,
)
    requires
        spec_tick(old, link, new, link2, input, screen),
        link.restart,
    ensures
        is_fresh(new, link.classic_mode),
        new.mode == GameMode::Waiting,
        new.score == 0,
        !link2.restart,
{
}

/// The modes a frame can lead to, without a restart: waiting leads to
/// waiting or play; play to play, pause, a crash or a win; a pause to itself,
/// play, a crash or a win (after a resume in the same frame); a crash and a
/// win are final.
pub proof fn lemma_tick_mode_transitions(
    old: State,
    link: HostLink,
    new: State,
    link2: HostLink,
    input: FrameInput,
    screen: Screen,
)
    requires
        spec_tick(old, link, new, link2, input, screen),
        !link.restart,
    ensures
        old.mode == GameMode::Waiting ==> (new.mode == GameMode::Waiting || new.mode
            == GameMode::Playing),
        old.mode == GameMode::Playing ==> new.mode != GameMode::Waiting,
        old.mode == GameMode::Paused ==> new.mode != GameMode::Waiting,
        old.mode == GameMode::End ==> new.mode == GameMode::End,
        old.mode == GameMode::Win ==> new.mode == GameMode::Win,
{
}

/// The row reported to the page always lies on the screen's rows 0 to 49.
pub proof fn lemma_page_row_on_screen(
    old: State,
    link: HostLink,
    new: State,
    link2: HostLink,
    input: FrameInput,
    screen: Screen,
)
    requires
        spec_tick(old, link, new, link2, input, screen),
        link.inv(),
    ensures
        link2.inv(),
        0 <= link2.player_y <= LAST_PAGE_ROW,
{
}

/// Clicking PLAY on a running game does not launch it again: it records the
/// mode and a restart, and the next frame starts a fresh game in that mode.
pub proof fn lemma_replay_restarts(
    s: State,
    link: HostLink,
    classic: bool,
    new: State,
    link2: HostLink,
    input: FrameInput,
    screen: Screen,
)
    requires
        link.initialized,
        spec_tick(s, spec_start_game(link, classic), new, link2, input, screen),
    ensures
        screen == Screen::Restarted,
        is_fresh(new, classic),
        new.mode == GameMode::Waiting,
        new.score == 0,
        new.classic_mode == classic,
        link2.classic_mode == classic,
        !link2.restart,
{
}

/// One frame on the crashed or the winning screen, with no restart: the
/// mode, score and dragon stay; the score is reported unless it had been.
proof fn lemma_final_screen_step(
    old: State,
    link: HostLink,
    new: State,
    link2: HostLink,
    input: FrameInput,
    screen: Screen,
)
    requires
        spec_tick(old, link, new, link2, input, screen),
        !link.restart,
        old.mode == GameMode::End || old.mode == GameMode::Win,
    ensures
        new.mode == old.mode,
        new.score == old.score,
        new.player == old.player,
        old.mode == GameMode::End ==> new.game_over_reported && screen == Screen::GameOver(
            if old.game_over_reported {
                None
            } else {
                Some(old.score as u32)
            },
        ),
        old.mode == GameMode::Win ==> new.win_reported && screen == Screen::Won(
            if old.win_reported {
                None
            } else {
                Some(old.score as u32)
            },
        ),
{
}

/// A run of frames, each taken from the state and link the previous one left.
pub open spec fn is_run(
    states: Seq<State>,
    links: Seq<HostLink>,
    inputs: Seq<FrameInput>,
    screens: Seq<Screen>,
) -> bool {
    &&& states.len() == inputs.len() + 1
    &&& links.len() == inputs.len() + 1
    &&& screens.len() == inputs.len()
    &&& forall|i: int|
        #![trigger screens[i]]
        0 <= i < inputs.len() ==> spec_tick(
            states[i],
            links[i],
            states[i + 1],
            links[i + 1],
            inputs[i],
            screens[i],
        )
}

/// No restart is asked for during a run.
pub open spec fn no_restart(links: Seq<HostLink>, n: int) -> bool {
    forall|i: int| 0 <= i < n ==> !(#[trigger] links[i]).restart
}

proof fn lemma_final_screen_prefix(
    states: Seq<State>,
    links: Seq<HostLink>,
    inputs: Seq<FrameInput>,
    screens: Seq<Screen>,
    k: int,
)
    requires
        is_run(states, links, inputs, screens),
        no_restart(links, inputs.len() as int),
        states[0].mode == GameMode::End || states[0].mode == GameMode::Win,
        0 <= k < states.len(),
    ensures
        states[k].mode == states[0].mode,
        states[k].score == states[0].score,
        states[k].player == states[0].player,
        k >= 1 && states[0].mode == GameMode::End ==> states[k].game_over_reported,
        k >= 1 && states[0].mode == GameMode::Win ==> states[k].win_reported,
    decreases k,
{
    if k > 0 {
        lemma_final_screen_prefix(states, links, inputs, screens, k - 1);
        assert(!links[k - 1].restart);
        assert(spec_tick(
            states[k - 1],
            links[k - 1],
            states[k],
            links[k],
            inputs[k - 1],
            screens[k - 1],
        ));
        lemma_final_screen_step(
            states[k - 1],
            links[k - 1],
            states[k],
            links[k],
            inputs[k - 1],
            screens[k - 1],
        );
    }
}

/// However many frames the crashed or winning screen is shown, with no
/// restart: the score is reported in the first frame only (if it had not
/// been reported before) and never again, and the mode, the score and the
/// dragon stay as they were.
pub proof fn lemma_reported_once_over_a_run(
    states: Seq<State>,
    links: Seq<HostLink>,
    inputs: Seq<FrameInput>,
    screens: Seq<Screen>,
)
    requires
        is_run(states, links, inputs, screens),
        no_restart(links, inputs.len() as int),
        inputs.len() >= 1,
        states[0].mode == GameMode::End || states[0].mode == GameMode::Win,
    ensures
        states[0].mode == GameMode::End ==> screens[0] == Screen::GameOver(
            if states[0].game_over_reported {
                None
            } else {
                Some(states[0].score as u32)
            },
        ),
        states[0].mode == GameMode::Win ==> screens[0] == Screen::Won(
            if states[0].win_reported {
                None
            } else {
                Some(states[0].score as u32)
            },
        ),
        forall|i: int|
            1 <= i < screens.len() ==> #[trigger] screens[i] == if states[0].mode
                == GameMode::End {
                Screen::GameOver(None)
            } else {
                Screen::Won(None)
            },
        forall|i: int|
            0 <= i < states.len() ==> (#[trigger] states[i]).mode == states[0].mode
                && states[i].score == states[0].score && states[i].player == states[0].player,
{
    assert(!links[0].restart);
    assert(spec_tick(states[0], links[0], states[1], links[1], inputs[0], screens[0]));
    lemma_final_screen_step(states[0], links[0], states[1], links[1], inputs[0], screens[0]);
    assert forall|i: int| 1 <= i < screens.len() implies #[trigger] screens[i] == if states[0].mode
        == GameMode::End {
        Screen::GameOver(None)
    } else {
        Screen::Won(None)
    } by {
        lemma_final_screen_prefix(states, links, inputs, screens, i);
        assert(!links[i].restart);
        assert(spec_tick(states[i], links[i], states[i + 1], links[i + 1], inputs[i], screens[i]));
        lemma_final_screen_step(states[i], links[i], states[i + 1], links[i + 1], inputs[i], screens[i]);
    }
    assert forall|i: int| 0 <= i < states.len() implies (#[trigger] states[i]).mode == states[0].mode
        && states[i].score == states[0].score && states[i].player == states[0].player by {
        lemma_final_screen_prefix(states, links, inputs, screens, i);
    }
}

/// The weather brings at most one new cloud per step.
pub proof fn lemma_one_cloud_at_a_time(
    score: int,
    weather: int,
    timer: int,
    clouds: Seq<Cloud>,
    delta: nat,
    draws: Seq<int>,
    weather2: int,
    timer2: int,
    clouds2: Seq<Cloud>,
    draws2: Seq<int>,
)
    requires
        weather_step(score, weather, timer, clouds, delta as int, draws, weather2, timer2, clouds2, draws2),
    ensures
        clouds2.len() <= clouds.len() + 1,
{
    crate::weather::lemma_drift_shrinks(clouds, delta);
}

impl State {
    /// The invariant of a game: the dragon's velocity in range, on or below
    /// the top row and at most two rows below the screen (only once crashed);
    /// the pipe just ahead of the dragon (or being passed), sized for the
    /// score, with its gap centred on rows 10 to 39; the sky clock within a
    /// day; the weather from clear to storm; at most ten clouds, each in
    /// range; a journey never goes past 1400 pipes and only a journey is won;
    /// and the dragon's column leaves room for the pipes ahead of it.
    pub open spec fn wf(&self) -> bool {
        &&& self.player.inv()
        &&& 0 <= self.player.y <= SCREEN_HEIGHT + 2
        &&& self.mode != GameMode::End ==> self.player.y <= SCREEN_HEIGHT
        &&& self.player.x <= i32::MAX - 2 * SCREEN_WIDTH
        &&& self.obstacle.classic_mode == self.classic_mode
        &&& 1 - self.obstacle.pipe_width() <= self.obstacle.x - self.player.x <= SCREEN_WIDTH
        &&& GAP_CENTRE_MIN <= self.obstacle.gap_y < GAP_CENTRE_END
        &&& self.obstacle.size == spec_gap_size(self.score as int, self.classic_mode)
        &&& 0 <= self.score
        &&& !self.classic_mode ==> self.score <= PHASE_OORT_END
        &&& self.mode == GameMode::Win ==> !self.classic_mode
        &&& self.sky_time < SKY_TOTAL_US
        &&& self.weather_state <= 4
        &&& self.clouds.len() <= MAX_CLOUDS
        &&& forall|i: int| 0 <= i < self.clouds.len() ==> (#[trigger] self.clouds@[i]).inv()
    }

    /// A new game in the given mode, waiting for the player to begin.
    pub fn new(classic: bool) -> (s: State)
        ensures
            s.wf(),
            is_fresh(s, classic),
    {
        let mut rng = new_rng();
        let mut draws: Ghost<Seq<int>> = Ghost(Seq::empty());
        let gap_y = draw(&mut rng, &mut draws, GAP_CENTRE_MIN, GAP_CENTRE_END);
        let obstacle = Obstacle::with_gap(SCREEN_WIDTH, 0, classic, gap_y);
        State {
            player: Player::new(START_X, START_Y),
            frame_time: 0,
            obstacle,
            mode: GameMode::Waiting,
            score: 0,
            classic_mode: classic,
            sky_time: 0,
            weather_state: 0,
            weather_timer: FIRST_WEATHER_US,
            clouds: Vec::new(),
            rng,
            draws,
            game_over_reported: false,
            win_reported: false,
        }
    }

    /// Steps the weather and the clouds over `delta_us` (see `weather_step`);
    /// nothing else changes but the random generator and its record of
    /// draws, and before 5 pipes or from 200 on nothing changes at all (no
    /// draw is made).
    pub fn update_weather(&mut self, delta_us: u64)
        requires
            old(self).wf(),
        ensures
            final(self).wf(),
            (old(self).score < CLOUDS_FROM_SCORE || old(self).score >= PHASE_ATMO_END) ==> (*final(
                self) == *old(self)),
            weather_step(
                old(self).score as int,
                old(self).weather_state as int,
                old(self).weather_timer as int,
                old(self).clouds@,
                delta_us as int,
                old(self).draws@,
                final(self).weather_state as int,
                final(self).weather_timer as int,
                final(self).clouds@,
                final(self).draws@,
            ),
            final(self).player == old(self).player,
            final(self).frame_time == old(self).frame_time,
            final(self).obstacle == old(self).obstacle,
            final(self).mode == old(self).mode,
            final(self).score == old(self).score,
            final(self).classic_mode == old(self).classic_mode,
            final(self).sky_time == old(self).sky_time,
            final(self).game_over_reported == old(self).game_over_reported,
            final(self).win_reported == old(self).win_reported,
    {
        if self.score < CLOUDS_FROM_SCORE || self.score >= PHASE_ATMO_END {
            return;
        }
        let ghost d0 = self.draws@;
        if delta_us >= self.weather_timer {
            if self.weather_state <= 4 {
                let roll = draw(&mut self.rng, &mut self.draws, 0, 10);
                let current = self.weather_state;
                self.weather_state = next_weather_from_roll(current, roll);
                assert(self.weather_state == spec_next_weather(current as int, roll as int));
                assert(self.draws@[d0.len() as int] == roll);
            } else {
                self.weather_state = 0;
            }
            let ghost d_mid = self.draws@;
            let roll = draw(&mut self.rng, &mut self.draws, 0, 30);
            self.weather_timer = weather_timer_from_roll(roll);
            assert(self.weather_timer == spec_weather_timer(roll as int));
            assert(self.draws@[d_mid.len() as int] == roll);
            assert(self.draws@.subrange(0, d_mid.len() as int) =~= d_mid);
        } else {
            self.weather_timer = self.weather_timer - delta_us;
        }
        let ghost d1 = self.draws@;
        assert(d1.subrange(0, d0.len() as int) =~= d0);
        let kept = drift_clouds(&self.clouds, delta_us);
        self.clouds = kept;
        let target = cloud_target(self.weather_state);
        if self.clouds.len() < target {
            let y = draw(&mut self.rng, &mut self.draws, 3, 10);
            let (lo, hi) = width_range(self.weather_state);
            let width = draw(&mut self.rng, &mut self.draws, lo, hi);
            let x_offset = draw(&mut self.rng, &mut self.draws, 0, 20);
            let cloud = Cloud::spawned(y, width, x_offset);
            assert(cloud == spec_spawned(y as int, width as int, x_offset as int));
            self.clouds.push(cloud);
            assert(self.clouds@.drop_last() =~= kept@);
            let ghost k: int = d1.len() as int;
            assert(self.draws@ =~= d1.push(y as int).push(width as int).push(x_offset as int));
            assert(self.draws@[k] == y && self.draws@[k + 1] == width && self.draws@[k + 2]
                == x_offset);
            assert(self.draws@.subrange(0, d0.len() as int) =~= d0);
            assert(forall|i: int| 0 <= i < k ==> self.draws@[i] == d1[i]);
        }
    }

    /// One frame of play (see `spec_play`): `delta_us` have elapsed and the
    /// dragon flaps when `flap` holds. Returns what the frame draws from the
    /// state before it, or `None` when the journey is complete.
    #[verifier::spinoff_prover]
    #[verifier::rlimit(40)]
    pub fn play(&mut self, delta_us: u64, flap: bool) -> (frame: Option<PlayFrame>)
        requires
            old(self).wf(),
            old(self).mode != GameMode::End,
            old(self).player.x + 2 <= i32::MAX - 2 * SCREEN_WIDTH,
            old(self).score < i32::MAX,
        ensures
            final(self).wf(),
            spec_play(*old(self), *final(self), delta_us as int, flap, frame),
    {
        if !self.classic_mode {
            if self.score >= PHASE_OORT_END {
                self.mode = GameMode::Win;
                return None;
            }
        }
        let shown = PlayFrame {
            score_shown: self.score,
            sky_time_shown: self.sky_time,
            weather_shown: self.weather_state,
            obstacle_shown: self.obstacle,
        };
        if !self.classic_mode && self.score < PHASE_ATMO_END {
            let advanced = (self.sky_time + delta_us % SKY_TOTAL_US) % SKY_TOTAL_US;
            proof {
                vstd::arithmetic::div_mod::lemma_add_mod_noop_right(
                    self.sky_time as int,
                    delta_us as int,
                    SKY_TOTAL_US as int,
                );
            }
            self.sky_time = advanced;
            self.update_weather(delta_us);
        }
        self.frame_time = self.frame_time.saturating_add(delta_us);
        if self.frame_time > frame_duration_for(self.score, self.classic_mode) {
            self.frame_time = 0;
            self.player.gravity_and_move(player_x_speed_for(self.score, self.classic_mode));
        }
        if flap {
            self.player.flap();
        }
        let pipe_width: i32 = if self.classic_mode {
            1
        } else {
            2
        };
        let ghost tape = self.draws@;
        if self.player.x > self.obstacle.x + pipe_width - 1 {
            self.score = self.score + 1;
            let gap_y = draw(&mut self.rng, &mut self.draws, GAP_CENTRE_MIN, GAP_CENTRE_END);
            assert(self.draws@.drop_last() =~= tape);
            self.obstacle = Obstacle::with_gap(
                self.player.x + SCREEN_WIDTH,
                self.score,
                self.classic_mode,
                gap_y,
            );
        }
        if self.player.y <= 0 || self.player.y > SCREEN_HEIGHT || self.obstacle.hit_obstacle(
            &self.player,
        ) {
            self.mode = GameMode::End;
        }
        Some(shown)
    }

    /// The waiting screen: the dragon's row goes to the page, the game begins
    /// when the page asks, and a flap asked for meanwhile is dropped.
    fn wait(&mut self, link: &mut HostLink)
        ensures
            *final(self) == (State {
                mode: if old(link).begin {
                    GameMode::Playing
                } else {
                    old(self).mode
                },
                ..*old(self)
            }),
            *final(link) == (HostLink {
                player_y: spec_page_row(old(self).player.y as int) as i32,
                begin: false,
                flap: false,
                ..*old(link)
            }),
    {
        link.player_y = page_row(self.player.y);
        if link.begin {
            link.begin = false;
            self.mode = GameMode::Playing;
        }
        link.flap = false;
    }

    /// The paused screen: the dragon's row goes to the page; outside a web
    /// page Space or Escape resumes, in one the page resumes and a flap asked
    /// for meanwhile is dropped.
    fn show_paused(&mut self, link: &mut HostLink, input: FrameInput)
        ensures
            *final(self) == (State {
                mode: if !input.web && (input.key == Key::Space || input.key == Key::Escape) {
                    GameMode::Playing
                } else {
                    old(self).mode
                },
                ..*old(self)
            }),
            *final(link) == (HostLink {
                player_y: spec_page_row(old(self).player.y as int) as i32,
                flap: if input.web {
                    false
                } else {
                    old(link).flap
                },
                ..*old(link)
            }),
    {
        link.player_y = page_row(self.player.y);
        if !input.web {
            if input.key == Key::Space || input.key == Key::Escape {
                self.mode = GameMode::Playing;
            }
        } else {
            link.flap = false;
        }
    }

    /// The game-over screen: the score to report to the page, the first time only.
    pub fn dead(&mut self) -> (report: Option<u32>)
        ensures
            report == if old(self).game_over_reported {
                None
            } else {
                Some(old(self).score as u32)
            },
            *final(self) == (State { game_over_reported: true, ..*old(self) }),
    {
        if !self.game_over_reported {
            self.game_over_reported = true;
            return Some(self.score as u32);
        }
        None
    }

    /// The winning screen: the score to report to the page, the first time only.
    pub fn celebrate(&mut self) -> (report: Option<u32>)
        ensures
            report == if old(self).win_reported {
                None
            } else {
                Some(old(self).score as u32)
            },
            *final(self) == (State { win_reported: true, ..*old(self) }),
    {
        if !self.win_reported {
            self.win_reported = true;
            return Some(self.score as u32);
        }
        None
    }

    /// One frame of the game (see `spec_tick`): takes the page's requests
    /// from `link`, runs the current screen, and says what it shows.
    #[verifier::spinoff_prover]
    #[verifier::rlimit(40)]
    pub fn tick(&mut self, link: &mut HostLink, input: FrameInput) -> (screen: Screen)
        requires
            old(self).wf(),
            old(self).player.x + 2 <= i32::MAX - 2 * SCREEN_WIDTH,
            old(self).score < i32::MAX,
        ensures
            final(self).wf(),
            spec_tick(*old(self), *old(link), *final(self), *final(link), input, screen),
    {
        if link.restart {
            link.restart = false;
            *self = State::new(link.classic_mode);
            return Screen::Restarted;
        }
        if link.pause {
            link.pause = false;
            if self.mode == GameMode::Playing {
                self.mode = GameMode::Paused;
            }
        }
        if link.resume {
            link.resume = false;
            if self.mode == GameMode::Paused {
                self.mode = GameMode::Playing;
            }
        }
        match self.mode {
            GameMode::Waiting => {
                self.wait(link);
                Screen::Waiting
            },
            GameMode::Playing => {
                let flap = input.key == Key::Space || link.flap;
                let frame = self.play(input.delta_us, flap);
                if frame.is_some() {
                    link.flap = false;
                    link.player_y = page_row(self.player.y);
                }
                Screen::Playing(frame)
            },
            GameMode::Paused => {
                self.show_paused(link, input);
                Screen::Paused
            },
            GameMode::End => Screen::GameOver(self.dead()),
            GameMode::Win => Screen::Won(self.celebrate()),
        }
    }
}

} // verus!

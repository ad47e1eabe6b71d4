//! The rules of Flappy Dragon: the difficulty curves, the dragon's physics,
//! the pipes, the day/night sky, the weather, the journey through space, and
//! the frame-by-frame state machine that ties them together. Drawing, the
//! terminal and the host page live outside this library; they hand it the
//! time elapsed and the keys pressed, and draw what it reports.

pub mod game;
pub mod host;
pub mod journey;
pub mod obstacle;
pub mod player;
mod rng;
pub mod signal;
pub mod space;
pub mod sky;
pub mod tuning;
pub mod weather;

pub use game::{FrameInput, GameMode, Key, PlayFrame, Screen, State};
pub use host::{begin_play, flap, get_player_y, pause_game, resume_game, start_game, HostLink};
pub use signal::{set_handler, Error, Signal};
pub use tuning::{frame_duration_for, gap_size_for, player_x_speed_for};

//! What the game and the host page exchange between two frames: the
//! requests the page makes (flap, begin, pause, resume, restart) and the
//! dragon's row that the page reads to place its dragon picture.
use vstd::prelude::*;

verus! {

/// Requests from the host page, waiting for the next frame, and the row of
/// the dragon as last drawn.
#[derive(Clone, Copy, Debug, PartialEq, Eq, Structural)]
pub struct HostLink {
    /// Whether the game has been launched.
    pub initialized: bool,
    /// A restart is waiting.
    pub restart: bool,
    /// The mode the page asked for last: classic or the journey.
    pub classic_mode: bool,
    /// The dragon's row as last drawn, kept on the screen's rows 0 to 49.
    pub player_y: i32,
    /// A flap is waiting.
    pub flap: bool,
    /// The page asked to leave the waiting screen.
    pub begin: bool,
    /// A pause is waiting.
    pub pause: bool,
    /// A resume is waiting.
    pub resume: bool,
}

/// The last row of the screen that the page places its dragon picture on.
pub const LAST_PAGE_ROW: i32 = 49;

/// The row reported to the page for a dragon on row `y`: `y` held within
/// the screen's rows 0 to 49.
pub open spec fn spec_page_row(y: int) -> int {
    if y < 0 {
        0
    } else if y > LAST_PAGE_ROW {
        LAST_PAGE_ROW as int
    } else {
        y
    }
}

/// The row to report to the page for a dragon on row `y`.
pub fn page_row(y: i32) -> (row: i32)
    ensures
        row == spec_page_row(y as int),
        0 <= row <= LAST_PAGE_ROW,
{
    if y < 0 {
        0
    } else if y > LAST_PAGE_ROW {
        LAST_PAGE_ROW
    } else {
        y
    }
}

impl HostLink {
    /// The reported row lies on the screen's rows 0 to 49.
    pub open spec fn inv(&self) -> bool {
        0 <= self.player_y <= LAST_PAGE_ROW
    }

    /// Nothing launched and nothing requested; the dragon on its starting row.
    pub open spec fn spec_new() -> HostLink {
        HostLink {
            initialized: false,
            restart: false,
            classic_mode: false,
            player_y: 25,
            flap: false,
            begin: false,
            pause: false,
            resume: false,
        }
    }

    /// The link before the game is launched.
    pub fn new() -> (link: HostLink)
        ensures
            link == HostLink::spec_new(),
            link.inv(),
    {
        HostLink {
            initialized: false,
            restart: false,
            classic_mode: false,
            player_y: 25,
            flap: false,
            begin: false,
            pause: false,
            resume: false,
        }
    }
}

/// The page asks the dragon to flap on the next frame.
pub fn flap(link: &mut HostLink)
    ensures
        *final(link) == (HostLink { flap: true, ..*old(link) }),
{
    link.flap = true;
}

/// The page asks to leave the waiting screen and start playing.
pub fn begin_play(link: &mut HostLink)
    ensures
        *final(link) == (HostLink { begin: true, ..*old(link) }),
{
    link.begin = true;
}

/// The page asks to pause the game.
pub fn pause_game(link: &mut HostLink)
    ensures
        *final(link) == (HostLink { pause: true, ..*old(link) }),
{
    link.pause = true;
}

/// The page asks to resume a paused game.
pub fn resume_game(link: &mut HostLink)
    ensures
        *final(link) == (HostLink { resume: true, ..*old(link) }),
{
    link.resume = true;
}

/// The dragon's row as last drawn (0 to 49), for the page's dragon picture.
pub fn get_player_y(link: &HostLink) -> (y: i32)
    ensures
        y == link.player_y,
        link.inv() ==> 0 <= y <= LAST_PAGE_ROW,
{
    link.player_y
}

/// The link after the page clicked PLAY in the given mode: the game counts
/// as launched, the mode is recorded, and a restart is asked for if the game
/// was already running.
pub open spec fn spec_start_game(link: HostLink, classic: bool) -> HostLink {
    HostLink {
        initialized: true,
        restart: link.restart || link.initialized,
        classic_mode: classic,
        ..link
    }
}

/// The page clicked PLAY in the given mode. The first click launches the
/// game (the result is `true`: the caller starts the main loop); every
/// later one asks the running game to restart in that mode.
pub fn start_game(link: &mut HostLink, classic: bool) -> (launch: bool)
    ensures
        launch == !old(link).initialized,
        *final(link) == spec_start_game(*old(link), classic),
{
    link.classic_mode = classic;
    if link.initialized {
        link.restart = true;
        return false;
    }
    link.initialized = true;
    true
}

} // verus!

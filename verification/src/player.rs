//! The video-player side of the system: the player set, the control
//! operations each player offers, and the external-window placeholder.
//!
//! The embedded player binds a native library and works in wall-clock
//! seconds; it lives outside this crate. The placeholder below stands for
//! a player controlled by some other process, so every control call is a
//! documented no-op.

use vstd::prelude::*;
use crate::config::Config;
use crate::error::Error;
use crate::text::str_eq;

verus! {

/// The closed set of output video players.
#[derive(Clone, Copy, Debug, PartialEq, Eq, Structural)]
pub enum Player {
    Mpv,
    External,
}

impl Player {
    /// The stable name each player serializes to.
    pub open spec fn spec_name(&self) -> Seq<char> {
        match self {
            Player::Mpv => "Mpv"@,
            Player::External => "External"@,
        }
    }

    pub fn name(&self) -> (r: &'static str)
        ensures
            r@ == self.spec_name(),
    {
        match self {
            Player::Mpv => "Mpv",
            Player::External => "External",
        }
    }

    pub open spec fn spec_from_name(s: Seq<char>) -> Option<Player> {
        if s == "Mpv"@ {
            Some(Player::Mpv)
        } else if s == "External"@ {
            Some(Player::External)
        } else {
            None
        }
    }

    pub fn from_name(s: &str) -> (r: Option<Player>)
        ensures
            r == Player::spec_from_name(s@),
    {
        if str_eq(s, "Mpv") {
            Some(Player::Mpv)
        } else if str_eq(s, "External") {
            Some(Player::External)
        } else {
            None
        }
    }
}

/// What a video player implements to have its audio and video playback
/// controlled. Interaction must not block. The position and pause
/// accessors are only meaningful once a video has started.
pub trait PlayerBase: Sized {
    spec fn spec_is_paused(&self) -> bool;

    spec fn spec_position(&self) -> Result<u32, Error>;

    /// Whether the player is currently paused rather than playing.
    fn is_paused(&self) -> (r: bool)
        ensures
            r == self.spec_is_paused(),
    ;

    /// Pauses when `do_pause` holds, resumes otherwise; does nothing when
    /// the player is already in the requested state.
    fn set_pause(&mut self, do_pause: bool);

    /// The player's position in milliseconds; some players cannot answer
    /// and return an error instead.
    fn position(&self) -> (r: Result<u32, Error>)
        ensures
            r == self.spec_position(),
    ;

    /// Moves the position by `ms` relative to the current one, clamping at
    /// the video's bounds.
    fn seek_relative(&mut self, ms: i64);

    /// Moves the position to `ms` from the start, clamping at the video's
    /// bounds.
    fn seek_absolute(&mut self, ms: u32);

    /// Starts playing new media, given by URL or filesystem location,
    /// paused unless `start_playing` holds.
    fn start_video(&mut self, media: &str, start_playing: bool);
}

/// The placeholder for a player that another process controls: nothing to
/// drive, so controls do nothing, and the position reads as the start.
#[derive(Debug)]
pub struct External {}

impl External {
    pub fn new(config: &Config, wid: u64) -> (r: Result<External, Error>)
        ensures
            r == Ok::<External, Error>(External {  }),
    {
        Ok(External {  })
    }
}

impl PlayerBase for External {
    open spec fn spec_is_paused(&self) -> bool {
        true
    }

    open spec fn spec_position(&self) -> Result<u32, Error> {
        Ok(0u32)
    }

    fn is_paused(&self) -> (r: bool) {
        true
    }

    fn set_pause(&mut self, do_pause: bool) {
    }

    fn position(&self) -> (r: Result<u32, Error>) {
        Ok(0)
    }

    fn seek_relative(&mut self, ms: i64) {
    }

    fn seek_absolute(&mut self, ms: u32) {
    }

    fn start_video(&mut self, media: &str, start_playing: bool) {
    }
}

} // verus!

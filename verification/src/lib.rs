//! Playback-source backends for a video-sync status loop.
//!
//! The library models the sources a user can configure (a session-bus
//! player that pushes change notifications, a cloud player that is polled
//! by snapshot, and inert placeholders), the event stream push sources
//! emit, and the loopback OAuth bootstrap the cloud source needs before it
//! can answer queries.

use vstd::prelude::*;

pub mod api;
pub mod audiosync;
pub mod config;
pub mod error;
pub mod lyrics;
pub mod macos;
pub mod mpris;
pub mod player;
pub mod spotifyweb;
pub mod text;
pub mod windows;

verus! {

} // verus!

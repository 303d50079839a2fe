//! The audio-synchronization extension's interface: its handle, its
//! error, and the setup step. The capture and correlation run against the
//! host's audio devices and live outside this crate.

use vstd::prelude::*;

verus! {

/// Why a synchronization run could not start.
#[derive(Clone, Copy, Debug, PartialEq, Eq, Structural)]
pub enum AudiosyncError {
    /// The host offers no default audio output device to record from.
    NoOutputDevice,
}

impl AudiosyncError {
    /// A short, stable description, in place of a `Display` impl.
    pub fn message(&self) -> (r: &'static str)
        ensures
            r@ == "no output device found"@,
    {
        match self {
            AudiosyncError::NoOutputDevice => "no output device found",
        }
    }
}

/// A handle on the audio-synchronization extension.
#[derive(Debug, Clone)]
pub struct Audiosync {}

impl Audiosync {
    pub fn new() -> (r: Audiosync)
        ensures
            r == (Audiosync {  }),
    {
        Audiosync {  }
    }

    /// Prepares a run; nothing needs preparing yet, so it always succeeds.
    pub fn setup(&self) -> (r: Result<(), AudiosyncError>)
        ensures
            r == Ok::<(), AudiosyncError>(()),
    {
        Ok(())
    }
}

impl Default for Audiosync {
    fn default() -> (r: Audiosync)
        ensures
            r == (Audiosync {  }),
    {
        Audiosync {  }
    }
}

} // verus!

//! The inert placeholder backend for Windows builds without a real
//! integration.

use vstd::prelude::*;
use crate::api::APIBase;
use crate::config::Config;
use crate::error::Error;

verus! {

/// A zero-cost stub: construction never blocks, the metadata accessors
/// never hold a present value, and the event loop may not be pumped.
#[derive(Debug)]
pub struct Windows {}

impl Windows {
    pub fn new(config: &Config) -> (r: Result<Windows, Error>)
        ensures
            r == Ok::<Windows, Error>(Windows {  }),
    {
        Ok(Windows {  })
    }
}

impl APIBase for Windows {
    open spec fn spec_player_name(&self) -> Seq<char> {
        "Windows Player"@
    }

    open spec fn spec_artist(&self) -> Option<Seq<char>> {
        None
    }

    open spec fn spec_title(&self) -> Option<Seq<char>> {
        None
    }

    open spec fn spec_position(&self) -> Option<u64> {
        None
    }

    open spec fn spec_is_playing(&self) -> bool {
        true
    }

    open spec fn advance_supported(&self) -> bool {
        false
    }

    fn player_name(&self) -> (r: String) {
        String::from_str("Windows Player")
    }

    fn artist(&self) -> (r: Option<String>) {
        None
    }

    fn title(&self) -> (r: Option<String>) {
        None
    }

    fn position(&self) -> (r: Option<u64>) {
        None
    }

    fn is_playing(&self) -> (r: bool) {
        true
    }

    fn event_loop(&mut self) {
    }
}

} // verus!

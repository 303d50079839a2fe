//! The push backend: it attaches to one live session-bus player and
//! forwards translated events through the caller's channel.
//!
//! The session's native stream, the background thread and the channel are
//! outside work; what is modelled here is the translation each native
//! event goes through, and the construction rule. Translation neither
//! reorders, drops nor coalesces recognized events — the consumer sees
//! them exactly in emission order.

use vstd::prelude::*;
use crate::api::{APIBase, APIEvent};
use crate::config::Config;
use crate::error::Error;

verus! {

/// A native event as the session's event stream hands it over: play,
/// pause, stop, a seek to an absolute position (milliseconds), a track
/// change with the new track's opaque identifier, or anything else the
/// source may emit that carries no status change.
#[derive(Clone, Debug, PartialEq)]
pub enum SessionEvent {
    Play,
    Pause,
    Stop,
    Seek(u64),
    TrackChange(String),
    Other,
}

/// How one native event is translated. Unrecognized events are dropped
/// (logged by the listener, never surfaced).
pub open spec fn spec_translate(e: SessionEvent) -> Option<APIEvent> {
    match e {
        SessionEvent::Play => Some(APIEvent::Playing),
        SessionEvent::Pause => Some(APIEvent::Paused),
        SessionEvent::Stop => Some(APIEvent::Stopped),
        SessionEvent::Seek(ms) => Some(APIEvent::Seeked(ms)),
        SessionEvent::TrackChange(id) => Some(APIEvent::TrackChanged(id)),
        SessionEvent::Other => None,
    }
}

/// The whole stream, translated in order.
pub open spec fn spec_translate_all(s: Seq<SessionEvent>) -> Seq<APIEvent>
    decreases s.len(),
{
    if s.len() == 0 {
        Seq::empty()
    } else {
        match spec_translate(s[0]) {
            Some(e) => seq![e] + spec_translate_all(s.drop_first()),
            None => spec_translate_all(s.drop_first()),
        }
    }
}

/// Translates one native event; `None` for events that are dropped.
pub fn translate_event(e: SessionEvent) -> (r: Option<APIEvent>)
    ensures
        r == spec_translate(e),
{
    match e {
        SessionEvent::Play => Some(APIEvent::Playing),
        SessionEvent::Pause => Some(APIEvent::Paused),
        SessionEvent::Stop => Some(APIEvent::Stopped),
        SessionEvent::Seek(ms) => Some(APIEvent::Seeked(ms)),
        SessionEvent::TrackChange(id) => Some(APIEvent::TrackChanged(id)),
        SessionEvent::Other => None,
    }
}

/// Translates a burst of native events, keeping their order.
pub fn translate_events(events: Vec<SessionEvent>) -> (r: Vec<APIEvent>)
    ensures
        r@ == spec_translate_all(events@),
{
    let ghost whole = events@;
    let mut events = events;
    let mut out: Vec<APIEvent> = Vec::new();
    while events.len() > 0
        invariant
            spec_translate_all(whole) == out@ + spec_translate_all(events@),
        decreases events.len(),
    {
        let ghost before = events@;
        let e = events.remove(0);
        proof {
            assert(before.drop_first() =~= events@);
        }
        match translate_event(e) {
            Some(t) => {
                out.push(t);
                proof {
                    assert(out@ + spec_translate_all(events@) =~= spec_translate_all(whole));
                }
            },
            None => {},
        }
    }
    proof {
        assert(out@ + spec_translate_all(events@) =~= out@);
    }
    out
}

/// A stream of recognized events is translated completely and in order:
/// the consumer observes exactly one event per native event, each the
/// translation of the native event at the same position.
pub proof fn lemma_translation_keeps_order(s: Seq<SessionEvent>)
    requires
        forall|i: int| 0 <= i < s.len() ==> spec_translate(#[trigger] s[i]) is Some,
    ensures
        spec_translate_all(s).len() == s.len(),
        forall|i: int| 0 <= i < s.len() ==> spec_translate_all(s)[i] == spec_translate(
            #[trigger] s[i],
        ).unwrap(),
    decreases s.len(),
{
    if s.len() > 0 {
        lemma_translation_keeps_order(s.drop_first());
        assert forall|i: int| 0 <= i < s.len() implies spec_translate_all(s)[i] == spec_translate(
            #[trigger] s[i],
        ).unwrap() by {
            if i > 0 {
                assert(s.drop_first()[i - 1] == s[i]);
            }
        }
    }
}

/// The push backend. Its accessors answer from what is attached here;
/// the event channel only wakes the consumer, it never carries state.
#[derive(Debug)]
pub struct MPRIS {
    pub artist: Option<String>,
    pub title: Option<String>,
    pub position: Option<u64>,
    pub is_playing: bool,
}

impl MPRIS {
    /// The value construction starts from: nothing known yet.
    pub open spec fn spec_detached() -> MPRIS {
        MPRIS { artist: None, title: None, position: None, is_playing: false }
    }

    /// Attaches to the one active session the listener found.
    ///
    /// `session_found` is what the search over the session bus reported;
    /// with no live, compatible player the construction fails with
    /// `ConnectionFailed` and no backend exists.
    pub fn new(config: &Config, session_found: bool) -> (r: Result<MPRIS, Error>)
        ensures
            session_found ==> r == Ok::<MPRIS, Error>(MPRIS::spec_detached()),
            !session_found ==> r == Err::<MPRIS, Error>(Error::ConnectionFailed),
    {
        if session_found {
            Ok(MPRIS { artist: None, title: None, position: None, is_playing: false })
        } else {
            Err(Error::ConnectionFailed)
        }
    }
}

impl APIBase for MPRIS {
    // The attached session does not surface the player's own name yet, so
    // a fixed stand-in answers.
    open spec fn spec_player_name(&self) -> Seq<char> {
        "asd"@
    }

    open spec fn spec_artist(&self) -> Option<Seq<char>> {
        self.artist.deep_view()
    }

    open spec fn spec_title(&self) -> Option<Seq<char>> {
        self.title.deep_view()
    }

    open spec fn spec_position(&self) -> Option<u64> {
        self.position
    }

    open spec fn spec_is_playing(&self) -> bool {
        self.is_playing
    }

    open spec fn advance_supported(&self) -> bool {
        false
    }

    fn player_name(&self) -> (r: String) {
        String::from_str("asd")
    }

    fn artist(&self) -> (r: Option<String>) {
        self.artist.clone()
    }

    fn title(&self) -> (r: Option<String>) {
        self.title.clone()
    }

    fn position(&self) -> (r: Option<u64>) {
        self.position
    }

    fn is_playing(&self) -> (r: bool) {
        self.is_playing
    }

    fn event_loop(&mut self) {
    }
}

} // verus!

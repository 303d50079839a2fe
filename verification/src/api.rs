//! The capability contract every playback source implements, the event
//! model for push sources, and the factory that selects one backend.

use vstd::prelude::*;
use crate::config::Config;
use crate::error::Error;
use crate::macos::MacOS;
use crate::mpris::MPRIS;
use crate::spotifyweb::{CloudBoot, SpotifyWeb};
use crate::text::str_eq;
use crate::windows::Windows;

verus! {

/// The closed set of backend identities. Some are only available on
/// specific platforms; see `spec_available_on`.
#[derive(Clone, Copy, Debug, PartialEq, Eq, Structural)]
pub enum API {
    MPRIS,
    Windows,
    MacOS,
    SpotifyWeb,
}

/// The build target the process runs on. The platform decides which
/// source kinds the factory will construct at all.
#[derive(Clone, Copy, Debug, PartialEq, Eq, Structural)]
pub enum Platform {
    Linux,
    Bsd,
    Windows,
    MacOS,
}

impl API {
    /// The stable name each kind serializes to.
    pub open spec fn spec_name(&self) -> Seq<char> {
        match self {
            API::MPRIS => "MPRIS"@,
            API::Windows => "Windows"@,
            API::MacOS => "MacOS"@,
            API::SpotifyWeb => "SpotifyWeb"@,
        }
    }

    pub fn name(&self) -> (r: &'static str)
        ensures
            r@ == self.spec_name(),
    {
        match self {
            API::MPRIS => "MPRIS",
            API::Windows => "Windows",
            API::MacOS => "MacOS",
            API::SpotifyWeb => "SpotifyWeb",
        }
    }

    /// The kind a stable name denotes, if any. Case sensitive.
    pub open spec fn spec_from_name(s: Seq<char>) -> Option<API> {
        if s == "MPRIS"@ {
            Some(API::MPRIS)
        } else if s == "Windows"@ {
            Some(API::Windows)
        } else if s == "MacOS"@ {
            Some(API::MacOS)
        } else if s == "SpotifyWeb"@ {
            Some(API::SpotifyWeb)
        } else {
            None
        }
    }

    pub fn from_name(s: &str) -> (r: Option<API>)
        ensures
            r == API::spec_from_name(s@),
    {
        if str_eq(s, "MPRIS") {
            Some(API::MPRIS)
        } else if str_eq(s, "Windows") {
            Some(API::Windows)
        } else if str_eq(s, "MacOS") {
            Some(API::MacOS)
        } else if str_eq(s, "SpotifyWeb") {
            Some(API::SpotifyWeb)
        } else {
            None
        }
    }

    /// Which kinds each platform offers. The session-bus backend exists on
    /// Linux and the BSDs, the native stubs on their own systems, and the
    /// cloud backend everywhere.
    pub open spec fn spec_available_on(&self, p: Platform) -> bool {
        match self {
            API::MPRIS => p == Platform::Linux || p == Platform::Bsd,
            API::Windows => p == Platform::Windows,
            API::MacOS => p == Platform::MacOS,
            API::SpotifyWeb => true,
        }
    }

    pub fn available_on(&self, p: &Platform) -> (r: bool)
        ensures
            r == self.spec_available_on(*p),
    {
        match self {
            API::MPRIS => matches!(p, Platform::Linux | Platform::Bsd),
            API::Windows => matches!(p, Platform::Windows),
            API::MacOS => matches!(p, Platform::MacOS),
            API::SpotifyWeb => true,
        }
    }
}

/// A status-change notification from a push source. Events are immutable
/// and cross the channel by value, in the exact order the source emitted
/// them.
#[derive(Clone, Debug, PartialEq)]
pub enum APIEvent {
    Playing,
    Paused,
    Stopped,
    /// Carries the new absolute position, in milliseconds.
    Seeked(u64),
    /// Carries only an opaque track identifier; consumers re-query
    /// title, artist and position afterward.
    TrackChanged(String),
}

/// The operation set every source backend implements.
///
/// `artist`, `title` and `position` answer `None` when unknown: unknown is
/// a normal state, not a fault. `is_playing` always has an answer.
/// `event_loop` may only be pumped on backends that support it; the
/// factory is the single place that knows which those are.
pub trait APIBase: Sized {
    spec fn spec_player_name(&self) -> Seq<char>;

    spec fn spec_artist(&self) -> Option<Seq<char>>;

    spec fn spec_title(&self) -> Option<Seq<char>>;

    spec fn spec_position(&self) -> Option<u64>;

    spec fn spec_is_playing(&self) -> bool;

    /// Whether the consumer is allowed to pump `event_loop`. Calling it on
    /// a backend that does not support it is a caller contract violation.
    spec fn advance_supported(&self) -> bool;

    /// The identification name of the player this backend watches.
    fn player_name(&self) -> (r: String)
        ensures
            r@ == self.spec_player_name(),
    ;

    /// The most relevant artist of the current song, when one is known.
    fn artist(&self) -> (r: Option<String>)
        ensures
            r.deep_view() == self.spec_artist(),
    ;

    /// The title of the current song, when one is known.
    fn title(&self) -> (r: Option<String>)
        ensures
            r.deep_view() == self.spec_title(),
    ;

    /// The position in the current song, in milliseconds, when known.
    fn position(&self) -> (r: Option<u64>)
        ensures
            r == self.spec_position(),
    ;

    /// Whether the song is playing right now, as opposed to paused.
    fn is_playing(&self) -> (r: bool)
        ensures
            r == self.spec_is_playing(),
    ;

    /// One tick of the event loop, for backends whose liveness model
    /// requires the consumer to pump them.
    fn event_loop(&mut self)
        requires
            old(self).advance_supported(),
    ;
}

/// What the runtime gathered from the outside world for the kind it wants
/// to construct: whether a live session was found for a push backend, or
/// the finished bootstrap of the cloud backend. Stubs need nothing.
#[derive(Debug)]
pub enum SourceProbe {
    Session(bool),
    Cloud(CloudBoot),
    Inert,
}

impl SourceProbe {
    /// The probe the factory expects for each kind: a session probe for the
    /// push backend, a finished cloud bootstrap for the poll backend, and
    /// anything at all for the stubs, which need no outside input.
    pub open spec fn spec_fits(&self, api: API) -> bool {
        match api {
            API::MPRIS => self is Session,
            API::SpotifyWeb => self matches SourceProbe::Cloud(boot) && boot.spec_settled(),
            API::Windows => true,
            API::MacOS => true,
        }
    }
}

/// One constructed backend. The set is closed: selection happens once, at
/// startup, and a backend never changes kind afterward.
#[derive(Debug)]
pub enum Backend {
    MPRIS(MPRIS),
    Windows(Windows),
    MacOS(MacOS),
    SpotifyWeb(SpotifyWeb),
}

impl APIBase for Backend {
    open spec fn spec_player_name(&self) -> Seq<char> {
        match self {
            Backend::MPRIS(b) => b.spec_player_name(),
            Backend::Windows(b) => b.spec_player_name(),
            Backend::MacOS(b) => b.spec_player_name(),
            Backend::SpotifyWeb(b) => b.spec_player_name(),
        }
    }

    open spec fn spec_artist(&self) -> Option<Seq<char>> {
        match self {
            Backend::MPRIS(b) => b.spec_artist(),
            Backend::Windows(b) => b.spec_artist(),
            Backend::MacOS(b) => b.spec_artist(),
            Backend::SpotifyWeb(b) => b.spec_artist(),
        }
    }

    open spec fn spec_title(&self) -> Option<Seq<char>> {
        match self {
            Backend::MPRIS(b) => b.spec_title(),
            Backend::Windows(b) => b.spec_title(),
            Backend::MacOS(b) => b.spec_title(),
            Backend::SpotifyWeb(b) => b.spec_title(),
        }
    }

    open spec fn spec_position(&self) -> Option<u64> {
        match self {
            Backend::MPRIS(b) => b.spec_position(),
            Backend::Windows(b) => b.spec_position(),
            Backend::MacOS(b) => b.spec_position(),
            Backend::SpotifyWeb(b) => b.spec_position(),
        }
    }

    open spec fn spec_is_playing(&self) -> bool {
        match self {
            Backend::MPRIS(b) => b.spec_is_playing(),
            Backend::Windows(b) => b.spec_is_playing(),
            Backend::MacOS(b) => b.spec_is_playing(),
            Backend::SpotifyWeb(b) => b.spec_is_playing(),
        }
    }

    open spec fn advance_supported(&self) -> bool {
        match self {
            Backend::MPRIS(b) => b.advance_supported(),
            Backend::Windows(b) => b.advance_supported(),
            Backend::MacOS(b) => b.advance_supported(),
            Backend::SpotifyWeb(b) => b.advance_supported(),
        }
    }

    fn player_name(&self) -> (r: String) {
        match self {
            Backend::MPRIS(b) => b.player_name(),
            Backend::Windows(b) => b.player_name(),
            Backend::MacOS(b) => b.player_name(),
            Backend::SpotifyWeb(b) => b.player_name(),
        }
    }

    fn artist(&self) -> (r: Option<String>) {
        match self {
            Backend::MPRIS(b) => b.artist(),
            Backend::Windows(b) => b.artist(),
            Backend::MacOS(b) => b.artist(),
            Backend::SpotifyWeb(b) => b.artist(),
        }
    }

    fn title(&self) -> (r: Option<String>) {
        match self {
            Backend::MPRIS(b) => b.title(),
            Backend::Windows(b) => b.title(),
            Backend::MacOS(b) => b.title(),
            Backend::SpotifyWeb(b) => b.title(),
        }
    }

    fn position(&self) -> (r: Option<u64>) {
        match self {
            Backend::MPRIS(b) => b.position(),
            Backend::Windows(b) => b.position(),
            Backend::MacOS(b) => b.position(),
            Backend::SpotifyWeb(b) => b.position(),
        }
    }

    fn is_playing(&self) -> (r: bool) {
        match self {
            Backend::MPRIS(b) => b.is_playing(),
            Backend::Windows(b) => b.is_playing(),
            Backend::MacOS(b) => b.is_playing(),
            Backend::SpotifyWeb(b) => b.is_playing(),
        }
    }

    fn event_loop(&mut self) {
        match self {
            Backend::MPRIS(b) => b.event_loop(),
            Backend::Windows(b) => b.event_loop(),
            Backend::MacOS(b) => b.event_loop(),
            Backend::SpotifyWeb(b) => b.event_loop(),
        }
    }
}

/// Constructs the one backend the configuration selects.
///
/// A kind the platform does not offer fails with `ConfigInvalid` before
/// any outside work is read; so does a probe that does not belong to the
/// requested kind. Otherwise the backend's own construction rule decides,
/// with the specific error of the source, never a generic one.
pub fn init_api(platform: &Platform, api: &API, config: &Config, probe: SourceProbe) -> (r:
    Result<Backend, Error>)
    ensures
        !api.spec_available_on(*platform) ==> r == Err::<Backend, Error>(Error::ConfigInvalid),
        api.spec_available_on(*platform) && !probe.spec_fits(*api) ==> r == Err::<Backend, Error>(
            Error::ConfigInvalid,
        ),
        api.spec_available_on(*platform) && probe.spec_fits(*api) ==> match *api {
            API::MPRIS => (probe matches SourceProbe::Session(found) && found ==> r == Ok::<
                Backend,
                Error,
            >(Backend::MPRIS(MPRIS::spec_detached()))) && (probe matches SourceProbe::Session(found)
                && !found ==> r == Err::<Backend, Error>(Error::ConnectionFailed)),
            API::Windows => r == Ok::<Backend, Error>(Backend::Windows(Windows {  })),
            API::MacOS => r == Ok::<Backend, Error>(Backend::MacOS(MacOS {  })),
            API::SpotifyWeb => (probe matches SourceProbe::Cloud(boot) ==> match SpotifyWeb::spec_new(
                boot,
            ) {
                Ok(b) => r == Ok::<Backend, Error>(Backend::SpotifyWeb(b)),
                Err(e) => r == Err::<Backend, Error>(e),
            }),
        },
{
    if !api.available_on(platform) {
        return Err(Error::ConfigInvalid);
    }
    match api {
        API::MPRIS => match probe {
            SourceProbe::Session(found) => match MPRIS::new(config, found) {
                Ok(b) => Ok(Backend::MPRIS(b)),
                Err(e) => Err(e),
            },
            _ => Err(Error::ConfigInvalid),
        },
        API::Windows => match Windows::new(config) {
            Ok(b) => Ok(Backend::Windows(b)),
            Err(e) => Err(e),
        },
        API::MacOS => match MacOS::new(config) {
            Ok(b) => Ok(Backend::MacOS(b)),
            Err(e) => Err(e),
        },
        API::SpotifyWeb => match probe {
            SourceProbe::Cloud(boot) => {
                if boot.settled() {
                    match SpotifyWeb::new(boot) {
                        Ok(b) => Ok(Backend::SpotifyWeb(b)),
                        Err(e) => Err(e),
                    }
                } else {
                    Err(Error::ConfigInvalid)
                }
            },
            _ => Err(Error::ConfigInvalid),
        },
    }
}

} // verus!

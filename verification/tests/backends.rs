use vidify::api::{init_api, APIBase, APIEvent, Backend, Platform, SourceProbe, API};
use vidify::audiosync::Audiosync;
use vidify::config::Config;
use vidify::error::Error;
use vidify::lyrics::{init_lyrics, Lyrics, LyricsBase};
use vidify::macos::MacOS;
use vidify::mpris::{translate_event, translate_events, SessionEvent, MPRIS};
use vidify::player::{External, Player, PlayerBase};
use vidify::spotifyweb::{BootEvent, CloudBoot};
use vidify::windows::Windows;

/// A session emitting play, pause, stop is observed as exactly playing,
/// paused, stopped, in that order.
#[test]
fn push_events_keep_order() {
    let out = translate_events(vec![SessionEvent::Play, SessionEvent::Pause, SessionEvent::Stop]);
    assert_eq!(out, vec![APIEvent::Playing, APIEvent::Paused, APIEvent::Stopped]);
}

/// Seeks and track changes carry their payloads; unrecognized events are
/// dropped without disturbing the rest.
#[test]
fn push_event_translation() {
    assert_eq!(translate_event(SessionEvent::Seek(1500)), Some(APIEvent::Seeked(1500)));
    assert_eq!(
        translate_event(SessionEvent::TrackChange("id-1".to_string())),
        Some(APIEvent::TrackChanged("id-1".to_string())),
    );
    assert_eq!(translate_event(SessionEvent::Other), None);
    let out = translate_events(vec![SessionEvent::Play, SessionEvent::Other, SessionEvent::Stop]);
    assert_eq!(out, vec![APIEvent::Playing, APIEvent::Stopped]);
}

/// The push backend only exists once a live session was found.
#[test]
fn mpris_needs_a_session() {
    let config = Config::default();
    assert_eq!(MPRIS::new(&config, false).unwrap_err(), Error::ConnectionFailed);
    let mpris = MPRIS::new(&config, true).unwrap();
    assert_eq!(mpris.artist(), None);
    assert_eq!(mpris.title(), None);
    assert_eq!(mpris.position(), None);
    assert!(!mpris.is_playing());
}

/// Stub construction never blocks and its accessors never hold a
/// present value.
#[test]
fn stubs_answer_absence() {
    let config = Config::default();
    let macos = MacOS::new(&config).unwrap();
    assert_eq!(macos.player_name(), "Mac OS");
    assert_eq!(macos.artist(), None);
    assert_eq!(macos.title(), None);
    assert_eq!(macos.position(), None);
    assert!(macos.is_playing());
    let windows = Windows::new(&config).unwrap();
    assert_eq!(windows.player_name(), "Windows Player");
    assert_eq!(windows.artist(), None);
    assert_eq!(windows.title(), None);
    assert_eq!(windows.position(), None);
    assert!(windows.is_playing());
}

/// The factory refuses kinds the platform does not offer, before any
/// outside work.
#[test]
fn factory_checks_platform() {
    let config = Config::default();
    let r = init_api(&Platform::Windows, &API::MPRIS, &config, SourceProbe::Session(true));
    assert_eq!(r.unwrap_err(), Error::ConfigInvalid);
    let r = init_api(&Platform::Linux, &API::MacOS, &config, SourceProbe::Inert);
    assert_eq!(r.unwrap_err(), Error::ConfigInvalid);
}

/// The factory hands each construction to its backend's own rule.
#[test]
fn factory_constructs_each_kind() {
    let config = Config::default();
    let r = init_api(&Platform::Linux, &API::MPRIS, &config, SourceProbe::Session(true)).unwrap();
    assert!(matches!(r, Backend::MPRIS(_)));
    let r = init_api(&Platform::Linux, &API::MPRIS, &config, SourceProbe::Session(false));
    assert_eq!(r.unwrap_err(), Error::ConnectionFailed);
    let r = init_api(&Platform::MacOS, &API::MacOS, &config, SourceProbe::Inert).unwrap();
    assert!(r.is_playing());
    let boot = CloudBoot::Failed(Error::AuthFailed);
    let r = init_api(&Platform::Linux, &API::SpotifyWeb, &config, SourceProbe::Cloud(boot));
    assert_eq!(r.unwrap_err(), Error::AuthFailed);
}

/// A probe that belongs to another kind is a configuration error, and an
/// unsettled bootstrap cannot construct the cloud backend.
#[test]
fn factory_checks_probe() {
    let config = Config::default();
    let r = init_api(&Platform::Linux, &API::MPRIS, &config, SourceProbe::Inert);
    assert_eq!(r.unwrap_err(), Error::ConfigInvalid);
    let probe = SourceProbe::Cloud(CloudBoot::Listen("localhost:8888".to_string()));
    let r = init_api(&Platform::Linux, &API::SpotifyWeb, &config, probe);
    assert_eq!(r.unwrap_err(), Error::ConfigInvalid);
}

/// The dispatching backend answers through the constructed variant.
#[test]
fn backend_dispatches() {
    let config = Config::default();
    let backend =
        init_api(&Platform::Bsd, &API::MPRIS, &config, SourceProbe::Session(true)).unwrap();
    assert_eq!(backend.artist(), None);
    assert!(!backend.is_playing());
}

/// Each source kind keeps its stable name, both ways.
#[test]
fn api_names_round_trip() {
    for api in [API::MPRIS, API::Windows, API::MacOS, API::SpotifyWeb] {
        assert_eq!(API::from_name(api.name()), Some(api));
    }
    assert_eq!(API::from_name("mpris"), None);
    assert_eq!(API::from_name(""), None);
}

/// Platform availability: the session-bus backend on Linux and the BSDs,
/// the stubs on their systems, the cloud backend everywhere.
#[test]
fn api_availability() {
    assert!(API::MPRIS.available_on(&Platform::Linux));
    assert!(API::MPRIS.available_on(&Platform::Bsd));
    assert!(!API::MPRIS.available_on(&Platform::Windows));
    assert!(API::Windows.available_on(&Platform::Windows));
    assert!(!API::Windows.available_on(&Platform::MacOS));
    assert!(API::MacOS.available_on(&Platform::MacOS));
    for p in [Platform::Linux, Platform::Bsd, Platform::Windows, Platform::MacOS] {
        assert!(API::SpotifyWeb.available_on(&p));
    }
}

/// The player and lyrics kinds keep their stable names too.
#[test]
fn player_and_lyrics_names() {
    for player in [Player::Mpv, Player::External] {
        assert_eq!(Player::from_name(player.name()), Some(player));
    }
    assert_eq!(Lyrics::default(), Lyrics::LyricWikia);
    assert_eq!(Lyrics::from_name("None"), Some(Lyrics::Disabled));
    assert_eq!(Lyrics::from_name("LyricWikia"), Some(Lyrics::LyricWikia));
    assert_eq!(Lyrics::from_name("nothing"), None);
}

/// Lyrics construction: none when disabled, the placeholder otherwise.
#[test]
fn lyrics_construction() {
    assert!(init_lyrics(&Lyrics::Disabled).unwrap().is_none());
    let provider = init_lyrics(&Lyrics::LyricWikia).unwrap().unwrap();
    assert_eq!(provider.get_lyrics("artist", "title"), "some lyrics go here");
}

/// The external player placeholder: constructs, controls do nothing.
#[test]
fn external_player_stub() {
    let config = Config::default();
    let mut external = External::new(&config, 0).unwrap();
    assert!(external.is_paused());
    assert_eq!(external.position().unwrap(), 0);
    external.set_pause(true);
    external.seek_relative(-100);
    external.seek_absolute(100);
    external.start_video("some video", true);
    assert!(external.is_paused());
}

/// The audiosync handle constructs and sets up without blocking.
#[test]
fn audiosync_setup() {
    let sync = Audiosync::new();
    assert!(sync.setup().is_ok());
    assert!(Audiosync::default().setup().is_ok());
}

/// Every error kind describes itself stably.
#[test]
fn error_messages() {
    assert_eq!(Error::ConnectionFailed.message(), "could not connect to any player session");
    assert_eq!(Error::AuthFailed.message(), "authentication with the provider failed");
    assert_eq!(Error::NoTrackPlaying.message(), "no track is currently playing");
    assert_eq!(Error::ConfigInvalid.message(), "invalid configuration");
}

/// The default configuration points the redirect at the loopback.
#[test]
fn default_config() {
    let config = Config::default();
    assert_eq!(config.redirect_uri, "http://localhost:8888/callback/");
    assert!(config.client_id.is_none());
    assert!(config.refresh_token.is_none());
    assert_eq!(config.mpv_properties.len(), 0);
}

/// A boot event arriving after settling changes nothing.
#[test]
fn settled_boot_absorbs() {
    let boot = CloudBoot::Failed(Error::NoTrackPlaying);
    let boot = vidify::spotifyweb::boot_step(boot, BootEvent::TransportFailed);
    assert!(matches!(boot, CloudBoot::Failed(Error::NoTrackPlaying)));
}

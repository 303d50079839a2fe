use vidify::config::Config;
use vidify::error::Error;
use vidify::spotifyweb::{
    boot_begin, boot_step, extract_code, ok_response, to_bind_format, AccessToken, BootEvent,
    CloudBoot, PlayingTrack, Snapshot, SpotifyWeb,
};
use vidify::api::APIBase;

fn cloud_config() -> Config {
    let mut config = Config::default();
    config.client_id = Some("SECRET-REDACTED".to_string());
    config.client_secret = Some("SECRET-REDACTED".to_string());
    config
}

fn token() -> AccessToken {
    AccessToken {
        access_token: "SECRET-REDACTED".to_string(),
        refresh_token: None,
        expires_in: 3600,
    }
}

fn playing_snapshot() -> Snapshot {
    Snapshot::from_track(
        Some(PlayingTrack {
            name: "Believer".to_string(),
            artists: vec!["Imagine Dragons".to_string(), "Lil Wayne".to_string()],
        }),
        Some(12_000),
        true,
    )
}

#[test]
fn correct_bind_format() {
    assert_eq!(to_bind_format("http://localhost:0000").unwrap(), "localhost:0000",);
    assert_eq!(to_bind_format("https://localhost:1234").unwrap(), "localhost:1234",);
    assert_eq!(
        to_bind_format("http://localhost:8888/callback/").unwrap(),
        "localhost:8888",
    );
    assert_eq!(
        to_bind_format("http://localhost:0/callback/").unwrap(),
        "localhost:0",
    );
}

#[test]
#[should_panic]
fn incorrect_bind_format() {
    to_bind_format("localhost:8888").unwrap();
}

/// A URI without the third `/`-delimited segment is a configuration
/// error, not an authentication one.
#[test]
fn bind_format_error_kind() {
    assert_eq!(to_bind_format("localhost:8888").unwrap_err(), Error::ConfigInvalid);
    assert_eq!(to_bind_format("").unwrap_err(), Error::ConfigInvalid);
}

/// The example exchange from the redirect protocol.
#[test]
fn extract_code_from_request_line() {
    assert_eq!(
        extract_code("GET /callback/?code=AQBMXGN&state=sXAJJhszLFKzcPDf HTTP/1.1").unwrap(),
        "AQBMXGN",
    );
    assert_eq!(extract_code("GET /cb?code=XYZ&state=S HTTP/1.1").unwrap(), "XYZ");
}

/// Without a state parameter the code runs to the next whitespace.
#[test]
fn extract_code_without_state() {
    assert_eq!(extract_code("GET /callback/?code=AQBMXGN HTTP/1.1").unwrap(), "AQBMXGN");
    assert_eq!(extract_code("GET /callback/?code=tail").unwrap(), "tail");
}

/// A request line that announces no code fails with `AuthFailed`.
#[test]
fn extract_code_requires_code() {
    assert_eq!(extract_code("GET / HTTP/1.1").unwrap_err(), Error::AuthFailed);
    assert_eq!(extract_code("").unwrap_err(), Error::AuthFailed);
}

/// Missing credentials settle the bootstrap before any outside work.
#[test]
fn boot_requires_credentials() {
    let config = Config::default();
    assert!(matches!(boot_begin(&config), CloudBoot::Failed(Error::ConfigInvalid)));
}

/// A configured refresh token short-circuits the interactive path.
#[test]
fn boot_reuses_refresh_token() {
    let mut config = cloud_config();
    config.refresh_token = Some("SECRET-REDACTED".to_string());
    match boot_begin(&config) {
        CloudBoot::RefreshExchange(rt) => assert_eq!(rt, "SECRET-REDACTED"),
        other => panic!("expected a refresh exchange, got {:?}", other),
    }
}

/// Without a refresh token the listener address is fixed first, from the
/// configured redirect URI.
#[test]
fn boot_listens_on_redirect_uri() {
    let config = cloud_config();
    match boot_begin(&config) {
        CloudBoot::Listen(addr) => assert_eq!(addr, "localhost:8888"),
        other => panic!("expected a listener, got {:?}", other),
    }
}

/// A malformed redirect URI is a configuration error, found before any
/// listener exists.
#[test]
fn boot_rejects_malformed_redirect_uri() {
    let mut config = cloud_config();
    config.redirect_uri = "localhost:8888".to_string();
    assert!(matches!(boot_begin(&config), CloudBoot::Failed(Error::ConfigInvalid)));
}

/// A rejected refresh token fails construction with `AuthFailed`,
/// never `NoTrackPlaying`.
#[test]
fn rejected_refresh_token_is_auth_failure() {
    let mut config = cloud_config();
    config.refresh_token = Some("SECRET-REDACTED".to_string());
    let boot = boot_begin(&config);
    let boot = boot_step(boot, BootEvent::RefreshResult(None));
    assert!(matches!(boot, CloudBoot::Failed(Error::AuthFailed)));
    // Whatever comes later, the outcome stays the same rejection.
    let boot = boot_step(boot, BootEvent::WarmResult(None));
    assert!(matches!(boot, CloudBoot::Failed(Error::AuthFailed)));
    assert_eq!(SpotifyWeb::new(boot).unwrap_err(), Error::AuthFailed);
}

/// Authenticating and then finding no active playback is the distinct
/// `NoTrackPlaying`, telling the caller to wait, not to re-authenticate.
#[test]
fn no_active_playback_is_no_track() {
    let mut config = cloud_config();
    config.refresh_token = Some("SECRET-REDACTED".to_string());
    let boot = boot_begin(&config);
    let boot = boot_step(boot, BootEvent::RefreshResult(Some(token())));
    assert!(matches!(boot, CloudBoot::FetchWarm(_)));
    let boot = boot_step(boot, BootEvent::WarmResult(None));
    assert!(matches!(boot, CloudBoot::Failed(Error::NoTrackPlaying)));
    assert_eq!(SpotifyWeb::new(boot).unwrap_err(), Error::NoTrackPlaying);
}

/// A warm fetch that itself fails is an authentication failure.
#[test]
fn failed_warm_fetch_is_auth_failure() {
    let boot = boot_step(CloudBoot::FetchWarm(token()), BootEvent::WarmFailed);
    assert_eq!(SpotifyWeb::new(boot).unwrap_err(), Error::AuthFailed);
}

/// The interactive path: redirect line in, code out, token exchanged,
/// warm snapshot fetched.
#[test]
fn interactive_bootstrap_succeeds() {
    let config = cloud_config();
    let boot = boot_begin(&config);
    let boot = boot_step(
        boot,
        BootEvent::RedirectLine("GET /callback/?code=AQBMXGN&state=s HTTP/1.1".to_string()),
    );
    match &boot {
        CloudBoot::CodeExchange(code) => assert_eq!(code, "AQBMXGN"),
        other => panic!("expected a code exchange, got {:?}", other),
    }
    let boot = boot_step(boot, BootEvent::CodeResult(Some(token())));
    let boot = boot_step(boot, BootEvent::WarmResult(Some(playing_snapshot())));
    let web = SpotifyWeb::new(boot).unwrap();
    assert_eq!(web.artist().unwrap(), "Imagine Dragons");
    assert_eq!(web.title().unwrap(), "Believer");
    assert_eq!(web.position(), Some(12_000));
    assert!(web.is_playing());
    assert_eq!(web.player_name(), "Spotify Web Player");
}

/// A redirect line without a code collapses into `AuthFailed`, like
/// every other failure inside the bootstrap.
#[test]
fn interactive_bootstrap_rejects_bad_line() {
    let config = cloud_config();
    let boot = boot_begin(&config);
    let boot = boot_step(boot, BootEvent::RedirectLine("GET / HTTP/1.1".to_string()));
    assert!(matches!(boot, CloudBoot::Failed(Error::AuthFailed)));
    let boot = boot_step(
        boot_begin(&config),
        BootEvent::TransportFailed,
    );
    assert!(matches!(boot, CloudBoot::Failed(Error::AuthFailed)));
}

/// An event that belongs to another state changes nothing.
#[test]
fn boot_ignores_mismatched_events() {
    let config = cloud_config();
    let boot = boot_step(boot_begin(&config), BootEvent::WarmResult(None));
    assert!(matches!(boot, CloudBoot::Listen(_)));
}

/// After construction, a refresh that finds playback stopped answers
/// absence values from the accessors, not an error.
#[test]
fn refresh_after_stop_reports_absence() {
    let boot = boot_step(
        CloudBoot::FetchWarm(token()),
        BootEvent::WarmResult(Some(playing_snapshot())),
    );
    let mut web = SpotifyWeb::new(boot).unwrap();
    assert!(web.is_playing());
    web.refresh(None);
    assert_eq!(web.artist(), None);
    assert_eq!(web.title(), None);
    assert_eq!(web.position(), None);
    assert!(!web.is_playing());
}

/// A refresh with a fresh snapshot replaces the whole snapshot.
#[test]
fn refresh_replaces_snapshot_wholesale() {
    let boot = boot_step(
        CloudBoot::FetchWarm(token()),
        BootEvent::WarmResult(Some(playing_snapshot())),
    );
    let mut web = SpotifyWeb::new(boot).unwrap();
    web.refresh(Some(Snapshot::from_track(
        Some(PlayingTrack { name: "Next".to_string(), artists: vec![] }),
        None,
        false,
    )));
    assert_eq!(web.artist(), None);
    assert_eq!(web.title().unwrap(), "Next");
    assert_eq!(web.position(), None);
    assert!(!web.is_playing());
}

/// The snapshot takes the track's first artist as the most relevant one.
#[test]
fn snapshot_takes_first_artist() {
    let snapshot = playing_snapshot();
    assert_eq!(snapshot.artist.as_deref(), Some("Imagine Dragons"));
    let bare = Snapshot::from_track(None, Some(3), false);
    assert_eq!(bare.artist, None);
    assert_eq!(bare.title, None);
    assert_eq!(bare.position_ms, Some(3));
}

/// The loopback listener's one response is the fixed 200 OK page.
#[test]
fn ok_response_is_fixed() {
    let response = ok_response();
    assert!(response.starts_with("HTTP/1.1 200 OK\nContent-Type: text/html; charset=UTF-8\n\n"));
    assert!(response.ends_with("</html>"));
}

/// The authorize URL asks for the fixed read-only scope.
#[test]
fn scope_is_read_only() {
    assert_eq!(
        vidify::spotifyweb::authorize_scope(),
        "user-read-currently-playing user-read-playback-state"
    );
}

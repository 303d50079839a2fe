//! The poll backend for the cloud player, and the loopback OAuth
//! bootstrap it needs before it can answer queries.
//!
//! Construction acquires a token (reusing a configured refresh token, or
//! capturing one authorization-code redirect on a loopback listener),
//! builds a client from it, and fetches one warm snapshot. The network,
//! the listener socket and the browser are outside work; the decisions
//! between them form the bootstrap state machine below, which the runtime
//! drives by handing each outside result back as an event.

use vstd::prelude::*;
use crate::api::APIBase;
use crate::config::Config;
use crate::error::Error;
use crate::text::{
    find_char, find_from, find_space, find_space_from, find_sub, find_sub_from, is_space,
    lemma_find_from, lemma_find_from_subrange, lemma_find_space_from, lemma_find_sub_from,
};

verus! {

/// What the provider hands back for a token exchange: the access token,
/// a refresh token for later runs when one is offered, and the expiry in
/// seconds.
#[derive(Debug)]
pub struct AccessToken {
    pub access_token: String,
    pub refresh_token: Option<String>,
    pub expires_in: u32,
}

/// The track the provider reports as current: its title and its artists,
/// most relevant first.
#[derive(Debug)]
pub struct PlayingTrack {
    pub name: String,
    pub artists: Vec<String>,
}

/// The playback status the poll backend answers from, replaced wholesale
/// on each refresh and never partially mutated.
#[derive(Debug)]
pub struct Snapshot {
    pub artist: Option<String>,
    pub title: Option<String>,
    pub position_ms: Option<u64>,
    pub is_playing: bool,
}

impl Snapshot {
    /// The snapshot of stopped playback: nothing known, nothing playing.
    pub open spec fn spec_stopped() -> Snapshot {
        Snapshot { artist: None, title: None, position_ms: None, is_playing: false }
    }

    pub fn stopped() -> (s: Snapshot)
        ensures
            s == Snapshot::spec_stopped(),
    {
        Snapshot { artist: None, title: None, position_ms: None, is_playing: false }
    }

    /// Builds the snapshot from what one "currently playing" answer
    /// holds: the track when there is one, the progress, and whether it
    /// is playing. The artist is the track's first one.
    pub fn from_track(track: Option<PlayingTrack>, progress_ms: Option<u64>, is_playing: bool) -> (
        s: Snapshot)
        ensures
            s.position_ms == progress_ms,
            s.is_playing == is_playing,
            track matches Some(t) ==> s.title == Some(t.name) && (t.artists@.len() > 0
                ==> s.artist == Some(t.artists@[0])) && (t.artists@.len() == 0 ==> s.artist
                is None),
            track is None ==> s.title is None && s.artist is None,
    {
        match track {
            Some(t) => {
                let mut artists = t.artists;
                let artist = if artists.len() > 0 {
                    Some(artists.remove(0))
                } else {
                    None
                };
                Snapshot { artist, title: Some(t.name), position_ms: progress_ms, is_playing }
            },
            None => Snapshot { artist: None, title: None, position_ms: progress_ms, is_playing },
        }
    }
}

/// The third `/`-delimited segment of a URI: everything after the
/// scheme's double slash, up to the next `/` or the end.
pub open spec fn third_segment(s: Seq<char>) -> Option<Seq<char>> {
    match find_from(s, 0, '/') {
        Some(i) => match find_from(s, i + 1, '/') {
            Some(j) => {
                let end = match find_from(s, j + 1, '/') {
                    Some(k) => k,
                    None => s.len() as int,
                };
                Some(s.subrange(j + 1, end))
            },
            None => None,
        },
        None => None,
    }
}

/// Turns a redirect URI like `http://localhost:8888/callback/` into the
/// bindable `localhost:8888`. A URI without that third segment is a
/// configuration error, found before any listener exists.
pub fn to_bind_format(bind_uri: &str) -> (r: Result<String, Error>)
    ensures
        match third_segment(bind_uri@) {
            Some(seg) => r matches Ok(h) && h@ == seg,
            None => r == Err::<String, Error>(Error::ConfigInvalid),
        },
{
    let n = bind_uri.unicode_len();
    let first = match find_char(bind_uri, 0, '/') {
        Some(i) => i,
        None => {
            return Err(Error::ConfigInvalid);
        },
    };
    proof {
        lemma_find_from(bind_uri@, 0, '/');
    }
    let second = match find_char(bind_uri, first + 1, '/') {
        Some(j) => j,
        None => {
            return Err(Error::ConfigInvalid);
        },
    };
    proof {
        lemma_find_from(bind_uri@, first as int + 1, '/');
    }
    let end = match find_char(bind_uri, second + 1, '/') {
        Some(k) => k,
        None => n,
    };
    proof {
        lemma_find_from(bind_uri@, second as int + 1, '/');
    }
    let seg = bind_uri.substring_char(second + 1, end);
    Ok(seg.to_owned())
}

/// No slashes, no third segment: a bare `host:port` fails extraction.
pub proof fn lemma_third_segment_needs_slashes(u: Seq<char>)
    requires
        forall|k: int| 0 <= k < u.len() ==> u[k] != '/',
    ensures
        third_segment(u) is None,
{
    crate::text::lemma_find_from_none(u, 0, '/');
}

/// On every well-formed URI `scheme://host:port[/path...]` — a scheme
/// part free of slashes, then `//`, then a slash-free authority, then
/// either nothing or a path starting with `/` — extraction returns
/// exactly the authority.
pub proof fn lemma_third_segment_of_uri(scheme: Seq<char>, hostport: Seq<char>, path: Seq<char>)
    requires
        forall|k: int| 0 <= k < scheme.len() ==> scheme[k] != '/',
        forall|k: int| 0 <= k < hostport.len() ==> hostport[k] != '/',
        path.len() == 0 || path[0] == '/',
    ensures
        third_segment(scheme + seq!['/', '/'] + hostport + path) == Some(hostport),
{
    let u = scheme + seq!['/', '/'] + hostport + path;
    let a = scheme.len() as int;
    let h = hostport.len() as int;
    assert(u[a] == '/');
    assert(u[a + 1] == '/');
    assert forall|k: int| 0 <= k < a implies u[k] != '/' by {
        assert(u[k] == scheme[k]);
    }
    crate::text::lemma_find_from_value(u, 0, '/', a);
    crate::text::lemma_find_from_value(u, a + 1, '/', a + 1);
    if path.len() == 0 {
        assert forall|k: int| a + 2 <= k < u.len() implies u[k] != '/' by {
            assert(u[k] == hostport[k - a - 2]);
        }
        crate::text::lemma_find_from_none(u, a + 2, '/');
        assert(u.subrange(a + 2, u.len() as int) =~= hostport);
    } else {
        assert(u[a + 2 + h] == path[0]);
        assert forall|k: int| a + 2 <= k < a + 2 + h implies u[k] != '/' by {
            assert(u[k] == hostport[k - a - 2]);
        }
        crate::text::lemma_find_from_value(u, a + 2, '/', a + 2 + h);
        assert(u.subrange(a + 2, a + 2 + h) =~= hostport);
    }
}

/// The literal the redirect's query string announces the code with.
pub open spec fn code_pat() -> Seq<char> {
    seq!['?', 'c', 'o', 'd', 'e', '=']
}

/// The authorization code carried by a redirect request line: everything
/// after the first `?code=`, up to the next whitespace, trimmed at a
/// following `&`. `None` when the line announces no code.
pub open spec fn code_of(s: Seq<char>) -> Option<Seq<char>> {
    match find_sub_from(s, code_pat(), 0) {
        Some(i) => {
            let start = i + code_pat().len() as int;
            let wend = match find_space_from(s, start) {
                Some(j) => j,
                None => s.len() as int,
            };
            let tok = s.subrange(start, wend);
            let aend = match find_from(tok, 0, '&') {
                Some(k) => k,
                None => tok.len() as int,
            };
            Some(tok.subrange(0, aend))
        },
        None => None,
    }
}

/// Extracts the authorization code from the first line of the redirect's
/// HTTP request, such as `GET /callback/?code=XYZ&state=S HTTP/1.1`.
/// A line that announces no code fails with `AuthFailed`.
pub fn extract_code(data: &str) -> (r: Result<String, Error>)
    ensures
        match code_of(data@) {
            Some(code) => r matches Ok(c) && c@ == code,
            None => r == Err::<String, Error>(Error::AuthFailed),
        },
{
    let pat = "?code=";
    proof {
        reveal_strlit("?code=");
        assert(pat@ =~= code_pat());
    }
    let n = data.unicode_len();
    let found = match find_sub(data, pat, 0) {
        Some(i) => i,
        None => {
            return Err(Error::AuthFailed);
        },
    };
    proof {
        lemma_find_sub_from(data@, pat@, 0);
    }
    let start = found + 6;
    let wend = match find_space(data, start) {
        Some(j) => j,
        None => n,
    };
    proof {
        lemma_find_space_from(data@, start as int);
    }
    let aend = match find_char(data, start, '&') {
        Some(p) => if p < wend {
            p
        } else {
            wend
        },
        None => wend,
    };
    proof {
        lemma_find_from(data@, start as int, '&');
        lemma_find_from_subrange(data@, start as int, wend as int, '&');
        let tok = data@.subrange(start as int, wend as int);
        assert(tok.subrange(0, aend as int - start as int) =~= data@.subrange(
            start as int,
            aend as int,
        ));
    }
    let code = data.substring_char(start, aend);
    Ok(code.to_owned())
}

/// On every redirect line built as `prefix?code=CODE...` — a prefix free
/// of `?`, a code free of whitespace and `&`, then nothing, a `&`, or
/// whitespace — extraction returns exactly the code.
pub proof fn lemma_extract_code_of_line(prefix: Seq<char>, code: Seq<char>, tail: Seq<char>)
    requires
        forall|k: int| 0 <= k < prefix.len() ==> prefix[k] != '?',
        forall|k: int| 0 <= k < code.len() ==> code[k] != '&' && !is_space(#[trigger] code[k]),
        tail.len() == 0 || tail[0] == '&' || is_space(tail[0]),
    ensures
        code_of(prefix + code_pat() + code + tail) == Some(code),
{
    let u = prefix + code_pat() + code + tail;
    let p = prefix.len() as int;
    let c = code.len() as int;
    let start = p + 6;
    assert(u.subrange(p, p + 6) =~= code_pat());
    assert forall|k: int| 0 <= k < p implies !crate::text::match_at(u, code_pat(), k) by {
        if crate::text::match_at(u, code_pat(), k) {
            assert(u.subrange(k, k + 6)[0] == u[k]);
            assert(u[k] == prefix[k]);
        }
    }
    crate::text::lemma_find_sub_from_value(u, code_pat(), 0, p);
    assert forall|k: int| start <= k < start + c implies !is_space(u[k]) && u[k] != '&' by {
        assert(u[k] == code[k - start]);
    }
    if tail.len() == 0 {
        crate::text::lemma_find_space_from_none(u, start);
        let tok = u.subrange(start, u.len() as int);
        assert(tok =~= code);
        crate::text::lemma_find_from_none(tok, 0, '&');
        assert(tok.subrange(0, tok.len() as int) =~= code);
    } else if tail[0] == '&' {
        assert(u[start + c] == tail[0]);
        let wend = match find_space_from(u, start) {
            Some(j) => j,
            None => u.len() as int,
        };
        lemma_find_space_from(u, start);
        assert(wend > start + c);
        let tok = u.subrange(start, wend);
        assert(tok[c] == '&');
        assert forall|k: int| 0 <= k < c implies tok[k] != '&' by {
            assert(tok[k] == code[k]);
        }
        crate::text::lemma_find_from_value(tok, 0, '&', c);
        assert(tok.subrange(0, c) =~= code);
    } else {
        assert(is_space(u[start + c]));
        crate::text::lemma_find_space_from_value(u, start, start + c);
        let tok = u.subrange(start, start + c);
        assert(tok =~= code);
        crate::text::lemma_find_from_none(tok, 0, '&');
        assert(tok.subrange(0, tok.len() as int) =~= code);
    }
}

/// A line with no `?` at all announces no code and fails extraction.
pub proof fn lemma_extract_code_none(u: Seq<char>)
    requires
        forall|k: int| 0 <= k < u.len() ==> u[k] != '?',
    ensures
        code_of(u) is None,
{
    lemma_find_sub_from(u, code_pat(), 0);
    if find_sub_from(u, code_pat(), 0) is Some {
        let i = find_sub_from(u, code_pat(), 0).unwrap();
        assert(u.subrange(i, i + 6)[0] == u[i]);
    }
}

/// The read-only scope the authorize URL asks for.
pub fn authorize_scope() -> (r: &'static str)
    ensures
        r@ == "user-read-currently-playing user-read-playback-state"@,
{
    "user-read-currently-playing user-read-playback-state"
}

/// The fixed response the loopback listener answers the one redirect
/// with, before closing the connection for good.
pub open spec fn spec_ok_response() -> Seq<char> {
    "HTTP/1.1 200 OK\nContent-Type: text/html; charset=UTF-8\n\n"@
        + "<html><body>The authentication was successful. You can now close this tab and go back to the app.</body></html>"@
}

pub fn ok_response() -> (r: String)
    ensures
        r@ == spec_ok_response(),
{
    let mut r = String::from_str("HTTP/1.1 200 OK\nContent-Type: text/html; charset=UTF-8\n\n");
    r.append(
        "<html><body>The authentication was successful. You can now close this tab and go back to the app.</body></html>",
    );
    r
}

/// Where the cloud backend's construction stands. The first four states
/// name the one outside action the runtime must perform next; the last
/// two are settled and absorb every further event.
#[derive(Debug)]
pub enum CloudBoot {
    /// Exchange this configured refresh token for a fresh access token.
    RefreshExchange(String),
    /// Bind a loopback listener on this `host:port`, then open the
    /// authorize URL in the browser and await the one redirect.
    Listen(String),
    /// Exchange this captured authorization code at the token endpoint.
    CodeExchange(String),
    /// Authenticated; fetch the warm "currently playing" snapshot.
    FetchWarm(AccessToken),
    /// Construction will succeed with this token and snapshot.
    Ready(AccessToken, Snapshot),
    /// Construction will fail with this error.
    Failed(Error),
}

/// What one outside action reported back: a token exchange's result, the
/// first line of the redirect request, a listener or browser fault, or
/// the warm fetch's result (`None` meaning nothing is playing).
#[derive(Debug)]
pub enum BootEvent {
    RefreshResult(Option<AccessToken>),
    RedirectLine(String),
    TransportFailed,
    CodeResult(Option<AccessToken>),
    WarmResult(Option<Snapshot>),
    WarmFailed,
}

impl CloudBoot {
    /// Whether the bootstrap has settled: construction's outcome is
    /// decided and no event changes it.
    pub open spec fn spec_settled(&self) -> bool {
        self is Ready || self is Failed
    }

    pub fn settled(&self) -> (r: bool)
        ensures
            r == self.spec_settled(),
    {
        matches!(self, CloudBoot::Ready(_, _) | CloudBoot::Failed(_))
    }
}

/// Missing credentials make the cloud backend unconstructible before any
/// outside work starts.
pub open spec fn spec_creds_missing(c: &Config) -> bool {
    c.client_id is None || c.client_secret is None
}

/// Starts the bootstrap from the configuration alone, before any I/O:
/// missing credentials and a malformed redirect URI are configuration
/// errors; a configured refresh token short-circuits the interactive
/// path; otherwise the listener address is fixed here, before the
/// authorize URL exists, so the redirect cannot race the listener.
pub fn boot_begin(config: &Config) -> (r: CloudBoot)
    ensures
        spec_creds_missing(config) ==> r == CloudBoot::Failed(Error::ConfigInvalid),
        !spec_creds_missing(config) ==> match config.refresh_token {
            Some(rt) => r matches CloudBoot::RefreshExchange(t) && t@ == rt@,
            None => match third_segment(config.redirect_uri@) {
                Some(hp) => r matches CloudBoot::Listen(b) && b@ == hp,
                None => r == CloudBoot::Failed(Error::ConfigInvalid),
            },
        },
{
    if config.client_id.is_none() || config.client_secret.is_none() {
        return CloudBoot::Failed(Error::ConfigInvalid);
    }
    match &config.refresh_token {
        Some(rt) => CloudBoot::RefreshExchange(rt.clone()),
        None => match to_bind_format(config.redirect_uri.as_str()) {
            Ok(addr) => CloudBoot::Listen(addr),
            Err(e) => CloudBoot::Failed(e),
        },
    }
}

/// The transition the bootstrap takes on one event: what each pending
/// action's result leads to, that settled states absorb everything, and
/// that an event belonging to another state changes nothing.
pub open spec fn boot_steps_to(s: CloudBoot, e: BootEvent, r: CloudBoot) -> bool {
    &&& (s is RefreshExchange ==> match e {
        BootEvent::RefreshResult(t) => match t {
            Some(tok) => r == CloudBoot::FetchWarm(tok),
            None => r == CloudBoot::Failed(Error::AuthFailed),
        },
        _ => r == s,
    })
    &&& (s is Listen ==> match e {
        BootEvent::RedirectLine(line) => match code_of(line@) {
            Some(c) => r matches CloudBoot::CodeExchange(code) && code@ == c,
            None => r == CloudBoot::Failed(Error::AuthFailed),
        },
        BootEvent::TransportFailed => r == CloudBoot::Failed(Error::AuthFailed),
        _ => r == s,
    })
    &&& (s is CodeExchange ==> match e {
        BootEvent::CodeResult(t) => match t {
            Some(tok) => r == CloudBoot::FetchWarm(tok),
            None => r == CloudBoot::Failed(Error::AuthFailed),
        },
        _ => r == s,
    })
    &&& (s matches CloudBoot::FetchWarm(tok) ==> match e {
        BootEvent::WarmResult(w) => match w {
            Some(snap) => r == CloudBoot::Ready(tok, snap),
            None => r == CloudBoot::Failed(Error::NoTrackPlaying),
        },
        BootEvent::WarmFailed => r == CloudBoot::Failed(Error::AuthFailed),
        _ => r == s,
    })
    &&& (s is Ready ==> r == s)
    &&& (s is Failed ==> r == s)
}

/// Advances the bootstrap by one outside result.
///
/// Every failure on the way to a token — a rejected refresh token, a
/// redirect line without a code, a listener or browser fault, a rejected
/// code, a failed warm fetch — collapses into `AuthFailed`; only a warm
/// fetch that answers "nothing playing" settles on `NoTrackPlaying`.
pub fn boot_step(state: CloudBoot, event: BootEvent) -> (r: CloudBoot)
    ensures
        boot_steps_to(state, event, r),
{
    match state {
        CloudBoot::RefreshExchange(rt) => match event {
            BootEvent::RefreshResult(Some(tok)) => CloudBoot::FetchWarm(tok),
            BootEvent::RefreshResult(None) => CloudBoot::Failed(Error::AuthFailed),
            _ => CloudBoot::RefreshExchange(rt),
        },
        CloudBoot::Listen(addr) => match event {
            BootEvent::RedirectLine(line) => match extract_code(line.as_str()) {
                Ok(code) => CloudBoot::CodeExchange(code),
                Err(e) => CloudBoot::Failed(e),
            },
            BootEvent::TransportFailed => CloudBoot::Failed(Error::AuthFailed),
            _ => CloudBoot::Listen(addr),
        },
        CloudBoot::CodeExchange(code) => match event {
            BootEvent::CodeResult(Some(tok)) => CloudBoot::FetchWarm(tok),
            BootEvent::CodeResult(None) => CloudBoot::Failed(Error::AuthFailed),
            _ => CloudBoot::CodeExchange(code),
        },
        CloudBoot::FetchWarm(tok) => match event {
            BootEvent::WarmResult(Some(snap)) => CloudBoot::Ready(tok, snap),
            BootEvent::WarmResult(None) => CloudBoot::Failed(Error::NoTrackPlaying),
            BootEvent::WarmFailed => CloudBoot::Failed(Error::AuthFailed),
            _ => CloudBoot::FetchWarm(tok),
        },
        CloudBoot::Ready(tok, snap) => CloudBoot::Ready(tok, snap),
        CloudBoot::Failed(e) => CloudBoot::Failed(e),
    }
}

/// A failure is final: once a run of the bootstrap reaches `Failed`, it
/// stays there with the same error, whatever else comes in.
pub proof fn lemma_failure_is_final(
    states: Seq<CloudBoot>,
    events: Seq<BootEvent>,
    err: Error,
    k: int,
    i: int,
)
    requires
        states.len() == events.len() + 1,
        forall|j: int| 0 <= j < events.len() ==> boot_steps_to(
            #[trigger] states[j],
            events[j],
            states[j + 1],
        ),
        0 <= k <= i <= events.len(),
        states[k] == CloudBoot::Failed(err),
    ensures
        states[i] == CloudBoot::Failed(err),
    decreases i - k,
{
    if k < i {
        lemma_failure_is_final(states, events, err, k, i - 1);
        assert(boot_steps_to(states[i - 1], events[i - 1], states[i]));
    }
}

/// A refresh token the provider rejects fails the whole construction
/// with `AuthFailed` — never `NoTrackPlaying`, whatever the run's later
/// events claim.
pub proof fn lemma_rejected_refresh_fails_auth(states: Seq<CloudBoot>, events: Seq<BootEvent>)
    requires
        states.len() == events.len() + 1,
        forall|j: int| 0 <= j < events.len() ==> boot_steps_to(
            #[trigger] states[j],
            events[j],
            states[j + 1],
        ),
        events.len() >= 1,
        states[0] is RefreshExchange,
        events[0] == BootEvent::RefreshResult(None::<AccessToken>),
    ensures
        forall|i: int| 1 <= i <= events.len() ==> states[i] == CloudBoot::Failed(
            Error::AuthFailed,
        ),
{
    assert(boot_steps_to(states[0], events[0], states[1]));
    assert forall|i: int| 1 <= i <= events.len() implies states[i] == CloudBoot::Failed(
        Error::AuthFailed,
    ) by {
        lemma_failure_is_final(states, events, Error::AuthFailed, 1, i);
    }
}

/// A run that authenticates and then finds no active playback fails with
/// `NoTrackPlaying`, distinct from `AuthFailed`, and stays there.
pub proof fn lemma_no_playback_is_no_track(
    states: Seq<CloudBoot>,
    events: Seq<BootEvent>,
    k: int,
)
    requires
        states.len() == events.len() + 1,
        forall|j: int| 0 <= j < events.len() ==> boot_steps_to(
            #[trigger] states[j],
            events[j],
            states[j + 1],
        ),
        0 <= k < events.len(),
        states[k] is FetchWarm,
        events[k] == BootEvent::WarmResult(None::<Snapshot>),
    ensures
        forall|i: int| k < i <= events.len() ==> states[i] == CloudBoot::Failed(
            Error::NoTrackPlaying,
        ),
{
    assert(boot_steps_to(states[k], events[k], states[k + 1]));
    assert forall|i: int| k < i <= events.len() implies states[i] == CloudBoot::Failed(
        Error::NoTrackPlaying,
    ) by {
        lemma_failure_is_final(states, events, Error::NoTrackPlaying, k + 1, i);
    }
}

/// The poll backend. It answers status queries from its snapshot; there
/// is no event channel, the consumer polls at its own cadence.
#[derive(Debug)]
pub struct SpotifyWeb {
    pub playing: Snapshot,
}

impl SpotifyWeb {
    /// What a settled bootstrap constructs: the backend around the warm
    /// snapshot, or the bootstrap's error.
    pub open spec fn spec_new(boot: CloudBoot) -> Result<SpotifyWeb, Error>
        recommends
            boot.spec_settled(),
    {
        match boot {
            CloudBoot::Ready(t, snap) => Ok(SpotifyWeb { playing: snap }),
            CloudBoot::Failed(e) => Err(e),
            _ => Err(Error::AuthFailed),
        }
    }

    /// Finishes construction from a settled bootstrap.
    pub fn new(boot: CloudBoot) -> (r: Result<SpotifyWeb, Error>)
        requires
            boot.spec_settled(),
        ensures
            r == SpotifyWeb::spec_new(boot),
    {
        match boot {
            CloudBoot::Ready(t, snap) => Ok(SpotifyWeb { playing: snap }),
            CloudBoot::Failed(e) => Err(e),
            _ => Err(Error::AuthFailed),
        }
    }

    /// Replaces the snapshot wholesale with a fresh fetch's answer.
    ///
    /// After construction, absent playback is a normal state: a fetch
    /// that reports nothing playing leaves the accessors answering
    /// absence, never an error.
    pub fn refresh(&mut self, current: Option<Snapshot>)
        ensures
            current matches Some(s) ==> final(self).playing == s,
            current is None ==> final(self).playing == Snapshot::spec_stopped(),
    {
        match current {
            Some(s) => {
                self.playing = s;
            },
            None => {
                self.playing = Snapshot::stopped();
            },
        }
    }
}

impl APIBase for SpotifyWeb {
    open spec fn spec_player_name(&self) -> Seq<char> {
        "Spotify Web Player"@
    }

    open spec fn spec_artist(&self) -> Option<Seq<char>> {
        self.playing.artist.deep_view()
    }

    open spec fn spec_title(&self) -> Option<Seq<char>> {
        self.playing.title.deep_view()
    }

    open spec fn spec_position(&self) -> Option<u64> {
        self.playing.position_ms
    }

    open spec fn spec_is_playing(&self) -> bool {
        self.playing.is_playing
    }

    open spec fn advance_supported(&self) -> bool {
        false
    }

    fn player_name(&self) -> (r: String) {
        String::from_str("Spotify Web Player")
    }

    fn artist(&self) -> (r: Option<String>) {
        self.playing.artist.clone()
    }

    fn title(&self) -> (r: Option<String>) {
        self.playing.title.clone()
    }

    fn position(&self) -> (r: Option<u64>) {
        self.playing.position_ms
    }

    fn is_playing(&self) -> (r: bool) {
        self.playing.is_playing
    }

    fn event_loop(&mut self) {
    }
}

} // verus!

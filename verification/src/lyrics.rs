//! Lyrics providers: the provider set, the operations each offers, and
//! the one placeholder implementation.

use vstd::prelude::*;
use crate::error::Error;
use crate::text::str_eq;

verus! {

/// The closed set of lyrics providers; `Disabled` turns lyrics off. Its
/// stable name string is "None", kept from the configuration format.
#[derive(Clone, Copy, Debug, PartialEq, Eq, Structural)]
pub enum Lyrics {
    Disabled,
    LyricWikia,
}

impl Lyrics {
    /// The stable name each provider serializes to.
    pub open spec fn spec_name(&self) -> Seq<char> {
        match self {
            Lyrics::Disabled => "None"@,
            Lyrics::LyricWikia => "LyricWikia"@,
        }
    }

    pub fn name(&self) -> (r: &'static str)
        ensures
            r@ == self.spec_name(),
    {
        match self {
            Lyrics::Disabled => "None",
            Lyrics::LyricWikia => "LyricWikia",
        }
    }

    pub open spec fn spec_from_name(s: Seq<char>) -> Option<Lyrics> {
        if s == "None"@ {
            Some(Lyrics::Disabled)
        } else if s == "LyricWikia"@ {
            Some(Lyrics::LyricWikia)
        } else {
            None
        }
    }

    pub fn from_name(s: &str) -> (r: Option<Lyrics>)
        ensures
            r == Lyrics::spec_from_name(s@),
    {
        if str_eq(s, "None") {
            Some(Lyrics::Disabled)
        } else if str_eq(s, "LyricWikia") {
            Some(Lyrics::LyricWikia)
        } else {
            None
        }
    }
}

impl Default for Lyrics {
    /// Lyrics are on by default, through the one real provider.
    fn default() -> (r: Lyrics)
        ensures
            r == Lyrics::LyricWikia,
    {
        Lyrics::LyricWikia
    }
}

/// What a lyrics provider offers.
pub trait LyricsBase: Sized {
    spec fn spec_new() -> Result<Self, Error>;

    spec fn spec_lyrics(&self, artist: Seq<char>, title: Seq<char>) -> Seq<char>;

    /// Initializes the provider; it may fail where a connection is needed.
    fn new() -> (r: Result<Self, Error>)
        ensures
            r == Self::spec_new(),
    ;

    /// The lyrics of one song.
    fn get_lyrics(&self, artist: &str, title: &str) -> (r: &str)
        ensures
            r@ == self.spec_lyrics(artist@, title@),
    ;
}

/// The placeholder provider: it always answers with the same text.
#[derive(Debug)]
pub struct LyricWikia {}

impl LyricsBase for LyricWikia {
    open spec fn spec_new() -> Result<LyricWikia, Error> {
        Ok(LyricWikia {  })
    }

    open spec fn spec_lyrics(&self, artist: Seq<char>, title: Seq<char>) -> Seq<char> {
        "some lyrics go here"@
    }

    fn new() -> (r: Result<LyricWikia, Error>) {
        Ok(LyricWikia {  })
    }

    fn get_lyrics(&self, artist: &str, title: &str) -> (r: &str) {
        "some lyrics go here"
    }
}

/// Constructs the provider the configuration selects; `None` when lyrics
/// are disabled.
pub fn init_lyrics(lyrics: &Lyrics) -> (r: Result<Option<LyricWikia>, Error>)
    ensures
        *lyrics == Lyrics::Disabled ==> r == Ok::<Option<LyricWikia>, Error>(None),
        *lyrics == Lyrics::LyricWikia ==> r == Ok::<Option<LyricWikia>, Error>(
            Some(LyricWikia {  }),
        ),
{
    match lyrics {
        Lyrics::Disabled => Ok(None),
        Lyrics::LyricWikia => match LyricWikia::new() {
            Ok(l) => Ok(Some(l)),
            Err(e) => Err(e),
        },
    }
}

} // verus!

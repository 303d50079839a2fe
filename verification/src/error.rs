//! The error taxonomy shared by every backend.

use vstd::prelude::*;

verus! {

/// Why a backend could not be constructed, or a bootstrap step failed.
///
/// Construction-time failures are fatal and handed back to the factory's
/// caller; there is no automatic fallback to another source kind.
#[derive(Clone, Copy, Debug, PartialEq, Eq, Structural)]
pub enum Error {
    /// A push backend found no live, compatible player session to attach to.
    ConnectionFailed,
    /// A step of the token refresh or of the interactive OAuth bootstrap
    /// failed. Every cause inside the bootstrap collapses into this one kind.
    AuthFailed,
    /// The cloud backend authenticated, but the warm snapshot showed nothing
    /// playing. Distinct from `AuthFailed`: the caller should wait, not
    /// re-authenticate.
    NoTrackPlaying,
    /// A malformed redirect URI, missing credentials, a source kind that the
    /// current platform does not offer, or an unparsable properties string.
    ConfigInvalid,
}

impl Error {
    /// A short, stable description, in place of a `Display` impl.
    pub fn message(&self) -> (r: &'static str)
        ensures
            r@ == self.spec_message(),
    {
        match self {
            Error::ConnectionFailed => "could not connect to any player session",
            Error::AuthFailed => "authentication with the provider failed",
            Error::NoTrackPlaying => "no track is currently playing",
            Error::ConfigInvalid => "invalid configuration",
        }
    }

    pub open spec fn spec_message(&self) -> Seq<char> {
        match self {
            Error::ConnectionFailed => "could not connect to any player session"@,
            Error::AuthFailed => "authentication with the provider failed"@,
            Error::NoTrackPlaying => "no track is currently playing"@,
            Error::ConfigInvalid => "invalid configuration"@,
        }
    }
}

} // verus!

//! The ways a run can end without output.

use vstd::prelude::*;

verus! {

/// Why a run stops. The first two are found before any request is made; the
/// third is reported by whoever fetched the page.
#[derive(Debug, PartialEq, Eq)]
pub enum ScrapeError {
    /// The target is not an absolute URL. Holds the URL parser's description.
    InvalidUrl(String),
    /// The filter pattern does not compile. Holds the regex engine's description.
    InvalidPattern(String),
    /// The page could not be fetched or decoded. Holds the transport's description.
    Transport(String),
}

impl ScrapeError {
    /// Whether the error lies in what the caller supplied, not in the network.
    pub open spec fn is_configuration_spec(&self) -> bool {
        self is InvalidUrl || self is InvalidPattern
    }

    /// The text shown to the user.
    pub open spec fn message_spec(&self) -> Seq<char> {
        match self {
            ScrapeError::InvalidUrl(detail) => "invalid url: "@ + detail@,
            ScrapeError::InvalidPattern(detail) => "invalid regex: "@ + detail@,
            ScrapeError::Transport(detail) => detail@,
        }
    }

    /// True for an invalid URL or pattern, false for a failed fetch.
    pub fn is_configuration(&self) -> (usage: bool)
        ensures
            usage == self.is_configuration_spec(),
    {
        match self {
            ScrapeError::InvalidUrl(_) => true,
            ScrapeError::InvalidPattern(_) => true,
            ScrapeError::Transport(_) => false,
        }
    }

    /// The text shown to the user: what was wrong, then the underlying description.
    pub fn message(&self) -> (text: String)
        ensures
            text@ == self.message_spec(),
    {
        match self {
            ScrapeError::InvalidUrl(detail) => "invalid url: ".to_owned().concat(detail.as_str()),
            ScrapeError::InvalidPattern(detail) => "invalid regex: ".to_owned().concat(
                detail.as_str(),
            ),
            ScrapeError::Transport(detail) => detail.clone(),
        }
    }
}

} // verus!

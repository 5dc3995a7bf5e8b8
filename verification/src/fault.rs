//! What can go wrong on the way from a subscription list to an open link.

use vstd::prelude::*;
use vstd::string::StringExecFns;

verus! {

/// The kinds of failure.
#[derive(Clone, Copy, Debug, PartialEq, Eq, Structural)]
pub enum Fault {
    /// The subscription list could not be read.
    SourceUnreachable,
    /// The subscription list is no outline document.
    MalformedSubscription,
    /// The podcast has no feed address.
    MissingFeedUrl,
    /// The feed could not be fetched.
    FetchError,
    /// The feed is no channel of items.
    FeedParseError,
    /// The terminal could not be captured for the full-screen list.
    TerminalUnavailable,
    /// A link could not be opened.
    LinkOpenFailed,
}

/// The words in which a failure is reported.
pub open spec fn fault_text(fault: Fault) -> Seq<char> {
    match fault {
        Fault::SourceUnreachable => "Cannot read the subscription list"@,
        Fault::MalformedSubscription => "Non Valid OPML/XML file"@,
        Fault::MissingFeedUrl => "The podcast has no feed URL"@,
        Fault::FetchError => "Cannot fetch the podcast feed"@,
        Fault::FeedParseError => "Cannot parse the podcast feed"@,
        Fault::TerminalUnavailable => "Terminal UI not available, falling back to index selection"@,
        Fault::LinkOpenFailed => "Cannot open shownote url"@,
    }
}

impl Fault {
    /// The words in which this failure is reported.
    pub fn describe(&self) -> (r: String)
        ensures
            r@ == fault_text(*self),
    {
        match self {
            Fault::SourceUnreachable => String::from_str("Cannot read the subscription list"),
            Fault::MalformedSubscription => String::from_str("Non Valid OPML/XML file"),
            Fault::MissingFeedUrl => String::from_str("The podcast has no feed URL"),
            Fault::FetchError => String::from_str("Cannot fetch the podcast feed"),
            Fault::FeedParseError => String::from_str("Cannot parse the podcast feed"),
            Fault::TerminalUnavailable => String::from_str(
                "Terminal UI not available, falling back to index selection",
            ),
            Fault::LinkOpenFailed => String::from_str("Cannot open shownote url"),
        }
    }
}

} // verus!

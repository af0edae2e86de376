//! Liveness probe outcomes and their classification.

use vstd::prelude::*;

verus! {

/// The outcome of one liveness probe. Each URL is the one the HTTP client
/// ended on after following redirects; `Failed` carries the error text.
#[derive(Debug)]
pub enum WebsiteStatus {
    Valid(String),
    Redirected(String),
    Dead(String),
    Failed(String),
}

/// HTTP status codes in the 2xx range.
pub open spec fn is_success_code(code: u16) -> bool {
    200 <= code <= 299
}

/// HTTP status codes in the 3xx range.
pub open spec fn is_redirection_code(code: u16) -> bool {
    300 <= code <= 399
}

impl WebsiteStatus {
    /// The resolved URL and whether the website counts as reachable;
    /// none for a failed probe.
    pub open spec fn resolution(&self) -> Option<(Seq<char>, bool)> {
        match self {
            WebsiteStatus::Valid(u) => Some((u@, true)),
            WebsiteStatus::Redirected(u) => Some((u@, true)),
            WebsiteStatus::Dead(u) => Some((u@, false)),
            WebsiteStatus::Failed(_) => None,
        }
    }

    /// Classifies a response by its status code: 2xx is valid, 3xx is a
    /// redirection, anything else is dead.
    pub fn from_response(code: u16, final_url: String) -> (r: WebsiteStatus)
        ensures
            is_success_code(code) ==> r == WebsiteStatus::Valid(final_url),
            is_redirection_code(code) ==> r == WebsiteStatus::Redirected(final_url),
            !is_success_code(code) && !is_redirection_code(code) ==> r == WebsiteStatus::Dead(
                final_url,
            ),
    {
        if 200 <= code && code <= 299 {
            WebsiteStatus::Valid(final_url)
        } else if 300 <= code && code <= 399 {
            WebsiteStatus::Redirected(final_url)
        } else {
            WebsiteStatus::Dead(final_url)
        }
    }

    /// A probe that could not be made or answered (timeout, DNS failure,
    /// refused connection, full queue, dropped reply).
    pub fn failed(error: String) -> (r: WebsiteStatus)
        ensures
            r == WebsiteStatus::Failed(error),
    {
        WebsiteStatus::Failed(error)
    }

    /// Tells whether the probe came back at all.
    pub fn is_failed(&self) -> (r: bool)
        ensures
            r == (self is Failed),
    {
        match self {
            WebsiteStatus::Failed(_) => true,
            _ => false,
        }
    }
}

} // verus!

//! Which credential, if any, goes to the hosting API with a request.

use vstd::prelude::*;

verus! {

/// What the decoded Basic authentication of a request is to the contracts:
/// a user name and, maybe, a password.
pub type BasicView = (Seq<char>, Option<Seq<char>>);

/// The credential that goes upstream: the password of the request's Basic
/// authentication wins; without one, the fallback configured at startup;
/// without that, none. The user name plays no part.
pub open spec fn chosen_credential(
    basic: Option<BasicView>,
    fallback: Option<Seq<char>>,
) -> Option<Seq<char>> {
    match basic {
        Some((_, Some(password))) => Some(password),
        _ => fallback,
    }
}

/// The credential of one request, if any.
pub struct GithubToken(pub Option<String>);

impl GithubToken {
    /// The credential for a request. `basic` is its Basic authentication as
    /// decoded (`None` where the header is absent or could not be decoded);
    /// `fallback` is the credential configured at startup. A header that
    /// cannot be decoded is no error: it counts as no header.
    pub fn resolve(basic: Option<(String, Option<String>)>, fallback: &Option<String>) -> (r:
        GithubToken)
        ensures
            r.0.deep_view() == chosen_credential(basic.deep_view(), fallback.deep_view()),
            basic is None ==> r.0.deep_view() == fallback.deep_view(),
    {
        match basic {
            Some((_, Some(password))) => GithubToken(Some(password)),
            _ => match fallback {
                Some(token) => GithubToken(Some(token.clone())),
                None => GithubToken(None),
            },
        }
    }
}

} // verus!

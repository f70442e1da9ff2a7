//! Payloads of the web login flow that carry plain values.

use vstd::prelude::*;

verus! {

/// The query of a login request: where to send the browser after the
/// flow finishes, if anywhere.
#[derive(Debug)]
pub struct OauthQuery {
    pub redirect: Option<String>,
}

impl OauthQuery {
    /// Wraps the optional path to return to.
    pub fn with_redirect(redirect: Option<String>) -> (q: OauthQuery)
        ensures
            match (q.redirect, redirect) {
                (Some(a), Some(b)) => a@ == b@,
                (None, None) => true,
                _ => false,
            },
    {
        OauthQuery { redirect }
    }

    /// The absolute address to return to: the host name followed by the
    /// requested path, or nothing where none was requested.
    pub fn redirect_target(&self, hostname: &str) -> (r: Option<String>)
        ensures
            match (r, self.redirect) {
                (Some(t), Some(p)) => t@ == hostname@ + p@,
                (None, None) => true,
                _ => false,
            },
    {
        match &self.redirect {
            Some(path) => Some(String::from_str(hostname).concat(path.as_str())),
            None => None,
        }
    }
}

} // verus!

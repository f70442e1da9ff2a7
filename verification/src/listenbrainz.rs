//! Payloads of the listens-tracking command: the command itself and
//! the query body sent to the listens API.

use vstd::prelude::*;

verus! {

/// The listens-tracking command: a user name on the listens service.
#[derive(Debug)]
pub struct ListenbrainzCommand {
    pub user: String,
}

impl ListenbrainzCommand {
    /// Wraps a user name.
    pub fn from_user(user: String) -> (c: ListenbrainzCommand)
        ensures
            c.user@ == user@,
    {
        ListenbrainzCommand { user }
    }

    /// The user's listens page.
    pub fn profile_url(&self) -> (r: String)
        ensures
            r@ == "https://listenbrainz.org/user/"@ + self.user@,
    {
        String::from_str("https://listenbrainz.org/user/").concat(self.user.as_str())
    }
}

/// The query body of a listens request: only listens after this Unix
/// timestamp are asked for.
#[derive(Clone, Copy, Debug, PartialEq, Eq, Structural)]
pub struct ListenbrainzBody {
    pub min_ts: u64,
}

impl ListenbrainzBody {
    /// Asks for listens strictly after the given Unix timestamp.
    pub fn since(min_ts: u64) -> (b: ListenbrainzBody)
        ensures
            b.min_ts == min_ts,
    {
        ListenbrainzBody { min_ts }
    }
}

} // verus!

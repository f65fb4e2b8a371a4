use crate::access_token::Token;
use crate::req::{step, Action, Event, Phase};
use vstd::prelude::*;
use vstd::string::StringExecFns;

verus! {

/// The endpoint of the user whose login is `login`.
pub open spec fn user_endpoint(login: Seq<char>) -> Seq<char> {
    "users/"@ + login
}

impl Token {
    /// The endpoint of the user whose login is `login`.
    pub fn req_user_endpoint(login: &str) -> (endpoint: String)
        ensures
            endpoint@ == user_endpoint(login@),
    {
        let mut endpoint = String::from_str("users/");
        endpoint.append(login);
        endpoint
    }

    /// Moves a request for the record of the user `login` on by one event: a
    /// request for that user's endpoint.
    pub fn req_user(&mut self, phase: Phase, login: &str, event: Event) -> (next: (Phase, Action))
        requires
            phase.expects(event),
        ensures
            (next.0, next.1@, *final(self)) == step(
                *old(self),
                phase,
                user_endpoint(login@),
                event,
            ),
    {
        let endpoint = Self::req_user_endpoint(login);
        self.req(phase, endpoint.as_str(), event)
    }
}

/// A user's picture: the original and its scaled versions.
#[derive(Debug)]
pub struct Image {
    pub link: Option<String>,
    pub versions: ImageVersions,
}

/// Links to a picture's scaled versions.
#[derive(Debug)]
pub struct ImageVersions {
    pub large: Option<String>,
    pub medium: Option<String>,
    pub micro: Option<String>,
    pub small: Option<String>,
}

/// A project, as named in a user's record.
#[derive(Debug)]
pub struct Project {
    pub id: usize,
    pub name: String,
    pub parent_id: Option<usize>,
    pub slug: String,
}

} // verus!

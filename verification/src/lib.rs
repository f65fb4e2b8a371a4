//! Client-side rules of an OAuth2 client-credentials session with the 42 intra API:
//! the lifetime of an access token, the classification of HTTP answers, and the
//! protocol of an authenticated request with its single retry.
//!
//! The library performs no I/O. It decides what has to be done next and is told what
//! came of it; the caller owns the transport, the clock and the environment.

use vstd::prelude::*;

pub mod access_token;
pub mod endpoint;
pub mod req;
pub mod user;

pub use access_token::{Grant, Secret, Token, TokenError, TokenInitFatalError};
pub use endpoint::project::ReqProjectsParams;
pub use req::{Action, Event, FatalError, Phase, Plan, ReqResultError, Response};
pub use user::{Image, ImageVersions, Project};

verus! {

/// Root of the service.
pub const BASE_URL: &'static str = "https://api.intra.42.fr/";

/// Version segment of every resource path.
pub const API_VERSION: &'static str = "v2";

/// `BASE_URL`, `API_VERSION` and a slash: the prefix of every resource endpoint.
pub const API_URL: &'static str = "https://api.intra.42.fr/v2/";

/// Where the client-credentials exchange is posted.
pub const API_URL_AUTH: &'static str = "https://api.intra.42.fr/v2/oauth/token";

/// Seconds for which a token is trusted after it was received, whatever lifetime
/// the server declared for it.
pub const EXPIRATION: u64 = 7200;

} // verus!

use crate::req::{FatalError, ReqResultError, Response};
use vstd::prelude::*;
use vstd::std_specs::convert::FromSpecImpl;
use vstd::string::StringExecFns;

verus! {

/// `envy::Error`, the environment reader's error for a credential that is
/// missing or malformed. It is carried as it is: nothing is claimed of what it holds.
#[verifier::external_type_specification]
#[verifier::external_body]
pub struct ExEnvError(envy::Error);

/// The application's own credentials. They cannot be printed.
pub struct Secret {
    pub uid: String,
    pub secret: String,
}

/// What the authorization server grants, as decoded from its answer.
#[derive(Debug, Clone)]
pub struct Grant {
    pub access_token: String,
    pub token_type: String,
    pub expires_in: u64,
    pub scope: String,
}

/// An access token and the second, since the Unix epoch, at which it was received.
#[derive(Debug, Clone)]
pub struct Token {
    pub access_token: String,
    pub token_type: String,
    pub expires_in: u64,
    pub scope: String,
    pub created_at: u64,
}

/// Why no token was acquired.
#[derive(Debug)]
pub enum TokenError {
    Fatal(TokenInitFatalError),
    /// The authorization server answered with a status outside 200..=299.
    Status(Response),
}

/// A failed acquisition that no retry mends.
#[derive(Debug)]
pub enum TokenInitFatalError {
    /// The credentials are missing or malformed.
    Env(envy::Error),
    /// The exchange got no answer, or one that could not be decoded.
    Req(FatalError),
}

/// A request's failure, seen as a failure to acquire a token.
pub open spec fn as_token_error(err: ReqResultError) -> TokenError {
    match err {
        ReqResultError::Fatal(fatal) => TokenError::Fatal(TokenInitFatalError::Req(fatal)),
        ReqResultError::Status(res) => TokenError::Status(res),
        ReqResultError::Config(env) => TokenError::Fatal(TokenInitFatalError::Env(env)),
    }
}

/// A failed acquisition, seen as the failure of the request that needed the token.
pub open spec fn as_req_error(err: TokenError) -> ReqResultError {
    match err {
        TokenError::Fatal(TokenInitFatalError::Env(env)) => ReqResultError::Config(env),
        TokenError::Fatal(TokenInitFatalError::Req(fatal)) => ReqResultError::Fatal(fatal),
        TokenError::Status(res) => ReqResultError::Status(res),
    }
}

impl From<envy::Error> for TokenError {
    fn from(err: envy::Error) -> (r: Self) {
        TokenError::Fatal(TokenInitFatalError::Env(err))
    }
}

impl FromSpecImpl<envy::Error> for TokenError {
    open spec fn obeys_from_spec() -> bool {
        true
    }

    open spec fn from_spec(err: envy::Error) -> Self {
        TokenError::Fatal(TokenInitFatalError::Env(err))
    }
}

impl From<reqwest::Error> for TokenError {
    fn from(err: reqwest::Error) -> (r: Self) {
        TokenError::Fatal(TokenInitFatalError::Req(FatalError::Transport(err)))
    }
}

impl FromSpecImpl<reqwest::Error> for TokenError {
    open spec fn obeys_from_spec() -> bool {
        true
    }

    open spec fn from_spec(err: reqwest::Error) -> Self {
        TokenError::Fatal(TokenInitFatalError::Req(FatalError::Transport(err)))
    }
}

impl From<ReqResultError> for TokenError {
    fn from(err: ReqResultError) -> (r: Self) {
        match err {
            ReqResultError::Fatal(fatal) => TokenError::Fatal(TokenInitFatalError::Req(fatal)),
            ReqResultError::Status(res) => TokenError::Status(res),
            ReqResultError::Config(env) => TokenError::Fatal(TokenInitFatalError::Env(env)),
        }
    }
}

impl FromSpecImpl<ReqResultError> for TokenError {
    open spec fn obeys_from_spec() -> bool {
        true
    }

    open spec fn from_spec(err: ReqResultError) -> Self {
        as_token_error(err)
    }
}

impl From<TokenError> for ReqResultError {
    fn from(err: TokenError) -> (r: Self) {
        match err {
            TokenError::Fatal(TokenInitFatalError::Env(env)) => ReqResultError::Config(env),
            TokenError::Fatal(TokenInitFatalError::Req(fatal)) => ReqResultError::Fatal(fatal),
            TokenError::Status(res) => ReqResultError::Status(res),
        }
    }
}

impl FromSpecImpl<TokenError> for ReqResultError {
    open spec fn obeys_from_spec() -> bool {
        true
    }

    open spec fn from_spec(err: TokenError) -> Self {
        as_req_error(err)
    }
}

/// Turning a failure of one kind into the other and back gives the failure that
/// one started with: neither conversion loses anything.
pub proof fn lemma_conversions_are_inverse(token_err: TokenError, req_err: ReqResultError)
    ensures
        as_token_error(as_req_error(token_err)) == token_err,
        as_req_error(as_token_error(req_err)) == req_err,
{
}

impl Secret {
    /// The fields of the client-credentials exchange, in the order in which they
    /// are posted.
    pub open spec fn form_fields(self) -> Seq<(Seq<char>, Seq<char>)> {
        seq![
            ("grant_type"@, "client_credentials"@),
            ("client_id"@, self.uid@),
            ("client_secret"@, self.secret@),
        ]
    }

    /// The form to post to the authorization endpoint for these credentials.
    pub fn form(&self) -> (fields: Vec<(String, String)>)
        ensures
            fields.deep_view() == self.form_fields(),
    {
        let mut fields: Vec<(String, String)> = Vec::new();
        fields.push((String::from_str("grant_type"), String::from_str("client_credentials")));
        fields.push((String::from_str("client_id"), self.uid.clone()));
        fields.push((String::from_str("client_secret"), self.secret.clone()));
        assert(fields.deep_view() =~= self.form_fields());
        fields
    }
}

impl Token {
    pub const EXPIRATION: u64 = 7200;

    /// The token that a grant received at `now` stands for.
    pub open spec fn stamped(grant: Grant, now: u64) -> Token {
        Token {
            access_token: grant.access_token,
            token_type: grant.token_type,
            expires_in: grant.expires_in,
            scope: grant.scope,
            created_at: now,
        }
    }

    /// What the outcome of the client-credentials exchange means before a body is
    /// decoded.
    pub open spec fn granted(reply: Result<Response, reqwest::Error>) -> Result<
        Response,
        TokenError,
    > {
        match reply {
            Err(err) => Err(TokenError::Fatal(TokenInitFatalError::Req(FatalError::Transport(err)))),
            Ok(res) => if crate::req::is_success(res.status) {
                Ok(res)
            } else {
                Err(TokenError::Status(res))
            },
        }
    }

    /// What the answer to the client-credentials exchange means before its body
    /// is decoded. No answer is fatal; an answer outside the success class is a
    /// status error that holds it; a 2xx answer is handed back for decoding.
    pub fn authorized(reply: Result<Response, reqwest::Error>) -> (r: Result<Response, TokenError>)
        ensures
            r == Token::granted(reply),
    {
        match reply {
            Err(err) => Err(TokenError::from(err)),
            Ok(res) => match ReqResultError::success(res) {
                Ok(res) => Ok(res),
                Err(err) => Err(TokenError::from(err)),
            },
        }
    }

    /// Makes a token of the decoded body of a 2xx answer, received at `now`
    /// (seconds since the Unix epoch). A body that could not be decoded is fatal.
    /// The moment of receipt is recorded once, here.
    pub fn try_new(decoded: Result<Grant, serde_json::Error>, now: u64) -> (r: Result<Token, TokenError>)
        ensures
            r == (match decoded {
                Ok(grant) => Ok::<Token, TokenError>(Token::stamped(grant, now)),
                Err(err) => Err::<Token, TokenError>(
                    TokenError::Fatal(TokenInitFatalError::Req(FatalError::Parse(err))),
                ),
            }),
    {
        match decoded {
            Ok(grant) => Ok(
                Token {
                    access_token: grant.access_token,
                    token_type: grant.token_type,
                    expires_in: grant.expires_in,
                    scope: grant.scope,
                    created_at: now,
                },
            ),
            Err(err) => Err(TokenError::Fatal(TokenInitFatalError::Req(FatalError::Parse(err)))),
        }
    }

    /// Whether the token was received `EXPIRATION` or more seconds before `now`.
    pub open spec fn expired_at(self, now: u64) -> bool {
        now >= self.created_at + 7200
    }

    /// Whether the token is to be renewed at `now`, in seconds since the Unix epoch.
    /// Only the moment of receipt counts, not the lifetime that the server declared.
    pub fn is_expired(&self, now: u64) -> (expired: bool)
        ensures
            expired == self.expired_at(now),
    {
        now >= self.created_at && now - self.created_at >= Self::EXPIRATION
    }

    /// Takes in the outcome of a new acquisition. A new token replaces this one
    /// whole; a failure is handed on and leaves this one as it was.
    pub fn refresh(&mut self, acquired: Result<Token, TokenError>) -> (r: Result<(), TokenError>)
        ensures
            match acquired {
                Ok(fresh) => *final(self) == fresh && r == Ok::<(), TokenError>(()),
                Err(err) => *final(self) == *old(self) && r == Err::<(), TokenError>(err),
            },
    {
        match acquired {
            Ok(fresh) => {
                *self = fresh;
                Ok(())
            },
            Err(err) => Err(err),
        }
    }
}

/// A token is not expired at the moment of its receipt, nor during the 7199
/// seconds that follow; it is expired from the 7200th second on.
pub proof fn lemma_expiry_window(token: Token, now: u64)
    ensures
        !token.expired_at(token.created_at),
        now == token.created_at + 7199 ==> !token.expired_at(now),
        now == token.created_at + 7200 ==> token.expired_at(now),
        token.expired_at(now) <==> now - token.created_at >= 7200,
{
}

/// A token made of a grant is not expired at the moment that it was stamped with,
/// whatever lifetime the grant declares.
pub proof fn lemma_new_token_is_fresh(grant: Grant, now: u64)
    ensures
        Token::stamped(grant, now).created_at == now,
        !Token::stamped(grant, now).expired_at(now),
{
}

/// Where the token endpoint gives no answer, no token comes of the exchange:
/// the outcome is the fatal error that holds the transport's.
pub proof fn lemma_no_answer_gives_no_token(err: reqwest::Error)
    ensures
        Token::granted(Err(err)) == Err::<Response, TokenError>(
            TokenError::Fatal(TokenInitFatalError::Req(FatalError::Transport(err))),
        ),
{
}

} // verus!

use crate::access_token::{as_req_error, Token, TokenError};
use crate::API_URL;
use vstd::prelude::*;
use vstd::std_specs::convert::FromSpecImpl;
use vstd::string::StringExecFns;

verus! {

/// `reqwest::Error`, the transport's error for a request that got no answer.
/// It is carried as it is: nothing is claimed of what it holds.
#[verifier::external_type_specification]
#[verifier::external_body]
pub struct ExTransportError(reqwest::Error);

/// `serde_json::Error`, the decoder's error for a body that is not the JSON
/// that was asked for. It is carried as it is: nothing is claimed of what it holds.
#[verifier::external_type_specification]
#[verifier::external_body]
pub struct ExDecodeError(serde_json::Error);

/// A completed HTTP exchange, read to its end: the status code and the body's bytes.
#[derive(Debug, Clone)]
pub struct Response {
    pub status: u16,
    pub body: Vec<u8>,
}

/// A failure that no retry mends.
#[derive(Debug)]
pub enum FatalError {
    /// No answer: name resolution, connection, TLS or a timeout.
    Transport(reqwest::Error),
    /// An answer with a success status whose body could not be decoded.
    Parse(serde_json::Error),
}

/// Why an authenticated request gave no value.
#[derive(Debug)]
pub enum ReqResultError {
    Fatal(FatalError),
    /// The server answered with a status outside 200..=299.
    Status(Response),
    /// The credentials could not be loaded when the token had to be renewed.
    Config(envy::Error),
}

/// Whether an HTTP status code is in the success class, 200 to 299.
pub open spec fn is_success(status: u16) -> bool {
    200 <= status < 300
}

/// The status with which the server rejects a token.
pub const UNAUTHORIZED: u16 = 401;

impl From<reqwest::Error> for ReqResultError {
    fn from(err: reqwest::Error) -> (r: Self) {
        ReqResultError::Fatal(FatalError::Transport(err))
    }
}

impl FromSpecImpl<reqwest::Error> for ReqResultError {
    open spec fn obeys_from_spec() -> bool {
        true
    }

    open spec fn from_spec(err: reqwest::Error) -> Self {
        ReqResultError::Fatal(FatalError::Transport(err))
    }
}

impl Response {
    /// Whether the status is in the success class.
    pub fn is_success(&self) -> (ok: bool)
        ensures
            ok == is_success(self.status),
    {
        200 <= self.status && self.status < 300
    }
}

impl ReqResultError {
    /// Classifies an answer by its status class alone: a 2xx answer is handed
    /// back, any other becomes a status error that holds it. The body is not read.
    pub fn success(response: Response) -> (r: Result<Response, ReqResultError>)
        ensures
            is_success(response.status) ==> r == Ok::<Response, ReqResultError>(response),
            !is_success(response.status) ==> r == Err::<Response, ReqResultError>(
                ReqResultError::Status(response),
            ),
    {
        if response.is_success() {
            Ok(response)
        } else {
            Err(ReqResultError::Status(response))
        }
    }

    /// What the decoding of a delivered body means for the request: the value,
    /// or a fatal error that holds the decoder's.
    pub fn decoded<T>(parsed: Result<T, serde_json::Error>) -> (r: Result<T, ReqResultError>)
        ensures
            r == (match parsed {
                Ok(value) => Ok::<T, ReqResultError>(value),
                Err(err) => Err::<T, ReqResultError>(ReqResultError::Fatal(FatalError::Parse(err))),
            }),
    {
        match parsed {
            Ok(value) => Ok(value),
            Err(err) => Err(ReqResultError::Fatal(FatalError::Parse(err))),
        }
    }

    /// Whether this is a status error with exactly the given status code.
    pub fn is_status(&self, status: u16) -> (b: bool)
        ensures
            b == (self matches ReqResultError::Status(res) && res.status == status),
    {
        match self {
            ReqResultError::Status(res) => res.status == status,
            _ => false,
        }
    }
}

/// Where an authenticated request stands.
#[derive(Debug, Clone, Copy, PartialEq, Eq, Structural)]
pub enum Phase {
    /// Nothing was done yet: the clock is to be read.
    CheckingExpiry,
    /// The token had expired: a new one is being acquired before the first call.
    Refreshing,
    /// The first call is under way.
    Requesting,
    /// The first call was answered with 401: a new token is being acquired.
    Renewing,
    /// The second and last call is under way.
    Retrying,
    /// A 2xx answer was delivered.
    Done,
    /// The request failed.
    Failed,
}

/// What the outside world reports to a request in progress.
#[derive(Debug)]
pub enum Event {
    /// The current time, in seconds since the Unix epoch.
    Clock(u64),
    /// The outcome of acquiring a new token.
    Token(Result<Token, TokenError>),
    /// The outcome of the call: an answer, or the transport's error.
    Reply(Result<Response, reqwest::Error>),
}

/// What the caller is to do next for a request in progress.
#[derive(Debug)]
pub enum Action {
    /// Acquire a new token and report the outcome.
    Refresh,
    /// Send a GET to `url` with `bearer` as the bearer token, and report the outcome.
    Get { url: String, bearer: String },
    /// The request succeeded: decode the body of this answer.
    Deliver(Response),
    /// The request failed with this error.
    Fail(ReqResultError),
}

/// An action, with its strings as sequences of characters.
pub enum Plan {
    Refresh,
    Get { url: Seq<char>, bearer: Seq<char> },
    Deliver(Response),
    Fail(ReqResultError),
}

impl View for Action {
    type V = Plan;

    open spec fn view(&self) -> Plan {
        match *self {
            Action::Refresh => Plan::Refresh,
            Action::Get { url, bearer } => Plan::Get { url: url@, bearer: bearer@ },
            Action::Deliver(res) => Plan::Deliver(res),
            Action::Fail(err) => Plan::Fail(err),
        }
    }
}

impl Phase {
    /// Whether `event` is what a request in this phase waits for.
    pub open spec fn expects(self, event: Event) -> bool {
        match self {
            Phase::CheckingExpiry => event is Clock,
            Phase::Refreshing | Phase::Renewing => event is Token,
            Phase::Requesting | Phase::Retrying => event is Reply,
            Phase::Done | Phase::Failed => false,
        }
    }

    /// Whether the request is over.
    pub open spec fn is_final(self) -> bool {
        self == Phase::Done || self == Phase::Failed
    }

    /// How many more events a request in this phase can take at most.
    pub open spec fn rank(self) -> nat {
        match self {
            Phase::CheckingExpiry => 5,
            Phase::Refreshing => 4,
            Phase::Requesting => 3,
            Phase::Renewing => 2,
            Phase::Retrying => 1,
            Phase::Done | Phase::Failed => 0,
        }
    }

    /// Whether `event` is what a request in this phase waits for.
    pub fn accepts(&self, event: &Event) -> (b: bool)
        ensures
            b == self.expects(*event),
    {
        match (*self, event) {
            (Phase::CheckingExpiry, Event::Clock(_)) => true,
            (Phase::Refreshing, Event::Token(_)) => true,
            (Phase::Renewing, Event::Token(_)) => true,
            (Phase::Requesting, Event::Reply(_)) => true,
            (Phase::Retrying, Event::Reply(_)) => true,
            _ => false,
        }
    }
}

/// The call of `endpoint` with `token`: a GET of the API's prefix followed by the
/// endpoint, authenticated with the token's access token.
pub open spec fn call(token: Token, endpoint: Seq<char>) -> Plan {
    Plan::Get { url: API_URL@ + endpoint, bearer: token.access_token@ }
}

/// What an answer to the first call leads to: delivery for a 2xx status, a renewal
/// of the token for 401, failure with the answer for any other status.
pub open spec fn first_answer(res: Response) -> (Phase, Plan) {
    if is_success(res.status) {
        (Phase::Done, Plan::Deliver(res))
    } else if res.status == UNAUTHORIZED {
        (Phase::Renewing, Plan::Refresh)
    } else {
        (Phase::Failed, Plan::Fail(ReqResultError::Status(res)))
    }
}

/// What an answer to the second call leads to: delivery for a 2xx status, failure
/// with the answer for any other.
pub open spec fn last_answer(res: Response) -> (Phase, Plan) {
    if is_success(res.status) {
        (Phase::Done, Plan::Deliver(res))
    } else {
        (Phase::Failed, Plan::Fail(ReqResultError::Status(res)))
    }
}

/// One move of a request for `endpoint`: from the token held, the phase and the
/// event that the phase waited for, to the next phase, what is to be done, and the
/// token held from then on.
pub open spec fn step(token: Token, phase: Phase, endpoint: Seq<char>, event: Event) -> (
    Phase,
    Plan,
    Token,
)
    recommends
        phase.expects(event),
{
    match event {
        Event::Clock(now) => if token.expired_at(now) {
            (Phase::Refreshing, Plan::Refresh, token)
        } else {
            (Phase::Requesting, call(token, endpoint), token)
        },
        Event::Token(Ok(fresh)) => (
            if phase == Phase::Refreshing {
                Phase::Requesting
            } else {
                Phase::Retrying
            },
            call(fresh, endpoint),
            fresh,
        ),
        Event::Token(Err(err)) => (Phase::Failed, Plan::Fail(as_req_error(err)), token),
        Event::Reply(Err(err)) => (
            Phase::Failed,
            Plan::Fail(ReqResultError::Fatal(FatalError::Transport(err))),
            token,
        ),
        Event::Reply(Ok(res)) => if phase == Phase::Requesting {
            (first_answer(res).0, first_answer(res).1, token)
        } else {
            (last_answer(res).0, last_answer(res).1, token)
        },
    }
}

impl Token {
    /// Moves a request for `endpoint` on by one event. The caller starts in
    /// `Phase::CheckingExpiry` with the clock's reading, does what the action says,
    /// and comes back with the outcome and the phase that was returned, until the
    /// action is `Deliver` or `Fail`.
    ///
    /// An expired token is renewed before the first call. A first call answered
    /// with 401 is followed by one renewal and one more call, whose outcome is
    /// final. A failed renewal ends the request with the renewal's error. The
    /// token held changes only when a renewal succeeds, and then as a whole.
    pub fn req(&mut self, phase: Phase, endpoint: &str, event: Event) -> (next: (Phase, Action))
        requires
            phase.expects(event),
        ensures
            (next.0, next.1@, *final(self)) == step(*old(self), phase, endpoint@, event),
    {
        match event {
            Event::Clock(now) => {
                if self.is_expired(now) {
                    (Phase::Refreshing, Action::Refresh)
                } else {
                    (Phase::Requesting, self.simple_req(endpoint))
                }
            },
            Event::Token(acquired) => match self.refresh(acquired) {
                Ok(()) => {
                    let call = self.simple_req(endpoint);
                    match phase {
                        Phase::Refreshing => (Phase::Requesting, call),
                        _ => (Phase::Retrying, call),
                    }
                },
                Err(err) => (Phase::Failed, Action::Fail(ReqResultError::from(err))),
            },
            Event::Reply(Err(err)) => (Phase::Failed, Action::Fail(ReqResultError::from(err))),
            Event::Reply(Ok(res)) => match ReqResultError::success(res) {
                Ok(res) => (Phase::Done, Action::Deliver(res)),
                Err(err) => {
                    let renew = match phase {
                        Phase::Requesting => err.is_status(UNAUTHORIZED),
                        _ => false,
                    };
                    if renew {
                        (Phase::Renewing, Action::Refresh)
                    } else {
                        (Phase::Failed, Action::Fail(err))
                    }
                },
            },
        }
    }

    /// The call of `endpoint` with this token.
    pub fn simple_req(&self, endpoint: &str) -> (action: Action)
        ensures
            action@ == call(*self, endpoint@),
    {
        let mut url = String::from_str(API_URL);
        url.append(endpoint);
        Action::Get { url, bearer: self.access_token.clone() }
    }
}

impl Phase {
    /// How many renewals of the token a request in this phase can still ask for.
    pub open spec fn refreshes_left(self) -> nat {
        match self {
            Phase::CheckingExpiry => 2,
            Phase::Refreshing | Phase::Requesting => 1,
            _ => 0,
        }
    }

    /// How many calls of the endpoint a request in this phase can still ask for.
    pub open spec fn calls_left(self) -> nat {
        match self {
            Phase::CheckingExpiry | Phase::Refreshing => 2,
            Phase::Requesting | Phase::Renewing => 1,
            _ => 0,
        }
    }
}

/// Every move brings a request nearer to its end and uses up what it asks for:
/// a request takes five events at most, and from its first call on it asks for
/// one renewal and one more call at most. A request that is over waits for nothing.
pub proof fn lemma_step_is_bounded(token: Token, phase: Phase, endpoint: Seq<char>, event: Event)
    requires
        phase.expects(event),
    ensures
        !phase.is_final(),
        ({
            let (next, plan, _) = step(token, phase, endpoint, event);
            &&& next.rank() < phase.rank()
            &&& plan is Refresh ==> next.refreshes_left() < phase.refreshes_left()
            &&& next.refreshes_left() <= phase.refreshes_left()
            &&& plan is Get ==> next.calls_left() < phase.calls_left()
            &&& next.calls_left() <= phase.calls_left()
            &&& next.is_final() <==> plan is Deliver || plan is Fail
        }),
{
}

/// A request never calls the endpoint with an expired token: where the token has
/// expired at the clock's reading, the first thing asked for is a renewal, and the
/// first call is made with the new token once it is there. A renewal that fails
/// ends the request with its error, and the old token stays.
pub proof fn lemma_expired_token_is_renewed_first(
    token: Token,
    now: u64,
    endpoint: Seq<char>,
    acquired: Result<Token, TokenError>,
)
    requires
        token.expired_at(now),
    ensures
        step(token, Phase::CheckingExpiry, endpoint, Event::Clock(now)) == (
            Phase::Refreshing,
            Plan::Refresh,
            token,
        ),
        step(token, Phase::Refreshing, endpoint, Event::Token(acquired)) == (match acquired {
            Ok(fresh) => (Phase::Requesting, call(fresh, endpoint), fresh),
            Err(err) => (Phase::Failed, Plan::Fail(as_req_error(err)), token),
        }),
{
}

/// A token that has not expired is used as it is: the first thing asked for is
/// the call.
pub proof fn lemma_fresh_token_is_used(token: Token, now: u64, endpoint: Seq<char>)
    requires
        !token.expired_at(now),
    ensures
        step(token, Phase::CheckingExpiry, endpoint, Event::Clock(now)) == (
            Phase::Requesting,
            call(token, endpoint),
            token,
        ),
{
}

/// A first call answered with 401 leads to one renewal and, with the new token,
/// to one more call. The answer to that call is final whatever its status: a 2xx
/// answer is delivered, and any other, 401 too, fails the request with that second
/// answer and asks for nothing more.
pub proof fn lemma_unauthorized_is_retried_once(
    token: Token,
    endpoint: Seq<char>,
    first: Response,
    fresh: Token,
    second: Response,
)
    requires
        first.status == UNAUTHORIZED,
    ensures
        step(token, Phase::Requesting, endpoint, Event::Reply(Ok(first))) == (
            Phase::Renewing,
            Plan::Refresh,
            token,
        ),
        step(token, Phase::Renewing, endpoint, Event::Token(Ok(fresh))) == (
            Phase::Retrying,
            call(fresh, endpoint),
            fresh,
        ),
        is_success(second.status) ==> step(
            fresh,
            Phase::Retrying,
            endpoint,
            Event::Reply(Ok(second)),
        ) == (Phase::Done, Plan::Deliver(second), fresh),
        !is_success(second.status) ==> step(
            fresh,
            Phase::Retrying,
            endpoint,
            Event::Reply(Ok(second)),
        ) == (Phase::Failed, Plan::Fail(ReqResultError::Status(second)), fresh),
{
}

/// A first call answered with a status that is neither in the success class nor
/// 401 fails the request with that answer: no renewal is asked for, and the token
/// stays.
pub proof fn lemma_other_status_is_final(token: Token, endpoint: Seq<char>, res: Response)
    requires
        !is_success(res.status),
        res.status != UNAUTHORIZED,
    ensures
        step(token, Phase::Requesting, endpoint, Event::Reply(Ok(res))) == (
            Phase::Failed,
            Plan::Fail(ReqResultError::Status(res)),
            token,
        ),
{
}

/// A call that gets no answer fails the request with the transport's error, on
/// the first call as on the second, and the token stays.
pub proof fn lemma_no_answer_is_final(
    token: Token,
    phase: Phase,
    endpoint: Seq<char>,
    err: reqwest::Error,
)
    requires
        phase == Phase::Requesting || phase == Phase::Retrying,
    ensures
        step(token, phase, endpoint, Event::Reply(Err(err))) == (
            Phase::Failed,
            Plan::Fail(ReqResultError::Fatal(FatalError::Transport(err))),
            token,
        ),
{
}

/// What a request asks for, one after the other, as the given events come in.
/// It stops at the first event that the phase reached does not wait for.
pub open spec fn run(token: Token, phase: Phase, endpoint: Seq<char>, events: Seq<Event>) -> Seq<
    Plan,
>
    decreases events.len(),
{
    if events.len() == 0 || !phase.expects(events[0]) {
        Seq::empty()
    } else {
        let next = step(token, phase, endpoint, events[0]);
        seq![next.1] + run(next.2, next.0, endpoint, events.drop_first())
    }
}

/// How many renewals of the token are asked for.
pub open spec fn refreshes(plans: Seq<Plan>) -> nat
    decreases plans.len(),
{
    if plans.len() == 0 {
        0
    } else if plans[0] is Refresh {
        1 + refreshes(plans.drop_first())
    } else {
        refreshes(plans.drop_first())
    }
}

/// How many calls of the endpoint are asked for.
pub open spec fn calls(plans: Seq<Plan>) -> nat
    decreases plans.len(),
{
    if plans.len() == 0 {
        0
    } else if plans[0] is Get {
        1 + calls(plans.drop_first())
    } else {
        calls(plans.drop_first())
    }
}

/// Whatever events come in, a request asks for no more than its phase leaves
/// room for: two renewals and two calls at most over a whole request, one renewal
/// and one call at most once the first call is under way, and neither once the
/// second is.
pub proof fn lemma_run_is_bounded(
    token: Token,
    phase: Phase,
    endpoint: Seq<char>,
    events: Seq<Event>,
)
    ensures
        run(token, phase, endpoint, events).len() <= phase.rank(),
        refreshes(run(token, phase, endpoint, events)) <= phase.refreshes_left(),
        calls(run(token, phase, endpoint, events)) <= phase.calls_left(),
    decreases events.len(),
{
    if events.len() > 0 && phase.expects(events[0]) {
        let next = step(token, phase, endpoint, events[0]);
        let rest = run(next.2, next.0, endpoint, events.drop_first());
        let all = run(token, phase, endpoint, events);
        lemma_step_is_bounded(token, phase, endpoint, events[0]);
        lemma_run_is_bounded(next.2, next.0, endpoint, events.drop_first());
        assert(all == seq![next.1] + rest);
        assert(all.drop_first() =~= rest);
        assert(all[0] == next.1);
    }
}

/// With a token that has not expired when the request starts, the whole request
/// asks for one renewal at most, whatever the server answers and however the
/// renewal goes: a rejected token is renewed once, never twice.
pub proof fn lemma_fresh_token_is_renewed_at_most_once(
    token: Token,
    now: u64,
    endpoint: Seq<char>,
    later: Seq<Event>,
)
    requires
        !token.expired_at(now),
    ensures
        refreshes(run(token, Phase::CheckingExpiry, endpoint, seq![Event::Clock(now)] + later))
            <= 1,
        calls(run(token, Phase::CheckingExpiry, endpoint, seq![Event::Clock(now)] + later)) <= 2,
{
    let events = seq![Event::Clock(now)] + later;
    let all = run(token, Phase::CheckingExpiry, endpoint, events);
    let rest = run(token, Phase::Requesting, endpoint, later);
    assert(events[0] == Event::Clock(now));
    assert(events.drop_first() =~= later);
    lemma_run_is_bounded(token, Phase::Requesting, endpoint, later);
    assert(all == seq![call(token, endpoint)] + rest);
    assert(all.drop_first() =~= rest);
    assert(all[0] == call(token, endpoint));
}

} // verus!

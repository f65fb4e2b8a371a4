use intra42::{
    FatalError, Grant, ReqResultError, Response, Secret, Token, TokenError, TokenInitFatalError,
    API_URL, API_URL_AUTH, API_VERSION, BASE_URL, EXPIRATION,
};

fn token_at(created_at: u64) -> Token {
    Token {
        access_token: String::from("first"),
        token_type: String::from("bearer"),
        expires_in: 7200,
        scope: String::from("public"),
        created_at,
    }
}

fn grant(access_token: &str, expires_in: u64) -> Grant {
    Grant {
        access_token: String::from(access_token),
        token_type: String::from("bearer"),
        expires_in,
        scope: String::from("public"),
    }
}

fn no_answer() -> reqwest::Error {
    reqwest::blocking::Client::new()
        .get("http://127.0.0.1:1/oauth/token")
        .send()
        .unwrap_err()
}

fn bad_body() -> serde_json::Error {
    serde_json::from_slice::<serde_json::Value>(b"{\"access_token\":").unwrap_err()
}

#[test]
fn constants_spell_the_service() {
    assert_eq!(BASE_URL, "https://api.intra.42.fr/");
    assert_eq!(API_VERSION, "v2");
    assert_eq!(API_URL, format!("{BASE_URL}{API_VERSION}/"));
    assert_eq!(API_URL_AUTH, format!("{API_URL}oauth/token"));
    assert_eq!(EXPIRATION, 7200);
    assert_eq!(Token::EXPIRATION, 7200);
}

#[test]
fn expiry_boundary() {
    let token = token_at(1_700_000_000);
    assert!(!token.is_expired(1_700_000_000));
    assert!(!token.is_expired(1_700_000_000 + 7199));
    assert!(token.is_expired(1_700_000_000 + 7200));
    assert!(token.is_expired(1_700_000_000 + 7201));
    assert!(token.is_expired(u64::MAX));
}

#[test]
fn expiry_ignores_declared_lifetime() {
    let mut token = token_at(100);
    token.expires_in = 10;
    assert!(!token.is_expired(111));
    token.expires_in = 1_000_000;
    assert!(token.is_expired(100 + 7200));
}

#[test]
fn expiry_with_clock_behind_receipt() {
    let token = token_at(10_000);
    assert!(!token.is_expired(0));
    assert!(!token.is_expired(9_999));
}

#[test]
fn expiry_near_the_end_of_time() {
    let token = token_at(u64::MAX - 10);
    assert!(!token.is_expired(u64::MAX));
    let token = token_at(u64::MAX - 7200);
    assert!(token.is_expired(u64::MAX));
    assert!(!token.is_expired(u64::MAX - 1));
}

#[test]
fn new_token_is_stamped_and_fresh() {
    let token = Token::try_new(Ok(grant("abc", 5)), 1_650_000_000).unwrap();
    assert_eq!(token.access_token, "abc");
    assert_eq!(token.token_type, "bearer");
    assert_eq!(token.expires_in, 5);
    assert_eq!(token.scope, "public");
    assert_eq!(token.created_at, 1_650_000_000);
    assert!(!token.is_expired(token.created_at));
}

#[test]
fn undecodable_grant_is_fatal() {
    let err = Token::try_new(Err(bad_body()), 3).unwrap_err();
    assert!(matches!(
        err,
        TokenError::Fatal(TokenInitFatalError::Req(FatalError::Parse(_)))
    ));
}

#[test]
fn no_answer_from_token_endpoint_is_fatal() {
    let outcome = Token::authorized(Err(no_answer()));
    assert!(matches!(
        outcome,
        Err(TokenError::Fatal(TokenInitFatalError::Req(FatalError::Transport(_))))
    ));
}

#[test]
fn token_endpoint_status_is_kept() {
    let refused = Response { status: 401, body: b"{\"error\":\"invalid_client\"}".to_vec() };
    match Token::authorized(Ok(refused)) {
        Err(TokenError::Status(res)) => {
            assert_eq!(res.status, 401);
            assert_eq!(res.body, b"{\"error\":\"invalid_client\"}".to_vec());
        }
        other => panic!("{other:?}"),
    }
    let granted = Response { status: 200, body: b"{}".to_vec() };
    match Token::authorized(Ok(granted)) {
        Ok(res) => {
            assert_eq!(res.status, 200);
            assert_eq!(res.body, b"{}".to_vec());
        }
        other => panic!("{other:?}"),
    }
}

#[test]
fn refresh_replaces_the_whole_token() {
    let mut token = token_at(1);
    let fresh = Token {
        access_token: String::from("second"),
        token_type: String::from("Bearer"),
        expires_in: 60,
        scope: String::from("projects"),
        created_at: 9_000,
    };
    assert!(token.refresh(Ok(fresh)).is_ok());
    assert_eq!(token.access_token, "second");
    assert_eq!(token.token_type, "Bearer");
    assert_eq!(token.expires_in, 60);
    assert_eq!(token.scope, "projects");
    assert_eq!(token.created_at, 9_000);
}

#[test]
fn failed_refresh_keeps_the_token() {
    let mut token = token_at(1);
    let err = TokenError::Status(Response { status: 500, body: vec![1, 2, 3] });
    match token.refresh(Err(err)) {
        Err(TokenError::Status(res)) => {
            assert_eq!(res.status, 500);
            assert_eq!(res.body, vec![1, 2, 3]);
        }
        other => panic!("{other:?}"),
    }
    assert_eq!(token.access_token, "first");
    assert_eq!(token.token_type, "bearer");
    assert_eq!(token.expires_in, 7200);
    assert_eq!(token.scope, "public");
    assert_eq!(token.created_at, 1);
}

#[test]
fn form_of_the_exchange() {
    let secret = Secret { uid: String::from("u-123"), secret: String::from("s-456") };
    assert_eq!(
        secret.form(),
        vec![
            (String::from("grant_type"), String::from("client_credentials")),
            (String::from("client_id"), String::from("u-123")),
            (String::from("client_secret"), String::from("s-456")),
        ]
    );
}

#[test]
fn errors_convert_both_ways() {
    let missing = TokenError::from(envy::Error::MissingValue("uid"));
    assert!(matches!(
        missing,
        TokenError::Fatal(TokenInitFatalError::Env(envy::Error::MissingValue("uid")))
    ));
    let as_req = ReqResultError::from(missing);
    assert!(matches!(as_req, ReqResultError::Config(envy::Error::MissingValue("uid"))));
    assert!(matches!(
        TokenError::from(as_req),
        TokenError::Fatal(TokenInitFatalError::Env(envy::Error::MissingValue("uid")))
    ));

    let transport = TokenError::from(no_answer());
    assert!(matches!(
        transport,
        TokenError::Fatal(TokenInitFatalError::Req(FatalError::Transport(_)))
    ));
    let as_req = ReqResultError::from(transport);
    assert!(matches!(as_req, ReqResultError::Fatal(FatalError::Transport(_))));
    assert!(matches!(
        TokenError::from(as_req),
        TokenError::Fatal(TokenInitFatalError::Req(FatalError::Transport(_)))
    ));

    let parse = ReqResultError::Fatal(FatalError::Parse(bad_body()));
    assert!(matches!(
        TokenError::from(parse),
        TokenError::Fatal(TokenInitFatalError::Req(FatalError::Parse(_)))
    ));

    let status = TokenError::Status(Response { status: 429, body: vec![7] });
    match ReqResultError::from(status) {
        ReqResultError::Status(res) => {
            assert_eq!(res.status, 429);
            assert_eq!(res.body, vec![7]);
            match TokenError::from(ReqResultError::Status(res)) {
                TokenError::Status(res) => assert_eq!((res.status, res.body), (429, vec![7])),
                other => panic!("{other:?}"),
            }
        }
        other => panic!("{other:?}"),
    }
    assert!(matches!(
        ReqResultError::from(no_answer()),
        ReqResultError::Fatal(FatalError::Transport(_))
    ));
}

use intra42::endpoint::project::decimal_string;
use intra42::{Action, Event, Phase, ReqProjectsParams, Response, Token};

fn fresh_token() -> Token {
    Token {
        access_token: String::from("tok"),
        token_type: String::from("bearer"),
        expires_in: 7200,
        scope: String::from("public"),
        created_at: 1_000,
    }
}

#[test]
fn test_req_projects() {
    let mut token = fresh_token();

    let filter = vec![
        ("visible".to_string(), "true".to_string()),
        ("exam".to_string(), "false".to_string()),
    ];

    for i in 1..=16 {
        let endpoint = Token::req_projects_endpoint(ReqProjectsParams {
            page: i,
            filter: filter.clone(),
        });
        assert_eq!(
            endpoint,
            format!("cursus/21/projects?page={i}&filter[visible]=true&filter[exam]=false")
        );

        let (phase, action) = token.req(Phase::CheckingExpiry, &endpoint, Event::Clock(1_001));
        assert_eq!(phase, Phase::Requesting);
        match action {
            Action::Get { url, bearer } => {
                assert_eq!(url, format!("https://api.intra.42.fr/v2/{endpoint}"));
                assert_eq!(bearer, "tok");
            }
            other => panic!("{other:?}"),
        }
        let page = Response { status: 200, body: format!("[{{\"id\":{i}}}]").into_bytes() };
        let (phase, action) = token.req(phase, &endpoint, Event::Reply(Ok(page)));
        assert_eq!(phase, Phase::Done);
        match action {
            Action::Deliver(res) => {
                let projects: serde_json::Value = serde_json::from_slice(&res.body).unwrap();
                assert_eq!(projects[0]["id"].as_u64(), Some(i as u64));
            }
            other => panic!("{other:?}"),
        }
    }
}

#[test]
fn projects_endpoint_without_filter() {
    let endpoint = Token::req_projects_endpoint(ReqProjectsParams { page: 0, filter: vec![] });
    assert_eq!(endpoint, "cursus/21/projects?page=0");
    let endpoint = Token::req_projects_endpoint(ReqProjectsParams { page: 120, filter: vec![] });
    assert_eq!(endpoint, "cursus/21/projects?page=120");
}

#[test]
fn projects_endpoint_keeps_filter_order_and_text() {
    let endpoint = Token::req_projects_endpoint(ReqProjectsParams {
        page: 3,
        filter: vec![
            ("b".to_string(), "2".to_string()),
            ("a".to_string(), "".to_string()),
            ("b".to_string(), "x y".to_string()),
        ],
    });
    assert_eq!(endpoint, "cursus/21/projects?page=3&filter[b]=2&filter[a]=&filter[b]=x y");
}

#[test]
fn decimal_of_numbers() {
    assert_eq!(decimal_string(0), "0");
    assert_eq!(decimal_string(7), "7");
    assert_eq!(decimal_string(10), "10");
    assert_eq!(decimal_string(16), "16");
    assert_eq!(decimal_string(1234567890), "1234567890");
    assert_eq!(decimal_string(usize::MAX), usize::MAX.to_string());
}

#[test]
fn user_endpoint() {
    assert_eq!(Token::req_user_endpoint("adelille"), "users/adelille");
    assert_eq!(Token::req_user_endpoint(""), "users/");
}

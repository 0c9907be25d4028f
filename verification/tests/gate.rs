use session_gate::cookie::{request_pair, write_session, KeyMaterial};
use session_gate::gate::{
    conclude, enter, holds_segment, is_public, route, Decision, GateStep,
};
use session_gate::login::{begin, finish, issue_session, Data};
use session_gate::query::{Param, ParamKind, Statement};
use session_gate::response::Redirect;
use session_gate::store::{Cell, QueryError, Reply, Row, StatementResult};

fn key() -> KeyMaterial {
    KeyMaterial::new((1..=64).collect()).unwrap()
}

fn to_login() -> Decision {
    Decision::Redirect(Redirect { location: "/".to_owned(), permanent: false })
}

fn sessions(n: usize) -> Reply {
    let row = || Cell::Object(Row::new().with("token".to_owned(), "'t'".to_owned()));
    Reply::Answered(vec![StatementResult::Rows((0..n).map(|_| row()).collect())])
}

fn lookup_of(token: &str) -> Statement {
    Statement {
        text: "SELECT * FROM sessions WHERE token = $token".to_owned(),
        params: vec![Param {
            name: "token".to_owned(),
            value: token.to_owned(),
            kind: ParamKind::Text,
        }],
    }
}

#[test]
fn root_and_paths_with_a_public_segment_are_public() {
    for path in [
        "/",
        "/public",
        "/public/",
        "/public/static/styles.css",
        "/api/public/login",
        "/republic/public",
        "/a/public/b/public",
        "public",
        "public/x",
    ] {
        assert!(is_public(path));
    }
}

#[test]
fn mark_inside_a_longer_segment_does_not_open_a_path() {
    for path in [
        "",
        "//",
        "/hello",
        "/republic",
        "/publications",
        "/publicx/y",
        "/x/xpublic",
        "/api/public-login",
        "/Public/x",
        "/api/publi/c",
        "/publi",
        "/ ",
        "/a?public",
        "republic",
    ] {
        assert!(!is_public(path));
    }
}

#[test]
fn segments_are_whole_words_between_slashes() {
    assert!(holds_segment("/a/bc/d", "bc"));
    assert!(holds_segment("/a/bc", "bc"));
    assert!(holds_segment("bc/d", "bc"));
    assert!(holds_segment("bc", "bc"));
    assert!(holds_segment("/abc/bc", "bc"));
    assert!(!holds_segment("/abc", "bc"));
    assert!(!holds_segment("/bcd", "bc"));
    assert!(!holds_segment("/a/b", "bc"));
    assert!(!holds_segment("", "bc"));
    assert!(holds_segment("/a//b", ""));
    assert!(holds_segment("", ""));
    assert!(!holds_segment("ab", ""));
}

#[test]
fn path_that_only_holds_the_mark_is_protected() {
    let k = key();
    assert_eq!(enter("/republic", "", &k), GateStep::Decided(to_login()));
    assert_eq!(enter("/republic", "tok=garbage", &k), GateStep::Decided(to_login()));
    assert_eq!(route("/republic", None), GateStep::Decided(to_login()));
    assert_eq!(route("/republic", Some("t".to_owned())), GateStep::Ask(lookup_of("t")));
    let pair = request_pair(&write_session(&k, "t"));
    assert_eq!(enter("/publications", &pair, &k), GateStep::Ask(lookup_of("t")));
}

#[test]
fn public_paths_pass_whatever_the_cookie() {
    let k = key();
    let good = request_pair(&write_session(&k, "t"));
    for path in ["/", "/api/public/login", "/public/static/a.css"] {
        for cookies in ["", "tok=garbage", good.as_str()] {
            assert_eq!(enter(path, cookies, &k), GateStep::Decided(Decision::Forward));
        }
        assert_eq!(route(path, None), GateStep::Decided(Decision::Forward));
        assert_eq!(route(path, Some("t".to_owned())), GateStep::Decided(Decision::Forward));
    }
}

#[test]
fn request_without_cookie_is_sent_to_login() {
    let k = key();
    for path in ["/hello", "/api/private", "", "/x/y/z"] {
        assert_eq!(enter(path, "", &k), GateStep::Decided(to_login()));
        assert_eq!(enter(path, "theme=dark", &k), GateStep::Decided(to_login()));
        assert_eq!(route(path, None), GateStep::Decided(to_login()));
    }
}

#[test]
fn denial_is_a_temporary_redirect() {
    match route("/hello", None) {
        GateStep::Decided(Decision::Redirect(to)) => {
            assert_eq!(to.location, "/");
            assert!(!to.permanent);
            assert_eq!(to.status(), 307);
        }
        other => panic!("unexpected step {:?}", other),
    }
}

#[test]
fn request_with_cookie_asks_the_store_for_its_token() {
    let k = key();
    let pair = request_pair(&write_session(&k, "123e4567-e89b-42d3-a456-426614174000"));
    assert_eq!(
        enter("/hello", &pair, &k),
        GateStep::Ask(lookup_of("123e4567-e89b-42d3-a456-426614174000"))
    );
    assert_eq!(route("/hello", Some("abc".to_owned())), GateStep::Ask(lookup_of("abc")));
}

#[test]
fn hostile_token_stays_a_bound_value() {
    let step = route("/hello", Some("' OR true --".to_owned()));
    assert_eq!(step, GateStep::Ask(lookup_of("' OR true --")));
}

#[test]
fn exactly_one_session_is_allowed() {
    assert_eq!(conclude(sessions(1)), (Decision::Forward, None));
}

#[test]
fn anything_but_one_session_is_denied() {
    let replies = vec![
        (sessions(0), QueryError::NoSuchRow),
        (sessions(2), QueryError::TooManyRows),
        (Reply::Refused("down".to_owned()), QueryError::StoreFailure("down".to_owned())),
        (Reply::Answered(vec![]), QueryError::EmptyResponse),
        (
            Reply::Answered(vec![StatementResult::Failed("no table".to_owned())]),
            QueryError::StoreFailure("no table".to_owned()),
        ),
        (
            Reply::Answered(vec![StatementResult::Scalar("1".to_owned())]),
            QueryError::ShapeMismatch { batch: 0, row: None, found: "1".to_owned() },
        ),
        (
            Reply::Answered(vec![StatementResult::Rows(vec![Cell::Scalar("1".to_owned())])]),
            QueryError::ShapeMismatch { batch: 0, row: Some(0), found: "1".to_owned() },
        ),
        (
            Reply::Answered(vec![StatementResult::Rows(vec![]), StatementResult::Rows(vec![])]),
            QueryError::TooManyBatches,
        ),
    ];
    for (reply, cause) in replies {
        assert_eq!(conclude(reply), (to_login(), Some(cause)));
    }
}

#[test]
fn cookie_of_a_login_opens_a_protected_path() {
    // A valid login ...
    let k = key();
    let data = Data { email: "a@b.com".to_owned(), pass: "1234".to_owned() };
    assert!(begin(Ok(data)).is_ok());
    let user = Row::new().with("id".to_owned(), "users:1".to_owned());
    let found = Reply::Answered(vec![StatementResult::Rows(vec![Cell::Object(user)])]);
    let (token, create) = issue_session(found, "203.0.113.9").unwrap();
    assert_eq!(create.params[0].value, token);
    let done = finish(sessions(1), token.clone(), &k).unwrap();
    // ... sets a cookie `tok` whose value has 36 characters or more ...
    let pair = request_pair(&done.set_cookie);
    assert!(pair.starts_with("tok="));
    assert!(pair.len() - "tok=".len() >= 36);
    assert_eq!(token.len(), 36);
    // ... and a request that bears it is forwarded.
    assert_eq!(enter("/hello", &pair, &k), GateStep::Ask(lookup_of(&token)));
    assert_eq!(conclude(sessions(1)).0, Decision::Forward);
}

#[test]
fn tampered_cookie_is_sent_to_login() {
    let k = key();
    let pair = request_pair(&write_session(&k, "123e4567-e89b-42d3-a456-426614174000"));
    assert!(matches!(enter("/hello", &pair, &k), GateStep::Ask(_)));
    let value_starts = "tok=".len();
    let chars: Vec<char> = pair.chars().collect();
    for at in value_starts..chars.len() {
        if chars[at] == '%' {
            continue;
        }
        let mut changed = chars.clone();
        changed[at] = if chars[at] == 'A' { 'B' } else { 'A' };
        let tampered: String = changed.into_iter().collect();
        assert_ne!(tampered, pair);
        assert_eq!(enter("/hello", &tampered, &k), GateStep::Decided(to_login()));
    }
}

#[test]
fn token_that_the_store_does_not_hold_is_sent_to_login() {
    let k = key();
    let pair = request_pair(&write_session(&k, "123e4567-e89b-42d3-a456-426614174000"));
    assert!(matches!(enter("/hello", &pair, &k), GateStep::Ask(_)));
    assert_eq!(conclude(sessions(0)).0, to_login());
}

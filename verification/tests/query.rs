use session_gate::query::{session_create, session_lookup, user_lookup, ParamKind};
use session_gate::response::Redirect;

#[test]
fn user_lookup_statement() {
    let s = user_lookup("a@b.com", "x");
    assert_eq!(
        s.text,
        "SELECT * FROM users WHERE email = $email AND crypto::argon2::compare(pass, $pass)"
    );
    assert_eq!(s.params.len(), 2);
    assert_eq!((s.params[0].name.as_str(), s.params[0].value.as_str()), ("email", "a@b.com"));
    assert_eq!((s.params[1].name.as_str(), s.params[1].value.as_str()), ("pass", "x"));
    assert_eq!(s.params[0].kind, ParamKind::Text);
    assert_eq!(s.params[1].kind, ParamKind::Text);
}

#[test]
fn session_create_statement() {
    let s = session_create("t-1", "users:1", "::1");
    assert_eq!(
        s.text,
        "CREATE sessions SET token = $token, user = $user, ip = $ip, time = time::now()"
    );
    let bound: Vec<(&str, &str, ParamKind)> =
        s.params.iter().map(|p| (p.name.as_str(), p.value.as_str(), p.kind)).collect();
    assert_eq!(
        bound,
        vec![
            ("token", "t-1", ParamKind::Text),
            ("user", "users:1", ParamKind::Record),
            ("ip", "::1", ParamKind::Text)
        ]
    );
}

#[test]
fn session_lookup_statement() {
    let s = session_lookup("t-1");
    assert_eq!(s.text, "SELECT * FROM sessions WHERE token = $token");
    assert_eq!(s.params.len(), 1);
    assert_eq!((s.params[0].name.as_str(), s.params[0].value.as_str()), ("token", "t-1"));
    assert_eq!(s.params[0].kind, ParamKind::Text);
}

#[test]
fn every_placeholder_of_a_statement_is_bound() {
    for s in [user_lookup("e", "p"), session_create("t", "u", "i"), session_lookup("t")] {
        for p in &s.params {
            assert!(s.text.contains(&format!("${}", p.name)));
        }
        assert_eq!(s.text.matches('$').count(), s.params.len());
    }
}

#[test]
fn redirect_statuses() {
    assert_eq!(Redirect::temporary("/").status(), 307);
    assert_eq!(Redirect::permanent("/hello").status(), 308);
    assert_eq!(
        Redirect::temporary("/"),
        Redirect { location: "/".to_owned(), permanent: false }
    );
    assert_eq!(
        Redirect::permanent("/hello"),
        Redirect { location: "/hello".to_owned(), permanent: true }
    );
}

use session_gate::cookie::{
    is_plain_name, is_printable, read_session, request_pair, seal_cookie, session_cookie,
    write_session, KeyMaterial, SameSitePolicy, SessionCookie, KEY_BYTES, SESSION_ATTRIBUTES,
    SESSION_COOKIE, SESSION_PATH,
};

fn cookie(name: &str, value: &str, path: &str, same_site: SameSitePolicy) -> SessionCookie {
    SessionCookie {
        name: name.to_owned(),
        value: value.to_owned(),
        path: path.to_owned(),
        same_site,
    }
}

fn key(seed: u8) -> KeyMaterial {
    KeyMaterial::new((0..64u8).map(|b| b.wrapping_mul(7).wrapping_add(seed)).collect()).unwrap()
}

#[test]
fn key_material_needs_sixty_four_bytes() {
    assert!(KeyMaterial::new(vec![]).is_none());
    assert!(KeyMaterial::new(vec![1; 63]).is_none());
    assert!(KeyMaterial::new(vec![1; 64]).is_some());
    assert!(KeyMaterial::new(vec![1; 65]).is_some());
    assert_eq!(KEY_BYTES, 64);
}

#[test]
fn key_material_keeps_its_bytes() {
    let bytes: Vec<u8> = (0..80).collect();
    assert_eq!(KeyMaterial::new(bytes.clone()).unwrap().bytes(), &bytes);
}

#[test]
fn generated_keys_are_long_enough_and_differ() {
    let a = KeyMaterial::generate();
    let b = KeyMaterial::generate();
    assert_eq!(a.bytes().len(), 64);
    assert_eq!(b.bytes().len(), 64);
    assert_ne!(a.bytes(), b.bytes());
}

#[test]
fn session_cookie_attributes() {
    let cookie = session_cookie("abc");
    assert_eq!(cookie.name, "tok");
    assert_eq!(cookie.value, "abc");
    assert_eq!(cookie.path, "/");
    assert_eq!(cookie.same_site, SameSitePolicy::Strict);
    assert_eq!(SESSION_COOKIE, "tok");
    assert_eq!(SESSION_PATH, "/");
}

#[test]
fn set_cookie_line_names_the_cookie_and_its_attributes() {
    let line = write_session(&key(1), "123e4567-e89b-42d3-a456-426614174000");
    assert!(line.starts_with("tok="));
    assert!(line.contains("; Path=/"));
    assert!(line.contains("; SameSite=Strict"));
    let pair = request_pair(&line);
    assert!(pair.len() >= 4 + 36);
    assert!(!pair.contains(';'));
}

#[test]
fn sealed_value_hides_the_token() {
    let token = "123e4567-e89b-42d3-a456-426614174000";
    let line = write_session(&key(1), token);
    assert!(!line.contains(token));
    assert_ne!(request_pair(&line), format!("tok={}", token));
}

#[test]
fn sealing_twice_gives_two_lines_that_both_open() {
    let k = key(1);
    let a = write_session(&k, "t");
    let b = write_session(&k, "t");
    assert_ne!(a, b);
    assert_eq!(read_session(&k, &request_pair(&a)), Some("t".to_owned()));
    assert_eq!(read_session(&k, &request_pair(&b)), Some("t".to_owned()));
}

#[test]
fn sealed_cookie_opens_to_the_token() {
    let k = key(1);
    for token in ["123e4567-e89b-42d3-a456-426614174000", "", "a b;c=d", "né/+%"] {
        let line = write_session(&k, token);
        assert_eq!(read_session(&k, &request_pair(&line)), Some(token.to_owned()));
        assert_eq!(read_session(&k, &line), Some(token.to_owned()));
    }
}

#[test]
fn cookie_is_found_among_others() {
    let k = key(1);
    let pair = request_pair(&write_session(&k, "t"));
    let header = format!("theme=dark; {}; lang=en", pair);
    assert_eq!(read_session(&k, &header), Some("t".to_owned()));
}

#[test]
fn other_key_does_not_open() {
    let line = write_session(&key(1), "t");
    assert_eq!(read_session(&key(2), &request_pair(&line)), None);
}

#[test]
fn absent_or_unsealed_cookie_does_not_open() {
    let k = key(1);
    assert_eq!(read_session(&k, ""), None);
    assert_eq!(read_session(&k, "theme=dark"), None);
    assert_eq!(read_session(&k, "tok=123e4567-e89b-42d3-a456-426614174000"), None);
    assert_eq!(read_session(&k, "tok="), None);
    assert_eq!(read_session(&k, "tok=\u{1}"), None);
}

#[test]
fn cookie_sealed_under_another_name_does_not_open() {
    let k = key(1);
    let pair = request_pair(&write_session(&k, "t"));
    let renamed = pair.replacen("tok=", "kot=", 1);
    assert_eq!(read_session(&k, &renamed), None);
}

#[test]
fn request_pair_is_the_part_before_the_first_semicolon() {
    assert_eq!(request_pair("tok=abc; Path=/; SameSite=Strict"), "tok=abc");
    assert_eq!(request_pair("tok=abc"), "tok=abc");
    assert_eq!(request_pair(";x"), "");
    assert_eq!(request_pair(""), "");
}

#[test]
fn line_is_the_pair_followed_by_the_attributes() {
    let line = write_session(&key(1), "123e4567-e89b-42d3-a456-426614174000");
    assert_eq!(line, format!("{}; SameSite=Strict; Path=/", request_pair(&line)));
    assert_eq!(SESSION_ATTRIBUTES, "; SameSite=Strict; Path=/");
}

#[test]
fn each_policy_is_written_out() {
    let k = key(3);
    let cases = [
        (SameSitePolicy::Strict, "; SameSite=Strict; Path=/app"),
        (SameSitePolicy::Lax, "; SameSite=Lax; Path=/app"),
        (SameSitePolicy::Unrestricted, "; SameSite=None; Secure; Path=/app"),
    ];
    for (policy, attributes) in cases {
        let line = seal_cookie(&k, &cookie("sid9", "v", "/app", policy)).unwrap();
        let pair = request_pair(&line);
        assert!(pair.starts_with("sid9="));
        assert_eq!(line, format!("{}{}", pair, attributes));
    }
}

#[test]
fn cookie_sealed_under_any_plain_name_opens_under_that_name() {
    let k = key(3);
    let line = seal_cookie(&k, &cookie("tok", "v", "/a b;c", SameSitePolicy::Lax)).unwrap();
    assert_eq!(read_session(&k, &request_pair(&line)), Some("v".to_owned()));
    let line = seal_cookie(&k, &cookie("Tok", "v", "/", SameSitePolicy::Lax)).unwrap();
    assert_eq!(read_session(&k, &request_pair(&line)), None);
}

#[test]
fn cookie_with_an_odd_name_or_path_is_not_sealed() {
    let k = key(3);
    for name in ["", "a b", "a=b", "a;b", "né", "a-b"] {
        assert_eq!(seal_cookie(&k, &cookie(name, "v", "/", SameSitePolicy::Strict)), None);
    }
    for path in ["/\n", "/é", "/\u{7f}", "\t"] {
        assert_eq!(seal_cookie(&k, &cookie("tok", "v", path, SameSitePolicy::Strict)), None);
    }
    assert!(seal_cookie(&k, &cookie("tok", "v", "", SameSitePolicy::Strict)).is_some());
}

#[test]
fn plain_names() {
    for name in ["tok", "T0k", "a", "0"] {
        assert!(is_plain_name(name));
    }
    for name in ["", " ", "to k", "tok=", "t_k", "tök", "{", "[", "`", "@", "/", ":"] {
        assert!(!is_plain_name(name));
    }
}

#[test]
fn printable_texts() {
    for text in ["", "/", " ~", "/a;b=c"] {
        assert!(is_printable(text));
    }
    for text in ["\u{1f}", "\u{7f}", "a\tb", "é", "a\n"] {
        assert!(!is_printable(text));
    }
}

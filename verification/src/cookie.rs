//! The session cookie: what it holds, how it is sealed for the client and how
//! a sealed cookie that comes back is opened. Sealing and opening are done by
//! the private cookie jar of `axum_extra`, under a key that the caller owns.

use axum::response::IntoResponse;
use axum_extra::extract::cookie::{Cookie, Key, PrivateCookieJar, SameSite};
use http::header::{HeaderMap, HeaderValue, COOKIE, SET_COOKIE};
use vstd::prelude::*;

verus! {

/// Name of the session cookie.
pub const SESSION_COOKIE: &'static str = "tok";

/// Path that the session cookie is valid for.
pub const SESSION_PATH: &'static str = "/";

/// What follows the pair in the `Set-Cookie` line of the session cookie.
pub const SESSION_ATTRIBUTES: &'static str = "; SameSite=Strict; Path=/";

/// Least number of bytes that key material must have.
pub const KEY_BYTES: usize = 64;

/// When a browser sends a cookie along with requests from other sites.
#[derive(Clone, Copy, Debug, PartialEq, Eq, Structural)]
pub enum SameSitePolicy {
    /// Never.
    Strict,
    /// Only when the user follows a link.
    Lax,
    /// Always.
    Unrestricted,
}

/// A cookie before it is sealed.
#[derive(Debug, PartialEq, Eq)]
pub struct SessionCookie {
    pub name: String,
    pub value: String,
    pub path: String,
    pub same_site: SameSitePolicy,
}

/// The secret that cookies are sealed with.
pub struct KeyMaterial {
    bytes: Vec<u8>,
}

/// A name made of ASCII letters and digits, at least one.
pub open spec fn plain_name(name: Seq<char>) -> bool {
    &&& name.len() > 0
    &&& forall|i: int|
        0 <= i < name.len() ==> {
            let c = #[trigger] name[i];
            ('a' <= c <= 'z') || ('A' <= c <= 'Z') || ('0' <= c <= '9')
        }
}

/// A text made of printable ASCII characters.
pub open spec fn printable(text: Seq<char>) -> bool {
    forall|i: int| 0 <= i < text.len() ==> ' ' <= #[trigger] text[i] <= '~'
}

/// Index of the first `;` at or after `from`; the length where there is none.
pub open spec fn first_semicolon(line: Seq<char>, from: int) -> int
    decreases line.len() - from,
{
    if from < 0 || from >= line.len() {
        line.len() as int
    } else if line[from] == ';' {
        from
    } else {
        first_semicolon(line, from + 1)
    }
}

/// The `name=value` part of a `Set-Cookie` line: what a client that keeps
/// the cookie sends back in its `Cookie` header.
pub open spec fn pair_of(line: Seq<char>) -> Seq<char> {
    line.take(first_semicolon(line, 0))
}

/// How a policy is written in a `Set-Cookie` line.
pub open spec fn policy_name(policy: SameSitePolicy) -> Seq<char> {
    match policy {
        SameSitePolicy::Strict => "Strict"@,
        SameSitePolicy::Lax => "Lax"@,
        SameSitePolicy::Unrestricted => "None"@,
    }
}

/// What follows the pair in the `Set-Cookie` line of a cookie with this
/// policy and path: the policy, with `Secure` where it is unrestricted, then
/// the path.
pub open spec fn attributes_of(policy: SameSitePolicy, path: Seq<char>) -> Seq<char> {
    "; SameSite="@ + policy_name(policy) + if policy == SameSitePolicy::Unrestricted {
        "; Secure"@
    } else {
        Seq::<char>::empty()
    } + "; Path="@ + path
}

/// A `Set-Cookie` line is one of the cookie `name` with `value` sealed under
/// `key`: it starts with the name, its pair opens to the value, and the
/// attributes follow the pair.
pub open spec fn seals(
    line: Seq<char>,
    key: Seq<u8>,
    name: Seq<char>,
    value: Seq<char>,
    attributes: Seq<char>,
) -> bool {
    &&& pair_of(line).take(name.len() as int + 1) == name.push('=')
    &&& opened(key, pair_of(line), name) == Some(value)
    &&& line == pair_of(line) + attributes
}

/// The value that the private jar finds under `name` when it opens the
/// `Cookie` header `cookies` with `key`; `None` where the header holds no
/// such cookie or the cookie was not sealed with `key` under that name.
pub uninterp spec fn opened(key: Seq<u8>, cookies: Seq<char>, name: Seq<char>) -> Option<
    Seq<char>,
>;

impl KeyMaterial {
    #[verifier::type_invariant]
    spec fn long_enough(self) -> bool {
        self.bytes@.len() >= KEY_BYTES
    }

    /// The bytes of the key.
    pub closed spec fn view(&self) -> Seq<u8> {
        self.bytes@
    }

    /// Key material from `bytes`, which must be at least `KEY_BYTES` long.
    pub fn new(bytes: Vec<u8>) -> (key: Option<KeyMaterial>)
        ensures
            key is Some <==> bytes@.len() >= KEY_BYTES,
            key matches Some(k) ==> k@ == bytes@,
    {
        if bytes.len() >= KEY_BYTES {
            Some(KeyMaterial { bytes })
        } else {
            None
        }
    }

    /// Fresh key material from the system's source of randomness.
    pub fn generate() -> (key: KeyMaterial)
        ensures
            key@.len() == KEY_BYTES,
    {
        KeyMaterial { bytes: random_key() }
    }

    /// The bytes of the key.
    pub fn bytes(&self) -> (bytes: &Vec<u8>)
        ensures
            bytes@ == self@,
            bytes@.len() >= KEY_BYTES,
    {
        proof {
            use_type_invariant(self);
        }
        &self.bytes
    }
}

/// Calls `Key::generate` and copies the master key out of it. Claimed: the
/// key has `KEY_BYTES` bytes. Nothing is claimed of the bytes themselves,
/// which are random.
#[verifier::external_body]
fn random_key() -> (bytes: Vec<u8>)
    ensures
        bytes@.len() == KEY_BYTES,
{
    Key::generate().master().to_vec()
}

/// Puts `cookies` into a request's `Cookie` header, builds the private jar
/// with `PrivateCookieJar::from_headers` under `Key::from(key)` and asks it
/// for `name` with `PrivateCookieJar::get`. What comes back depends on the
/// three arguments alone, and is called `opened`.
#[verifier::external_body]
fn open_sealed(key: &Vec<u8>, cookies: &str, name: &str) -> (value: Option<String>)
    requires
        key@.len() >= KEY_BYTES,
    ensures
        match value {
            Some(v) => opened(key@, cookies@, name@) == Some(v@),
            None => opened(key@, cookies@, name@) is None,
        },
{
    let mut headers = HeaderMap::new();
    if let Ok(held) = HeaderValue::from_str(cookies) {
        headers.insert(COOKIE, held);
    }
    let jar = PrivateCookieJar::from_headers(&headers, Key::from(key.as_slice()));
    match jar.get(name) {
        Some(found) => Some(found.value().to_owned()),
        None => None,
    }
}

/// Adds `cookie` to an empty private jar (`PrivateCookieJar::new` under
/// `Key::from(key)`, then `PrivateCookieJar::add`) and returns the
/// `Set-Cookie` line of the jar's response. Sealing draws a random nonce, so
/// two calls differ. Claimed of every outcome, for a plain name and a
/// printable path: there is a line; it is the name, `=` and the sealed
/// value, then `; SameSite=` with the policy, `; Secure` where the policy is
/// unrestricted, and `; Path=` with the path; and its pair opens, under the
/// same key and name, to the value that was sealed.
#[verifier::external_body]
fn seal_private(key: &Vec<u8>, cookie: &SessionCookie) -> (line: Option<String>)
    requires
        key@.len() >= KEY_BYTES,
        plain_name(cookie.name@),
        printable(cookie.path@),
    ensures
        match line {
            Some(l) => seals(
                l@,
                key@,
                cookie.name@,
                cookie.value@,
                attributes_of(cookie.same_site, cookie.path@),
            ),
            None => false,
        },
{
    let mut fresh = Cookie::new(cookie.name.clone(), cookie.value.clone());
    fresh.set_path(cookie.path.clone());
    fresh.set_same_site(
        match cookie.same_site {
            SameSitePolicy::Strict => SameSite::Strict,
            SameSitePolicy::Lax => SameSite::Lax,
            SameSitePolicy::Unrestricted => SameSite::None,
        },
    );
    let response = PrivateCookieJar::new(Key::from(key.as_slice())).add(fresh).into_response();
    match response.headers().get(SET_COOKIE) {
        Some(line) => line.to_str().ok().map(str::to_owned),
        None => None,
    }
}

/// Decides whether `name` is made of ASCII letters and digits, at least one.
pub fn is_plain_name(name: &str) -> (r: bool)
    ensures
        r == plain_name(name@),
{
    let v = crate::text::chars_of(name);
    if v.len() == 0 {
        return false;
    }
    let mut i: usize = 0;
    while i < v.len()
        invariant
            i <= v.len(),
            v@ == name@,
            v.len() > 0,
            forall|j: int|
                0 <= j < i ==> {
                    let c = #[trigger] v@[j];
                    ('a' <= c <= 'z') || ('A' <= c <= 'Z') || ('0' <= c <= '9')
                },
        decreases v.len() - i,
    {
        let c = v[i];
        if !(('a' <= c && c <= 'z') || ('A' <= c && c <= 'Z') || ('0' <= c && c <= '9')) {
            return false;
        }
        i += 1;
    }
    true
}

/// Decides whether `text` is made of printable ASCII characters.
pub fn is_printable(text: &str) -> (r: bool)
    ensures
        r == printable(text@),
{
    let v = crate::text::chars_of(text);
    let mut i: usize = 0;
    while i < v.len()
        invariant
            i <= v.len(),
            v@ == text@,
            forall|j: int| 0 <= j < i ==> ' ' <= #[trigger] v@[j] <= '~',
        decreases v.len() - i,
    {
        if !(' ' <= v[i] && v[i] <= '~') {
            return false;
        }
        i += 1;
    }
    true
}

/// The `Set-Cookie` line of `cookie`, its value sealed with `key`. There is
/// none for a cookie whose name is not plain or whose path is not printable.
pub fn seal_cookie(key: &KeyMaterial, cookie: &SessionCookie) -> (line: Option<String>)
    ensures
        line is Some <==> plain_name(cookie.name@) && printable(cookie.path@),
        line matches Some(l) ==> seals(
            l@,
            key@,
            cookie.name@,
            cookie.value@,
            attributes_of(cookie.same_site, cookie.path@),
        ),
{
    if is_plain_name(cookie.name.as_str()) && is_printable(cookie.path.as_str()) {
        seal_private(key.bytes(), cookie)
    } else {
        None
    }
}

/// A cookie is the session cookie for `token`: it is called `tok`, holds
/// the token, is valid for every path and is never sent across sites.
pub open spec fn is_session_cookie(cookie: SessionCookie, token: Seq<char>) -> bool {
    &&& cookie.name@ == SESSION_COOKIE@
    &&& cookie.value@ == token
    &&& cookie.path@ == SESSION_PATH@
    &&& cookie.same_site == SameSitePolicy::Strict
}

/// The session cookie for `token`, before sealing.
pub fn session_cookie(token: &str) -> (cookie: SessionCookie)
    ensures
        is_session_cookie(cookie, token@),
{
    SessionCookie {
        name: SESSION_COOKIE.to_owned(),
        value: token.to_owned(),
        path: SESSION_PATH.to_owned(),
        same_site: SameSitePolicy::Strict,
    }
}

/// The `Set-Cookie` line that hands `token` to the client, sealed with `key`.
/// A client keeps one cookie per name and path, so the line also takes the
/// place of a session cookie that the client held before.
pub fn write_session(key: &KeyMaterial, token: &str) -> (line: String)
    ensures
        seals(line@, key@, SESSION_COOKIE@, token@, SESSION_ATTRIBUTES@),
{
    let cookie = session_cookie(token);
    proof {
        reveal_strlit("tok");
        reveal_strlit("/");
        reveal_strlit("; SameSite=");
        reveal_strlit("Strict");
        reveal_strlit("; Path=");
        reveal_strlit("; SameSite=Strict; Path=/");
        assert(attributes_of(cookie.same_site, cookie.path@) =~= SESSION_ATTRIBUTES@);
    }
    seal_cookie(key, &cookie).unwrap()
}

/// The session token that the `Cookie` header `cookies` carries, if it
/// carries one that was sealed with `key`.
pub fn read_session(key: &KeyMaterial, cookies: &str) -> (token: Option<String>)
    ensures
        match token {
            Some(t) => opened(key@, cookies@, SESSION_COOKIE@) == Some(t@),
            None => opened(key@, cookies@, SESSION_COOKIE@) is None,
        },
{
    open_sealed(key.bytes(), cookies, SESSION_COOKIE)
}

/// The `name=value` part of a `Set-Cookie` line.
pub fn request_pair(line: &str) -> (pair: String)
    ensures
        pair@ == pair_of(line@),
{
    let v = crate::text::chars_of(line);
    let mut pair = String::new();
    let mut i: usize = 0;
    while i < v.len() && v[i] != ';'
        invariant
            i <= v.len(),
            v@ == line@,
            pair@ == v@.take(i as int),
            first_semicolon(v@, 0) == first_semicolon(v@, i as int),
        decreases v.len() - i,
    {
        pair.push(v[i]);
        i += 1;
        assert(v@.take(i as int) =~= v@.take(i - 1).push(v@[i - 1]));
    }
    pair
}

} // verus!

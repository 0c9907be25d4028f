//! The statements that this crate sends to the store. Their text is fixed;
//! whatever a client supplied travels as a bound parameter and never becomes
//! part of the text.

use vstd::prelude::*;

verus! {

/// Text of the statement that looks a user up by email and password.
pub const USER_LOOKUP: &'static str =
    "SELECT * FROM users WHERE email = $email AND crypto::argon2::compare(pass, $pass)";

/// Text of the statement that creates a session.
pub const SESSION_CREATE: &'static str =
    "CREATE sessions SET token = $token, user = $user, ip = $ip, time = time::now()";

/// Text of the statement that looks a session up by its token.
pub const SESSION_LOOKUP: &'static str = "SELECT * FROM sessions WHERE token = $token";

/// How the store is to read a bound value.
#[derive(Clone, Copy, Debug, PartialEq, Eq, Structural)]
pub enum ParamKind {
    /// A string.
    Text,
    /// A reference to a record, written as the store renders record ids.
    Record,
}

/// A value bound to a placeholder of a statement.
#[derive(Debug, PartialEq, Eq)]
pub struct Param {
    pub name: String,
    pub value: String,
    pub kind: ParamKind,
}

/// A statement ready to be sent: fixed text and bound values.
#[derive(Debug, PartialEq, Eq)]
pub struct Statement {
    pub text: String,
    pub params: Vec<Param>,
}

/// A bound value, as contracts see it.
pub struct ParamView {
    pub name: Seq<char>,
    pub value: Seq<char>,
    pub kind: ParamKind,
}

/// A statement, as contracts see it.
pub struct StatementView {
    pub text: Seq<char>,
    pub params: Seq<ParamView>,
}

impl View for Param {
    type V = ParamView;

    open spec fn view(&self) -> ParamView {
        ParamView { name: self.name@, value: self.value@, kind: self.kind }
    }
}

impl View for Statement {
    type V = StatementView;

    open spec fn view(&self) -> StatementView {
        StatementView {
            text: self.text@,
            params: Seq::new(self.params@.len(), |i: int| self.params@[i]@),
        }
    }
}

/// A string bound to the placeholder `name`.
pub open spec fn text_param(name: Seq<char>, value: Seq<char>) -> ParamView {
    ParamView { name, value, kind: ParamKind::Text }
}

/// The lookup of the user with this email whose password hash matches.
pub open spec fn user_lookup_view(email: Seq<char>, pass: Seq<char>) -> StatementView {
    StatementView {
        text: USER_LOOKUP@,
        params: seq![text_param("email"@, email), text_param("pass"@, pass)],
    }
}

/// The creation of a session for `user`, reached from `address`.
pub open spec fn session_create_view(
    token: Seq<char>,
    user: Seq<char>,
    address: Seq<char>,
) -> StatementView {
    StatementView {
        text: SESSION_CREATE@,
        params: seq![
            text_param("token"@, token),
            ParamView { name: "user"@, value: user, kind: ParamKind::Record },
            text_param("ip"@, address),
        ],
    }
}

/// The lookup of the sessions that carry `token`.
pub open spec fn session_lookup_view(token: Seq<char>) -> StatementView {
    StatementView { text: SESSION_LOOKUP@, params: seq![text_param("token"@, token)] }
}

/// What a client supplies never reaches the text of a statement: the text
/// is the same for all values, and each value is bound as it was given.
pub proof fn law_values_stay_bound(
    email: Seq<char>,
    pass: Seq<char>,
    token: Seq<char>,
    user: Seq<char>,
    address: Seq<char>,
)
    ensures
        user_lookup_view(email, pass).text == USER_LOOKUP@,
        user_lookup_view(email, pass).params.len() == 2,
        user_lookup_view(email, pass).params[0].value == email,
        user_lookup_view(email, pass).params[1].value == pass,
        session_create_view(token, user, address).text == SESSION_CREATE@,
        session_create_view(token, user, address).params.len() == 3,
        session_create_view(token, user, address).params[0].value == token,
        session_create_view(token, user, address).params[1].value == user,
        session_create_view(token, user, address).params[2].value == address,
        session_lookup_view(token).text == SESSION_LOOKUP@,
        session_lookup_view(token).params.len() == 1,
        session_lookup_view(token).params[0].value == token,
{
}

/// Binds `value` to `name`.
fn bind(name: &str, value: &str, kind: ParamKind) -> (p: Param)
    ensures
        p@ == (ParamView { name: name@, value: value@, kind }),
{
    Param { name: name.to_owned(), value: value.to_owned(), kind }
}

/// Builds the lookup of a user by email and password.
pub fn user_lookup(email: &str, pass: &str) -> (s: Statement)
    ensures
        s@ == user_lookup_view(email@, pass@),
{
    let mut params: Vec<Param> = Vec::new();
    params.push(bind("email", email, ParamKind::Text));
    params.push(bind("pass", pass, ParamKind::Text));
    let s = Statement { text: USER_LOOKUP.to_owned(), params };
    assert(s@.params =~= user_lookup_view(email@, pass@).params);
    s
}

/// Builds the creation of a session.
pub fn session_create(token: &str, user: &str, address: &str) -> (s: Statement)
    ensures
        s@ == session_create_view(token@, user@, address@),
{
    let mut params: Vec<Param> = Vec::new();
    params.push(bind("token", token, ParamKind::Text));
    params.push(bind("user", user, ParamKind::Record));
    params.push(bind("ip", address, ParamKind::Text));
    let s = Statement { text: SESSION_CREATE.to_owned(), params };
    assert(s@.params =~= session_create_view(token@, user@, address@).params);
    s
}

/// Builds the lookup of a session by token.
pub fn session_lookup(token: &str) -> (s: Statement)
    ensures
        s@ == session_lookup_view(token@),
{
    let mut params: Vec<Param> = Vec::new();
    params.push(bind("token", token, ParamKind::Text));
    let s = Statement { text: SESSION_LOOKUP.to_owned(), params };
    assert(s@.params =~= session_lookup_view(token@).params);
    s
}

} // verus!

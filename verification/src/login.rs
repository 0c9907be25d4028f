//! Logging in: the submitted credentials are checked, the user is looked up,
//! a session is created and the client gets its cookie. The store is asked
//! twice on the way; this module decides what is sent and what each reply
//! means, and leaves the sending to the caller.

use crate::cookie::{seals, write_session, KeyMaterial, SESSION_ATTRIBUTES, SESSION_COOKIE};
use crate::query::{
    session_create, session_create_view, user_lookup, user_lookup_view, Statement, StatementView,
};
use crate::response::{Redirect, RedirectView};
use crate::store::{expect_single_row, single_row, QueryError, Reply};
use crate::text::{blank, is_blank};
use crate::token::{random_token, token_shaped};
use vstd::prelude::*;

verus! {

/// Message for a submission without an email.
pub const EMAIL_MISSING: &'static str = "Email must have a value";

/// Message for a submission without a password.
pub const PASSWORD_MISSING: &'static str = "Password must have a value";

/// Message for credentials that match no user.
pub const NO_MATCH: &'static str = "There is no email/password match";

/// Message for a lookup that the store did not answer as expected.
pub const LOOKUP_FAILED: &'static str = "There was an error retrieving data from the db";

/// Message for a session that the store did not create.
pub const WRITE_FAILED: &'static str = "Failed to communicate with the database";

/// Field of a user record that identifies the user.
pub const USER_ID: &'static str = "id";

/// Where a client goes after logging in.
pub const LANDING: &'static str = "/hello";

/// Status of a rejected submission.
pub const BAD_REQUEST: u16 = 400;

/// Status of credentials that match no user.
pub const UNAUTHORIZED: u16 = 401;

/// Status of a failure on the store's side.
pub const INTERNAL_ERROR: u16 = 500;

/// The credentials that a client submits.
#[derive(Debug, PartialEq, Eq)]
pub struct Data {
    pub email: String,
    pub pass: String,
}

/// Why a login failed.
#[derive(Debug, PartialEq, Eq)]
pub enum LoginError {
    /// The request body could not be read as credentials; the text says why.
    BodyRejected(String),
    /// The email is empty or blank.
    EmailMissing,
    /// The password is empty or blank.
    PasswordMissing,
    /// No user has this email and password.
    NoMatch,
    /// The store failed the lookup or answered it in an unexpected shape;
    /// the cause is kept for the log and never shown.
    Lookup(QueryError),
    /// The store holds a user for the credentials, but the record has no id.
    UserWithoutId,
    /// The store did not confirm the session; the cause is kept for the log
    /// and never shown.
    StoreWrite(QueryError),
}

/// What a client that logged in is sent.
#[derive(Debug, PartialEq, Eq)]
pub struct LoginSuccess {
    /// The token of the new session.
    pub token: String,
    /// The `Set-Cookie` line that carries the sealed token.
    pub set_cookie: String,
    /// Where the client goes next.
    pub redirect: Redirect,
}

impl LoginError {
    /// The text that the client is shown.
    pub open spec fn message_text(self) -> Seq<char> {
        match self {
            LoginError::BodyRejected(why) => why@,
            LoginError::EmailMissing => EMAIL_MISSING@,
            LoginError::PasswordMissing => PASSWORD_MISSING@,
            LoginError::NoMatch => NO_MATCH@,
            LoginError::Lookup(_) => LOOKUP_FAILED@,
            LoginError::UserWithoutId => LOOKUP_FAILED@,
            LoginError::StoreWrite(_) => WRITE_FAILED@,
        }
    }

    /// The status code that the failure is answered with.
    pub open spec fn status_code(self) -> u16 {
        match self {
            LoginError::BodyRejected(_) => BAD_REQUEST,
            LoginError::EmailMissing => BAD_REQUEST,
            LoginError::PasswordMissing => BAD_REQUEST,
            LoginError::NoMatch => UNAUTHORIZED,
            LoginError::Lookup(_) => INTERNAL_ERROR,
            LoginError::UserWithoutId => INTERNAL_ERROR,
            LoginError::StoreWrite(_) => INTERNAL_ERROR,
        }
    }

    /// The text that the client is shown.
    pub fn message(&self) -> (text: String)
        ensures
            text@ == self.message_text(),
    {
        match self {
            LoginError::BodyRejected(why) => why.clone(),
            LoginError::EmailMissing => EMAIL_MISSING.to_owned(),
            LoginError::PasswordMissing => PASSWORD_MISSING.to_owned(),
            LoginError::NoMatch => NO_MATCH.to_owned(),
            LoginError::Lookup(_) => LOOKUP_FAILED.to_owned(),
            LoginError::UserWithoutId => LOOKUP_FAILED.to_owned(),
            LoginError::StoreWrite(_) => WRITE_FAILED.to_owned(),
        }
    }

    /// The status code that the failure is answered with.
    pub fn status(&self) -> (code: u16)
        ensures
            code == self.status_code(),
            400 <= code < 600,
    {
        match self {
            LoginError::BodyRejected(_) => BAD_REQUEST,
            LoginError::EmailMissing => BAD_REQUEST,
            LoginError::PasswordMissing => BAD_REQUEST,
            LoginError::NoMatch => UNAUTHORIZED,
            LoginError::Lookup(_) => INTERNAL_ERROR,
            LoginError::UserWithoutId => INTERNAL_ERROR,
            LoginError::StoreWrite(_) => INTERNAL_ERROR,
        }
    }
}

/// What a submission leads to: the lookup to send, or the reason why nothing
/// is sent. The email is judged before the password.
pub open spec fn submitted(payload: Result<Data, String>) -> Result<StatementView, LoginError> {
    match payload {
        Err(why) => Err(LoginError::BodyRejected(why)),
        Ok(data) => if blank(data.email@) {
            Err(LoginError::EmailMissing)
        } else if blank(data.pass@) {
            Err(LoginError::PasswordMissing)
        } else {
            Ok(user_lookup_view(data.email@, data.pass@))
        },
    }
}

/// What the reply to the user lookup says: the id of the one user that
/// matched, or why there is none. Only "no row" means that the credentials
/// are wrong; every other failure is a fault on the store's side.
pub open spec fn identified(reply: Reply) -> Result<Seq<char>, LoginError> {
    match single_row(reply) {
        Err(QueryError::NoSuchRow) => Err(LoginError::NoMatch),
        Err(cause) => Err(LoginError::Lookup(cause)),
        Ok(user) => if user@.contains_key(USER_ID@) {
            Ok(user@[USER_ID@])
        } else {
            Err(LoginError::UserWithoutId)
        },
    }
}

/// What the reply to the creation of the session says: the session counts
/// as created when the store answered with its one row.
pub open spec fn confirmed(reply: Reply) -> Result<(), LoginError> {
    match single_row(reply) {
        Err(cause) => Err(LoginError::StoreWrite(cause)),
        Ok(_) => Ok(()),
    }
}

/// First step: judges what the client submitted. `payload` is the parsed
/// body, or the reason why the body was rejected.
pub fn begin(payload: Result<Data, String>) -> (step: Result<Statement, LoginError>)
    ensures
        match step {
            Ok(lookup) => submitted(payload) == Ok::<StatementView, LoginError>(lookup@),
            Err(e) => submitted(payload) == Err::<StatementView, LoginError>(e),
        },
{
    let data = match payload {
        Err(why) => {
            return Err(LoginError::BodyRejected(why));
        },
        Ok(data) => data,
    };
    if is_blank(data.email.as_str()) {
        return Err(LoginError::EmailMissing);
    }
    if is_blank(data.pass.as_str()) {
        return Err(LoginError::PasswordMissing);
    }
    Ok(user_lookup(data.email.as_str(), data.pass.as_str()))
}

/// Reads the id of the user out of the reply to the user lookup.
pub fn identify(reply: Reply) -> (user: Result<String, LoginError>)
    ensures
        match user {
            Ok(id) => identified(reply) == Ok::<Seq<char>, LoginError>(id@),
            Err(e) => identified(reply) == Err::<Seq<char>, LoginError>(e),
        },
{
    match expect_single_row(reply) {
        Err(QueryError::NoSuchRow) => Err(LoginError::NoMatch),
        Err(cause) => Err(LoginError::Lookup(cause)),
        Ok(user) => match user.get(USER_ID) {
            Some(id) => Ok(id.clone()),
            None => Err(LoginError::UserWithoutId),
        },
    }
}

/// Second step: takes the reply to the user lookup. For the user that it
/// names, draws a fresh token and builds the statement that creates the
/// session for a client at `client_address`.
pub fn issue_session(reply: Reply, client_address: &str) -> (step: Result<
    (String, Statement),
    LoginError,
>)
    ensures
        match step {
            Ok((token, create)) => {
                &&& token_shaped(token@)
                &&& identified(reply) matches Ok(id)
                &&& create@ == session_create_view(token@, id, client_address@)
            },
            Err(e) => identified(reply) == Err::<Seq<char>, LoginError>(e),
        },
{
    let id = identify(reply)?;
    let token = random_token();
    let create = session_create(token.as_str(), id.as_str(), client_address);
    Ok((token, create))
}

/// Third step: takes the reply to the creation of the session. Where the
/// store confirms it, seals `token` into the session cookie and sends the
/// client on.
pub fn finish(reply: Reply, token: String, key: &KeyMaterial) -> (step: Result<
    LoginSuccess,
    LoginError,
>)
    ensures
        match step {
            Ok(done) => {
                &&& confirmed(reply) is Ok
                &&& done.token == token
                &&& seals(done.set_cookie@, key@, SESSION_COOKIE@, token@, SESSION_ATTRIBUTES@)
                &&& done.redirect@ == (RedirectView { location: LANDING@, permanent: true })
            },
            Err(e) => confirmed(reply) == Err::<(), LoginError>(e),
        },
{
    match expect_single_row(reply) {
        Err(cause) => Err(LoginError::StoreWrite(cause)),
        Ok(_) => {
            let set_cookie = write_session(key, token.as_str());
            Ok(LoginSuccess { token, set_cookie, redirect: Redirect::permanent(LANDING) })
        },
    }
}

} // verus!

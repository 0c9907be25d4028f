//! What holds of logging in and of admitting requests, taken together. The
//! store is not part of this crate; the laws speak of it through a model of the
//! session table and of the replies that a faithful store gives.

use crate::cookie::{
    first_semicolon, opened, pair_of, seals, SESSION_ATTRIBUTES, SESSION_COOKIE,
};
use crate::gate::{final_state, public_path, state_on_entry, GateState};
use crate::login::{
    confirmed, identified, submitted, Data, LoginError, EMAIL_MISSING, LOOKUP_FAILED, NO_MATCH,
    PASSWORD_MISSING, WRITE_FAILED,
};
use crate::query::{session_create_view, StatementView};
use crate::store::{single_batch, single_row, Reply};
use crate::text::blank;
use crate::token::{token_shaped, TOKEN_CHARS};
use vstd::prelude::*;

verus! {

/// A row of the session table.
pub struct SessionRecord {
    pub token: Seq<char>,
    pub user: Seq<char>,
    pub address: Seq<char>,
}

/// Number of rows of `table` that carry `token`.
pub open spec fn sessions_with(table: Seq<SessionRecord>, token: Seq<char>) -> nat
    decreases table.len(),
{
    if table.len() == 0 {
        0
    } else {
        let earlier = sessions_with(table.drop_last(), token);
        if table.last().token == token {
            earlier + 1
        } else {
            earlier
        }
    }
}

/// `reply` is what a store gives to one selecting statement that matched
/// `matches` rows: one batch of that many records.
pub open spec fn answers(reply: Reply, matches: nat) -> bool {
    single_batch(reply) matches Ok(rows) && rows.len() == matches
}

/// The session table after a store has run `create`, where `create` is a
/// statement that creates a session: one more row, made of the values bound
/// to the statement.
pub open spec fn after_create(table: Seq<SessionRecord>, create: StatementView) -> Seq<
    SessionRecord,
> {
    table.push(
        SessionRecord {
            token: create.params[0].value,
            user: create.params[1].value,
            address: create.params[2].value,
        },
    )
}

/// Whatever the credentials, a lookup that finds no user fails the login
/// with the one message for "no match", and nothing but an empty result
/// does; so unknown emails and wrong passwords cannot be told apart.
pub proof fn law_no_match_is_generic(reply: Reply)
    ensures
        identified(reply) == Err::<Seq<char>, LoginError>(LoginError::NoMatch) <==> answers(reply, 0),
        LoginError::NoMatch.message_text() == NO_MATCH@,
{
}

/// What a client is shown after a failed login is one of five fixed texts
/// or the reason why its body was rejected; what the store said is in none
/// of them.
pub proof fn law_messages_hide_the_store(e: LoginError)
    ensures
        e matches LoginError::BodyRejected(why) ==> e.message_text() == why@,
        !(e is BodyRejected) ==> {
            ||| e.message_text() == EMAIL_MISSING@
            ||| e.message_text() == PASSWORD_MISSING@
            ||| e.message_text() == NO_MATCH@
            ||| e.message_text() == LOOKUP_FAILED@
            ||| e.message_text() == WRITE_FAILED@
        },
        400 <= e.status_code() < 600,
{
}

/// A submission whose email or password is empty or blank is turned down
/// with the message for that field, the email first, and no statement for
/// the store comes of it.
pub proof fn law_blank_credentials_stay_home(data: Data)
    requires
        blank(data.email@) || blank(data.pass@),
    ensures
        submitted(Ok(data)) is Err,
        blank(data.email@) ==> submitted(Ok(data))->Err_0 == LoginError::EmailMissing,
        !blank(data.email@) ==> submitted(Ok(data))->Err_0 == LoginError::PasswordMissing,
        LoginError::EmailMissing.message_text() == EMAIL_MISSING@,
        LoginError::PasswordMissing.message_text() == PASSWORD_MISSING@,
{
}

/// Adding a row adds one to the count of its token and leaves the others.
pub proof fn lemma_count_after_insert(
    table: Seq<SessionRecord>,
    record: SessionRecord,
    token: Seq<char>,
)
    ensures
        sessions_with(table.push(record), token) == sessions_with(table, token) + if record.token
            == token {
            1nat
        } else {
            0nat
        },
{
    assert(table.push(record).drop_last() =~= table);
}

/// No token is on more than one row of `table`.
pub open spec fn tokens_unique(table: Seq<SessionRecord>) -> bool {
    forall|token: Seq<char>| #[trigger] sessions_with(table, token) <= 1
}

/// Creating a session under a token that is new to the table leaves every
/// token on one row at most.
pub proof fn law_tokens_stay_unique(
    table: Seq<SessionRecord>,
    token: Seq<char>,
    user: Seq<char>,
    address: Seq<char>,
)
    requires
        tokens_unique(table),
        sessions_with(table, token) == 0,
    ensures
        tokens_unique(after_create(table, session_create_view(token, user, address))),
{
    let record = SessionRecord { token, user, address };
    let after = after_create(table, session_create_view(token, user, address));
    assert(after == table.push(record));
    assert forall|other: Seq<char>| #[trigger] sessions_with(after, other) <= 1 by {
        lemma_count_after_insert(table, record, other);
    }
}

/// A login that succeeds adds exactly one row to the session table, the
/// cookie it hands out opens to the token of that row, and a later request
/// that bears the cookie ends allowed or, on a public path, unseen. Here `create` and `token` are what the second step of the login
/// gave for `user_reply`, and `set_cookie` what the third gave for
/// `session_reply`. The token must be new to the table, which a random
/// token is but for a collision.
pub proof fn law_login_opens_gate(
    table: Seq<SessionRecord>,
    user_reply: Reply,
    address: Seq<char>,
    token: Seq<char>,
    create: StatementView,
    session_reply: Reply,
    key: Seq<u8>,
    set_cookie: Seq<char>,
    path: Seq<char>,
    lookup_reply: Reply,
)
    requires
        identified(user_reply) matches Ok(user) && create == session_create_view(
            token,
            user,
            address,
        ),
        confirmed(session_reply) is Ok,
        seals(set_cookie, key, SESSION_COOKIE@, token, SESSION_ATTRIBUTES@),
        sessions_with(table, token) == 0,
        answers(lookup_reply, sessions_with(after_create(table, create), token)),
    ensures
        after_create(table, create).len() == table.len() + 1,
        after_create(table, create).last().token == token,
        sessions_with(after_create(table, create), token) == 1,
        final_state(path, opened(key, pair_of(set_cookie), SESSION_COOKIE@), lookup_reply) == if public_path(
            path,
        ) {
            GateState::Public
        } else {
            GateState::Allowed
        },
{
    let record = SessionRecord { token, user: identified(user_reply)->Ok_0, address };
    assert(after_create(table, create) == table.push(record));
    lemma_count_after_insert(table, record, token);
}

/// The first `;` at or after `from` lies within the line, and no `;`
/// stands between `from` and it.
pub proof fn lemma_pair_holds_no_semicolon(line: Seq<char>, from: int)
    requires
        0 <= from <= line.len(),
    ensures
        from <= first_semicolon(line, from) <= line.len(),
        forall|i: int| from <= i < first_semicolon(line, from) ==> line[i] != ';',
    decreases line.len() - from,
{
    if from < line.len() && line[from] != ';' {
        lemma_pair_holds_no_semicolon(line, from + 1);
    }
}

/// The line that a successful login sets is one cookie, the session cookie:
/// its pair starts with the cookie's name and holds no `;`, it opens under
/// the server's key to the new token, which has 36 characters, and after
/// the pair stand the attributes that keep the cookie to this site and
/// make it valid for every path. Here `token` is what the second step of
/// the login drew and `set_cookie` what the third step gave for it.
pub proof fn law_login_sets_the_session_cookie(key: Seq<u8>, token: Seq<char>, set_cookie: Seq<char>)
    requires
        token_shaped(token),
        seals(set_cookie, key, SESSION_COOKIE@, token, SESSION_ATTRIBUTES@),
    ensures
        pair_of(set_cookie).take(SESSION_COOKIE@.len() as int + 1) == SESSION_COOKIE@.push('='),
        forall|i: int| 0 <= i < pair_of(set_cookie).len() ==> pair_of(set_cookie)[i] != ';',
        opened(key, pair_of(set_cookie), SESSION_COOKIE@) == Some(token),
        token.len() == TOKEN_CHARS,
        set_cookie == pair_of(set_cookie) + SESSION_ATTRIBUTES@,
{
    lemma_pair_holds_no_semicolon(set_cookie, 0);
}

/// On a path that is not public, a request without a session cookie, or
/// with one whose token the session table does not hold, ends denied.
pub proof fn law_unknown_session_is_denied(
    path: Seq<char>,
    token: Option<Seq<char>>,
    table: Seq<SessionRecord>,
    reply: Reply,
)
    requires
        !public_path(path),
        token matches Some(t) ==> sessions_with(table, t) == 0 && answers(
            reply,
            sessions_with(table, t),
        ),
    ensures
        final_state(path, token, reply) == GateState::Denied,
{
}

/// On a path that is not public a request is allowed only where the
/// store's reply to the lookup is exactly one session: a failure of the
/// store, a reply of another shape, no session and several sessions all
/// leave it denied.
pub proof fn law_gate_fails_closed(path: Seq<char>, token: Option<Seq<char>>, reply: Reply)
    requires
        !public_path(path),
    ensures
        final_state(path, token, reply) == GateState::Allowed <==> token is Some && single_row(
            reply,
        ) is Ok,
        final_state(path, token, reply) != GateState::Allowed ==> final_state(path, token, reply)
            == GateState::Denied,
{
}

/// The root path and every path of which a segment is the public mark pass
/// unseen, whatever cookie the request bears and whatever the store holds.
pub proof fn law_public_paths_bypass(path: Seq<char>, token: Option<Seq<char>>, reply: Reply)
    requires
        public_path(path),
    ensures
        state_on_entry(path, token) == GateState::Public,
        final_state(path, token, reply) == GateState::Public,
{
}

} // verus!

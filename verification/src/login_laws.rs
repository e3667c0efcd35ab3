//! What holds of logins, of the check of requests and of the long history as a whole.
use vstd::prelude::*;

use crate::host::{Host, Request, World};
use crate::platform::{
    ActionView, EventView, FindingView, JsonView, PayloadView, ReplyView, SqlValueView,
};
use crate::routes::history::{HistoryState, LONG_HISTORY_QUERY};
use crate::routes::login::{
    AuthStateView, LoginStateView, UserIdError, BEARER, COUNT_USERS, FALLBACK_USER, JWT_SECRET,
    SELECT_USER,
};
use crate::token::ClaimsView;

verus! {

/// A token that carries some claims, sent back in the `Authorization` header, is the token that
/// is checked, and the only user that it can identify is the one that it was issued to.
pub proof fn law_token_identifies_its_user(
    token: Seq<char>,
    claims: ClaimsView,
    secret: Seq<char>,
    user_id: Seq<char>,
)
    requires
        crate::token::carries(token, claims, secret),
    ensures
        ({
            let header = Some(Some(crate::codec::bearer_authorization_view(token)));
            &&& crate::routes::login::presented_token(header, Some(secret)) == Ok::<
                (Seq<char>, Seq<char>),
                UserIdError,
            >((token, secret))
            &&& crate::routes::login::identifies(header, Some(secret), user_id) <==> user_id
                == claims.sub
        }),
{
    reveal_strlit("Bearer ");
    let text = crate::codec::bearer_authorization_view(token);
    assert(BEARER@.is_prefix_of(text)) by {
        assert(text.subrange(0, BEARER@.len() as int) =~= BEARER@);
    }
    assert(text.skip(BEARER@.len() as int) =~= token);
    assert(!BEARER@.is_prefix_of(token)) by {
        if BEARER@.is_prefix_of(token) {
            assert(token[6] == BEARER@[6]);
        }
    }
    reveal_with_fuel(crate::text::trimmed_start, 2);
}

/// A token is read back as it was issued.
pub proof fn law_claims_read_back(token: Seq<char>, claims: ClaimsView, secret: Seq<char>)
    requires
        crate::token::carries(token, claims, secret),
    ensures
        crate::token::claims_in(token, secret) == Some(claims),
{
}

/// A token that was issued is accepted for its user until it expires: the request that sends it
/// back is found to come from that user, or refused because the token has expired, and nothing
/// else.
pub proof fn law_issued_token_is_refused_only_as_expired(
    token: Seq<char>,
    claims: ClaimsView,
    secret: Seq<char>,
    found: Result<Seq<char>, UserIdError>,
)
    requires
        crate::token::carries(token, claims, secret),
        crate::routes::login::may_find(
            Some(Some(crate::codec::bearer_authorization_view(token))),
            Some(secret),
            found,
        ),
    ensures
        found == Ok::<Seq<char>, UserIdError>(claims.sub) || found == Err::<Seq<char>, UserIdError>(
            UserIdError::ExpiredToken,
        ),
{
    law_token_identifies_its_user(token, claims, secret, claims.sub);
    if let Ok(user_id) = found {
        law_token_identifies_its_user(token, claims, secret, user_id);
    }
}

/// Nobody is identified by a request that presents no token.
pub proof fn law_no_token_identifies_nobody(
    header: Option<Option<Seq<char>>>,
    secret: Option<Seq<char>>,
    user_id: Seq<char>,
)
    requires
        match header {
            Some(Some(text)) => !BEARER@.is_prefix_of(text) || secret is None,
            _ => true,
        },
    ensures
        !crate::routes::login::identifies(header, secret, user_id),
{
}

/// The secret is read only for a request that presents a token: a header that is unreadable,
/// absent or no bearer token settles at once that nobody is identified, and why.
pub proof fn law_secret_is_read_for_tokens_only(
    header: Option<Option<Seq<char>>>,
    found: Result<Seq<char>, UserIdError>,
)
    ensures
        ({
            let event = match header {
                Some(text) => EventView::Text { text },
                None => EventView::Failed,
            };
            let (next, action) = crate::routes::login::auth_step(
                AuthStateView::ReadingHeader,
                event,
                found,
            );
            match header {
                Some(Some(text)) if BEARER@.is_prefix_of(text) => action == (
                ActionView::ReadSecret { name: JWT_SECRET@ }),
                Some(Some(_)) => next == (AuthStateView::ReadingFallback {
                    error: UserIdError::InvalidFormat,
                }),
                Some(None) => next == (AuthStateView::ReadingFallback {
                    error: UserIdError::HeaderMissing,
                }),
                None => next == (AuthStateView::ReadingFallback {
                    error: UserIdError::HeaderUnreadable,
                }),
            }
        }),
{
}

/// A login with an unknown email and one with a wrong password are answered alike, so that the
/// answer does not tell which emails are known.
pub proof fn law_failed_logins_look_alike(row: JsonView, password_plain: Seq<char>)
    requires
        crate::password::bcrypt_match(
            password_plain,
            row.member_or_empty("password_hash"@),
        ) != Some(true),
    ensures
        crate::routes::login::user_found(Some(row), password_plain)
            == crate::routes::login::user_found(None, password_plain),
{
}

/// How many more answers a login can take before it ends.
pub open spec fn login_answers_left(state: LoginStateView) -> nat {
    match state {
        LoginStateView::Start => 7,
        LoginStateView::ReadingCredentials => 6,
        LoginStateView::BindingDatabase { .. } => 5,
        LoginStateView::PreparingUser { .. } => 4,
        LoginStateView::FetchingUser { .. } => 3,
        LoginStateView::ReadingSecret { .. } => 2,
        LoginStateView::ReadingClock { .. } => 1,
        LoginStateView::Finished => 0,
    }
}

/// How many more answers the check of a request can take before it ends.
pub open spec fn check_answers_left(state: AuthStateView) -> nat {
    match state {
        AuthStateView::Start => 7,
        AuthStateView::ReadingHeader => 6,
        AuthStateView::ReadingSecret { .. } => 5,
        AuthStateView::ReadingFallback { .. } => 4,
        AuthStateView::BindingDatabase { .. } => 3,
        AuthStateView::PreparingCount { .. } => 2,
        AuthStateView::Counting { .. } => 1,
        AuthStateView::Finished => 0,
    }
}

/// How many more answers the long history can take before it ends.
pub open spec fn history_answers_left(state: HistoryState) -> nat {
    match state {
        HistoryState::Start => 5,
        HistoryState::BindingDatabase => 4,
        HistoryState::ReadingSymbol => 3,
        HistoryState::Preparing => 2,
        HistoryState::Fetching => 1,
        HistoryState::Finished => 0,
    }
}

/// Each answer of the host, whatever it is, ends a login or brings it nearer to its end.
pub proof fn law_login_ends(state: LoginStateView, event: EventView)
    ensures
        ({
            let (next, action) = crate::routes::login::login_step(state, event);
            &&& action.is_final() ==> next == LoginStateView::Finished
            &&& !action.is_final() ==> login_answers_left(next) < login_answers_left(state)
        }),
{
}

/// Each answer of the host, whatever it is and whoever the request is found to come from, ends
/// the check or brings it nearer to its end, and the check ends with a verdict.
pub proof fn law_check_ends(state: AuthStateView, event: EventView, found: Result<Seq<char>, UserIdError>)
    ensures
        ({
            let (next, action) = crate::routes::login::auth_step(state, event, found);
            &&& action.is_final() ==> next == AuthStateView::Finished && action is Decide
            &&& !action.is_final() ==> check_answers_left(next) < check_answers_left(state)
        }),
{
}

/// Each answer of the host, whatever it is, ends the long history or brings it nearer to its end.
pub proof fn law_history_ends(state: HistoryState, event: EventView)
    ensures
        ({
            let (next, action) = crate::routes::history::history_step(state, event);
            &&& action.is_final() ==> next == HistoryState::Finished
            &&& !action.is_final() ==> history_answers_left(next) < history_answers_left(state)
        }),
{
}

/// A login on a host that never fails: the action with which it ends.
pub open spec fn login_from(
    host: Host,
    request: Request,
    world: World,
    state: LoginStateView,
    event: EventView,
    fuel: nat,
) -> Option<ActionView>
    decreases fuel,
{
    if fuel == 0 {
        None
    } else {
        let (next, action) = crate::routes::login::login_step(state, event);
        if action.is_final() {
            Some(action)
        } else {
            let (changed, answer) = crate::host::perform_for(host, request, world, action);
            login_from(host, request, changed, next, answer, (fuel - 1) as nat)
        }
    }
}

/// The answer that refuses a login.
pub open spec fn login_refusal() -> ReplyView {
    crate::replies::error_reply_view("Invalid email or password"@, 401)
}

/// The outcome of a login: a token for the user who has the email, where the password belongs to
/// the user's stored hash; without a secret to sign with it is given up.
pub open spec fn login_outcome(host: Host, request: Request) -> ActionView {
    match (host.first)(SELECT_USER@, seq![SqlValueView::Text(request.email)], "email"@) {
        Some(row) => if crate::password::bcrypt_match(
            request.password_plain,
            row.member_or_empty("password_hash"@),
        ) == Some(true) {
            match crate::host::lookup(host.secrets, JWT_SECRET@) {
                Some(secret) => ActionView::Respond {
                    reply: crate::routes::login::token_reply(
                        crate::token::token_for(
                            crate::token::claims_at(row.member_or_empty("id"@), host.millis),
                            secret,
                        ),
                    ),
                },
                None => ActionView::Abort,
            }
        } else {
            ActionView::Respond { reply: login_refusal() }
        },
        None => ActionView::Respond { reply: login_refusal() },
    }
}

/// On a host that never fails every login has its outcome.
pub proof fn law_logins_have_their_outcome(host: Host, request: Request, world: World)
    ensures
        login_from(host, request, world, LoginStateView::Start, EventView::Begin, 7) == Some(
            login_outcome(host, request),
        ),
{
    let parameters = seq![SqlValueView::Text(request.email)];
    let prepared = world.with_prepared(SELECT_USER@, parameters);
    let fetching = LoginStateView::FetchingUser { password_plain: request.password_plain };
    let row = EventView::Value { value: (host.first)(SELECT_USER@, parameters, "email"@) };
    assert(login_from(host, request, world, LoginStateView::Start, EventView::Begin, 7)
        == login_from(host, request, prepared, fetching, row, 3)) by {
        reveal_with_fuel(login_from, 5);
    }
    reveal_with_fuel(login_from, 3);
}

/// The check of a request on a host that never fails, where `found` is what was found out
/// about who the request comes from: the action with which it ends.
pub open spec fn check_from(
    host: Host,
    request: Request,
    world: World,
    state: AuthStateView,
    event: EventView,
    found: Result<Seq<char>, UserIdError>,
    fuel: nat,
) -> Option<ActionView>
    decreases fuel,
{
    if fuel == 0 {
        None
    } else {
        let (next, action) = crate::routes::login::auth_step(state, event, found);
        if action.is_final() {
            Some(action)
        } else {
            let (changed, answer) = crate::host::perform_for(host, request, world, action);
            check_from(host, request, changed, next, answer, found, (fuel - 1) as nat)
        }
    }
}

/// The user whom a request is checked as: the one that it was found to come from, else the one
/// that the host is configured with, else a fixed one.
pub open spec fn checked_user(host: Host, found: Result<Seq<char>, UserIdError>) -> Seq<char> {
    match found {
        Ok(user_id) => user_id,
        Err(_) => match crate::host::lookup(host.vars, "TEST_USER_ID"@) {
            Some(user_id) => user_id,
            None => FALLBACK_USER@,
        },
    }
}

/// On a host that never fails a request passes the check exactly where the count of users with
/// the id of the one whom it is checked as is positive, whatever may be found out about who it
/// comes from.
pub proof fn law_checks_have_their_outcome(
    host: Host,
    request: Request,
    world: World,
    found: Result<Seq<char>, UserIdError>,
)
    requires
        crate::routes::login::may_find(
            Some(crate::host::lookup(request.headers, "Authorization"@)),
            crate::host::lookup(host.secrets, JWT_SECRET@),
            found,
        ),
    ensures
        ({
            let user_id = checked_user(host, found);
            let finding = crate::routes::login::count_finding(
                (host.first)(COUNT_USERS@, seq![SqlValueView::Text(user_id)], "email"@),
                user_id,
            );
            &&& check_from(host, request, world, AuthStateView::Start, EventView::Begin, found, 7)
                == Some(ActionView::Decide { allowed: finding.allows(), finding })
            &&& finding.allows() <==> (finding matches FindingView::Counted { number } && number
                > 0)
        }),
{
    let header = Some(crate::host::lookup(request.headers, "Authorization"@));
    let read = EventView::Text { text: header->0 };
    let user_id = checked_user(host, found);
    let binding = AuthStateView::BindingDatabase { user_id };
    let presents = crate::routes::login::presented_token(header, None) == Err::<
        (Seq<char>, Seq<char>),
        UserIdError,
    >(UserIdError::SecretUnreadable);
    let left: nat = if presents && found is Err {
        3
    } else {
        4
    };
    assert(check_from(host, request, world, AuthStateView::Start, EventView::Begin, found, 7)
        == check_from(host, request, world, AuthStateView::ReadingHeader, read, found, 6));
    assert(check_from(host, request, world, AuthStateView::ReadingHeader, read, found, 6)
        == check_from(host, request, world, binding, EventView::Done, found, left)) by {
        reveal_with_fuel(check_from, 4);
    }
    reveal_with_fuel(check_from, 4);
}

/// The long history on a host that never fails: the action with which it ends.
pub open spec fn history_from(
    host: Host,
    request: Request,
    world: World,
    state: HistoryState,
    event: EventView,
    fuel: nat,
) -> Option<ActionView>
    decreases fuel,
{
    if fuel == 0 {
        None
    } else {
        let (next, action) = crate::routes::history::history_step(state, event);
        if action.is_final() {
            Some(action)
        } else {
            let (changed, answer) = crate::host::perform_for(host, request, world, action);
            history_from(host, request, changed, next, answer, (fuel - 1) as nat)
        }
    }
}

/// On a host that never fails the long history answers with the rows of the symbol in the path,
/// and refuses a path without one.
pub proof fn law_histories_have_their_outcome(host: Host, request: Request, world: World)
    ensures
        history_from(host, request, world, HistoryState::Start, EventView::Begin, 5) == Some(
            ActionView::Respond {
                reply: match crate::host::lookup(request.params, "symbol"@) {
                    Some(symbol) => crate::replies::data_reply_view(
                        PayloadView::History(
                            (host.history)(LONG_HISTORY_QUERY@, seq![SqlValueView::Text(symbol)]),
                        ),
                        "application/json"@,
                        "private, no-cache"@,
                        false,
                    ),
                    None => crate::replies::error_reply_view("Bad request parameters"@, 400),
                },
            },
        ),
{
    reveal_with_fuel(history_from, 5);
}

} // verus!

//! What clients that log in get, spelled out: on a host that never fails.
use vstd::prelude::*;

use crate::host::{Host, Request, World};
use crate::platform::{ActionView, EventView, FindingView, JsonView, PayloadView, SqlValueView};
use crate::routes::history::HistoryState;
use crate::routes::login::{AuthStateView, LoginStateView, UserIdError};
use crate::token::ClaimsView;

verus! {

/// A login with the right password: the answer is the token signed for exactly the id in the
/// user's row (the empty id where the row has none), issued in the second of the login and valid
/// for a day from then on.
pub proof fn law_login_answers_with_the_users_token(
    host: Host,
    request: Request,
    world: World,
    row: JsonView,
    id: Seq<char>,
    hash: Seq<char>,
)
    requires
        (host.first)(
            "SELECT id, password_hash FROM users WHERE email = ?1"@,
            seq![SqlValueView::Text(request.email)],
            "email"@,
        ) == Some(row),
        match row {
            JsonView::Object(fields) => {
                &&& fields.dom().contains("id"@) ==> id == fields["id"@]
                &&& !fields.dom().contains("id"@) ==> id == Seq::<char>::empty()
                &&& fields.dom().contains("password_hash"@) ==> hash == fields["password_hash"@]
                &&& !fields.dom().contains("password_hash"@) ==> hash == Seq::<char>::empty()
            },
            _ => id == Seq::<char>::empty() && hash == Seq::<char>::empty(),
        },
        crate::password::bcrypt_match(request.password_plain, hash) == Some(true),
        host.secrets.dom().contains("JWT_SECRET"@),
    ensures
        crate::login_laws::login_from(
            host,
            request,
            world,
            LoginStateView::Start,
            EventView::Begin,
            7,
        ) matches Some(last) && (last matches ActionView::Respond { reply } && {
            &&& reply.status == 200
            &&& reply.headers.len() == 0
            &&& !reply.cors
            &&& reply.payload == (PayloadView::Auth {
                token: crate::token::signed_token(
                    id,
                    (host.millis / 1000 + 86400) as u64,
                    host.millis / 1000,
                    vstd::utf8::encode_utf8(host.secrets["JWT_SECRET"@]),
                ),
                message: "Successfully logged in"@,
            })
        }),
{
    crate::login_laws::law_logins_have_their_outcome(host, request, world);
}

/// A login is refused, in one and the same way, where nobody has the email, where the user has no
/// stored hash, and where the password does not belong to it; a login that would succeed is given
/// up where there is no secret to sign with.
pub proof fn law_login_is_refused(host: Host, request: Request, world: World)
    ensures
        ({
            let row = (host.first)(
                "SELECT id, password_hash FROM users WHERE email = ?1"@,
                seq![SqlValueView::Text(request.email)],
                "email"@,
            );
            let hash = match row {
                Some(JsonView::Object(fields)) => if fields.dom().contains("password_hash"@) {
                    fields["password_hash"@]
                } else {
                    Seq::empty()
                },
                _ => Seq::empty(),
            };
            let lets_in = row is Some && crate::password::bcrypt_match(
                request.password_plain,
                hash,
            ) == Some(true);
            crate::login_laws::login_from(
                host,
                request,
                world,
                LoginStateView::Start,
                EventView::Begin,
                7,
            ) matches Some(last) && {
                &&& !lets_in ==> (last matches ActionView::Respond { reply } && reply.status == 401
                    && reply.payload == PayloadView::Message("Invalid email or password"@)
                    && reply.headers.len() == 0 && !reply.cors)
                &&& lets_in && !host.secrets.dom().contains("JWT_SECRET"@) ==> last
                    == ActionView::Abort
                &&& lets_in && host.secrets.dom().contains("JWT_SECRET"@) ==> (
                last matches ActionView::Respond { reply } && reply.status == 200)
            }
        }),
{
    crate::login_laws::law_logins_have_their_outcome(host, request, world);
}

/// The claims that are issued to a user name that user, and hold from the second of issue on for a
/// day.
pub proof fn law_claims_name_their_user(user_id: Seq<char>, millis: u64, secret: Seq<char>)
    ensures
        ({
            let claims: ClaimsView = crate::token::claims_at(user_id, millis);
            &&& claims.sub == user_id
            &&& claims.iat == millis / 1000
            &&& claims.exp == millis / 1000 + 86400
            &&& crate::token::token_for(claims, secret) == crate::token::signed_token(
                user_id,
                (millis / 1000 + 86400) as u64,
                millis / 1000,
                vstd::utf8::encode_utf8(secret),
            )
        }),
{
}

/// Two tokens that carry claims under one secret and are the same token carry the same claims: a
/// token is never one user's and another's.
pub proof fn law_a_token_is_one_users(
    token: Seq<char>,
    one: ClaimsView,
    other: ClaimsView,
    secret: Seq<char>,
)
    requires
        crate::token::carries(token, one, secret),
        crate::token::carries(token, other, secret),
    ensures
        one.sub == other.sub,
        one.exp == other.exp,
        one.iat == other.iat,
{
}

/// The claims that stand in a token are the three that it carries, all of them or none, and none
/// where it names an audience.
pub proof fn law_claims_stand_as_carried(token: Seq<char>, secret: Seq<char>)
    ensures
        match crate::token::carried_claims(token, vstd::utf8::encode_utf8(secret)) {
            Some((Some(sub), Some(exp), Some(iat), false, _)) => crate::token::claims_in(
                token,
                secret,
            ) matches Some(claims) && claims.sub == sub && claims.exp == exp && claims.iat == iat,
            _ => crate::token::claims_in(token, secret) is None,
        },
        crate::token::may_expire(token, secret) <==> (crate::token::carried_claims(
            token,
            vstd::utf8::encode_utf8(secret),
        ) matches Some((_, _, _, _, expires)) && expires),
{
}

/// What may be found out from a bearer header. The token is all that stands behind `Bearer `, and
/// it is read under the secret: whoever is found is the one whom it was signed for, it counts as
/// invalid only where it misses a claim, names an audience or is not signed, and as expired only
/// where the decoder refuses it so.
pub proof fn law_bearer_token_decides(
    token: Seq<char>,
    secret: Seq<char>,
    found: Result<Seq<char>, UserIdError>,
)
    requires
        !"Bearer "@.is_prefix_of(token),
        crate::routes::login::may_find(Some(Some("Bearer "@ + token)), Some(secret), found),
    ensures
        match (
            found,
            crate::token::carried_claims(token, vstd::utf8::encode_utf8(secret)),
        ) {
            (Ok(user_id), Some((sub, exp, iat, addressed, _))) => sub == Some(user_id) && exp is Some
                && iat is Some && !addressed,
            (
                Err(UserIdError::InvalidToken),
                Some((sub, exp, iat, addressed, _)),
            ) => addressed || sub is None || exp is None || iat is None,
            (Err(UserIdError::InvalidToken), None) => true,
            (Err(UserIdError::ExpiredToken), Some((_, _, _, _, expires))) => expires,
            _ => false,
        },
{
    let text = "Bearer "@ + token;
    reveal_strlit("Bearer ");
    assert("Bearer "@.is_prefix_of(text)) by {
        assert(text.subrange(0, "Bearer "@.len() as int) =~= "Bearer "@);
    }
    assert(text.skip("Bearer "@.len() as int) =~= token);
    reveal_with_fuel(crate::text::trimmed_start, 2);
}

/// A bearer header that repeats `Bearer ` is taken as the one without the repetition.
pub proof fn law_repeated_bearer_is_ignored(
    rest: Seq<char>,
    secret: Option<Seq<char>>,
    found: Result<Seq<char>, UserIdError>,
)
    requires
        "Bearer "@.is_prefix_of(rest),
    ensures
        crate::routes::login::may_find(Some(Some("Bearer "@ + rest)), secret, found)
            <==> crate::routes::login::may_find(Some(Some(rest)), secret, found),
{
    let text = "Bearer "@ + rest;
    reveal_strlit("Bearer ");
    assert("Bearer "@.is_prefix_of(text)) by {
        assert(text.subrange(0, "Bearer "@.len() as int) =~= "Bearer "@);
    }
    assert(text.skip("Bearer "@.len() as int) =~= rest);
    reveal_with_fuel(crate::text::trimmed_start, 2);
}

/// Without a token to check there is exactly one reason that is found.
pub proof fn law_missing_tokens_have_their_reason(
    header: Option<Option<Seq<char>>>,
    secret: Option<Seq<char>>,
    found: Result<Seq<char>, UserIdError>,
)
    requires
        crate::routes::login::may_find(header, secret, found),
    ensures
        header is None <==> found == Err::<Seq<char>, UserIdError>(UserIdError::HeaderUnreadable),
        header == Some(None::<Seq<char>>) <==> found == Err::<Seq<char>, UserIdError>(
            UserIdError::HeaderMissing,
        ),
        (header matches Some(Some(text)) && !"Bearer "@.is_prefix_of(text)) <==> found == Err::<
            Seq<char>,
            UserIdError,
        >(UserIdError::InvalidFormat),
        (header matches Some(Some(text)) && "Bearer "@.is_prefix_of(text) && secret is None)
            <==> found == Err::<Seq<char>, UserIdError>(UserIdError::SecretUnreadable),
{
}

/// What clients are told for each reason.
pub proof fn law_reasons_have_their_messages(error: UserIdError)
    ensures
        error.message_view() == match error {
            UserIdError::HeaderMissing => Some("Missing Authorization Header"@),
            UserIdError::InvalidFormat => Some("Invalid Token Format"@),
            UserIdError::InvalidToken => Some("Invalid or Expired Token"@),
            UserIdError::ExpiredToken => Some("Invalid or Expired Token"@),
            _ => None::<Seq<char>>,
        },
{
}

/// The check of a request lets it pass exactly where the users with the id whom it is checked as
/// are counted and there are any. That id is the one that was found, else the one in
/// `TEST_USER_ID`, else a fixed one.
pub proof fn law_check_counts_the_user(
    host: Host,
    request: Request,
    world: World,
    found: Result<Seq<char>, UserIdError>,
)
    requires
        crate::routes::login::may_find(
            Some(
                if request.headers.dom().contains("Authorization"@) {
                    Some(request.headers["Authorization"@])
                } else {
                    None
                },
            ),
            if host.secrets.dom().contains("JWT_SECRET"@) {
                Some(host.secrets["JWT_SECRET"@])
            } else {
                None
            },
            found,
        ),
    ensures
        ({
            let user_id = match found {
                Ok(user_id) => user_id,
                Err(_) => if host.vars.dom().contains("TEST_USER_ID"@) {
                    host.vars["TEST_USER_ID"@]
                } else {
                    "user1@gmail.com"@
                },
            };
            let count = (host.first)(
                "SELECT count(*) FROM users WHERE email = ?1"@,
                seq![SqlValueView::Text(user_id)],
                "email"@,
            );
            crate::login_laws::check_from(
                host,
                request,
                world,
                AuthStateView::Start,
                EventView::Begin,
                found,
                7,
            ) matches Some(last) && (last matches ActionView::Decide { allowed, finding } && {
                &&& allowed <==> (count matches Some(JsonView::Unsigned(number)) && number > 0)
                &&& match count {
                    Some(JsonView::Unsigned(number)) => finding == (FindingView::Counted {
                        number,
                    }),
                    Some(_) => finding == (FindingView::NoCount { user_id }),
                    None => finding == FindingView::NoRow,
                }
            })
        }),
{
    crate::login_laws::law_checks_have_their_outcome(host, request, world, found);
}

/// Where the host fails, the check is refused while the query is being set up, and passed where
/// the query itself fails; a variable that cannot be read leaves the fixed user.
pub proof fn law_failures_of_a_check(user_id: Seq<char>, error: UserIdError)
    ensures
        ({
            let any = Err::<Seq<char>, UserIdError>(error);
            let finished = AuthStateView::Finished;
            &&& crate::routes::login::auth_step(
                AuthStateView::BindingDatabase { user_id },
                EventView::Failed,
                any,
            ) == (
                finished,
                ActionView::Decide { allowed: false, finding: FindingView::NoDatabase },
            )
            &&& crate::routes::login::auth_step(
                AuthStateView::PreparingCount { user_id },
                EventView::Failed,
                any,
            ) == (
                finished,
                ActionView::Decide {
                    allowed: false,
                    finding: FindingView::NotPrepared { user_id },
                },
            )
            &&& crate::routes::login::auth_step(
                AuthStateView::Counting { user_id },
                EventView::Failed,
                any,
            ) == (
                finished,
                ActionView::Decide { allowed: true, finding: FindingView::QueryFailed },
            )
            &&& crate::routes::login::auth_step(
                AuthStateView::ReadingFallback { error },
                EventView::Failed,
                any,
            ).0 == (AuthStateView::BindingDatabase { user_id: "user1@gmail.com"@ })
        }),
{
}

/// A host that fails ends a login and the long history with its error.
pub proof fn law_failure_ends_a_login(login: LoginStateView, history: HistoryState)
    ensures
        crate::routes::login::login_step(login, EventView::Failed) == (
            LoginStateView::Finished,
            ActionView::Abort,
        ),
        crate::routes::history::history_step(history, EventView::Failed) == (
            HistoryState::Finished,
            ActionView::Abort,
        ),
{
}

/// Logins, checks and the long history use the one database.
pub proof fn law_clients_bind_by_name(
    login: LoginStateView,
    check: AuthStateView,
    history: HistoryState,
    event: EventView,
    found: Result<Seq<char>, UserIdError>,
)
    ensures
        crate::routes::login::login_step(login, event).1 matches ActionView::OpenDatabase {
            binding,
        } ==> binding == "SCHWAB_DB"@,
        crate::routes::login::auth_step(check, event, found).1 matches ActionView::OpenDatabase {
            binding,
        } ==> binding == "SCHWAB_DB"@,
        crate::routes::history::history_step(history, event).1 matches ActionView::OpenDatabase {
            binding,
        } ==> binding == "SCHWAB_DB"@,
{
}

/// The long history: the reply carries every row that the query for the symbol gave, in the order
/// of the query.
pub proof fn law_long_history_carries_every_row(host: Host, request: Request, world: World)
    ensures
        crate::login_laws::history_from(
            host,
            request,
            world,
            HistoryState::Start,
            EventView::Begin,
            5,
        ) matches Some(last) && (last matches ActionView::Respond { reply } && {
            &&& !reply.cors
            &&& request.params.dom().contains("symbol"@) ==> {
                &&& reply.status == 200
                &&& reply.payload == PayloadView::History(
                    (host.history)(
                        "SELECT symbol, last_price, diff, scraped_at FROM stock_quotes WHERE symbol = ? ORDER BY scraped_at,symbol DESC LIMIT 2500"@,
                        seq![SqlValueView::Text(request.params["symbol"@])],
                    ),
                )
                &&& reply.headers == seq![
                    ("Content-Type"@, "application/json"@),
                    ("Cache-Control"@, "private, no-cache"@),
                ]
            }
            &&& !request.params.dom().contains("symbol"@) ==> {
                &&& reply.status == 400
                &&& reply.payload == PayloadView::Message("Bad request parameters"@)
                &&& reply.headers.len() == 0
            }
        }),
{
    crate::login_laws::law_histories_have_their_outcome(host, request, world);
}

/// Texts that spell a truth value, and what cutting a prefix off leaves: a text that does not begin
/// with the prefix is left whole, and one that does is cut once and then as what is left of it.
pub proof fn law_texts_are_read(text: Seq<char>, prefix: Seq<char>)
    ensures
        crate::text::bool_of(text) == Some(true) <==> text == seq!['t', 'r', 'u', 'e'],
        crate::text::bool_of(text) == Some(false) <==> text == seq!['f', 'a', 'l', 's', 'e'],
        prefix.len() > 0 && !prefix.is_prefix_of(text) ==> crate::text::trimmed_start(text, prefix)
            == text,
        prefix.len() > 0 ==> crate::text::trimmed_start(prefix + text, prefix)
            == crate::text::trimmed_start(text, prefix),
        prefix.len() == 0 ==> crate::text::trimmed_start(text, prefix) == text,
{
    reveal_strlit("true");
    reveal_strlit("false");
    assert("true"@ =~= seq!['t', 'r', 'u', 'e']);
    assert("false"@ =~= seq!['f', 'a', 'l', 's', 'e']);
    let whole = prefix + text;
    assert(prefix.is_prefix_of(whole)) by {
        assert(whole.subrange(0, prefix.len() as int) =~= prefix);
    }
    assert(whole.skip(prefix.len() as int) =~= text);
    reveal_with_fuel(crate::text::trimmed_start, 2);
}

/// The values of the `Authorization` header: a bearer token stands behind `Bearer ` as it is.
pub proof fn law_bearer_value_ends_with_the_token(token: Seq<char>)
    ensures
        crate::codec::bearer_authorization_view(token) == "Bearer "@ + token,
        crate::codec::refresh_form_view(token) == seq![
            ("grant_type"@, "refresh_token"@),
            ("refresh_token"@, token),
        ],
{
}

/// A login, a check and the long history go on only with the answer that they wait for; any other
/// ends them, the check with a refusal.
pub proof fn law_only_awaited_answers_count(
    login: LoginStateView,
    check: AuthStateView,
    history: HistoryState,
    event: EventView,
    found: Result<Seq<char>, UserIdError>,
)
    ensures
        match (login, event) {
            (LoginStateView::Start, EventView::Begin) => true,
            (LoginStateView::ReadingCredentials, EventView::Credentials { .. }) => true,
            (LoginStateView::BindingDatabase { .. }, EventView::Done) => true,
            (LoginStateView::PreparingUser { .. }, EventView::Done) => true,
            (LoginStateView::FetchingUser { .. }, EventView::Value { .. }) => true,
            (LoginStateView::ReadingSecret { .. }, EventView::Text { text: Some(_) }) => true,
            (LoginStateView::ReadingClock { .. }, EventView::Clock { .. }) => true,
            _ => crate::routes::login::login_step(login, event) == (
                LoginStateView::Finished,
                ActionView::Abort,
            ),
        },
        match (check, event) {
            (AuthStateView::Start, EventView::Begin) => true,
            (AuthStateView::ReadingHeader, EventView::Text { .. }) => true,
            (AuthStateView::ReadingSecret { .. }, EventView::Text { .. }) => true,
            (AuthStateView::ReadingFallback { .. }, EventView::Text { .. }) => true,
            (AuthStateView::BindingDatabase { .. }, EventView::Done) => true,
            (AuthStateView::PreparingCount { .. }, EventView::Done) => true,
            (AuthStateView::Counting { .. }, EventView::Value { .. }) => true,
            (AuthStateView::Start, EventView::Failed) => crate::routes::login::auth_step(
                check,
                event,
                found,
            ).1 == (ActionView::Decide { allowed: false, finding: FindingView::Unexpected }),
            (_, EventView::Failed) => true,
            _ => crate::routes::login::auth_step(check, event, found) == (
                AuthStateView::Finished,
                ActionView::Decide { allowed: false, finding: FindingView::Unexpected },
            ),
        },
        match (history, event) {
            (HistoryState::Start, EventView::Begin) => true,
            (HistoryState::BindingDatabase, EventView::Done) => true,
            (HistoryState::ReadingSymbol, EventView::Text { .. }) => true,
            (HistoryState::Preparing, EventView::Done) => true,
            (HistoryState::Fetching, EventView::History { .. }) => true,
            _ => crate::routes::history::history_step(history, event) == (
                HistoryState::Finished,
                ActionView::Abort,
            ),
        },
{
}

} // verus!

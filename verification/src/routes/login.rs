//! Logging in, and telling who a request comes from.
use vstd::prelude::*;
use vstd::string::*;

use crate::fetch::DATABASE;
use crate::password::password_belongs;
use crate::platform::{
    Action, ActionView, AuthResponse, Event, EventView, Finding, FindingView, Json, JsonView,
    Payload, PayloadView, Reply, ReplyView, SqlValue, SqlValueView,
};
use crate::replies::error_reply;
use crate::text::{starts_with, trim_start_matches};
use crate::token::{issue_token, new_claims, read_token, Claims, ReadError};

verus! {

/// The secret under which tokens are signed.
pub const JWT_SECRET: &'static str = "JWT_SECRET";

/// What stands in front of the token in the `Authorization` header.
pub const BEARER: &'static str = "Bearer ";

/// The user that a request without a valid token is taken to come from, unless the variable
/// `TEST_USER_ID` names another.
pub const FALLBACK_USER: &'static str = "user1@gmail.com";

/// How many users have an email.
pub const COUNT_USERS: &'static str = "SELECT count(*) FROM users WHERE email = ?1";

/// The user that has an email.
pub const SELECT_USER: &'static str = "SELECT id, password_hash FROM users WHERE email = ?1";

/// Why a request does not say who it comes from.
#[derive(Debug, Clone, Copy, PartialEq, Eq, Structural)]
pub enum UserIdError {
    /// The headers cannot be read.
    HeaderUnreadable,
    /// There is no `Authorization` header.
    HeaderMissing,
    /// The header does not hold a bearer token.
    InvalidFormat,
    /// The secret cannot be read.
    SecretUnreadable,
    /// The token is not signed under the secret, misses a claim, or is meant for somebody else.
    InvalidToken,
    /// The token is signed under the secret, but has expired.
    ExpiredToken,
}

impl UserIdError {
    /// What a client is told; the two failures of the host speak for themselves.
    pub open spec fn message_view(self) -> Option<Seq<char>> {
        match self {
            UserIdError::HeaderUnreadable => None,
            UserIdError::HeaderMissing => Some("Missing Authorization Header"@),
            UserIdError::InvalidFormat => Some("Invalid Token Format"@),
            UserIdError::SecretUnreadable => None,
            UserIdError::InvalidToken => Some("Invalid or Expired Token"@),
            UserIdError::ExpiredToken => Some("Invalid or Expired Token"@),
        }
    }

    /// What a client is told; the two failures of the host speak for themselves.
    pub fn message(&self) -> (message: Option<&'static str>)
        ensures
            message.deep_view() == self.message_view(),
    {
        match self {
            UserIdError::HeaderUnreadable => None,
            UserIdError::HeaderMissing => Some("Missing Authorization Header"),
            UserIdError::InvalidFormat => Some("Invalid Token Format"),
            UserIdError::SecretUnreadable => None,
            UserIdError::InvalidToken => Some("Invalid or Expired Token"),
            UserIdError::ExpiredToken => Some("Invalid or Expired Token"),
        }
    }
}

/// The token in an `Authorization` header.
pub open spec fn bearer_token(header: Seq<char>) -> Option<Seq<char>> {
    if BEARER@.is_prefix_of(header) {
        Some(crate::text::trimmed_start(header, BEARER@))
    } else {
        None
    }
}

/// The token and the secret to check it with, or why there are none. `header` is `None` where it
/// cannot be read and `Some(None)` where it is absent; `secret` is `None` where it cannot be read.
pub open spec fn presented_token(
    header: Option<Option<Seq<char>>>,
    secret: Option<Seq<char>>,
) -> Result<(Seq<char>, Seq<char>), UserIdError> {
    match header {
        None => Err(UserIdError::HeaderUnreadable),
        Some(None) => Err(UserIdError::HeaderMissing),
        Some(Some(header)) => match (bearer_token(header), secret) {
            (None, _) => Err(UserIdError::InvalidFormat),
            (Some(_), None) => Err(UserIdError::SecretUnreadable),
            (Some(token), Some(secret)) => Ok((token, secret)),
        },
    }
}

/// Whether a request may be found to come from a user: it presents a token that carries the
/// user's id, signed under the secret.
pub open spec fn identifies(
    header: Option<Option<Seq<char>>>,
    secret: Option<Seq<char>>,
    user_id: Seq<char>,
) -> bool {
    match presented_token(header, secret) {
        Ok((token, secret)) => match crate::token::claims_in(token, secret) {
            Some(claims) => claims.sub == user_id,
            None => false,
        },
        Err(_) => false,
    }
}

/// What may be found out about who a request comes from. A request that presents no token to
/// check is refused for the reason that `presented_token` gives. One that does is found to come
/// from the user that the token names; refused as invalid where no claims stand in the token; or
/// refused as expired, which is the one thing that depends on the time, where it is signed and at
/// some time so refused.
pub open spec fn may_find(
    header: Option<Option<Seq<char>>>,
    secret: Option<Seq<char>>,
    found: Result<Seq<char>, UserIdError>,
) -> bool {
    match presented_token(header, secret) {
        Err(error) => found == Err::<Seq<char>, UserIdError>(error),
        Ok((token, secret)) => match found {
            Ok(user_id) => identifies(header, Some(secret), user_id),
            Err(UserIdError::InvalidToken) => crate::token::claims_in(token, secret) is None,
            Err(UserIdError::ExpiredToken) => crate::token::signed_under(token, secret)
                && crate::token::may_expire(token, secret),
            Err(_) => false,
        },
    }
}

/// The user that was found, or why there is none.
pub open spec fn found_view(found: Result<String, UserIdError>) -> Result<Seq<char>, UserIdError> {
    match found {
        Ok(user_id) => Ok(user_id@),
        Err(error) => Err(error),
    }
}

/// The user that a token names, once it has been read.
pub fn user_of(claims: Result<Claims, ReadError>) -> (user_id: Result<String, UserIdError>)
    ensures
        match (claims, user_id) {
            (Ok(claims), Ok(user_id)) => user_id@ == claims@.sub,
            (Err(ReadError::Invalid), Err(error)) => error == UserIdError::InvalidToken,
            (Err(ReadError::Expired), Err(error)) => error == UserIdError::ExpiredToken,
            _ => false,
        },
{
    match claims {
        Ok(claims) => Ok(claims.sub),
        Err(ReadError::Invalid) => Err(UserIdError::InvalidToken),
        Err(ReadError::Expired) => Err(UserIdError::ExpiredToken),
    }
}

/// Finds out who a request comes from.
pub fn get_user_id_from_request(header: &Option<Option<String>>, secret: &Option<String>) -> (
    user_id: Result<String, UserIdError>)
    ensures
        may_find(header.deep_view(), secret.deep_view(), found_view(user_id)),
{
    match header {
        None => Err(UserIdError::HeaderUnreadable),
        Some(None) => Err(UserIdError::HeaderMissing),
        Some(Some(header)) => if !starts_with(header.as_str(), BEARER) {
            Err(UserIdError::InvalidFormat)
        } else {
            let token = trim_start_matches(header.as_str(), BEARER);
            match secret {
                None => Err(UserIdError::SecretUnreadable),
                Some(secret) => user_of(read_token(token, secret.as_str())),
            }
        },
    }
}

/// Where the check of a request stands.
#[derive(Debug, PartialEq, Eq)]
pub enum AuthState {
    Start,
    ReadingHeader,
    ReadingSecret { header: Option<Option<String>> },
    ReadingFallback { error: UserIdError },
    BindingDatabase { user_id: String },
    PreparingCount { user_id: String },
    Counting { user_id: String },
    Finished,
}

/// What [`AuthState`] stands for.
pub enum AuthStateView {
    Start,
    ReadingHeader,
    ReadingSecret { header: Option<Option<Seq<char>>> },
    ReadingFallback { error: UserIdError },
    BindingDatabase { user_id: Seq<char> },
    PreparingCount { user_id: Seq<char> },
    Counting { user_id: Seq<char> },
    Finished,
}

impl View for AuthState {
    type V = AuthStateView;

    open spec fn view(&self) -> AuthStateView {
        match self {
            AuthState::Start => AuthStateView::Start,
            AuthState::ReadingHeader => AuthStateView::ReadingHeader,
            AuthState::ReadingSecret { header } => AuthStateView::ReadingSecret {
                header: header.deep_view(),
            },
            AuthState::ReadingFallback { error } => AuthStateView::ReadingFallback {
                error: *error,
            },
            AuthState::BindingDatabase { user_id } => AuthStateView::BindingDatabase {
                user_id: user_id@,
            },
            AuthState::PreparingCount { user_id } => AuthStateView::PreparingCount {
                user_id: user_id@,
            },
            AuthState::Counting { user_id } => AuthStateView::Counting { user_id: user_id@ },
            AuthState::Finished => AuthStateView::Finished,
        }
    }
}

/// How the check goes on once the header has been read: the secret is asked for only where the
/// header presents a token to check.
pub open spec fn header_read(header: Option<Option<Seq<char>>>) -> (AuthStateView, ActionView) {
    match presented_token(header, None) {
        Err(UserIdError::SecretUnreadable) => (
            AuthStateView::ReadingSecret { header },
            ActionView::ReadSecret { name: JWT_SECRET@ },
        ),
        Err(error) => identified(Err(error)),
        Ok((user_id, _)) => identified(Ok(user_id)),
    }
}

/// How the check goes on with what was found out about who the request comes from.
pub open spec fn identified(found: Result<Seq<char>, UserIdError>) -> (AuthStateView, ActionView) {
    match found {
        Ok(user_id) => (
            AuthStateView::BindingDatabase { user_id },
            ActionView::OpenDatabase { binding: DATABASE@ },
        ),
        Err(error) => (
            AuthStateView::ReadingFallback { error },
            ActionView::ReadVar { name: "TEST_USER_ID"@ },
        ),
    }
}

/// The check ends with a verdict.
pub open spec fn decided(finding: FindingView) -> (AuthStateView, ActionView) {
    (AuthStateView::Finished, ActionView::Decide { allowed: finding.allows(), finding })
}

/// What the answer to the count of users comes to.
pub open spec fn count_finding(value: Option<JsonView>, user_id: Seq<char>) -> FindingView {
    match value {
        Some(value) => match value.number() {
            Some(number) => FindingView::Counted { number },
            None => FindingView::NoCount { user_id },
        },
        None => FindingView::NoRow,
    }
}

/// One step of the check, where `found` is what was found out about who the request comes from.
/// A database that cannot be bound or a statement that cannot be prepared refuses the request;
/// a query that fails lets it pass.
pub open spec fn auth_step(
    state: AuthStateView,
    event: EventView,
    found: Result<Seq<char>, UserIdError>,
) -> (AuthStateView, ActionView) {
    match (state, event) {
        (AuthStateView::Start, EventView::Begin) => (
            AuthStateView::ReadingHeader,
            ActionView::ReadHeader { name: "Authorization"@ },
        ),
        (AuthStateView::ReadingHeader, EventView::Text { text }) => header_read(Some(text)),
        (AuthStateView::ReadingHeader, EventView::Failed) => header_read(None),
        (AuthStateView::ReadingSecret { .. }, EventView::Text { .. }) => identified(found),
        (AuthStateView::ReadingSecret { .. }, EventView::Failed) => identified(found),
        (AuthStateView::ReadingFallback { .. }, EventView::Text { text }) => identified(
            match text {
                Some(user_id) => Ok(user_id),
                None => Ok(FALLBACK_USER@),
            },
        ),
        (AuthStateView::ReadingFallback { .. }, EventView::Failed) => identified(
            Ok(FALLBACK_USER@),
        ),
        (AuthStateView::BindingDatabase { user_id }, EventView::Done) => (
            AuthStateView::PreparingCount { user_id },
            ActionView::Prepare {
                statement: COUNT_USERS@,
                parameters: seq![SqlValueView::Text(user_id)],
            },
        ),
        (AuthStateView::BindingDatabase { .. }, EventView::Failed) => decided(
            FindingView::NoDatabase,
        ),
        (AuthStateView::PreparingCount { user_id }, EventView::Done) => (
            AuthStateView::Counting { user_id },
            ActionView::FetchFirst { column: "email"@ },
        ),
        (AuthStateView::PreparingCount { user_id }, EventView::Failed) => decided(
            FindingView::NotPrepared { user_id },
        ),
        (AuthStateView::Counting { user_id }, EventView::Value { value }) => decided(
            count_finding(value, user_id),
        ),
        (AuthStateView::Counting { .. }, EventView::Failed) => decided(FindingView::QueryFailed),
        _ => decided(FindingView::Unexpected),
    }
}

/// Goes on with what was found out about who the request comes from.
pub fn after_identification(found: Result<String, UserIdError>) -> (next: (AuthState, Action))
    ensures
        (next.0@, next.1@) == identified(found_view(found)),
{
    match found {
        Ok(user_id) => (
            AuthState::BindingDatabase { user_id },
            Action::OpenDatabase { binding: DATABASE.to_owned() },
        ),
        Err(error) => (
            AuthState::ReadingFallback { error },
            Action::ReadVar { name: "TEST_USER_ID".to_owned() },
        ),
    }
}

/// What a step of the check found out about who the request comes from, read off where the check
/// stands after it.
pub open spec fn found_in(state: AuthStateView) -> Result<Seq<char>, UserIdError> {
    match state {
        AuthStateView::BindingDatabase { user_id } => Ok(user_id),
        AuthStateView::ReadingFallback { error } => Err(error),
        _ => Err(UserIdError::InvalidToken),
    }
}

/// The parameter list of a query by one text.
fn text_parameter(text: String) -> (parameters: Vec<SqlValue>)
    ensures
        parameters.deep_view() == seq![SqlValueView::Text(text@)],
{
    let ghost text_view = text@;
    let mut parameters: Vec<SqlValue> = Vec::new();
    parameters.push(SqlValue::Text(text));
    assert(parameters.deep_view() =~= seq![SqlValueView::Text(text_view)]);
    parameters
}

/// Ends the check with a verdict.
fn decide(finding: Finding) -> (next: (AuthState, Action))
    ensures
        (next.0@, next.1@) == decided(finding@),
{
    (AuthState::Finished, Action::Decide { allowed: finding.allows(), finding })
}

/// What the answer to the count of users comes to.
fn count_of(value: Option<Json>, user_id: String) -> (finding: Finding)
    ensures
        finding@ == count_finding(value.deep_view(), user_id@),
{
    match value {
        Some(value) => match value.as_u64() {
            Some(number) => Finding::Counted { number },
            None => Finding::NoCount { user_id },
        },
        None => Finding::NoRow,
    }
}

/// Goes on once the header has been read.
fn after_header(header: Option<Option<String>>) -> (next: (AuthState, Action))
    ensures
        (next.0@, next.1@) == header_read(header.deep_view()),
{
    match get_user_id_from_request(&header, &None) {
        Err(UserIdError::SecretUnreadable) => (
            AuthState::ReadingSecret { header },
            Action::ReadSecret { name: JWT_SECRET.to_owned() },
        ),
        found => after_identification(found),
    }
}

/// Takes the check of a request one step on. What is found out about who a request comes from is
/// what [`get_user_id_from_request`] may find.
pub fn check_authorized(state: AuthState, event: Event) -> (next: (AuthState, Action))
    ensures
        (next.0@, next.1@) == auth_step(state@, event@, found_in(next.0@)),
        match (state@, event@.handed_over()) {
            (AuthStateView::ReadingSecret { header }, Some(secret)) => may_find(
                header,
                secret,
                found_in(next.0@),
            ),
            _ => true,
        },
{
    match (state, event) {
        (AuthState::Start, Event::Begin) => (
            AuthState::ReadingHeader,
            Action::ReadHeader { name: "Authorization".to_owned() },
        ),
        (AuthState::ReadingHeader, Event::Text { text }) => after_header(Some(text)),
        (AuthState::ReadingHeader, Event::Failed) => after_header(None),
        (AuthState::ReadingSecret { header }, Event::Text { text }) => after_identification(
            get_user_id_from_request(&header, &text),
        ),
        (AuthState::ReadingSecret { header }, Event::Failed) => after_identification(
            get_user_id_from_request(&header, &None),
        ),
        (AuthState::ReadingFallback { .. }, Event::Text { text }) => match text {
            Some(user_id) => after_identification(Ok(user_id)),
            None => after_identification(Ok(FALLBACK_USER.to_owned())),
        },
        (AuthState::ReadingFallback { .. }, Event::Failed) => after_identification(
            Ok(FALLBACK_USER.to_owned()),
        ),
        (AuthState::BindingDatabase { user_id }, Event::Done) => {
            let parameters = text_parameter(user_id.clone());
            (
                AuthState::PreparingCount { user_id },
                Action::Prepare { statement: COUNT_USERS.to_owned(), parameters },
            )
        },
        (AuthState::BindingDatabase { .. }, Event::Failed) => decide(Finding::NoDatabase),
        (AuthState::PreparingCount { user_id }, Event::Done) => (
            AuthState::Counting { user_id },
            Action::FetchFirst { column: "email".to_owned() },
        ),
        (AuthState::PreparingCount { user_id }, Event::Failed) => decide(
            Finding::NotPrepared { user_id },
        ),
        (AuthState::Counting { user_id }, Event::Value { value }) => decide(
            count_of(value, user_id),
        ),
        (AuthState::Counting { .. }, Event::Failed) => decide(Finding::QueryFailed),
        _ => decide(Finding::Unexpected),
    }
}

/// Where a login stands.
#[derive(Debug, PartialEq, Eq)]
pub enum LoginState {
    Start,
    ReadingCredentials,
    BindingDatabase { email: String, password_plain: String },
    PreparingUser { password_plain: String },
    FetchingUser { password_plain: String },
    ReadingSecret { user_id: String },
    ReadingClock { user_id: String, secret: String },
    Finished,
}

/// What [`LoginState`] stands for.
pub enum LoginStateView {
    Start,
    ReadingCredentials,
    BindingDatabase { email: Seq<char>, password_plain: Seq<char> },
    PreparingUser { password_plain: Seq<char> },
    FetchingUser { password_plain: Seq<char> },
    ReadingSecret { user_id: Seq<char> },
    ReadingClock { user_id: Seq<char>, secret: Seq<char> },
    Finished,
}

impl View for LoginState {
    type V = LoginStateView;

    open spec fn view(&self) -> LoginStateView {
        match self {
            LoginState::Start => LoginStateView::Start,
            LoginState::ReadingCredentials => LoginStateView::ReadingCredentials,
            LoginState::BindingDatabase { email, password_plain } =>
                LoginStateView::BindingDatabase {
                email: email@,
                password_plain: password_plain@,
            },
            LoginState::PreparingUser { password_plain } => LoginStateView::PreparingUser {
                password_plain: password_plain@,
            },
            LoginState::FetchingUser { password_plain } => LoginStateView::FetchingUser {
                password_plain: password_plain@,
            },
            LoginState::ReadingSecret { user_id } => LoginStateView::ReadingSecret {
                user_id: user_id@,
            },
            LoginState::ReadingClock { user_id, secret } => LoginStateView::ReadingClock {
                user_id: user_id@,
                secret: secret@,
            },
            LoginState::Finished => LoginStateView::Finished,
        }
    }
}

/// The answer to a login that fails, be the email unknown or the password wrong.
pub open spec fn login_refused() -> (LoginStateView, ActionView) {
    (
        LoginStateView::Finished,
        ActionView::Respond {
            reply: crate::replies::error_reply_view("Invalid email or password"@, 401),
        },
    )
}

/// The answer to a login that succeeds.
pub open spec fn token_reply(token: Seq<char>) -> ReplyView {
    ReplyView {
        status: 200,
        payload: PayloadView::Auth { token, message: "Successfully logged in"@ },
        headers: Seq::empty(),
        cors: false,
    }
}

/// The hash that is stored for a user.
pub open spec fn stored_hash(row: Option<JsonView>) -> Option<Seq<char>> {
    match row {
        Some(row) => Some(row.member_or_empty("password_hash"@)),
        None => None,
    }
}

/// How a login goes on with the user that was found, if any.
pub open spec fn user_found(row: Option<JsonView>, password_plain: Seq<char>) -> (
    LoginStateView,
    ActionView,
) {
    match row {
        Some(row) => if crate::password::bcrypt_match(
            password_plain,
            row.member_or_empty("password_hash"@),
        ) == Some(true) {
            (
                LoginStateView::ReadingSecret { user_id: row.member_or_empty("id"@) },
                ActionView::ReadSecret { name: JWT_SECRET@ },
            )
        } else {
            login_refused()
        },
        None => login_refused(),
    }
}

/// The answer to a login once secret and time are known.
pub open spec fn signed_in(user_id: Seq<char>, secret: Seq<char>, millis: u64) -> (
    LoginStateView,
    ActionView,
) {
    (
        LoginStateView::Finished,
        ActionView::Respond {
            reply: token_reply(
                crate::token::token_for(crate::token::claims_at(user_id, millis), secret),
            ),
        },
    )
}

/// One step of a login.
pub open spec fn login_step(state: LoginStateView, event: EventView) -> (
    LoginStateView,
    ActionView,
) {
    match (state, event) {
        (LoginStateView::Start, EventView::Begin) => (
            LoginStateView::ReadingCredentials,
            ActionView::ReadCredentials,
        ),
        (
            LoginStateView::ReadingCredentials,
            EventView::Credentials { email, password_plain },
        ) => (
            LoginStateView::BindingDatabase { email, password_plain },
            ActionView::OpenDatabase { binding: DATABASE@ },
        ),
        (LoginStateView::BindingDatabase { email, password_plain }, EventView::Done) => (
            LoginStateView::PreparingUser { password_plain },
            ActionView::Prepare {
                statement: SELECT_USER@,
                parameters: seq![SqlValueView::Text(email)],
            },
        ),
        (LoginStateView::PreparingUser { password_plain }, EventView::Done) => (
            LoginStateView::FetchingUser { password_plain },
            ActionView::FetchFirst { column: "email"@ },
        ),
        (LoginStateView::FetchingUser { password_plain }, EventView::Value { value }) => user_found(
            value,
            password_plain,
        ),
        (LoginStateView::ReadingSecret { user_id }, EventView::Text { text: Some(secret) }) => (
            LoginStateView::ReadingClock { user_id, secret },
            ActionView::ReadClock,
        ),
        (LoginStateView::ReadingClock { user_id, secret }, EventView::Clock { millis }) =>
            signed_in(user_id, secret, millis),
        _ => (LoginStateView::Finished, ActionView::Abort),
    }
}

/// Answers a login that fails.
fn refuse_login() -> (next: (LoginState, Action))
    ensures
        (next.0@, next.1@) == login_refused(),
{
    (
        LoginState::Finished,
        Action::Respond { reply: error_reply("Invalid email or password", 401) },
    )
}

/// Goes on with the user that was found, if any.
fn check_password(row: Option<Json>, password_plain: String) -> (next: (LoginState, Action))
    ensures
        (next.0@, next.1@) == user_found(row.deep_view(), password_plain@),
        next.0@ is ReadingSecret ==> (stored_hash(row.deep_view()) matches Some(hash)
            && vstd::utf8::encode_utf8(hash).len() == 60),
{
    match row {
        Some(row) => {
            let user_id = row.member_or_empty("id");
            let db_hash = row.member_or_empty("password_hash");
            if password_belongs(password_plain.as_str(), db_hash.as_str()) {
                (
                    LoginState::ReadingSecret { user_id },
                    Action::ReadSecret { name: JWT_SECRET.to_owned() },
                )
            } else {
                refuse_login()
            }
        },
        None => refuse_login(),
    }
}

/// Ends a login with a token.
fn sign_in(user_id: String, secret: String, millis: u64) -> (next: (LoginState, Action))
    ensures
        (next.0@, next.1@) == signed_in(user_id@, secret@, millis),
        crate::token::carries(
            crate::token::token_for(crate::token::claims_at(user_id@, millis), secret@),
            crate::token::claims_at(user_id@, millis),
            secret@,
        ),
{
    let claims = new_claims(user_id, millis);
    match issue_token(&claims, secret.as_str()) {
        Ok(token) => {
            let ghost token_view = token@;
            let headers: Vec<(String, String)> = Vec::new();
            assert(headers.deep_view() =~= Seq::empty());
            let reply = Reply {
                status: 200,
                payload: Payload::Auth(
                    AuthResponse { token, message: "Successfully logged in".to_owned() },
                ),
                headers,
                cors: false,
            };
            assert(reply@ == token_reply(token_view));
            (LoginState::Finished, Action::Respond { reply })
        },
        Err(error) => (LoginState::Finished, Action::Fail { message: error.message }),
    }
}

/// Takes a login one step on. The password of a user who is let in belongs to a stored hash, and
/// the token with which the login ends carries the claims under the secret.
pub fn handle_login(state: LoginState, event: Event) -> (next: (LoginState, Action))
    ensures
        (next.0@, next.1@) == login_step(state@, event@),
        match (state@, event@, next.0@) {
            (
                LoginStateView::FetchingUser { .. },
                EventView::Value { value },
                LoginStateView::ReadingSecret { .. },
            ) => stored_hash(value) matches Some(hash) && vstd::utf8::encode_utf8(hash).len()
                == 60,
            (
                LoginStateView::ReadingClock { user_id, secret },
                EventView::Clock { millis },
                _,
            ) => crate::token::carries(
                crate::token::token_for(crate::token::claims_at(user_id, millis), secret),
                crate::token::claims_at(user_id, millis),
                secret,
            ),
            _ => true,
        },
        match (state@, event@) {
            (
                LoginStateView::ReadingClock { user_id, secret },
                EventView::Clock { millis },
            ) => next.1@ matches ActionView::Respond { reply } && (reply.payload matches PayloadView::Auth {
                token,
                ..
            } && (crate::token::carried_claims(
                token,
                vstd::utf8::encode_utf8(secret),
            ) matches Some((sub, exp, iat, addressed, _)) && sub == Some(user_id) && iat == Some(
                millis / 1000,
            ) && (exp matches Some(exp) && exp == millis / 1000 + 86400) && !addressed)),
            _ => true,
        },
{
    match (state, event) {
        (LoginState::Start, Event::Begin) => (
            LoginState::ReadingCredentials,
            Action::ReadCredentials,
        ),
        (LoginState::ReadingCredentials, Event::Credentials { payload }) => (
            LoginState::BindingDatabase {
                email: payload.email,
                password_plain: payload.password_plain,
            },
            Action::OpenDatabase { binding: DATABASE.to_owned() },
        ),
        (LoginState::BindingDatabase { email, password_plain }, Event::Done) => (
            LoginState::PreparingUser { password_plain },
            Action::Prepare {
                statement: SELECT_USER.to_owned(),
                parameters: text_parameter(email),
            },
        ),
        (LoginState::PreparingUser { password_plain }, Event::Done) => (
            LoginState::FetchingUser { password_plain },
            Action::FetchFirst { column: "email".to_owned() },
        ),
        (LoginState::FetchingUser { password_plain }, Event::Value { value }) => check_password(
            value,
            password_plain,
        ),
        (LoginState::ReadingSecret { user_id }, Event::Text { text: Some(secret) }) => (
            LoginState::ReadingClock { user_id, secret },
            Action::ReadClock,
        ),
        (LoginState::ReadingClock { user_id, secret }, Event::Clock { millis }) => sign_in(
            user_id,
            secret,
            millis,
        ),
        _ => (LoginState::Finished, Action::Abort),
    }
}

} // verus!

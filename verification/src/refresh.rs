//! The job that trades the refresh token for a fresh pair of tokens.
use vstd::prelude::*;

use crate::codec::{basic_authorization, refresh_form};
use crate::fetch::STORE;
use crate::platform::{
    Action, ActionView, Event, EventView, HttpRequest, HttpRequestView, Method,
};

verus! {

/// Where tokens are traded.
pub const TOKEN_URL: &'static str = "https://api.schwabapi.com/marketdata/v1";

/// The key of the token for the market data service.
pub const ACCESS_TOKEN: &'static str = "access_token";

/// The key of the token that is traded for a fresh pair.
pub const REFRESH_TOKEN: &'static str = "refresh_token";

/// Where the job stands.
#[derive(Debug, PartialEq, Eq)]
pub enum RefreshState {
    Start,
    ReadingAppKey,
    ReadingAppSecret { client_id: String },
    BindingStore { client_id: String, client_secret: String },
    LoadingToken { client_id: String, client_secret: String },
    Sending,
    ReadingTokens,
    SavingAccess { refresh_token: String },
    SavingRefresh,
    Finished,
}

/// What [`RefreshState`] stands for.
pub enum RefreshStateView {
    Start,
    ReadingAppKey,
    ReadingAppSecret { client_id: Seq<char> },
    BindingStore { client_id: Seq<char>, client_secret: Seq<char> },
    LoadingToken { client_id: Seq<char>, client_secret: Seq<char> },
    Sending,
    ReadingTokens,
    SavingAccess { refresh_token: Seq<char> },
    SavingRefresh,
    Finished,
}

impl View for RefreshState {
    type V = RefreshStateView;

    open spec fn view(&self) -> RefreshStateView {
        match self {
            RefreshState::Start => RefreshStateView::Start,
            RefreshState::ReadingAppKey => RefreshStateView::ReadingAppKey,
            RefreshState::ReadingAppSecret { client_id } => RefreshStateView::ReadingAppSecret {
                client_id: client_id@,
            },
            RefreshState::BindingStore { client_id, client_secret } =>
                RefreshStateView::BindingStore {
                client_id: client_id@,
                client_secret: client_secret@,
            },
            RefreshState::LoadingToken { client_id, client_secret } =>
                RefreshStateView::LoadingToken {
                client_id: client_id@,
                client_secret: client_secret@,
            },
            RefreshState::Sending => RefreshStateView::Sending,
            RefreshState::ReadingTokens => RefreshStateView::ReadingTokens,
            RefreshState::SavingAccess { refresh_token } => RefreshStateView::SavingAccess {
                refresh_token: refresh_token@,
            },
            RefreshState::SavingRefresh => RefreshStateView::SavingRefresh,
            RefreshState::Finished => RefreshStateView::Finished,
        }
    }
}

/// The request that trades a refresh token: the worker identifies itself with its key and
/// secret, and sends the token as a form.
pub open spec fn refresh_request_view(
    client_id: Seq<char>,
    client_secret: Seq<char>,
    refresh_token: Seq<char>,
) -> HttpRequestView {
    HttpRequestView {
        method: Method::Post,
        url: TOKEN_URL@,
        headers: seq![
            (
                "Authorization"@,
                crate::codec::basic_authorization_view(client_id, client_secret),
            ),
            ("Content-Type"@, "application/x-www-form-urlencoded"@),
        ],
        body: Some(crate::codec::form_text(crate::codec::refresh_form_view(refresh_token))),
    }
}

/// One step of the job. Without a stored token there is nothing to trade, and an answer other
/// than 200 leaves the stored tokens as they are.
pub open spec fn refresh_step(state: RefreshStateView, event: EventView) -> (
    RefreshStateView,
    ActionView,
) {
    match (state, event) {
        (RefreshStateView::Start, EventView::Begin) => (
            RefreshStateView::ReadingAppKey,
            ActionView::ReadSecret { name: "SCHWAB_APP_KEY"@ },
        ),
        (RefreshStateView::ReadingAppKey, EventView::Text { text: Some(client_id) }) => (
            RefreshStateView::ReadingAppSecret { client_id },
            ActionView::ReadSecret { name: "SCHWAB_APP_SECRET"@ },
        ),
        (
            RefreshStateView::ReadingAppSecret { client_id },
            EventView::Text { text: Some(client_secret) },
        ) => (
            RefreshStateView::BindingStore { client_id, client_secret },
            ActionView::OpenStore { binding: STORE@ },
        ),
        (RefreshStateView::BindingStore { client_id, client_secret }, EventView::Done) => (
            RefreshStateView::LoadingToken { client_id, client_secret },
            ActionView::Load { key: REFRESH_TOKEN@ },
        ),
        (
            RefreshStateView::LoadingToken { client_id, client_secret },
            EventView::Text { text },
        ) => match text {
            Some(token) => (
                RefreshStateView::Sending,
                ActionView::Send {
                    request: refresh_request_view(client_id, client_secret, token),
                },
            ),
            None => (RefreshStateView::Finished, ActionView::Stop),
        },
        (RefreshStateView::Sending, EventView::Status { code }) => if code == 200 {
            (RefreshStateView::ReadingTokens, ActionView::ReadTokens)
        } else {
            (RefreshStateView::Finished, ActionView::Stop)
        },
        (
            RefreshStateView::ReadingTokens,
            EventView::Tokens { access_token, refresh_token },
        ) => (
            RefreshStateView::SavingAccess { refresh_token },
            ActionView::Save { key: ACCESS_TOKEN@, value: access_token },
        ),
        (RefreshStateView::SavingAccess { refresh_token }, EventView::Done) => (
            RefreshStateView::SavingRefresh,
            ActionView::Save { key: REFRESH_TOKEN@, value: refresh_token },
        ),
        (RefreshStateView::SavingRefresh, EventView::Done) => (
            RefreshStateView::Finished,
            ActionView::Stop,
        ),
        _ => (RefreshStateView::Finished, ActionView::Abort),
    }
}

/// The request that trades a refresh token.
pub fn refresh_request(client_id: &str, client_secret: &str, refresh_token: &str) -> (request:
    Result<HttpRequest, serde_urlencoded::ser::Error>)
    ensures
        request matches Ok(request) && request@ == refresh_request_view(
            client_id@,
            client_secret@,
            refresh_token@,
        ),
{
    match refresh_form(refresh_token) {
        Ok(body) => {
            let authorization: String = basic_authorization(client_id, client_secret);
            let ghost authorization_view = authorization@;
            let mut headers: Vec<(String, String)> = Vec::new();
            headers.push(("Authorization".to_owned(), authorization));
            headers.push(
                ("Content-Type".to_owned(), "application/x-www-form-urlencoded".to_owned()),
            );
            assert(headers.deep_view() =~= seq![
                ("Authorization"@, authorization_view),
                ("Content-Type"@, "application/x-www-form-urlencoded"@),
            ]);
            Ok(
                HttpRequest {
                    method: Method::Post,
                    url: TOKEN_URL.to_owned(),
                    headers,
                    body: Some(body),
                },
            )
        },
        Err(error) => Err(error),
    }
}

/// Takes the job one step on.
pub fn execute_token_refresh(state: RefreshState, event: Event) -> (next: (RefreshState, Action))
    ensures
        (next.0@, next.1@) == refresh_step(state@, event@),
{
    match (state, event) {
        (RefreshState::Start, Event::Begin) => (
            RefreshState::ReadingAppKey,
            Action::ReadSecret { name: "SCHWAB_APP_KEY".to_owned() },
        ),
        (RefreshState::ReadingAppKey, Event::Text { text: Some(client_id) }) => (
            RefreshState::ReadingAppSecret { client_id },
            Action::ReadSecret { name: "SCHWAB_APP_SECRET".to_owned() },
        ),
        (
            RefreshState::ReadingAppSecret { client_id },
            Event::Text { text: Some(client_secret) },
        ) => (
            RefreshState::BindingStore { client_id, client_secret },
            Action::OpenStore { binding: STORE.to_owned() },
        ),
        (RefreshState::BindingStore { client_id, client_secret }, Event::Done) => (
            RefreshState::LoadingToken { client_id, client_secret },
            Action::Load { key: REFRESH_TOKEN.to_owned() },
        ),
        (RefreshState::LoadingToken { client_id, client_secret }, Event::Text { text }) =>
            match text {
                Some(token) => match refresh_request(
                    client_id.as_str(),
                    client_secret.as_str(),
                    token.as_str(),
                ) {
                    Ok(request) => (RefreshState::Sending, Action::Send { request }),
                    Err(error) => (
                        RefreshState::Finished,
                        Action::Fail { message: error.to_string() },
                    ),
                },
                None => (RefreshState::Finished, Action::Stop),
            },
        (RefreshState::Sending, Event::Status { code }) => if code == 200 {
            (RefreshState::ReadingTokens, Action::ReadTokens)
        } else {
            (RefreshState::Finished, Action::Stop)
        },
        (RefreshState::ReadingTokens, Event::Tokens { tokens }) => (
            RefreshState::SavingAccess { refresh_token: tokens.refresh_token },
            Action::Save { key: ACCESS_TOKEN.to_owned(), value: tokens.access_token },
        ),
        (RefreshState::SavingAccess { refresh_token }, Event::Done) => (
            RefreshState::SavingRefresh,
            Action::Save { key: REFRESH_TOKEN.to_owned(), value: refresh_token },
        ),
        (RefreshState::SavingRefresh, Event::Done) => (RefreshState::Finished, Action::Stop),
        _ => (RefreshState::Finished, Action::Abort),
    }
}

} // verus!

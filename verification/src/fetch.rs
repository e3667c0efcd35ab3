//! The request handler.
use vstd::prelude::*;
use vstd::string::*;

use crate::access::{check_authorized, SECRET_HEADER, WORKER_SECRET};
use crate::platform::{
    Action, ActionView, Endpoint, Event, EventView, Method, Payload, PayloadView, SqlValue,
    SqlValueView,
};
use crate::replies::{data_reply, error_reply, ok_reply, preflight_reply};
use crate::text::parse_bool;

verus! {

/// The binding of the key-value store.
pub const STORE: &'static str = "SCHWAB_STORE";

/// The binding of the database.
pub const DATABASE: &'static str = "SCHWAB_DB";

/// The binding of the object storage.
pub const BUCKET: &'static str = "SCHWAB_BUCKET";

/// The object that lists all market symbols.
pub const ALL_TICKERS: &'static str = "all_tickers.txt";

/// The newest 500 stored quotes of one symbol, the oldest of them first.
pub const HISTORY_QUERY: &'static str = "SELECT symbol, last_price, diff, scraped_at FROM (SELECT symbol, last_price, diff, scraped_at FROM stock_quotes WHERE symbol = ? ORDER BY scraped_at DESC LIMIT 500) ORDER BY scraped_at";

/// The two settings that clients keep in the store.
#[derive(Debug, Clone, Copy, PartialEq, Eq, Structural)]
pub enum Setting {
    /// The symbols to track.
    Symbols,
    /// Whether quotes are being collected.
    Collecting,
}

impl Setting {
    /// The key under which the store holds the setting.
    pub open spec fn key_view(self) -> Seq<char> {
        match self {
            Setting::Symbols => "symbols"@,
            Setting::Collecting => "collecting"@,
        }
    }

    /// The member of a request's body that carries the setting.
    pub open spec fn member_view(self) -> Seq<char> {
        match self {
            Setting::Symbols => "symbols"@,
            Setting::Collecting => "value"@,
        }
    }

    /// What a client is told that left the member out.
    pub open spec fn missing_view(self) -> Seq<char> {
        match self {
            Setting::Symbols => "Missing 'symbols' in request body"@,
            Setting::Collecting => "Missing \"value\" field in request body"@,
        }
    }

    /// The key under which the store holds the setting.
    pub fn key(&self) -> (key: &'static str)
        ensures
            key@ == self.key_view(),
    {
        match self {
            Setting::Symbols => "symbols",
            Setting::Collecting => "collecting",
        }
    }

    /// The member of a request's body that carries the setting.
    pub fn member(&self) -> (member: &'static str)
        ensures
            member@ == self.member_view(),
    {
        match self {
            Setting::Symbols => "symbols",
            Setting::Collecting => "value",
        }
    }

    /// What a client is told that left the member out.
    pub fn missing(&self) -> (message: &'static str)
        ensures
            message@ == self.missing_view(),
    {
        match self {
            Setting::Symbols => "Missing 'symbols' in request body",
            Setting::Collecting => "Missing \"value\" field in request body",
        }
    }
}

/// Where the handling of a request stands.
#[derive(Debug, PartialEq, Eq)]
pub enum FetchState {
    Start,
    BindingBucket,
    Dispatching,
    ReadingHeader { endpoint: Endpoint },
    ReadingSecret { endpoint: Endpoint, header: Option<String> },
    BindingDatabase,
    ReadingSymbol,
    PreparingHistory,
    FetchingHistory,
    ReadingBody { setting: Setting },
    BindingStoreToWrite { setting: Setting, value: String },
    Saving { message: String },
    BindingStoreToRead { setting: Setting },
    Loading,
    LoadingObject,
    Finished,
}

/// What [`FetchState`] stands for.
pub enum FetchStateView {
    Start,
    BindingBucket,
    Dispatching,
    ReadingHeader { endpoint: Endpoint },
    ReadingSecret { endpoint: Endpoint, header: Option<Seq<char>> },
    BindingDatabase,
    ReadingSymbol,
    PreparingHistory,
    FetchingHistory,
    ReadingBody { setting: Setting },
    BindingStoreToWrite { setting: Setting, value: Seq<char> },
    Saving { message: Seq<char> },
    BindingStoreToRead { setting: Setting },
    Loading,
    LoadingObject,
    Finished,
}

impl View for FetchState {
    type V = FetchStateView;

    open spec fn view(&self) -> FetchStateView {
        match self {
            FetchState::Start => FetchStateView::Start,
            FetchState::BindingBucket => FetchStateView::BindingBucket,
            FetchState::Dispatching => FetchStateView::Dispatching,
            FetchState::ReadingHeader { endpoint } => FetchStateView::ReadingHeader {
                endpoint: *endpoint,
            },
            FetchState::ReadingSecret { endpoint, header } => FetchStateView::ReadingSecret {
                endpoint: *endpoint,
                header: header.deep_view(),
            },
            FetchState::BindingDatabase => FetchStateView::BindingDatabase,
            FetchState::ReadingSymbol => FetchStateView::ReadingSymbol,
            FetchState::PreparingHistory => FetchStateView::PreparingHistory,
            FetchState::FetchingHistory => FetchStateView::FetchingHistory,
            FetchState::ReadingBody { setting } => FetchStateView::ReadingBody {
                setting: *setting,
            },
            FetchState::BindingStoreToWrite { setting, value } =>
                FetchStateView::BindingStoreToWrite { setting: *setting, value: value@ },
            FetchState::Saving { message } => FetchStateView::Saving { message: message@ },
            FetchState::BindingStoreToRead { setting } => FetchStateView::BindingStoreToRead {
                setting: *setting,
            },
            FetchState::Loading => FetchStateView::Loading,
            FetchState::LoadingObject => FetchStateView::LoadingObject,
            FetchState::Finished => FetchStateView::Finished,
        }
    }
}

/// The machine ends with an answer.
pub open spec fn answered(reply: crate::platform::ReplyView) -> (FetchStateView, ActionView) {
    (FetchStateView::Finished, ActionView::Respond { reply })
}

/// The machine ends with an answer that refuses the request.
pub open spec fn refused(message: Seq<char>, status: u16) -> (FetchStateView, ActionView) {
    answered(crate::replies::error_reply_view(message, status))
}

/// How an endpoint begins once its client has been let in.
pub open spec fn admitted(endpoint: Endpoint) -> (FetchStateView, ActionView) {
    match endpoint {
        Endpoint::History => (
            FetchStateView::BindingDatabase,
            ActionView::OpenDatabase { binding: DATABASE@ },
        ),
        Endpoint::PutSymbols => (
            FetchStateView::ReadingBody { setting: Setting::Symbols },
            ActionView::ReadBody,
        ),
        Endpoint::PutCollecting => (
            FetchStateView::ReadingBody { setting: Setting::Collecting },
            ActionView::ReadBody,
        ),
        Endpoint::GetSymbols => (
            FetchStateView::BindingStoreToRead { setting: Setting::Symbols },
            ActionView::OpenStore { binding: STORE@ },
        ),
        Endpoint::GetCollecting => (
            FetchStateView::BindingStoreToRead { setting: Setting::Collecting },
            ActionView::OpenStore { binding: STORE@ },
        ),
        Endpoint::AllSymbols => (
            FetchStateView::LoadingObject,
            ActionView::LoadObject { key: ALL_TICKERS@ },
        ),
        Endpoint::Unknown => refused("Not Found"@, 404),
    }
}

/// How a setting is written once the store is bound: the symbols as they are, the collecting
/// switch only where the text spells a truth value.
pub open spec fn written(setting: Setting, value: Seq<char>) -> (FetchStateView, ActionView) {
    match setting {
        Setting::Symbols => (
            FetchStateView::Saving { message: "Symbols updated successfully"@ },
            ActionView::Save { key: setting.key_view(), value },
        ),
        Setting::Collecting => match crate::text::bool_of(value) {
            Some(true) => (
                FetchStateView::Saving { message: "data collection started"@ },
                ActionView::Save { key: setting.key_view(), value: "true"@ },
            ),
            Some(false) => (
                FetchStateView::Saving { message: "data collection stopped"@ },
                ActionView::Save { key: setting.key_view(), value: "false"@ },
            ),
            None => refused("value should be \"true\" or \"false\""@, 400),
        },
    }
}

/// The text that a read of the store gave; a key that is not there reads as the empty text.
pub open spec fn text_or_empty(text: Option<Seq<char>>) -> Seq<char> {
    match text {
        Some(text) => text,
        None => Seq::empty(),
    }
}

/// The reply that carries a setting.
pub open spec fn setting_reply(text: Option<Seq<char>>) -> crate::platform::ReplyView {
    crate::replies::data_reply_view(
        PayloadView::Bytes(vstd::utf8::encode_utf8(text_or_empty(text))),
        "application/text"@,
        "private, no-cache"@,
        true,
    )
}

/// One step of the request handler. An event that the state does not wait for ends the machine,
/// as a failure of the host does.
pub open spec fn fetch_step(state: FetchStateView, event: EventView) -> (
    FetchStateView,
    ActionView,
) {
    match (state, event) {
        (FetchStateView::Start, EventView::Received { method }) => if method == Method::Options {
            answered(crate::replies::preflight_reply_view())
        } else {
            (FetchStateView::BindingBucket, ActionView::OpenBucket { binding: BUCKET@ })
        },
        (FetchStateView::BindingBucket, EventView::Done) => (
            FetchStateView::Dispatching,
            ActionView::Dispatch,
        ),
        (FetchStateView::Dispatching, EventView::Routed { endpoint }) => if endpoint
            == Endpoint::Unknown {
            refused("Not Found"@, 404)
        } else {
            (
                FetchStateView::ReadingHeader { endpoint },
                ActionView::ReadHeader { name: SECRET_HEADER@ },
            )
        },
        (FetchStateView::ReadingHeader { endpoint }, EventView::Text { text }) => (
            FetchStateView::ReadingSecret { endpoint, header: text },
            ActionView::ReadSecret { name: WORKER_SECRET@ },
        ),
        (FetchStateView::ReadingHeader { endpoint }, EventView::Failed) => (
            FetchStateView::ReadingSecret { endpoint, header: None },
            ActionView::ReadSecret { name: WORKER_SECRET@ },
        ),
        (FetchStateView::ReadingSecret { endpoint, header }, EventView::Text { text }) => if header
            == text {
            admitted(endpoint)
        } else {
            refused("Unauthorized connection"@, 401)
        },
        (FetchStateView::ReadingSecret { endpoint, header }, EventView::Failed) => if header
            == None::<Seq<char>> {
            admitted(endpoint)
        } else {
            refused("Unauthorized connection"@, 401)
        },
        (FetchStateView::BindingDatabase, EventView::Done) => (
            FetchStateView::ReadingSymbol,
            ActionView::ReadParam { name: "symbol"@ },
        ),
        (FetchStateView::ReadingSymbol, EventView::Text { text }) => match text {
            Some(symbol) => (
                FetchStateView::PreparingHistory,
                ActionView::Prepare {
                    statement: HISTORY_QUERY@,
                    parameters: seq![SqlValueView::Text(symbol)],
                },
            ),
            None => refused("Bad request parameters"@, 400),
        },
        (FetchStateView::PreparingHistory, EventView::Done) => (
            FetchStateView::FetchingHistory,
            ActionView::FetchAll,
        ),
        (FetchStateView::FetchingHistory, EventView::Rows { rows }) => answered(
            crate::replies::data_reply_view(
                PayloadView::Rows(rows),
                "application/text"@,
                "private, no-cache"@,
                true,
            ),
        ),
        (FetchStateView::ReadingBody { setting }, EventView::Body { fields }) =>
            if fields.dom().contains(setting.member_view()) {
                (
                    FetchStateView::BindingStoreToWrite {
                        setting,
                        value: fields[setting.member_view()],
                    },
                    ActionView::OpenStore { binding: STORE@ },
                )
            } else {
                refused(setting.missing_view(), 400)
            },
        (FetchStateView::BindingStoreToWrite { setting, value }, EventView::Done) => written(
            setting,
            value,
        ),
        (FetchStateView::Saving { message }, EventView::Done) => answered(
            crate::replies::ok_reply_view(message),
        ),
        (FetchStateView::BindingStoreToRead { setting }, EventView::Done) => (
            FetchStateView::Loading,
            ActionView::Load { key: setting.key_view() },
        ),
        (FetchStateView::Loading, EventView::Text { text }) => answered(setting_reply(text)),
        (FetchStateView::LoadingObject, EventView::Object { bytes }) => match bytes {
            Some(bytes) => answered(
                crate::replies::data_reply_view(
                    PayloadView::Bytes(bytes),
                    "application/text"@,
                    "public, max-age=3600"@,
                    true,
                ),
            ),
            None => refused("Object not found"@, 404),
        },
        _ => (FetchStateView::Finished, ActionView::Abort),
    }
}

/// Ends the machine with an answer that refuses the request.
fn refuse(message: &str, status: u16) -> (next: (FetchState, Action))
    ensures
        (next.0@, next.1@) == refused(message@, status),
{
    (FetchState::Finished, Action::Respond { reply: error_reply(message, status) })
}

/// Begins an endpoint whose client has been let in.
fn let_in(endpoint: Endpoint) -> (next: (FetchState, Action))
    ensures
        (next.0@, next.1@) == admitted(endpoint),
{
    match endpoint {
        Endpoint::History => (
            FetchState::BindingDatabase,
            Action::OpenDatabase { binding: DATABASE.to_owned() },
        ),
        Endpoint::PutSymbols => (
            FetchState::ReadingBody { setting: Setting::Symbols },
            Action::ReadBody,
        ),
        Endpoint::PutCollecting => (
            FetchState::ReadingBody { setting: Setting::Collecting },
            Action::ReadBody,
        ),
        Endpoint::GetSymbols => (
            FetchState::BindingStoreToRead { setting: Setting::Symbols },
            Action::OpenStore { binding: STORE.to_owned() },
        ),
        Endpoint::GetCollecting => (
            FetchState::BindingStoreToRead { setting: Setting::Collecting },
            Action::OpenStore { binding: STORE.to_owned() },
        ),
        Endpoint::AllSymbols => (
            FetchState::LoadingObject,
            Action::LoadObject { key: ALL_TICKERS.to_owned() },
        ),
        Endpoint::Unknown => refuse("Not Found", 404),
    }
}

/// Lets a client in, or not.
fn guard(endpoint: Endpoint, header: Option<String>, secret: Option<String>) -> (next: (
    FetchState,
    Action,
))
    ensures
        (next.0@, next.1@) == if header.deep_view() == secret.deep_view() {
            admitted(endpoint)
        } else {
            refused("Unauthorized connection"@, 401)
        },
{
    if check_authorized(&header, &secret) {
        let_in(endpoint)
    } else {
        refuse("Unauthorized connection", 401)
    }
}

/// Writes a setting.
fn write(setting: Setting, value: String) -> (next: (FetchState, Action))
    ensures
        (next.0@, next.1@) == written(setting, value@),
{
    match setting {
        Setting::Symbols => (
            FetchState::Saving { message: "Symbols updated successfully".to_owned() },
            Action::Save { key: setting.key().to_owned(), value },
        ),
        Setting::Collecting => match parse_bool(value.as_str()) {
            Some(true) => (
                FetchState::Saving { message: "data collection started".to_owned() },
                Action::Save { key: setting.key().to_owned(), value: "true".to_owned() },
            ),
            Some(false) => (
                FetchState::Saving { message: "data collection stopped".to_owned() },
                Action::Save { key: setting.key().to_owned(), value: "false".to_owned() },
            ),
            None => refuse("value should be \"true\" or \"false\"", 400),
        },
    }
}

/// Takes the handling of a request one step on: from where it stands and what the host answered
/// to where it stands next and what the host is to do.
pub fn fetch(state: FetchState, event: Event) -> (next: (FetchState, Action))
    ensures
        (next.0@, next.1@) == fetch_step(state@, event@),
{
    match (state, event) {
        (FetchState::Start, Event::Received { method }) => if method == Method::Options {
            (FetchState::Finished, Action::Respond { reply: preflight_reply() })
        } else {
            (FetchState::BindingBucket, Action::OpenBucket { binding: BUCKET.to_owned() })
        },
        (FetchState::BindingBucket, Event::Done) => (FetchState::Dispatching, Action::Dispatch),
        (FetchState::Dispatching, Event::Routed { endpoint }) => if endpoint == Endpoint::Unknown {
            refuse("Not Found", 404)
        } else {
            (
                FetchState::ReadingHeader { endpoint },
                Action::ReadHeader { name: SECRET_HEADER.to_owned() },
            )
        },
        (FetchState::ReadingHeader { endpoint }, Event::Text { text }) => (
            FetchState::ReadingSecret { endpoint, header: text },
            Action::ReadSecret { name: WORKER_SECRET.to_owned() },
        ),
        (FetchState::ReadingHeader { endpoint }, Event::Failed) => (
            FetchState::ReadingSecret { endpoint, header: None },
            Action::ReadSecret { name: WORKER_SECRET.to_owned() },
        ),
        (FetchState::ReadingSecret { endpoint, header }, Event::Text { text }) => guard(
            endpoint,
            header,
            text,
        ),
        (FetchState::ReadingSecret { endpoint, header }, Event::Failed) => guard(
            endpoint,
            header,
            None,
        ),
        (FetchState::BindingDatabase, Event::Done) => (
            FetchState::ReadingSymbol,
            Action::ReadParam { name: "symbol".to_owned() },
        ),
        (FetchState::ReadingSymbol, Event::Text { text }) => match text {
            Some(symbol) => {
                let mut parameters: Vec<SqlValue> = Vec::new();
                let ghost symbol_view = symbol@;
                parameters.push(SqlValue::Text(symbol));
                assert(parameters.deep_view() =~= seq![SqlValueView::Text(symbol_view)]);
                (
                    FetchState::PreparingHistory,
                    Action::Prepare { statement: HISTORY_QUERY.to_owned(), parameters },
                )
            },
            None => refuse("Bad request parameters", 400),
        },
        (FetchState::PreparingHistory, Event::Done) => (
            FetchState::FetchingHistory,
            Action::FetchAll,
        ),
        (FetchState::FetchingHistory, Event::Rows { rows }) => (
            FetchState::Finished,
            Action::Respond {
                reply: data_reply(
                    Payload::Rows(rows),
                    "application/text",
                    "private, no-cache",
                    true,
                ),
            },
        ),
        (FetchState::ReadingBody { setting }, Event::Body { fields }) => match fields.get(
            setting.member(),
        ) {
            Some(value) => (
                FetchState::BindingStoreToWrite { setting, value },
                Action::OpenStore { binding: STORE.to_owned() },
            ),
            None => refuse(setting.missing(), 400),
        },
        (FetchState::BindingStoreToWrite { setting, value }, Event::Done) => write(setting, value),
        (FetchState::Saving { message }, Event::Done) => (
            FetchState::Finished,
            Action::Respond { reply: ok_reply(message) },
        ),
        (FetchState::BindingStoreToRead { setting }, Event::Done) => (
            FetchState::Loading,
            Action::Load { key: setting.key().to_owned() },
        ),
        (FetchState::Loading, Event::Text { text }) => {
            let stored: String = match text {
                Some(stored) => stored,
                None => String::new(),
            };
            (
                FetchState::Finished,
                Action::Respond {
                    reply: data_reply(
                        Payload::Bytes(stored.as_str().as_bytes_vec()),
                        "application/text",
                        "private, no-cache",
                        true,
                    ),
                },
            )
        },
        (FetchState::LoadingObject, Event::Object { bytes }) => match bytes {
            Some(bytes) => (
                FetchState::Finished,
                Action::Respond {
                    reply: data_reply(
                        Payload::Bytes(bytes),
                        "application/text",
                        "public, max-age=3600",
                        true,
                    ),
                },
            ),
            None => refuse("Object not found", 404),
        },
        _ => (FetchState::Finished, Action::Abort),
    }
}

} // verus!

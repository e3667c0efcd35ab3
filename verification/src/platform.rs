//! What the worker asks of the platform that hosts it, and what the platform answers.
//!
//! Each job of the worker is a state machine. It emits an [`Action`]; whoever runs the machine
//! performs it and hands the outcome back as an [`Event`]. The `..View` types are the
//! mathematical counterparts that the contracts speak of.
use vstd::prelude::*;

use crate::fields::Fields;

verus! {

/// The HTTP methods that the worker tells apart.
#[derive(Debug, Clone, Copy, PartialEq, Eq, Structural)]
pub enum Method {
    Get,
    Put,
    Post,
    Options,
    Other,
}

/// What a request asks for, once its method and path have been matched.
#[derive(Debug, Clone, Copy, PartialEq, Eq, Structural)]
pub enum Endpoint {
    History,
    PutSymbols,
    GetSymbols,
    PutCollecting,
    GetCollecting,
    AllSymbols,
    Unknown,
}

/// A price or a percentage: the IEEE 754 bits of a double, which only the host computes with.
#[derive(Debug, Clone, Copy, PartialEq, Eq, Structural)]
pub struct Price {
    pub bits: u64,
}

/// The bits of the price zero.
pub const ZERO_BITS: u64 = 0;

/// The bits of the price zero with a minus sign.
pub const NEGATIVE_ZERO_BITS: u64 = 0x8000_0000_0000_0000;

/// A value bound to a placeholder of an SQL statement.
#[derive(Debug, PartialEq, Eq)]
pub enum SqlValue {
    Text(String),
    Price(Price),
    Null,
}

/// What [`SqlValue`] stands for.
pub enum SqlValueView {
    Text(Seq<char>),
    Price(Price),
    Null,
}

impl DeepView for SqlValue {
    type V = SqlValueView;

    open spec fn deep_view(&self) -> SqlValueView {
        match self {
            SqlValue::Text(text) => SqlValueView::Text(text@),
            SqlValue::Price(price) => SqlValueView::Price(*price),
            SqlValue::Null => SqlValueView::Null,
        }
    }
}

/// A value of a database column, as far as the worker reads it: a whole number, an object with
/// its text members, or anything else.
#[derive(Debug, PartialEq, Eq)]
pub enum Json {
    Unsigned(u64),
    Object(Fields),
    Other,
}

/// What [`Json`] stands for.
pub enum JsonView {
    Unsigned(u64),
    Object(Map<Seq<char>, Seq<char>>),
    Other,
}

impl DeepView for Json {
    type V = JsonView;

    open spec fn deep_view(&self) -> JsonView {
        match self {
            Json::Unsigned(number) => JsonView::Unsigned(*number),
            Json::Object(fields) => JsonView::Object(fields@),
            Json::Other => JsonView::Other,
        }
    }
}

impl JsonView {
    /// The whole number that the value is.
    pub open spec fn number(self) -> Option<u64> {
        match self {
            JsonView::Unsigned(number) => Some(number),
            _ => None,
        }
    }

    /// The text of a member; empty where the value has no such member.
    pub open spec fn member_or_empty(self, name: Seq<char>) -> Seq<char> {
        match self {
            JsonView::Object(fields) => if fields.dom().contains(name) {
                fields[name]
            } else {
                Seq::empty()
            },
            _ => Seq::empty(),
        }
    }
}

impl Json {
    /// The value as a whole number.
    pub fn as_u64(&self) -> (number: Option<u64>)
        ensures
            number == self.deep_view().number(),
    {
        match self {
            Json::Unsigned(number) => Some(*number),
            _ => None,
        }
    }

    /// The text of a member; empty where the value has no such member.
    pub fn member_or_empty(&self, name: &str) -> (text: String)
        ensures
            text@ == self.deep_view().member_or_empty(name@),
    {
        match self {
            Json::Object(fields) => match fields.get(name) {
                Some(text) => text,
                None => String::new(),
            },
            _ => String::new(),
        }
    }
}

/// One stored quote of a symbol, as clients with the shared secret get it: an object with one
/// member under the name of each field.
#[derive(Debug, PartialEq, Eq)]
pub struct PreProcessedRow {
    pub symbol: String,
    pub price: Option<Price>,
    pub diff: Option<Price>,
    pub scraped_at: String,
}

/// What [`PreProcessedRow`] stands for.
pub struct PreProcessedRowView {
    pub symbol: Seq<char>,
    pub price: Option<Price>,
    pub diff: Option<Price>,
    pub scraped_at: Seq<char>,
}

impl DeepView for PreProcessedRow {
    type V = PreProcessedRowView;

    open spec fn deep_view(&self) -> PreProcessedRowView {
        PreProcessedRowView {
            symbol: self.symbol@,
            price: self.price,
            diff: self.diff,
            scraped_at: self.scraped_at@,
        }
    }
}

/// One stored quote of a symbol, as clients that have logged in get it: an object with one member
/// under the name of each field, so that the price stands under `last_price`.
#[derive(Debug, PartialEq, Eq)]
pub struct HistoryRow {
    pub symbol: String,
    pub last_price: Option<Price>,
    pub diff: Option<Price>,
    pub scraped_at: String,
}

/// What [`HistoryRow`] stands for.
pub struct HistoryRowView {
    pub symbol: Seq<char>,
    pub last_price: Option<Price>,
    pub diff: Option<Price>,
    pub scraped_at: Seq<char>,
}

impl DeepView for HistoryRow {
    type V = HistoryRowView;

    open spec fn deep_view(&self) -> HistoryRowView {
        HistoryRowView {
            symbol: self.symbol@,
            last_price: self.last_price,
            diff: self.diff,
            scraped_at: self.scraped_at@,
        }
    }
}

/// The quote of one symbol, as the market data service reports it.
#[derive(Debug, PartialEq, Eq)]
pub struct SchwabSymbolData {
    pub symbol: String,
    pub last_price: Option<Price>,
}

/// What [`SchwabSymbolData`] stands for.
pub struct SchwabSymbolDataView {
    pub symbol: Seq<char>,
    pub last_price: Option<Price>,
}

impl DeepView for SchwabSymbolData {
    type V = SchwabSymbolDataView;

    open spec fn deep_view(&self) -> SchwabSymbolDataView {
        SchwabSymbolDataView { symbol: self.symbol@, last_price: self.last_price }
    }
}

/// The pair of tokens that the market data service hands out.
#[derive(Debug, PartialEq, Eq)]
pub struct SchwabTokenResponse {
    pub access_token: String,
    pub refresh_token: String,
}

/// What somebody who logs in sends.
#[derive(Debug, PartialEq, Eq)]
pub struct LoginPayload {
    pub email: String,
    pub password_plain: String,
}

/// What somebody who has logged in gets.
#[derive(Debug, PartialEq, Eq)]
pub struct AuthResponse {
    pub token: String,
    pub message: String,
}

/// The body of a reply.
#[derive(Debug, PartialEq, Eq)]
pub enum Payload {
    Empty,
    Message(String),
    Bytes(Vec<u8>),
    Rows(Vec<PreProcessedRow>),
    History(Vec<HistoryRow>),
    Auth(AuthResponse),
}

/// What [`Payload`] stands for.
pub enum PayloadView {
    Empty,
    Message(Seq<char>),
    Bytes(Seq<u8>),
    Rows(Seq<PreProcessedRowView>),
    History(Seq<HistoryRowView>),
    Auth { token: Seq<char>, message: Seq<char> },
}

impl View for Payload {
    type V = PayloadView;

    open spec fn view(&self) -> PayloadView {
        match self {
            Payload::Empty => PayloadView::Empty,
            Payload::Message(text) => PayloadView::Message(text@),
            Payload::Bytes(bytes) => PayloadView::Bytes(bytes@),
            Payload::Rows(rows) => PayloadView::Rows(rows.deep_view()),
            Payload::History(rows) => PayloadView::History(rows.deep_view()),
            Payload::Auth(auth) => PayloadView::Auth { token: auth.token@, message: auth.message@ },
        }
    }
}

/// A reply to a request. `headers` are those that replace the ones the host would pick for the
/// payload; with none given the host's own stay. `cors` says whether the cross-origin policy is
/// written onto the reply.
#[derive(Debug, PartialEq, Eq)]
pub struct Reply {
    pub status: u16,
    pub payload: Payload,
    pub headers: Vec<(String, String)>,
    pub cors: bool,
}

/// What [`Reply`] stands for.
pub struct ReplyView {
    pub status: u16,
    pub payload: PayloadView,
    pub headers: Seq<(Seq<char>, Seq<char>)>,
    pub cors: bool,
}

impl View for Reply {
    type V = ReplyView;

    open spec fn view(&self) -> ReplyView {
        ReplyView {
            status: self.status,
            payload: self.payload@,
            headers: self.headers.deep_view(),
            cors: self.cors,
        }
    }
}

/// A request that the worker sends to another service.
#[derive(Debug, PartialEq, Eq)]
pub struct HttpRequest {
    pub method: Method,
    pub url: String,
    pub headers: Vec<(String, String)>,
    pub body: Option<String>,
}

/// What [`HttpRequest`] stands for.
pub struct HttpRequestView {
    pub method: Method,
    pub url: Seq<char>,
    pub headers: Seq<(Seq<char>, Seq<char>)>,
    pub body: Option<Seq<char>>,
}

impl View for HttpRequest {
    type V = HttpRequestView;

    open spec fn view(&self) -> HttpRequestView {
        HttpRequestView {
            method: self.method,
            url: self.url@,
            headers: self.headers.deep_view(),
            body: self.body.deep_view(),
        }
    }
}

/// What the check of a request came to in the end.
#[derive(Debug, PartialEq, Eq)]
pub enum Finding {
    /// The database cannot be bound.
    NoDatabase,
    /// The query for the user cannot be prepared.
    NotPrepared { user_id: String },
    /// The query has failed.
    QueryFailed,
    /// The query has no row.
    NoRow,
    /// The query has counted the users.
    Counted { number: u64 },
    /// The query has given something else than a number for the user.
    NoCount { user_id: String },
    /// The host has answered what was not asked.
    Unexpected,
}

/// What [`Finding`] stands for.
pub enum FindingView {
    NoDatabase,
    NotPrepared { user_id: Seq<char> },
    QueryFailed,
    NoRow,
    Counted { number: u64 },
    NoCount { user_id: Seq<char> },
    Unexpected,
}

impl View for Finding {
    type V = FindingView;

    open spec fn view(&self) -> FindingView {
        match self {
            Finding::NoDatabase => FindingView::NoDatabase,
            Finding::NotPrepared { user_id } => FindingView::NotPrepared { user_id: user_id@ },
            Finding::QueryFailed => FindingView::QueryFailed,
            Finding::NoRow => FindingView::NoRow,
            Finding::Counted { number } => FindingView::Counted { number: *number },
            Finding::NoCount { user_id } => FindingView::NoCount { user_id: user_id@ },
            Finding::Unexpected => FindingView::Unexpected,
        }
    }
}

impl FindingView {
    /// Whether the request may go on: where a user was counted, and also where the query failed.
    pub open spec fn allows(self) -> bool {
        match self {
            FindingView::Counted { number } => number > 0,
            FindingView::QueryFailed => true,
            _ => false,
        }
    }
}

impl Finding {
    /// Whether the request may go on.
    pub fn allows(&self) -> (allowed: bool)
        ensures
            allowed == self@.allows(),
    {
        match self {
            Finding::Counted { number } => *number > 0,
            Finding::QueryFailed => true,
            _ => false,
        }
    }
}

/// What a machine asks its host to do next.
///
/// The last seven end a machine: a reply, a verdict, a line for the log (two kinds), an error with
/// a message of the worker's own, the error that the host met last, or nothing more to do.
#[derive(Debug, PartialEq, Eq)]
pub enum Action {
    /// Hand over a header of the request.
    ReadHeader { name: String },
    /// Hand over a parameter of the matched path.
    ReadParam { name: String },
    /// Hand over a secret.
    ReadSecret { name: String },
    /// Hand over a variable of the environment.
    ReadVar { name: String },
    /// Parse the body of the request as a JSON object of texts.
    ReadBody,
    /// Parse the body of the request as a login.
    ReadCredentials,
    /// Hand over the time.
    ReadClock,
    /// Bind the object storage.
    OpenBucket { binding: String },
    /// Bind the key-value store.
    OpenStore { binding: String },
    /// Bind the database.
    OpenDatabase { binding: String },
    /// Match method and path of the request.
    Dispatch,
    /// Read a key of the store.
    Load { key: String },
    /// Write a key of the store.
    Save { key: String, value: String },
    /// Read an object of the object storage.
    LoadObject { key: String },
    /// Prepare a statement and bind its parameters.
    Prepare { statement: String, parameters: Vec<SqlValue> },
    /// Run the prepared statement and hand over all its rows, read as [`PreProcessedRow`].
    FetchAll,
    /// Run the prepared statement and hand over all its rows, read as [`HistoryRow`].
    FetchHistory,
    /// Run the prepared statement and hand over one column of its first row.
    FetchFirst { column: String },
    /// Run the prepared statement.
    Execute,
    /// Send a request to another service.
    Send { request: HttpRequest },
    /// Parse the body of the other service's answer as a pair of tokens.
    ReadTokens,
    /// Parse the body of the other service's answer as quotes.
    ReadQuotes,
    /// Read a price from its decimal text.
    ParsePrice { text: String },
    /// Compute `(last - current) / last * 100`.
    ComputeDiff { last: Price, current: Price },
    /// Write a price as decimal text.
    FormatPrice { price: Price },
    /// Answer the request.
    Respond { reply: Reply },
    /// Say whether the request may go on, and what was found.
    Decide { allowed: bool, finding: Finding },
    /// Write to the log.
    Report { message: String },
    /// Write to the log that a job has failed: with the worker's own error, or, where `cause` is
    /// `None`, with the error that the host met last.
    ReportFailure { message: String, cause: Option<String> },
    /// End with an error that carries the message.
    Fail { message: String },
    /// End with the error that the host met last.
    Abort,
    /// End; all is done.
    Stop,
}

/// What [`Action`] stands for.
pub enum ActionView {
    ReadHeader { name: Seq<char> },
    ReadParam { name: Seq<char> },
    ReadSecret { name: Seq<char> },
    ReadVar { name: Seq<char> },
    ReadBody,
    ReadCredentials,
    ReadClock,
    OpenBucket { binding: Seq<char> },
    OpenStore { binding: Seq<char> },
    OpenDatabase { binding: Seq<char> },
    Dispatch,
    Load { key: Seq<char> },
    Save { key: Seq<char>, value: Seq<char> },
    LoadObject { key: Seq<char> },
    Prepare { statement: Seq<char>, parameters: Seq<SqlValueView> },
    FetchAll,
    FetchHistory,
    FetchFirst { column: Seq<char> },
    Execute,
    Send { request: HttpRequestView },
    ReadTokens,
    ReadQuotes,
    ParsePrice { text: Seq<char> },
    ComputeDiff { last: Price, current: Price },
    FormatPrice { price: Price },
    Respond { reply: ReplyView },
    Decide { allowed: bool, finding: FindingView },
    Report { message: Seq<char> },
    ReportFailure { message: Seq<char>, cause: Option<Seq<char>> },
    Fail { message: Seq<char> },
    Abort,
    Stop,
}

impl View for Action {
    type V = ActionView;

    open spec fn view(&self) -> ActionView {
        match self {
            Action::ReadHeader { name } => ActionView::ReadHeader { name: name@ },
            Action::ReadParam { name } => ActionView::ReadParam { name: name@ },
            Action::ReadSecret { name } => ActionView::ReadSecret { name: name@ },
            Action::ReadVar { name } => ActionView::ReadVar { name: name@ },
            Action::ReadBody => ActionView::ReadBody,
            Action::ReadCredentials => ActionView::ReadCredentials,
            Action::ReadClock => ActionView::ReadClock,
            Action::OpenBucket { binding } => ActionView::OpenBucket { binding: binding@ },
            Action::OpenStore { binding } => ActionView::OpenStore { binding: binding@ },
            Action::OpenDatabase { binding } => ActionView::OpenDatabase { binding: binding@ },
            Action::Dispatch => ActionView::Dispatch,
            Action::Load { key } => ActionView::Load { key: key@ },
            Action::Save { key, value } => ActionView::Save { key: key@, value: value@ },
            Action::LoadObject { key } => ActionView::LoadObject { key: key@ },
            Action::Prepare { statement, parameters } => ActionView::Prepare {
                statement: statement@,
                parameters: parameters.deep_view(),
            },
            Action::FetchAll => ActionView::FetchAll,
            Action::FetchHistory => ActionView::FetchHistory,
            Action::FetchFirst { column } => ActionView::FetchFirst { column: column@ },
            Action::Execute => ActionView::Execute,
            Action::Send { request } => ActionView::Send { request: request@ },
            Action::ReadTokens => ActionView::ReadTokens,
            Action::ReadQuotes => ActionView::ReadQuotes,
            Action::ParsePrice { text } => ActionView::ParsePrice { text: text@ },
            Action::ComputeDiff { last, current } => ActionView::ComputeDiff {
                last: *last,
                current: *current,
            },
            Action::FormatPrice { price } => ActionView::FormatPrice { price: *price },
            Action::Respond { reply } => ActionView::Respond { reply: reply@ },
            Action::Decide { allowed, finding } => ActionView::Decide {
                allowed: *allowed,
                finding: finding@,
            },
            Action::Report { message } => ActionView::Report { message: message@ },
            Action::ReportFailure { message, cause } => ActionView::ReportFailure {
                message: message@,
                cause: cause.deep_view(),
            },
            Action::Fail { message } => ActionView::Fail { message: message@ },
            Action::Abort => ActionView::Abort,
            Action::Stop => ActionView::Stop,
        }
    }
}

impl ActionView {
    /// Whether the action ends a machine.
    pub open spec fn is_final(self) -> bool {
        match self {
            ActionView::Respond { .. } => true,
            ActionView::Decide { .. } => true,
            ActionView::Report { .. } => true,
            ActionView::ReportFailure { .. } => true,
            ActionView::Fail { .. } => true,
            ActionView::Abort => true,
            ActionView::Stop => true,
            _ => false,
        }
    }

    /// Whether the action reads or writes what the worker keeps: store, database or objects.
    pub open spec fn touches_storage(self) -> bool {
        match self {
            ActionView::OpenStore { .. } => true,
            ActionView::OpenDatabase { .. } => true,
            ActionView::Load { .. } => true,
            ActionView::Save { .. } => true,
            ActionView::LoadObject { .. } => true,
            ActionView::Prepare { .. } => true,
            ActionView::FetchAll => true,
            ActionView::FetchHistory => true,
            ActionView::FetchFirst { .. } => true,
            ActionView::Execute => true,
            _ => false,
        }
    }
}

/// What the host answers.
#[derive(Debug, PartialEq, Eq)]
pub enum Event {
    /// The machine may start.
    Begin,
    /// A request has arrived.
    Received { method: Method },
    /// The request has been matched.
    Routed { endpoint: Endpoint },
    /// A schedule has fired.
    Triggered { cron: String },
    /// The action has been performed.
    Done,
    /// The action has failed.
    Failed,
    /// The text that was asked for, where there is one.
    Text { text: Option<String> },
    /// The members of the request's body.
    Body { fields: Fields },
    /// The login in the request's body.
    Credentials { payload: LoginPayload },
    /// The time, in milliseconds since the epoch.
    Clock { millis: u64 },
    /// The content of the object, where there is one with content.
    Object { bytes: Option<Vec<u8>> },
    /// The rows of the query.
    Rows { rows: Vec<PreProcessedRow> },
    /// The rows of the query, for clients that have logged in.
    History { history: Vec<HistoryRow> },
    /// The column of the first row, where there is a row.
    Value { value: Option<Json> },
    /// The status with which the other service answered.
    Status { code: u16 },
    /// The tokens in the other service's answer.
    Tokens { tokens: SchwabTokenResponse },
    /// The quotes in the other service's answer.
    Quotes { quotes: Vec<SchwabSymbolData> },
    /// The price that was asked for, where there is one.
    Price { price: Option<Price> },
}

/// What [`Event`] stands for.
pub enum EventView {
    Begin,
    Received { method: Method },
    Routed { endpoint: Endpoint },
    Triggered { cron: Seq<char> },
    Done,
    Failed,
    Text { text: Option<Seq<char>> },
    Body { fields: Map<Seq<char>, Seq<char>> },
    Credentials { email: Seq<char>, password_plain: Seq<char> },
    Clock { millis: u64 },
    Object { bytes: Option<Seq<u8>> },
    Rows { rows: Seq<PreProcessedRowView> },
    History { history: Seq<HistoryRowView> },
    Value { value: Option<JsonView> },
    Status { code: u16 },
    Tokens { access_token: Seq<char>, refresh_token: Seq<char> },
    Quotes { quotes: Seq<SchwabSymbolDataView> },
    Price { price: Option<Price> },
}

impl EventView {
    /// The text that the host handed over, where it was asked for one; a failure hands over none.
    pub open spec fn handed_over(self) -> Option<Option<Seq<char>>> {
        match self {
            EventView::Text { text } => Some(text),
            EventView::Failed => Some(None),
            _ => None,
        }
    }
}

impl View for Event {
    type V = EventView;

    open spec fn view(&self) -> EventView {
        match self {
            Event::Begin => EventView::Begin,
            Event::Received { method } => EventView::Received { method: *method },
            Event::Routed { endpoint } => EventView::Routed { endpoint: *endpoint },
            Event::Triggered { cron } => EventView::Triggered { cron: cron@ },
            Event::Done => EventView::Done,
            Event::Failed => EventView::Failed,
            Event::Text { text } => EventView::Text { text: text.deep_view() },
            Event::Body { fields } => EventView::Body { fields: fields@ },
            Event::Credentials { payload } => EventView::Credentials {
                email: payload.email@,
                password_plain: payload.password_plain@,
            },
            Event::Clock { millis } => EventView::Clock { millis: *millis },
            Event::Object { bytes } => EventView::Object {
                bytes: match bytes {
                    Some(bytes) => Some(bytes@),
                    None => None,
                },
            },
            Event::Rows { rows } => EventView::Rows { rows: rows.deep_view() },
            Event::History { history } => EventView::History { history: history.deep_view() },
            Event::Value { value } => EventView::Value { value: value.deep_view() },
            Event::Status { code } => EventView::Status { code: *code },
            Event::Tokens { tokens } => EventView::Tokens {
                access_token: tokens.access_token@,
                refresh_token: tokens.refresh_token@,
            },
            Event::Quotes { quotes } => EventView::Quotes { quotes: quotes.deep_view() },
            Event::Price { price } => EventView::Price { price: *price },
        }
    }
}

} // verus!

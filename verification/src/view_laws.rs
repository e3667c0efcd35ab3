//! The views lose nothing: what a contract says of the view of a value, it says of the whole value.
use vstd::prelude::*;

use crate::platform::{
    Action, ActionView, Event, EventView, Finding, FindingView, HistoryRow, HttpRequest, Json,
    JsonView, Payload, PayloadView, PreProcessedRow, Reply, SchwabSymbolData, SqlValue,
    SqlValueView,
};
use crate::routing::Route;
use crate::token::Claims;

verus! {

/// The views of rows, quotes and claims tell every field.
pub proof fn law_record_views_lose_nothing(
    row: PreProcessedRow,
    long_row: HistoryRow,
    quote: SchwabSymbolData,
    claims: Claims,
    route: Route,
)
    ensures
        row.deep_view().symbol == row.symbol@,
        row.deep_view().price == row.price,
        row.deep_view().diff == row.diff,
        row.deep_view().scraped_at == row.scraped_at@,
        long_row.deep_view().symbol == long_row.symbol@,
        long_row.deep_view().last_price == long_row.last_price,
        long_row.deep_view().diff == long_row.diff,
        long_row.deep_view().scraped_at == long_row.scraped_at@,
        quote.deep_view().symbol == quote.symbol@,
        quote.deep_view().last_price == quote.last_price,
        claims@.sub == claims.sub@,
        claims@.exp == claims.exp,
        claims@.iat == claims.iat,
        route.deep_view().method == route.method,
        route.deep_view().pattern == route.pattern@,
        route.deep_view().endpoint == route.endpoint,
{
}

/// The views of parameters and of database values tell which value it is.
pub proof fn law_value_views_lose_nothing(value: SqlValue, json: Json)
    ensures
        value matches SqlValue::Text(text) ==> value.deep_view() == SqlValueView::Text(text@),
        value matches SqlValue::Price(price) ==> value.deep_view() == SqlValueView::Price(price),
        value matches SqlValue::Null ==> value.deep_view() == SqlValueView::Null,
        json matches Json::Unsigned(number) ==> json.deep_view() == JsonView::Unsigned(number),
        json matches Json::Object(fields) ==> json.deep_view() == JsonView::Object(fields@),
        json matches Json::Other ==> json.deep_view() == JsonView::Other,
{
}

/// The number and the members of a database value are its own.
pub proof fn law_members_are_the_values_own(
    number: u64,
    fields: Map<Seq<char>, Seq<char>>,
    name: Seq<char>,
)
    ensures
        JsonView::Unsigned(number).number() == Some(number),
        JsonView::Object(fields).number() is None,
        JsonView::Other.number() is None,
        fields.dom().contains(name) ==> JsonView::Object(fields).member_or_empty(name)
            == fields[name],
        !fields.dom().contains(name) ==> JsonView::Object(fields).member_or_empty(name).len() == 0,
        JsonView::Unsigned(number).member_or_empty(name).len() == 0,
        JsonView::Other.member_or_empty(name).len() == 0,
{
}

/// The view of a reply tells its status, every header, every byte or row of its payload, and
/// whether the policy is written onto it.
pub proof fn law_reply_views_lose_nothing(reply: Reply)
    ensures
        reply@.status == reply.status,
        reply@.cors == reply.cors,
        reply@.headers.len() == reply.headers@.len(),
        forall|i: int|
            #![trigger reply.headers@[i]]
            0 <= i < reply.headers@.len() ==> reply@.headers[i] == (
                reply.headers@[i].0@,
                reply.headers@[i].1@,
            ),
        reply.payload matches Payload::Empty ==> reply@.payload == PayloadView::Empty,
        reply.payload matches Payload::Message(text) ==> reply@.payload == PayloadView::Message(
            text@,
        ),
        reply.payload matches Payload::Bytes(bytes) ==> reply@.payload == PayloadView::Bytes(
            bytes@,
        ),
        reply.payload matches Payload::Rows(rows) ==> (reply@.payload matches PayloadView::Rows(
            seen,
        ) && seen.len() == rows@.len() && forall|i: int|
            #![trigger rows@[i]]
            0 <= i < rows@.len() ==> seen[i] == rows@[i].deep_view()),
        reply.payload matches Payload::History(rows) ==> (
        reply@.payload matches PayloadView::History(seen) && seen.len() == rows@.len() && forall|
            i: int,
        |
            #![trigger rows@[i]]
            0 <= i < rows@.len() ==> seen[i] == rows@[i].deep_view()),
        reply.payload matches Payload::Auth(auth) ==> (reply@.payload matches PayloadView::Auth {
            token,
            message,
        } && token == auth.token@ && message == auth.message@),
{
}

/// The view of a request to another service tells method, address, every header and the body.
pub proof fn law_request_views_lose_nothing(request: HttpRequest)
    ensures
        request@.method == request.method,
        request@.url == request.url@,
        request@.headers.len() == request.headers@.len(),
        forall|i: int|
            #![trigger request.headers@[i]]
            0 <= i < request.headers@.len() ==> request@.headers[i] == (
                request.headers@[i].0@,
                request.headers@[i].1@,
            ),
        request.body matches Some(body) ==> request@.body == Some(body@),
        request.body is None ==> request@.body is None,
{
}

/// The view of what a check came to tells which finding it is, with its user or number.
pub proof fn law_finding_views_lose_nothing(finding: Finding)
    ensures
        match finding {
            Finding::NoDatabase => finding@ == FindingView::NoDatabase,
            Finding::NotPrepared { user_id } => finding@ == (FindingView::NotPrepared {
                user_id: user_id@,
            }),
            Finding::QueryFailed => finding@ == FindingView::QueryFailed,
            Finding::NoRow => finding@ == FindingView::NoRow,
            Finding::Counted { number } => finding@ == (FindingView::Counted { number }),
            Finding::NoCount { user_id } => finding@ == (FindingView::NoCount {
                user_id: user_id@,
            }),
            Finding::Unexpected => finding@ == FindingView::Unexpected,
        },
        finding@.allows() <==> ((finding matches Finding::Counted { number } && number > 0)
            || finding is QueryFailed),
{
}

/// The view of an action tells which action it is and everything that the host is handed with it.
pub proof fn law_action_views_lose_nothing(action: Action)
    ensures
        match action {
            Action::ReadHeader { name } => action@ == (ActionView::ReadHeader { name: name@ }),
            Action::ReadParam { name } => action@ == (ActionView::ReadParam { name: name@ }),
            Action::ReadSecret { name } => action@ == (ActionView::ReadSecret { name: name@ }),
            Action::ReadVar { name } => action@ == (ActionView::ReadVar { name: name@ }),
            Action::OpenBucket { binding } => action@ == (ActionView::OpenBucket {
                binding: binding@,
            }),
            Action::OpenStore { binding } => action@ == (ActionView::OpenStore {
                binding: binding@,
            }),
            Action::OpenDatabase { binding } => action@ == (ActionView::OpenDatabase {
                binding: binding@,
            }),
            Action::Load { key } => action@ == (ActionView::Load { key: key@ }),
            Action::Save { key, value } => action@ == (ActionView::Save {
                key: key@,
                value: value@,
            }),
            Action::LoadObject { key } => action@ == (ActionView::LoadObject { key: key@ }),
            Action::Prepare { statement, parameters } => action@ matches ActionView::Prepare {
                statement: seen,
                parameters: bound,
            } && seen == statement@ && bound.len() == parameters@.len() && forall|i: int|
                #![trigger parameters@[i]]
                0 <= i < parameters@.len() ==> bound[i] == parameters@[i].deep_view(),
            Action::FetchFirst { column } => action@ == (ActionView::FetchFirst {
                column: column@,
            }),
            Action::Send { request } => action@ == (ActionView::Send { request: request@ }),
            Action::ParsePrice { text } => action@ == (ActionView::ParsePrice { text: text@ }),
            Action::ComputeDiff { last, current } => action@ == (ActionView::ComputeDiff {
                last,
                current,
            }),
            Action::FormatPrice { price } => action@ == (ActionView::FormatPrice { price }),
            Action::Respond { reply } => action@ == (ActionView::Respond { reply: reply@ }),
            Action::Decide { allowed, finding } => action@ == (ActionView::Decide {
                allowed,
                finding: finding@,
            }),
            Action::Report { message } => action@ == (ActionView::Report { message: message@ }),
            Action::ReportFailure { message, cause: Some(cause) } => action@ == (
            ActionView::ReportFailure { message: message@, cause: Some(cause@) }),
            Action::ReportFailure { message, cause: None } => action@ == (
            ActionView::ReportFailure { message: message@, cause: None }),
            Action::Fail { message } => action@ == (ActionView::Fail { message: message@ }),
            Action::ReadBody => action@ is ReadBody,
            Action::ReadCredentials => action@ is ReadCredentials,
            Action::ReadClock => action@ is ReadClock,
            Action::Dispatch => action@ is Dispatch,
            Action::FetchAll => action@ is FetchAll,
            Action::FetchHistory => action@ is FetchHistory,
            Action::Execute => action@ is Execute,
            Action::ReadTokens => action@ is ReadTokens,
            Action::ReadQuotes => action@ is ReadQuotes,
            Action::Abort => action@ is Abort,
            Action::Stop => action@ is Stop,
        },
{
}

/// The view of an event tells which event it is and everything that the host hands over with it.
pub proof fn law_event_views_lose_nothing(event: Event)
    ensures
        match event {
            Event::Begin => event@ is Begin,
            Event::Done => event@ is Done,
            Event::Failed => event@ is Failed,
            Event::Received { method } => event@ == (EventView::Received { method }),
            Event::Routed { endpoint } => event@ == (EventView::Routed { endpoint }),
            Event::Triggered { cron } => event@ == (EventView::Triggered { cron: cron@ }),
            Event::Text { text: Some(text) } => event@ == (EventView::Text { text: Some(text@) }),
            Event::Text { text: None } => event@ == (EventView::Text { text: None }),
            Event::Body { fields } => event@ == (EventView::Body { fields: fields@ }),
            Event::Credentials { payload } => event@ == (EventView::Credentials {
                email: payload.email@,
                password_plain: payload.password_plain@,
            }),
            Event::Clock { millis } => event@ == (EventView::Clock { millis }),
            Event::Object { bytes: Some(bytes) } => event@ == (EventView::Object {
                bytes: Some(bytes@),
            }),
            Event::Object { bytes: None } => event@ == (EventView::Object { bytes: None }),
            Event::Rows { rows } => event@ matches EventView::Rows { rows: seen } && seen.len()
                == rows@.len() && forall|i: int|
                #![trigger rows@[i]]
                0 <= i < rows@.len() ==> seen[i] == rows@[i].deep_view(),
            Event::History { history } => event@ matches EventView::History { history: seen }
                && seen.len() == history@.len() && forall|i: int|
                #![trigger history@[i]]
                0 <= i < history@.len() ==> seen[i] == history@[i].deep_view(),
            Event::Value { value: Some(value) } => event@ == (EventView::Value {
                value: Some(value.deep_view()),
            }),
            Event::Value { value: None } => event@ == (EventView::Value { value: None }),
            Event::Status { code } => event@ == (EventView::Status { code }),
            Event::Tokens { tokens } => event@ == (EventView::Tokens {
                access_token: tokens.access_token@,
                refresh_token: tokens.refresh_token@,
            }),
            Event::Quotes { quotes } => event@ matches EventView::Quotes { quotes: seen }
                && seen.len() == quotes@.len() && forall|i: int|
                #![trigger quotes@[i]]
                0 <= i < quotes@.len() ==> seen[i] == quotes@[i].deep_view(),
            Event::Price { price } => event@ == (EventView::Price { price }),
        },
{
}

} // verus!

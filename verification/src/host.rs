//! A host that never fails, as a model against which whole runs are described.
use vstd::prelude::*;

use crate::platform::{
    ActionView, Endpoint, EventView, HistoryRowView, HttpRequestView, JsonView, Method, PreProcessedRowView, Price,
    SchwabSymbolDataView, SqlValueView,
};

verus! {

/// The answer of another service: a status, and the two readings of its body.
pub struct Answer {
    pub code: u16,
    pub access_token: Seq<char>,
    pub refresh_token: Seq<char>,
    pub quotes: Seq<SchwabSymbolDataView>,
}

/// A host: what it holds that no run changes, and how it computes.
pub struct Host {
    pub secrets: Map<Seq<char>, Seq<char>>,
    pub vars: Map<Seq<char>, Seq<char>>,
    pub objects: Map<Seq<char>, Seq<u8>>,
    pub millis: u64,
    pub rows: spec_fn(Seq<char>, Seq<SqlValueView>) -> Seq<PreProcessedRowView>,
    pub history: spec_fn(Seq<char>, Seq<SqlValueView>) -> Seq<HistoryRowView>,
    pub first: spec_fn(Seq<char>, Seq<SqlValueView>, Seq<char>) -> Option<JsonView>,
    pub service: spec_fn(HttpRequestView) -> Answer,
    pub parse: spec_fn(Seq<char>) -> Option<Price>,
    pub diff: spec_fn(Price, Price) -> Price,
    pub format: spec_fn(Price) -> Seq<char>,
}

/// A request as the host sees it.
pub struct Request {
    pub method: Method,
    pub endpoint: Endpoint,
    pub headers: Map<Seq<char>, Seq<char>>,
    pub params: Map<Seq<char>, Seq<char>>,
    pub fields: Map<Seq<char>, Seq<char>>,
    pub email: Seq<char>,
    pub password_plain: Seq<char>,
}

/// What runs change: the store, the statements that were executed, and, in the course of a run,
/// the statement that was prepared last and the service's last answer.
pub struct World {
    pub store: Map<Seq<char>, Seq<char>>,
    pub executed: Seq<(Seq<char>, Seq<SqlValueView>)>,
    pub prepared: (Seq<char>, Seq<SqlValueView>),
    pub answer: Answer,
}

impl World {
    /// The world with a key of the store written.
    pub open spec fn saved(self, key: Seq<char>, value: Seq<char>) -> World {
        World { store: self.store.insert(key, value), ..self }
    }

    /// The world with a statement prepared.
    pub open spec fn with_prepared(
        self,
        statement: Seq<char>,
        parameters: Seq<SqlValueView>,
    ) -> World {
        World { prepared: (statement, parameters), ..self }
    }

    /// The world after another service has answered.
    pub open spec fn with_answer(self, answer: Answer) -> World {
        World { answer, ..self }
    }

    /// The world with the prepared statement executed.
    pub open spec fn with_executed(self) -> World {
        World { executed: self.executed.push(self.prepared), ..self }
    }
}

/// What a map holds under a key.
pub open spec fn lookup<V>(map: Map<Seq<char>, V>, key: Seq<char>) -> Option<V> {
    if map.dom().contains(key) {
        Some(map[key])
    } else {
        None
    }
}

/// What the host answers to an action that does not end a run and does not ask about a request,
/// and how the world changes. A secret or a variable that is not configured cannot be read;
/// everything else succeeds.
pub open spec fn perform(host: Host, world: World, action: ActionView) -> (World, EventView) {
    match action {
        ActionView::ReadSecret { name } => (
            world,
            if host.secrets.dom().contains(name) {
                EventView::Text { text: Some(host.secrets[name]) }
            } else {
                EventView::Failed
            },
        ),
        ActionView::ReadVar { name } => (
            world,
            if host.vars.dom().contains(name) {
                EventView::Text { text: Some(host.vars[name]) }
            } else {
                EventView::Failed
            },
        ),
        ActionView::ReadClock => (world, EventView::Clock { millis: host.millis }),
        ActionView::Load { key } => (world, EventView::Text { text: lookup(world.store, key) }),
        ActionView::Save { key, value } => (world.saved(key, value), EventView::Done),
        ActionView::LoadObject { key } => (
            world,
            EventView::Object { bytes: lookup(host.objects, key) },
        ),
        ActionView::Prepare { statement, parameters } => (
            world.with_prepared(statement, parameters),
            EventView::Done,
        ),
        ActionView::FetchAll => (
            world,
            EventView::Rows { rows: (host.rows)(world.prepared.0, world.prepared.1) },
        ),
        ActionView::FetchHistory => (
            world,
            EventView::History { history: (host.history)(world.prepared.0, world.prepared.1) },
        ),
        ActionView::FetchFirst { column } => (
            world,
            EventView::Value {
                value: (host.first)(world.prepared.0, world.prepared.1, column),
            },
        ),
        ActionView::Execute => (world.with_executed(), EventView::Done),
        ActionView::Send { request } => (
            world.with_answer((host.service)(request)),
            EventView::Status { code: (host.service)(request).code },
        ),
        ActionView::ReadTokens => (
            world,
            EventView::Tokens {
                access_token: world.answer.access_token,
                refresh_token: world.answer.refresh_token,
            },
        ),
        ActionView::ReadQuotes => (world, EventView::Quotes { quotes: world.answer.quotes }),
        ActionView::ParsePrice { text } => (
            world,
            EventView::Price { price: (host.parse)(text) },
        ),
        ActionView::ComputeDiff { last, current } => (
            world,
            EventView::Price { price: Some((host.diff)(last, current)) },
        ),
        ActionView::FormatPrice { price } => (
            world,
            EventView::Text { text: Some((host.format)(price)) },
        ),
        _ => (world, EventView::Done),
    }
}

/// The same in the course of a request, which the host can also be asked about.
pub open spec fn perform_for(host: Host, request: Request, world: World, action: ActionView) -> (
    World,
    EventView,
) {
    match action {
        ActionView::ReadHeader { name } => (
            world,
            EventView::Text { text: lookup(request.headers, name) },
        ),
        ActionView::ReadParam { name } => (
            world,
            EventView::Text { text: lookup(request.params, name) },
        ),
        ActionView::ReadBody => (world, EventView::Body { fields: request.fields }),
        ActionView::ReadCredentials => (
            world,
            EventView::Credentials {
                email: request.email,
                password_plain: request.password_plain,
            },
        ),
        ActionView::Dispatch => (world, EventView::Routed { endpoint: request.endpoint }),
        _ => perform(host, world, action),
    }
}

} // verus!

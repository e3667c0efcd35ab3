//! The job that collects the quotes of the tracked symbols.
use vstd::prelude::*;
use vstd::string::*;

use crate::codec::bearer_authorization;
use crate::fetch::{DATABASE, STORE};
use crate::platform::{
    Action, ActionView, Event, EventView, HttpRequest, HttpRequestView, Method, Price,
    SchwabSymbolData, SchwabSymbolDataView, SqlValue, SqlValueView, NEGATIVE_ZERO_BITS, ZERO_BITS,
};
use crate::refresh::ACCESS_TOKEN;
use crate::text::joined;

verus! {

/// The key of the symbols to track.
pub const SYMBOLS: &'static str = "symbols";

/// What stands in front of the symbols in the address of the quotes.
pub const QUOTES_URL: &'static str = "https://api.schwabapi.com/marketdata/v1/quotes?symbols=";

/// What stands behind the symbols in the address of the quotes.
pub const QUOTES_FIELDS: &'static str = "&fields=closePrice,netPercentChange";

/// Stores a quote.
pub const INSERT_QUOTE: &'static str = "INSERT INTO stock_quotes (symbol, last_price, diff) VALUES (?1, ?2, ?3)";

/// What is said where there is no token for the market data service.
pub const NO_ACCESS_TOKEN: &'static str = "Access token missing from storage during collection cycle";

/// Where the job stands. From `LoadingPrevious` on it works on one quote, with the quotes in
/// `todo` still to come.
#[derive(Debug, PartialEq, Eq)]
pub enum ScrapeState {
    Start,
    BindingStore,
    LoadingSymbols,
    BindingDatabase { symbols: String },
    LoadingToken { symbols: String },
    Sending,
    ReadingQuotes,
    LoadingPrevious { quote: SchwabSymbolData, todo: Vec<SchwabSymbolData> },
    ParsingPrevious { quote: SchwabSymbolData, todo: Vec<SchwabSymbolData> },
    ComputingDiff { quote: SchwabSymbolData, todo: Vec<SchwabSymbolData> },
    FormattingPrice { quote: SchwabSymbolData, diff: Price, todo: Vec<SchwabSymbolData> },
    SavingPrice { quote: SchwabSymbolData, diff: Price, todo: Vec<SchwabSymbolData> },
    PreparingInsert { todo: Vec<SchwabSymbolData> },
    Inserting { todo: Vec<SchwabSymbolData> },
    Finished,
}

/// What [`ScrapeState`] stands for.
pub enum ScrapeStateView {
    Start,
    BindingStore,
    LoadingSymbols,
    BindingDatabase { symbols: Seq<char> },
    LoadingToken { symbols: Seq<char> },
    Sending,
    ReadingQuotes,
    LoadingPrevious { quote: SchwabSymbolDataView, todo: Seq<SchwabSymbolDataView> },
    ParsingPrevious { quote: SchwabSymbolDataView, todo: Seq<SchwabSymbolDataView> },
    ComputingDiff { quote: SchwabSymbolDataView, todo: Seq<SchwabSymbolDataView> },
    FormattingPrice { quote: SchwabSymbolDataView, diff: Price, todo: Seq<SchwabSymbolDataView> },
    SavingPrice { quote: SchwabSymbolDataView, diff: Price, todo: Seq<SchwabSymbolDataView> },
    PreparingInsert { todo: Seq<SchwabSymbolDataView> },
    Inserting { todo: Seq<SchwabSymbolDataView> },
    Finished,
}

impl View for ScrapeState {
    type V = ScrapeStateView;

    open spec fn view(&self) -> ScrapeStateView {
        match self {
            ScrapeState::Start => ScrapeStateView::Start,
            ScrapeState::BindingStore => ScrapeStateView::BindingStore,
            ScrapeState::LoadingSymbols => ScrapeStateView::LoadingSymbols,
            ScrapeState::BindingDatabase { symbols } => ScrapeStateView::BindingDatabase {
                symbols: symbols@,
            },
            ScrapeState::LoadingToken { symbols } => ScrapeStateView::LoadingToken {
                symbols: symbols@,
            },
            ScrapeState::Sending => ScrapeStateView::Sending,
            ScrapeState::ReadingQuotes => ScrapeStateView::ReadingQuotes,
            ScrapeState::LoadingPrevious { quote, todo } => ScrapeStateView::LoadingPrevious {
                quote: quote.deep_view(),
                todo: todo.deep_view(),
            },
            ScrapeState::ParsingPrevious { quote, todo } => ScrapeStateView::ParsingPrevious {
                quote: quote.deep_view(),
                todo: todo.deep_view(),
            },
            ScrapeState::ComputingDiff { quote, todo } => ScrapeStateView::ComputingDiff {
                quote: quote.deep_view(),
                todo: todo.deep_view(),
            },
            ScrapeState::FormattingPrice { quote, diff, todo } =>
                ScrapeStateView::FormattingPrice {
                quote: quote.deep_view(),
                diff: *diff,
                todo: todo.deep_view(),
            },
            ScrapeState::SavingPrice { quote, diff, todo } => ScrapeStateView::SavingPrice {
                quote: quote.deep_view(),
                diff: *diff,
                todo: todo.deep_view(),
            },
            ScrapeState::PreparingInsert { todo } => ScrapeStateView::PreparingInsert {
                todo: todo.deep_view(),
            },
            ScrapeState::Inserting { todo } => ScrapeStateView::Inserting {
                todo: todo.deep_view(),
            },
            ScrapeState::Finished => ScrapeStateView::Finished,
        }
    }
}

/// The key under which the store holds the last price of a symbol.
pub open spec fn price_key_view(symbol: Seq<char>) -> Seq<char> {
    "last_price_"@ + symbol
}

/// The price that a quote counts with; a quote without a price counts as zero.
pub open spec fn current_price_view(quote: SchwabSymbolDataView) -> Price {
    match quote.last_price {
        Some(price) => price,
        None => Price { bits: ZERO_BITS },
    }
}

/// The request for the quotes of some symbols.
pub open spec fn quotes_request_view(symbols: Seq<char>, access_token: Seq<char>) -> HttpRequestView {
    HttpRequestView {
        method: Method::Get,
        url: QUOTES_URL@ + symbols + QUOTES_FIELDS@,
        headers: seq![
            ("Authorization"@, crate::codec::bearer_authorization_view(access_token)),
            ("Accept"@, "application/json"@),
        ],
        body: None,
    }
}

/// A price as a parameter of a statement.
pub open spec fn price_parameter_view(price: Option<Price>) -> SqlValueView {
    match price {
        Some(price) => SqlValueView::Price(price),
        None => SqlValueView::Null,
    }
}

/// The parameters with which a quote is stored. The price is stored as it was reported: one that
/// was missing stays missing.
pub open spec fn insert_parameters_view(quote: SchwabSymbolDataView, diff: Price) -> Seq<
    SqlValueView,
> {
    seq![
        SqlValueView::Text(quote.symbol),
        price_parameter_view(quote.last_price),
        SqlValueView::Price(diff),
    ]
}

/// How the job goes on with the quotes that are still to come.
pub open spec fn next_quote_view(todo: Seq<SchwabSymbolDataView>) -> (ScrapeStateView, ActionView) {
    if todo.len() == 0 {
        (ScrapeStateView::Finished, ActionView::Stop)
    } else {
        (
            ScrapeStateView::LoadingPrevious { quote: todo[0], todo: todo.skip(1) },
            ActionView::Load { key: price_key_view(todo[0].symbol) },
        )
    }
}

/// Whether a price is zero, with either sign.
pub open spec fn is_zero(price: Price) -> bool {
    price.bits == ZERO_BITS || price.bits == NEGATIVE_ZERO_BITS
}

/// How a quote is compared with a previous price.
pub open spec fn compared(
    quote: SchwabSymbolDataView,
    last: Price,
    todo: Seq<SchwabSymbolDataView>,
) -> (ScrapeStateView, ActionView) {
    (
        ScrapeStateView::ComputingDiff { quote, todo },
        ActionView::ComputeDiff { last, current: current_price_view(quote) },
    )
}

/// How the first quote of a symbol is taken: its price counts as unchanged, so that it is compared
/// with itself. For a price of zero there is nothing to divide by, and the change is zero.
pub open spec fn taken_first(
    quote: SchwabSymbolDataView,
    todo: Seq<SchwabSymbolDataView>,
) -> (ScrapeStateView, ActionView) {
    if is_zero(current_price_view(quote)) {
        (
            ScrapeStateView::FormattingPrice { quote, diff: Price { bits: ZERO_BITS }, todo },
            ActionView::FormatPrice { price: current_price_view(quote) },
        )
    } else {
        compared(quote, current_price_view(quote), todo)
    }
}

/// One step of the job. Without symbols to track there is nothing to do; without a token it is
/// an error; an answer other than 200 leaves everything as it is.
pub open spec fn scrape_step(state: ScrapeStateView, event: EventView) -> (
    ScrapeStateView,
    ActionView,
) {
    match (state, event) {
        (ScrapeStateView::Start, EventView::Begin) => (
            ScrapeStateView::BindingStore,
            ActionView::OpenStore { binding: STORE@ },
        ),
        (ScrapeStateView::BindingStore, EventView::Done) => (
            ScrapeStateView::LoadingSymbols,
            ActionView::Load { key: SYMBOLS@ },
        ),
        (ScrapeStateView::LoadingSymbols, EventView::Text { text }) => match text {
            Some(symbols) => (
                ScrapeStateView::BindingDatabase { symbols },
                ActionView::OpenDatabase { binding: DATABASE@ },
            ),
            None => (ScrapeStateView::Finished, ActionView::Stop),
        },
        (ScrapeStateView::BindingDatabase { symbols }, EventView::Done) => (
            ScrapeStateView::LoadingToken { symbols },
            ActionView::Load { key: ACCESS_TOKEN@ },
        ),
        (ScrapeStateView::LoadingToken { symbols }, EventView::Text { text }) => match text {
            Some(token) => (
                ScrapeStateView::Sending,
                ActionView::Send { request: quotes_request_view(symbols, token) },
            ),
            None => (ScrapeStateView::Finished, ActionView::Fail { message: NO_ACCESS_TOKEN@ }),
        },
        (ScrapeStateView::Sending, EventView::Status { code }) => if code == 200 {
            (ScrapeStateView::ReadingQuotes, ActionView::ReadQuotes)
        } else {
            (ScrapeStateView::Finished, ActionView::Stop)
        },
        (ScrapeStateView::ReadingQuotes, EventView::Quotes { quotes }) => next_quote_view(quotes),
        (ScrapeStateView::LoadingPrevious { quote, todo }, EventView::Text { text }) => match text {
            Some(text) => (
                ScrapeStateView::ParsingPrevious { quote, todo },
                ActionView::ParsePrice { text },
            ),
            None => taken_first(quote, todo),
        },
        (ScrapeStateView::ParsingPrevious { quote, todo }, EventView::Price { price }) => compared(
            quote,
            match price {
                Some(last) => last,
                None => current_price_view(quote),
            },
            todo,
        ),
        (
            ScrapeStateView::ComputingDiff { quote, todo },
            EventView::Price { price: Some(diff) },
        ) => (
            ScrapeStateView::FormattingPrice { quote, diff, todo },
            ActionView::FormatPrice { price: current_price_view(quote) },
        ),
        (
            ScrapeStateView::FormattingPrice { quote, diff, todo },
            EventView::Text { text: Some(text) },
        ) => (
            ScrapeStateView::SavingPrice { quote, diff, todo },
            ActionView::Save { key: price_key_view(quote.symbol), value: text },
        ),
        (ScrapeStateView::SavingPrice { quote, diff, todo }, EventView::Done) => (
            ScrapeStateView::PreparingInsert { todo },
            ActionView::Prepare {
                statement: INSERT_QUOTE@,
                parameters: insert_parameters_view(quote, diff),
            },
        ),
        (ScrapeStateView::PreparingInsert { todo }, EventView::Done) => (
            ScrapeStateView::Inserting { todo },
            ActionView::Execute,
        ),
        (ScrapeStateView::Inserting { todo }, EventView::Done) => next_quote_view(todo),
        _ => (ScrapeStateView::Finished, ActionView::Abort),
    }
}

/// The key under which the store holds the last price of a symbol.
pub fn price_key(symbol: &str) -> (key: String)
    ensures
        key@ == price_key_view(symbol@),
{
    joined("last_price_", symbol)
}

/// The price that a quote counts with.
pub fn current_price(quote: &SchwabSymbolData) -> (price: Price)
    ensures
        price == current_price_view(quote.deep_view()),
{
    match quote.last_price {
        Some(price) => price,
        None => Price { bits: ZERO_BITS },
    }
}

/// The request for the quotes of some symbols.
pub fn quotes_request(symbols: &str, access_token: &str) -> (request: HttpRequest)
    ensures
        request@ == quotes_request_view(symbols@, access_token@),
{
    let authorization: String = bearer_authorization(access_token);
    let ghost authorization_view = authorization@;
    let mut headers: Vec<(String, String)> = Vec::new();
    headers.push(("Authorization".to_owned(), authorization));
    headers.push(("Accept".to_owned(), "application/json".to_owned()));
    assert(headers.deep_view() =~= seq![
        ("Authorization"@, authorization_view),
        ("Accept"@, "application/json"@),
    ]);
    HttpRequest {
        method: Method::Get,
        url: joined(QUOTES_URL, symbols).concat(QUOTES_FIELDS),
        headers,
        body: None,
    }
}

/// The parameters with which a quote is stored.
pub fn insert_parameters(quote: SchwabSymbolData, diff: Price) -> (parameters: Vec<SqlValue>)
    ensures
        parameters.deep_view() == insert_parameters_view(quote.deep_view(), diff),
{
    let ghost quote_view = quote.deep_view();
    let mut parameters: Vec<SqlValue> = Vec::new();
    parameters.push(SqlValue::Text(quote.symbol));
    parameters.push(
        match quote.last_price {
            Some(price) => SqlValue::Price(price),
            None => SqlValue::Null,
        },
    );
    parameters.push(SqlValue::Price(diff));
    assert(parameters.deep_view() =~= insert_parameters_view(quote_view, diff));
    parameters
}

/// Goes on with the quotes that are still to come.
fn next_quote(mut todo: Vec<SchwabSymbolData>) -> (next: (ScrapeState, Action))
    ensures
        (next.0@, next.1@) == next_quote_view(todo.deep_view()),
{
    if todo.len() == 0 {
        (ScrapeState::Finished, Action::Stop)
    } else {
        let ghost before = todo.deep_view();
        let quote: SchwabSymbolData = todo.remove(0);
        assert(todo.deep_view() =~= before.skip(1));
        let key: String = price_key(quote.symbol.as_str());
        (ScrapeState::LoadingPrevious { quote, todo }, Action::Load { key })
    }
}

/// Compares a quote with a previous price, or, where that could not be read, with itself.
fn compare(
    quote: SchwabSymbolData,
    previous: Option<Price>,
    todo: Vec<SchwabSymbolData>,
) -> (next: (ScrapeState, Action))
    ensures
        (next.0@, next.1@) == compared(
            quote.deep_view(),
            match previous {
                Some(last) => last,
                None => current_price_view(quote.deep_view()),
            },
            todo.deep_view(),
        ),
{
    let current: Price = current_price(&quote);
    let last: Price = match previous {
        Some(last) => last,
        None => current,
    };
    (ScrapeState::ComputingDiff { quote, todo }, Action::ComputeDiff { last, current })
}

/// Takes the first quote of a symbol.
fn take_first(quote: SchwabSymbolData, todo: Vec<SchwabSymbolData>) -> (next: (
    ScrapeState,
    Action,
))
    ensures
        (next.0@, next.1@) == taken_first(quote.deep_view(), todo.deep_view()),
{
    let current: Price = current_price(&quote);
    if current.bits == ZERO_BITS || current.bits == NEGATIVE_ZERO_BITS {
        (
            ScrapeState::FormattingPrice { quote, diff: Price { bits: ZERO_BITS }, todo },
            Action::FormatPrice { price: current },
        )
    } else {
        compare(quote, None, todo)
    }
}

/// Takes the job one step on.
pub fn execute_market_scrape(state: ScrapeState, event: Event) -> (next: (ScrapeState, Action))
    ensures
        (next.0@, next.1@) == scrape_step(state@, event@),
{
    match (state, event) {
        (ScrapeState::Start, Event::Begin) => (
            ScrapeState::BindingStore,
            Action::OpenStore { binding: STORE.to_owned() },
        ),
        (ScrapeState::BindingStore, Event::Done) => (
            ScrapeState::LoadingSymbols,
            Action::Load { key: SYMBOLS.to_owned() },
        ),
        (ScrapeState::LoadingSymbols, Event::Text { text }) => match text {
            Some(symbols) => (
                ScrapeState::BindingDatabase { symbols },
                Action::OpenDatabase { binding: DATABASE.to_owned() },
            ),
            None => (ScrapeState::Finished, Action::Stop),
        },
        (ScrapeState::BindingDatabase { symbols }, Event::Done) => (
            ScrapeState::LoadingToken { symbols },
            Action::Load { key: ACCESS_TOKEN.to_owned() },
        ),
        (ScrapeState::LoadingToken { symbols }, Event::Text { text }) => match text {
            Some(token) => (
                ScrapeState::Sending,
                Action::Send { request: quotes_request(symbols.as_str(), token.as_str()) },
            ),
            None => (
                ScrapeState::Finished,
                Action::Fail { message: NO_ACCESS_TOKEN.to_owned() },
            ),
        },
        (ScrapeState::Sending, Event::Status { code }) => if code == 200 {
            (ScrapeState::ReadingQuotes, Action::ReadQuotes)
        } else {
            (ScrapeState::Finished, Action::Stop)
        },
        (ScrapeState::ReadingQuotes, Event::Quotes { quotes }) => next_quote(quotes),
        (ScrapeState::LoadingPrevious { quote, todo }, Event::Text { text }) => match text {
            Some(text) => (
                ScrapeState::ParsingPrevious { quote, todo },
                Action::ParsePrice { text },
            ),
            None => take_first(quote, todo),
        },
        (ScrapeState::ParsingPrevious { quote, todo }, Event::Price { price }) => compare(
            quote,
            price,
            todo,
        ),
        (ScrapeState::ComputingDiff { quote, todo }, Event::Price { price: Some(diff) }) => {
            let price: Price = current_price(&quote);
            (ScrapeState::FormattingPrice { quote, diff, todo }, Action::FormatPrice { price })
        },
        (ScrapeState::FormattingPrice { quote, diff, todo }, Event::Text { text: Some(text) }) => {
            let key: String = price_key(quote.symbol.as_str());
            (ScrapeState::SavingPrice { quote, diff, todo }, Action::Save { key, value: text })
        },
        (ScrapeState::SavingPrice { quote, diff, todo }, Event::Done) => (
            ScrapeState::PreparingInsert { todo },
            Action::Prepare {
                statement: INSERT_QUOTE.to_owned(),
                parameters: insert_parameters(quote, diff),
            },
        ),
        (ScrapeState::PreparingInsert { todo }, Event::Done) => (
            ScrapeState::Inserting { todo },
            Action::Execute,
        ),
        (ScrapeState::Inserting { todo }, Event::Done) => next_quote(todo),
        _ => (ScrapeState::Finished, Action::Abort),
    }
}

} // verus!

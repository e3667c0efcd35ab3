//! The history of a symbol, for clients that have logged in.
use vstd::prelude::*;

use crate::fetch::DATABASE;
use crate::platform::{
    Action, ActionView, Event, EventView, Payload, PayloadView, SqlValue, SqlValueView,
};
use crate::replies::{data_reply, error_reply};

verus! {

/// The oldest 2500 stored quotes of one symbol, the oldest first.
pub const LONG_HISTORY_QUERY: &'static str = "SELECT symbol, last_price, diff, scraped_at FROM stock_quotes WHERE symbol = ? ORDER BY scraped_at,symbol DESC LIMIT 2500";

/// Where the handler stands.
#[derive(Debug, Clone, Copy, PartialEq, Eq, Structural)]
pub enum HistoryState {
    Start,
    BindingDatabase,
    ReadingSymbol,
    Preparing,
    Fetching,
    Finished,
}

/// One step of the handler.
pub open spec fn history_step(state: HistoryState, event: EventView) -> (HistoryState, ActionView) {
    match (state, event) {
        (HistoryState::Start, EventView::Begin) => (
            HistoryState::BindingDatabase,
            ActionView::OpenDatabase { binding: DATABASE@ },
        ),
        (HistoryState::BindingDatabase, EventView::Done) => (
            HistoryState::ReadingSymbol,
            ActionView::ReadParam { name: "symbol"@ },
        ),
        (HistoryState::ReadingSymbol, EventView::Text { text }) => match text {
            Some(symbol) => (
                HistoryState::Preparing,
                ActionView::Prepare {
                    statement: LONG_HISTORY_QUERY@,
                    parameters: seq![SqlValueView::Text(symbol)],
                },
            ),
            None => (
                HistoryState::Finished,
                ActionView::Respond {
                    reply: crate::replies::error_reply_view("Bad request parameters"@, 400),
                },
            ),
        },
        (HistoryState::Preparing, EventView::Done) => (
            HistoryState::Fetching,
            ActionView::FetchHistory,
        ),
        (HistoryState::Fetching, EventView::History { history }) => (
            HistoryState::Finished,
            ActionView::Respond {
                reply: crate::replies::data_reply_view(
                    PayloadView::History(history),
                    "application/json"@,
                    "private, no-cache"@,
                    false,
                ),
            },
        ),
        _ => (HistoryState::Finished, ActionView::Abort),
    }
}

/// Takes the handler one step on.
pub fn handle_history(state: HistoryState, event: Event) -> (next: (HistoryState, Action))
    ensures
        (next.0, next.1@) == history_step(state, event@),
{
    match (state, event) {
        (HistoryState::Start, Event::Begin) => (
            HistoryState::BindingDatabase,
            Action::OpenDatabase { binding: DATABASE.to_owned() },
        ),
        (HistoryState::BindingDatabase, Event::Done) => (
            HistoryState::ReadingSymbol,
            Action::ReadParam { name: "symbol".to_owned() },
        ),
        (HistoryState::ReadingSymbol, Event::Text { text }) => match text {
            Some(symbol) => {
                let ghost symbol_view = symbol@;
                let mut parameters: Vec<SqlValue> = Vec::new();
                parameters.push(SqlValue::Text(symbol));
                assert(parameters.deep_view() =~= seq![SqlValueView::Text(symbol_view)]);
                (
                    HistoryState::Preparing,
                    Action::Prepare { statement: LONG_HISTORY_QUERY.to_owned(), parameters },
                )
            },
            None => (
                HistoryState::Finished,
                Action::Respond { reply: error_reply("Bad request parameters", 400) },
            ),
        },
        (HistoryState::Preparing, Event::Done) => (HistoryState::Fetching, Action::FetchHistory),
        (HistoryState::Fetching, Event::History { history }) => (
            HistoryState::Finished,
            Action::Respond {
                reply: data_reply(
                    Payload::History(history),
                    "application/json",
                    "private, no-cache",
                    false,
                ),
            },
        ),
        _ => (HistoryState::Finished, Action::Abort),
    }
}

} // verus!

//! What holds of the scheduled runs as a whole.
use vstd::prelude::*;

use crate::fetch::Setting;
use crate::host::{Host, Request, World};
use crate::platform::{
    ActionView, Endpoint, EventView, Method, Price, SchwabSymbolDataView, SqlValueView,
    ZERO_BITS,
};
use crate::refresh::{RefreshStateView, ACCESS_TOKEN, REFRESH_TOKEN};
use crate::scheduled::{
    Job, ScheduledStateView, COLLECTING, REFRESH_CRON, REFRESH_FAILED, SCRAPE_CRON, SCRAPE_FAILED,
    UNKNOWN_CRON,
};
use crate::scrape::{ScrapeStateView, INSERT_QUOTE, NO_ACCESS_TOKEN, SYMBOLS};

verus! {

/// The action that a run emits last when it is fed some events, one after the other.
pub open spec fn last_run_action(state: ScheduledStateView, events: Seq<EventView>) -> ActionView
    recommends
        events.len() > 0,
    decreases events.len(),
{
    let (next, action) = crate::scheduled::scheduled_step(state, events[0]);
    if events.len() <= 1 {
        action
    } else {
        last_run_action(next, events.skip(1))
    }
}

/// Whether an action changes anything, here or at another service.
pub open spec fn changes(action: ActionView) -> bool {
    match action {
        ActionView::Save { .. } => true,
        ActionView::Execute => true,
        ActionView::Send { .. } => true,
        _ => false,
    }
}

/// Whether the third event tells a run that the switch is on.
pub open spec fn told_on(events: Seq<EventView>) -> bool {
    events.len() > 2 && (events[2] matches EventView::Text { text }
        && crate::scheduled::switched_on(text))
}

/// A run that is over does nothing more, whatever it is told.
pub proof fn law_finished_run_is_silent(events: Seq<EventView>)
    requires
        events.len() > 0,
    ensures
        last_run_action(ScheduledStateView::Finished, events) == ActionView::Stop,
    decreases events.len(),
{
    if events.len() > 1 {
        law_finished_run_is_silent(events.skip(1));
    }
}

/// A run that is not told that the switch is on sends nothing and writes nothing, whatever the
/// schedule and whatever else the host says.
pub proof fn law_switched_off_run_changes_nothing(events: Seq<EventView>)
    requires
        events.len() > 0,
        !told_on(events),
    ensures
        !changes(last_run_action(ScheduledStateView::Start, events)),
{
    reveal_with_fuel(last_run_action, 4);
    if events.len() > 1 {
        let one = events.skip(1);
        assert(one[0] == events[1]);
        law_finished_run_is_silent(one);
        if events.len() > 2 {
            let two = one.skip(1);
            assert(two[0] == events[2]);
            law_finished_run_is_silent(two);
            if events.len() > 3 {
                law_finished_run_is_silent(two.skip(1));
            }
        }
    }
}

/// Each of the two schedules runs its own job, and no other schedule runs any.
pub proof fn law_schedules_are_distinct(cron: Seq<char>)
    ensures
        crate::scheduled::job_of(REFRESH_CRON@) == Some(Job::Refresh),
        crate::scheduled::job_of(SCRAPE_CRON@) == Some(Job::Scrape),
        cron != REFRESH_CRON@ && cron != SCRAPE_CRON@ ==> crate::scheduled::job_of(cron) is None,
{
    reveal_strlit("*/20 * * * *");
    reveal_strlit("*/1 * * * *");
    assert(REFRESH_CRON@.len() != SCRAPE_CRON@.len());
}

/// The jobs never write a setting: only clients do.
pub proof fn law_runs_leave_settings_alone(state: ScheduledStateView, event: EventView)
    ensures
        crate::scheduled::scheduled_step(state, event).1 matches ActionView::Save { key, .. }
            ==> key != Setting::Symbols.key_view() && key != Setting::Collecting.key_view(),
{
    reveal_strlit("symbols");
    reveal_strlit("collecting");
    reveal_strlit("access_token");
    reveal_strlit("refresh_token");
    reveal_strlit("last_price_");
    assert("symbols"@[0] == 's');
    assert("collecting"@[0] == 'c');
    assert(ACCESS_TOKEN@[0] == 'a');
    assert(REFRESH_TOKEN@[0] == 'r');
    if let ActionView::Save { key, .. } = crate::scheduled::scheduled_step(state, event).1 {
        assert(key[0] == 'a' || key[0] == 'r' || key[0] == 'l') by {
            match state {
                ScheduledStateView::Scraping(ScrapeStateView::FormattingPrice { quote, .. }) => {
                    assert(crate::scrape::price_key_view(quote.symbol)[0] == 'l');
                },
                _ => {},
            }
        }
    }
}

/// How many more answers a trade of tokens can take before it ends.
pub open spec fn refresh_answers_left(state: RefreshStateView) -> nat {
    match state {
        RefreshStateView::Start => 9,
        RefreshStateView::ReadingAppKey => 8,
        RefreshStateView::ReadingAppSecret { .. } => 7,
        RefreshStateView::BindingStore { .. } => 6,
        RefreshStateView::LoadingToken { .. } => 5,
        RefreshStateView::Sending => 4,
        RefreshStateView::ReadingTokens => 3,
        RefreshStateView::SavingAccess { .. } => 2,
        RefreshStateView::SavingRefresh => 1,
        RefreshStateView::Finished => 0,
    }
}

/// How many more answers a collection of quotes can take before the quotes are known.
pub open spec fn answers_before_quotes(state: ScrapeStateView) -> nat {
    match state {
        ScrapeStateView::Start => 7,
        ScrapeStateView::BindingStore => 6,
        ScrapeStateView::LoadingSymbols => 5,
        ScrapeStateView::BindingDatabase { .. } => 4,
        ScrapeStateView::LoadingToken { .. } => 3,
        ScrapeStateView::Sending => 2,
        ScrapeStateView::ReadingQuotes => 1,
        _ => 0,
    }
}

/// How many more answers a collection of quotes can take once the quotes are known: up to seven
/// for each.
pub open spec fn answers_for_quotes(state: ScrapeStateView) -> nat {
    match state {
        ScrapeStateView::LoadingPrevious { todo, .. } => 7 * todo.len() + 7,
        ScrapeStateView::ParsingPrevious { todo, .. } => 7 * todo.len() + 6,
        ScrapeStateView::ComputingDiff { todo, .. } => 7 * todo.len() + 5,
        ScrapeStateView::FormattingPrice { todo, .. } => 7 * todo.len() + 4,
        ScrapeStateView::SavingPrice { todo, .. } => 7 * todo.len() + 3,
        ScrapeStateView::PreparingInsert { todo } => 7 * todo.len() + 2,
        ScrapeStateView::Inserting { todo } => 7 * todo.len() + 1,
        _ => 0,
    }
}

/// Each answer of the host, whatever it is, ends the trade of tokens or brings it nearer to its
/// end.
pub proof fn law_refresh_ends(state: RefreshStateView, event: EventView)
    ensures
        ({
            let (next, action) = crate::refresh::refresh_step(state, event);
            &&& action.is_final() ==> next == RefreshStateView::Finished
            &&& !action.is_final() ==> refresh_answers_left(next) < refresh_answers_left(state)
        }),
{
}

/// Each answer of the host, whatever it is, ends the collection of quotes or brings it nearer to
/// its end: first to the quotes, which settle how much is left to do, then through them.
pub proof fn law_scrape_ends(state: ScrapeStateView, event: EventView)
    ensures
        ({
            let (next, action) = crate::scrape::scrape_step(state, event);
            &&& action.is_final() ==> next == ScrapeStateView::Finished
            &&& !action.is_final() ==> {
                ||| answers_before_quotes(next) < answers_before_quotes(state)
                ||| answers_before_quotes(next) == 0 && answers_before_quotes(state) == 0
                    && answers_for_quotes(next) < answers_for_quotes(state)
            }
        }),
{
}

/// A run on a host that never fails: the world that it leaves and the action with which it ends.
pub open spec fn run_from(
    host: Host,
    world: World,
    state: ScheduledStateView,
    event: EventView,
    fuel: nat,
) -> Option<(World, ActionView)>
    decreases fuel,
{
    if fuel == 0 {
        None
    } else {
        let (next, action) = crate::scheduled::scheduled_step(state, event);
        if action.is_final() {
            Some((world, action))
        } else {
            let (changed, answer) = crate::host::perform(host, world, action);
            run_from(host, changed, next, answer, (fuel - 1) as nat)
        }
    }
}

/// The whole run for a schedule, with at most `fuel` answers of the host.
pub open spec fn run(host: Host, world: World, cron: Seq<char>, fuel: nat) -> Option<
    (World, ActionView),
> {
    run_from(host, world, ScheduledStateView::Start, EventView::Triggered { cron }, fuel)
}

/// The outcome of a trade of tokens.
pub open spec fn refresh_outcome(host: Host, world: World) -> (World, ActionView) {
    match (
        crate::host::lookup(host.secrets, "SCHWAB_APP_KEY"@),
        crate::host::lookup(host.secrets, "SCHWAB_APP_SECRET"@),
    ) {
        (Some(client_id), Some(client_secret)) => match crate::host::lookup(
            world.store,
            REFRESH_TOKEN@,
        ) {
            Some(token) => {
                let answer = (host.service)(
                    crate::refresh::refresh_request_view(client_id, client_secret, token),
                );
                let asked = world.with_answer(answer);
                if answer.code == 200 {
                    (
                        asked.saved(ACCESS_TOKEN@, answer.access_token).saved(
                            REFRESH_TOKEN@,
                            answer.refresh_token,
                        ),
                        ActionView::Stop,
                    )
                } else {
                    (asked, ActionView::Stop)
                }
            },
            None => (world, ActionView::Stop),
        },
        _ => (world, ActionView::ReportFailure { message: REFRESH_FAILED@, cause: None }),
    }
}

/// The change that a quote is stored with: against the stored price, or, where that cannot be
/// read, against itself. Where no price is stored the price counts as unchanged: the change is
/// against itself too, and zero for a price of zero, which nothing can be divided by.
pub open spec fn change_of(host: Host, world: World, quote: SchwabSymbolDataView) -> Price {
    let current = crate::scrape::current_price_view(quote);
    match crate::host::lookup(world.store, crate::scrape::price_key_view(quote.symbol)) {
        Some(text) => match (host.parse)(text) {
            Some(last) => (host.diff)(last, current),
            None => (host.diff)(current, current),
        },
        None => if crate::scrape::is_zero(current) {
            Price { bits: ZERO_BITS }
        } else {
            (host.diff)(current, current)
        },
    }
}

/// The world once a quote has been recorded: its price is the stored price of its symbol, and it
/// has been inserted with its change.
pub open spec fn recorded(host: Host, world: World, quote: SchwabSymbolDataView) -> World {
    world.saved(
        crate::scrape::price_key_view(quote.symbol),
        (host.format)(crate::scrape::current_price_view(quote)),
    ).with_prepared(
        INSERT_QUOTE@,
        crate::scrape::insert_parameters_view(quote, change_of(host, world, quote)),
    ).with_executed()
}

/// The world once some quotes have been recorded, one after the other.
pub open spec fn all_recorded(
    host: Host,
    world: World,
    quotes: Seq<SchwabSymbolDataView>,
) -> World
    decreases quotes.len(),
{
    if quotes.len() == 0 {
        world
    } else {
        all_recorded(host, recorded(host, world, quotes[0]), quotes.skip(1))
    }
}

/// The outcome of a collection of quotes.
pub open spec fn scrape_outcome(host: Host, world: World) -> (World, ActionView) {
    match crate::host::lookup(world.store, SYMBOLS@) {
        Some(symbols) => match crate::host::lookup(world.store, ACCESS_TOKEN@) {
            Some(token) => {
                let answer = (host.service)(crate::scrape::quotes_request_view(symbols, token));
                let asked = world.with_answer(answer);
                if answer.code == 200 {
                    (all_recorded(host, asked, answer.quotes), ActionView::Stop)
                } else {
                    (asked, ActionView::Stop)
                }
            },
            None => (
                world,
                ActionView::ReportFailure {
                    message: SCRAPE_FAILED@,
                    cause: Some(NO_ACCESS_TOKEN@),
                },
            ),
        },
        None => (world, ActionView::Stop),
    }
}

/// The outcome of a run.
pub open spec fn run_outcome(host: Host, world: World, cron: Seq<char>) -> (World, ActionView) {
    if crate::scheduled::switched_on(crate::host::lookup(world.store, COLLECTING@)) {
        match crate::scheduled::job_of(cron) {
            Some(Job::Refresh) => refresh_outcome(host, world),
            Some(Job::Scrape) => scrape_outcome(host, world),
            None => (world, ActionView::Report { message: UNKNOWN_CRON@ }),
        }
    } else {
        (world, ActionView::Stop)
    }
}

/// How many quotes the market data service reports when it is asked in some world.
pub open spec fn quotes_reported(host: Host, world: World) -> nat {
    match (
        crate::host::lookup(world.store, SYMBOLS@),
        crate::host::lookup(world.store, ACCESS_TOKEN@),
    ) {
        (Some(symbols), Some(token)) => (host.service)(
            crate::scrape::quotes_request_view(symbols, token),
        ).quotes.len(),
        _ => 0,
    }
}

proof fn lemma_run_reads_switch(host: Host, world: World, cron: Seq<char>, fuel: nat)
    requires
        fuel >= 3,
    ensures
        run(host, world, cron, fuel) == run_from(
            host,
            world,
            ScheduledStateView::LoadingSwitch { cron },
            EventView::Text { text: crate::host::lookup(world.store, COLLECTING@) },
            (fuel - 2) as nat,
        ),
{
    reveal_with_fuel(run_from, 3);
}

proof fn lemma_refresh_runs(
    host: Host,
    world: World,
    state: ScheduledStateView,
    event: EventView,
    fuel: nat,
)
    requires
        fuel >= 9,
        crate::scheduled::scheduled_step(state, event) == (
            ScheduledStateView::Refreshing(RefreshStateView::ReadingAppKey),
            ActionView::ReadSecret { name: "SCHWAB_APP_KEY"@ },
        ),
    ensures
        run_from(host, world, state, event, fuel) == Some(refresh_outcome(host, world)),
{
    let key = crate::host::lookup(host.secrets, "SCHWAB_APP_KEY"@);
    let secret = crate::host::lookup(host.secrets, "SCHWAB_APP_SECRET"@);
    if key is None || secret is None {
        reveal_with_fuel(run_from, 3);
    } else {
        let client_id = key->0;
        let client_secret = secret->0;
        let loading = ScheduledStateView::Refreshing(
            RefreshStateView::LoadingToken { client_id, client_secret },
        );
        let stored = crate::host::lookup(world.store, REFRESH_TOKEN@);
        let left = (fuel - 4) as nat;
        assert(run_from(host, world, state, event, fuel) == run_from(
            host,
            world,
            loading,
            EventView::Text { text: stored },
            left,
        )) by {
            reveal_with_fuel(run_from, 5);
        }
        assert(run_from(host, world, loading, EventView::Text { text: stored }, left) == Some(
            refresh_outcome(host, world),
        )) by {
            reveal_with_fuel(run_from, 5);
        }
    }
}

/// A run of the trade of tokens takes at most eleven answers of the host.
pub proof fn lemma_refresh_run_has_its_outcome(host: Host, world: World, fuel: nat)
    requires
        fuel >= 11,
        crate::scheduled::switched_on(crate::host::lookup(world.store, COLLECTING@)),
    ensures
        run(host, world, REFRESH_CRON@, fuel) == Some(refresh_outcome(host, world)),
{
    lemma_run_reads_switch(host, world, REFRESH_CRON@, fuel);
    lemma_refresh_runs(
        host,
        world,
        ScheduledStateView::LoadingSwitch { cron: REFRESH_CRON@ },
        EventView::Text { text: crate::host::lookup(world.store, COLLECTING@) },
        (fuel - 2) as nat,
    );
}

/// The answer of the host to the load of a symbol's stored price.
spec fn price_loaded(world: World, symbol: Seq<char>) -> EventView {
    EventView::Text {
        text: crate::host::lookup(world.store, crate::scrape::price_key_view(symbol)),
    }
}

proof fn lemma_quote_is_recorded(
    host: Host,
    world: World,
    quote: SchwabSymbolDataView,
    todo: Seq<SchwabSymbolDataView>,
    fuel: nat,
)
    requires
        fuel >= 7 * todo.len() + 7,
    ensures
        ({
            let state = ScheduledStateView::Scraping(
                ScrapeStateView::LoadingPrevious { quote, todo },
            );
            let inserting = ScheduledStateView::Scraping(ScrapeStateView::Inserting { todo });
            exists|left: nat|
                left >= 7 * todo.len() + 1 && #[trigger] run_from(
                    host,
                    recorded(host, world, quote),
                    inserting,
                    EventView::Done,
                    left,
                ) == run_from(host, world, state, price_loaded(world, quote.symbol), fuel)
        }),
{
    let state = ScheduledStateView::Scraping(ScrapeStateView::LoadingPrevious { quote, todo });
    let inserting = ScheduledStateView::Scraping(ScrapeStateView::Inserting { todo });
    let diff = change_of(host, world, quote);
    let formatting = ScheduledStateView::Scraping(
        ScrapeStateView::FormattingPrice { quote, diff, todo },
    );
    let formatted = EventView::Text {
        text: Some((host.format)(crate::scrape::current_price_view(quote))),
    };
    let loaded = crate::host::lookup(world.store, crate::scrape::price_key_view(quote.symbol));
    let left = if loaded is Some {
        (fuel - 3) as nat
    } else if crate::scrape::is_zero(crate::scrape::current_price_view(quote)) {
        (fuel - 1) as nat
    } else {
        (fuel - 2) as nat
    };
    assert(run_from(host, world, state, price_loaded(world, quote.symbol), fuel) == run_from(
        host,
        world,
        formatting,
        formatted,
        left,
    )) by {
        reveal_with_fuel(run_from, 4);
    }
    assert(run_from(host, world, formatting, formatted, left) == run_from(
        host,
        recorded(host, world, quote),
        inserting,
        EventView::Done,
        (left - 3) as nat,
    )) by {
        reveal_with_fuel(run_from, 4);
    }
}

proof fn lemma_quotes_are_recorded(
    host: Host,
    world: World,
    state: ScheduledStateView,
    event: EventView,
    quotes: Seq<SchwabSymbolDataView>,
    fuel: nat,
)
    requires
        fuel >= 7 * quotes.len() + 1,
        crate::scheduled::scheduled_step(state, event) == crate::scheduled::scrape_stepped(
            crate::scrape::next_quote_view(quotes),
        ),
    ensures
        run_from(host, world, state, event, fuel) == Some(
            (all_recorded(host, world, quotes), ActionView::Stop),
        ),
    decreases quotes.len(),
{
    if quotes.len() > 0 {
        let quote = quotes[0];
        let todo = quotes.skip(1);
        lemma_quote_is_recorded(host, world, quote, todo, (fuel - 1) as nat);
        let inserting = ScheduledStateView::Scraping(ScrapeStateView::Inserting { todo });
        let loading = ScheduledStateView::Scraping(ScrapeStateView::LoadingPrevious { quote, todo });
        let after = recorded(host, world, quote);
        let left = choose|left: nat|
            left >= 7 * todo.len() + 1 && #[trigger] run_from(
                host,
                after,
                inserting,
                EventView::Done,
                left,
            ) == run_from(
                host,
                world,
                loading,
                price_loaded(world, quote.symbol),
                (fuel - 1) as nat,
            );
        lemma_quotes_are_recorded(host, after, inserting, EventView::Done, todo, left);
    }
}

proof fn lemma_scrape_runs(
    host: Host,
    world: World,
    state: ScheduledStateView,
    event: EventView,
    fuel: nat,
)
    requires
        fuel >= 7 * quotes_reported(host, world) + 7,
        crate::scheduled::scheduled_step(state, event) == (
            ScheduledStateView::Scraping(ScrapeStateView::BindingStore),
            ActionView::OpenStore { binding: crate::fetch::STORE@ },
        ),
    ensures
        run_from(host, world, state, event, fuel) == Some(scrape_outcome(host, world)),
{
    let stored = crate::host::lookup(world.store, SYMBOLS@);
    let loading = ScheduledStateView::Scraping(ScrapeStateView::LoadingSymbols);
    assert(run_from(host, world, state, event, fuel) == run_from(
        host,
        world,
        loading,
        EventView::Text { text: stored },
        (fuel - 2) as nat,
    )) by {
        reveal_with_fuel(run_from, 3);
    }
    if stored is Some {
        let symbols = stored->0;
        let token = crate::host::lookup(world.store, ACCESS_TOKEN@);
        let asking = ScheduledStateView::Scraping(ScrapeStateView::LoadingToken { symbols });
        assert(run_from(
            host,
            world,
            loading,
            EventView::Text { text: stored },
            (fuel - 2) as nat,
        ) == run_from(host, world, asking, EventView::Text { text: token }, (fuel - 4) as nat)) by {
            reveal_with_fuel(run_from, 3);
        }
        if token is Some {
            let answer = (host.service)(crate::scrape::quotes_request_view(symbols, token->0));
            let asked = world.with_answer(answer);
            let reading = ScheduledStateView::Scraping(ScrapeStateView::ReadingQuotes);
            let event = EventView::Quotes { quotes: answer.quotes };
            if answer.code == 200 {
                assert(run_from(
                    host,
                    world,
                    asking,
                    EventView::Text { text: token },
                    (fuel - 4) as nat,
                ) == run_from(host, asked, reading, event, (fuel - 6) as nat)) by {
                    reveal_with_fuel(run_from, 3);
                }
                lemma_quotes_are_recorded(
                    host,
                    asked,
                    reading,
                    event,
                    answer.quotes,
                    (fuel - 6) as nat,
                );
            } else {
                reveal_with_fuel(run_from, 3);
            }
        }
    }
}

/// On a host that never fails every run has the outcome that its schedule promises, and takes at
/// most eleven answers of the host and seven more for each quote.
pub proof fn law_runs_have_their_outcome(host: Host, world: World, cron: Seq<char>, fuel: nat)
    requires
        fuel >= 7 * quotes_reported(host, world) + 11,
    ensures
        run(host, world, cron, fuel) == Some(run_outcome(host, world, cron)),
{
    lemma_run_reads_switch(host, world, cron, fuel);
    let state = ScheduledStateView::LoadingSwitch { cron };
    let stored = crate::host::lookup(world.store, COLLECTING@);
    let event = EventView::Text { text: stored };
    if crate::scheduled::switched_on(stored) {
        match crate::scheduled::job_of(cron) {
            Some(Job::Refresh) => {
                lemma_refresh_runs(host, world, state, event, (fuel - 2) as nat);
            },
            Some(Job::Scrape) => {
                lemma_scrape_runs(host, world, state, event, (fuel - 2) as nat);
            },
            None => {},
        }
    }
}

/// The switch that clients turn governs the runs: once a client has turned it off no run does
/// anything, and once a client has turned it on each schedule runs its job.
pub proof fn law_switch_governs_runs(
    host: Host,
    put: Request,
    world: World,
    cron: Seq<char>,
    fuel: nat,
)
    requires
        put.method != Method::Options,
        put.endpoint == Endpoint::PutCollecting,
        put.fields.dom().contains("value"@),
        crate::text::bool_of(put.fields["value"@]) is Some,
        crate::fetch_laws::authorized(host, put),
        fuel >= 7 * quotes_reported(
            host,
            crate::fetch_laws::left_by(host, put, world),
        ) + 11,
    ensures
        ({
            let after = crate::fetch_laws::left_by(host, put, world);
            run(host, after, cron, fuel) == Some(
                match (crate::text::bool_of(put.fields["value"@]), crate::scheduled::job_of(cron)) {
                    (Some(true), Some(Job::Refresh)) => refresh_outcome(host, after),
                    (Some(true), Some(Job::Scrape)) => scrape_outcome(host, after),
                    (Some(true), None) => (after, ActionView::Report { message: UNKNOWN_CRON@ }),
                    _ => (after, ActionView::Stop),
                },
            )
        }),
{
    let after = crate::fetch_laws::left_by(host, put, world);
    crate::fetch_laws::law_requests_have_their_outcome(host, put, world);
    crate::text::lemma_bool_spellings();
    law_runs_have_their_outcome(host, after, cron, fuel);
}

/// A trade of tokens replaces both tokens where the service agrees, and otherwise leaves the
/// store as it is; no other key of the store ever changes.
pub proof fn law_refresh_replaces_both_tokens_or_none(host: Host, world: World)
    ensures
        ({
            let (after, _) = refresh_outcome(host, world);
            &&& after.store == world.store || (after.store.dom().contains(ACCESS_TOKEN@)
                && after.store.dom().contains(REFRESH_TOKEN@) && after.store[ACCESS_TOKEN@]
                == after.answer.access_token && after.store[REFRESH_TOKEN@]
                == after.answer.refresh_token && after.answer.code == 200)
            &&& forall|key: Seq<char>|
                key != ACCESS_TOKEN@ && key != REFRESH_TOKEN@ ==> #[trigger] crate::host::lookup(
                    after.store,
                    key,
                ) == crate::host::lookup(world.store, key)
            &&& after.executed == world.executed
        }),
{
    reveal_strlit("access_token");
    reveal_strlit("refresh_token");
    assert(ACCESS_TOKEN@.len() != REFRESH_TOKEN@.len());
}

/// Every quote is inserted exactly once and in order, as it was reported and with its change in
/// the world that the quotes before it have left; nothing else is inserted, and what was inserted
/// before stays.
pub proof fn law_each_quote_is_inserted_once(
    host: Host,
    world: World,
    quotes: Seq<SchwabSymbolDataView>,
)
    ensures
        ({
            let before = world.executed;
            let after = all_recorded(host, world, quotes).executed;
            &&& after.len() == before.len() + quotes.len()
            &&& after.take(before.len() as int) == before
            &&& forall|i: int|
                0 <= i < quotes.len() ==> #[trigger] after[before.len() + i] == (
                    "INSERT INTO stock_quotes (symbol, last_price, diff) VALUES (?1, ?2, ?3)"@,
                    seq![
                        SqlValueView::Text(quotes[i].symbol),
                        match quotes[i].last_price {
                            Some(price) => SqlValueView::Price(price),
                            None => SqlValueView::Null,
                        },
                        SqlValueView::Price(
                            change_of(host, all_recorded(host, world, quotes.take(i)), quotes[i]),
                        ),
                    ],
                )
        }),
    decreases quotes.len(),
{
    if quotes.len() == 0 {
        assert(world.executed.take(world.executed.len() as int) =~= world.executed);
    } else {
        let next = recorded(host, world, quotes[0]);
        let rest = quotes.skip(1);
        law_each_quote_is_inserted_once(host, next, rest);
        let before = world.executed;
        let after = all_recorded(host, world, quotes).executed;
        assert(after.take(next.executed.len() as int) == next.executed);
        assert(after.take(before.len() as int) =~= next.executed.take(before.len() as int));
        assert(next.executed.take(before.len() as int) =~= before);
        assert forall|i: int| 0 <= i < quotes.len() implies #[trigger] after[before.len() + i] == (
            "INSERT INTO stock_quotes (symbol, last_price, diff) VALUES (?1, ?2, ?3)"@,
            seq![
                SqlValueView::Text(quotes[i].symbol),
                match quotes[i].last_price {
                    Some(price) => SqlValueView::Price(price),
                    None => SqlValueView::Null,
                },
                SqlValueView::Price(
                    change_of(host, all_recorded(host, world, quotes.take(i)), quotes[i]),
                ),
            ],
        ) by {
            if i == 0 {
                assert(after.take(next.executed.len() as int)[before.len() as int]
                    == next.executed[before.len() as int]);
            } else {
                assert(rest[i - 1] == quotes[i]);
                assert(after[next.executed.len() + (i - 1)] == after[before.len() + i]);
                assert(quotes.take(i).skip(1) =~= rest.take(i - 1));
                assert(quotes.take(i)[0] == quotes[0]);
            }
        }
    }
}

/// Recording quotes changes the stored prices of their symbols and no other key.
pub proof fn law_only_prices_of_quotes_change(
    host: Host,
    world: World,
    quotes: Seq<SchwabSymbolDataView>,
    key: Seq<char>,
)
    requires
        forall|i: int|
            0 <= i < quotes.len() ==> key != crate::scrape::price_key_view(
                (#[trigger] quotes[i]).symbol,
            ),
    ensures
        crate::host::lookup(all_recorded(host, world, quotes).store, key) == crate::host::lookup(
            world.store,
            key,
        ),
    decreases quotes.len(),
{
    if quotes.len() > 0 {
        let rest = quotes.skip(1);
        assert forall|i: int| 0 <= i < rest.len() implies key != crate::scrape::price_key_view(
            (#[trigger] rest[i]).symbol,
        ) by {
            assert(rest[i] == quotes[i + 1]);
        }
        assert(key != crate::scrape::price_key_view(quotes[0].symbol));
        law_only_prices_of_quotes_change(host, recorded(host, world, quotes[0]), rest, key);
    }
}

/// The stored price of a symbol is that of the last quote of the symbol.
pub proof fn law_last_quote_is_the_stored_price(
    host: Host,
    world: World,
    quotes: Seq<SchwabSymbolDataView>,
    i: int,
)
    requires
        0 <= i < quotes.len(),
        forall|j: int| i < j < quotes.len() ==> (#[trigger] quotes[j]).symbol != quotes[i].symbol,
    ensures
        crate::host::lookup(
            all_recorded(host, world, quotes).store,
            crate::scrape::price_key_view(quotes[i].symbol),
        ) == Some((host.format)(crate::scrape::current_price_view(quotes[i]))),
    decreases quotes.len(),
{
    let next = recorded(host, world, quotes[0]);
    let rest = quotes.skip(1);
    if i > 0 {
        assert(rest[i - 1] == quotes[i]);
        assert forall|j: int| i - 1 < j < rest.len() implies (#[trigger] rest[j]).symbol != rest[i
            - 1].symbol by {
            assert(rest[j] == quotes[j + 1]);
        }
        law_last_quote_is_the_stored_price(host, next, rest, i - 1);
    } else {
        let key = crate::scrape::price_key_view(quotes[0].symbol);
        assert forall|j: int| 0 <= j < rest.len() implies key != crate::scrape::price_key_view(
            (#[trigger] rest[j]).symbol,
        ) by {
            assert(rest[j] == quotes[j + 1]);
            lemma_price_keys_tell_symbols_apart(quotes[0].symbol, rest[j].symbol);
        }
        law_only_prices_of_quotes_change(host, next, rest, key);
    }
}

proof fn lemma_price_keys_tell_symbols_apart(left: Seq<char>, right: Seq<char>)
    requires
        left != right,
    ensures
        crate::scrape::price_key_view(left) != crate::scrape::price_key_view(right),
{
    let front = "last_price_"@;
    assert((front + left).skip(front.len() as int) =~= left);
    assert((front + right).skip(front.len() as int) =~= right);
}

/// Whether a quote is the only one of its symbol.
pub open spec fn only_of_its_symbol(quotes: Seq<SchwabSymbolDataView>, i: int) -> bool {
    &&& 0 <= i < quotes.len()
    &&& forall|j: int|
        0 <= j < quotes.len() && j != i ==> (#[trigger] quotes[j]).symbol != quotes[i].symbol
}

/// The quotes that a run collects in some world: those in the answer of the market data service,
/// where the switch is on, there are symbols and a token, and the service agrees.
pub open spec fn collected(host: Host, world: World) -> Option<Seq<SchwabSymbolDataView>> {
    match (
        crate::host::lookup(world.store, SYMBOLS@),
        crate::host::lookup(world.store, ACCESS_TOKEN@),
    ) {
        (Some(symbols), Some(token)) => {
            let answer = (host.service)(crate::scrape::quotes_request_view(symbols, token));
            if crate::scheduled::switched_on(crate::host::lookup(world.store, COLLECTING@))
                && answer.code == 200 {
                Some(answer.quotes)
            } else {
                None
            }
        },
        _ => None,
    }
}

proof fn lemma_collection_records(host: Host, world: World, fuel: nat) -> (asked: World)
    requires
        collected(host, world) is Some,
        fuel >= 7 * quotes_reported(host, world) + 11,
    ensures
        asked.store == world.store,
        asked.executed == world.executed,
        run(host, world, SCRAPE_CRON@, fuel) == Some(
            (all_recorded(host, asked, collected(host, world)->0), ActionView::Stop),
        ),
{
    law_runs_have_their_outcome(host, world, SCRAPE_CRON@, fuel);
    law_schedules_are_distinct(SCRAPE_CRON@);
    world.with_answer(
        (host.service)(
            crate::scrape::quotes_request_view(world.store[SYMBOLS@], world.store[ACCESS_TOKEN@]),
        ),
    )
}

/// Two collections that follow each other, with whatever else happens in between as long as the
/// stored price of a symbol stays: where the symbol has one quote in each, the second collection
/// inserts that quote with its change against the price in the first, if the later host reads
/// that price back as the earlier one wrote it.
pub proof fn law_change_is_against_last_collection(
    earlier: Host,
    later: Host,
    world: World,
    between: World,
    i: int,
    j: int,
    earlier_fuel: nat,
    later_fuel: nat,
)
    requires
        earlier_fuel >= 7 * quotes_reported(earlier, world) + 11,
        later_fuel >= 7 * quotes_reported(later, between) + 11,
        collected(earlier, world) is Some,
        collected(later, between) is Some,
        only_of_its_symbol(collected(earlier, world)->0, i),
        only_of_its_symbol(collected(later, between)->0, j),
        ({
            let first = (collected(earlier, world)->0)[i];
            let second = (collected(later, between)->0)[j];
            let price = crate::scrape::current_price_view(first);
            let key = crate::scrape::price_key_view(first.symbol);
            &&& first.symbol == second.symbol
            &&& (later.parse)((earlier.format)(price)) == Some(price)
            &&& run(earlier, world, SCRAPE_CRON@, earlier_fuel) matches Some((after, _))
                && crate::host::lookup(between.store, key) == crate::host::lookup(after.store, key)
        }),
    ensures
        ({
            let first = (collected(earlier, world)->0)[i];
            let second = (collected(later, between)->0)[j];
            run(later, between, SCRAPE_CRON@, later_fuel) matches Some((after, _))
                && after.executed[between.executed.len() + j] == (
                "INSERT INTO stock_quotes (symbol, last_price, diff) VALUES (?1, ?2, ?3)"@,
                seq![
                    SqlValueView::Text(second.symbol),
                    match second.last_price {
                        Some(price) => SqlValueView::Price(price),
                        None => SqlValueView::Null,
                    },
                    SqlValueView::Price(
                        (later.diff)(
                            crate::scrape::current_price_view(first),
                            crate::scrape::current_price_view(second),
                        ),
                    ),
                ],
            )
        }),
{
    let firsts = collected(earlier, world)->0;
    let seconds = collected(later, between)->0;
    let key = crate::scrape::price_key_view(seconds[j].symbol);
    let asked = lemma_collection_records(earlier, world, earlier_fuel);
    law_last_quote_is_the_stored_price(earlier, asked, firsts, i);
    let asked_again = lemma_collection_records(later, between, later_fuel);
    law_each_quote_is_inserted_once(later, asked_again, seconds);
    let front = seconds.take(j);
    assert forall|k: int| 0 <= k < front.len() implies key != crate::scrape::price_key_view(
        (#[trigger] front[k]).symbol,
    ) by {
        assert(front[k] == seconds[k]);
        lemma_price_keys_tell_symbols_apart(seconds[j].symbol, seconds[k].symbol);
    }
    law_only_prices_of_quotes_change(later, asked_again, front, key);
}

/// A quote of a symbol for which no price is stored counts as unchanged: it is inserted with a
/// change of zero, on a host that finds a price other than zero not to differ from itself. Where
/// the price is zero or missing, that holds on every host.
pub proof fn law_first_quote_counts_as_unchanged(
    host: Host,
    world: World,
    quote: SchwabSymbolDataView,
)
    requires
        !world.store.dom().contains(crate::scrape::price_key_view(quote.symbol)),
        ({
            let price = crate::scrape::current_price_view(quote);
            crate::scrape::is_zero(price) || crate::scrape::is_zero((host.diff)(price, price))
        }),
    ensures
        crate::scrape::is_zero(change_of(host, world, quote)),
        crate::scrape::is_zero(crate::scrape::current_price_view(quote)) ==> change_of(
            host,
            world,
            quote,
        ) == (Price { bits: ZERO_BITS }),
        recorded(host, world, quote).executed == world.executed.push(
            (
                "INSERT INTO stock_quotes (symbol, last_price, diff) VALUES (?1, ?2, ?3)"@,
                seq![
                    SqlValueView::Text(quote.symbol),
                    match quote.last_price {
                        Some(price) => SqlValueView::Price(price),
                        None => SqlValueView::Null,
                    },
                    SqlValueView::Price(
                        change_of(host, world, quote),
                    ),
                ],
            ),
        ),
{
    assert(crate::scrape::insert_parameters_view(quote, change_of(host, world, quote)) =~= seq![
        SqlValueView::Text(quote.symbol),
        match quote.last_price {
            Some(price) => SqlValueView::Price(price),
            None => SqlValueView::Null,
        },
        SqlValueView::Price(change_of(host, world, quote)),
    ]);
}

} // verus!

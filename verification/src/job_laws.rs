//! What the background jobs do, spelled out: on a host that never fails.
use vstd::prelude::*;

use crate::host::{Answer, Host, World};
use crate::platform::{
    ActionView, EventView, HttpRequestView, Method, Price, SchwabSymbolDataView, SqlValueView,
};
use crate::refresh::RefreshStateView;
use crate::scheduled::{Job, ScheduledStateView};
use crate::scrape::ScrapeStateView;

verus! {

/// Nothing happens on any schedule unless the store holds `true` under `collecting`, and nothing
/// but a line in the log on a schedule that is neither of the two.
pub proof fn law_runs_need_switch_and_schedule(
    host: Host,
    world: World,
    cron: Seq<char>,
    fuel: nat,
)
    requires
        fuel >= 3,
        ({
            let on = world.store.dom().contains("collecting"@) && world.store["collecting"@]
                == "true"@;
            !on || (cron != "*/20 * * * *"@ && cron != "*/1 * * * *"@)
        }),
    ensures
        crate::scheduled_laws::run(host, world, cron, fuel) matches Some((after, last)) && {
            let on = world.store.dom().contains("collecting"@) && world.store["collecting"@]
                == "true"@;
            &&& after == world
            &&& !on ==> last == ActionView::Stop
            &&& on ==> last == (ActionView::Report {
                message: "Unknown Cron Schedule execution triggered."@,
            })
        },
{
    crate::text::lemma_bool_spellings();
    reveal_with_fuel(crate::scheduled_laws::run_from, 4);
}

/// The request that a run of the trade of tokens sends is sent with POST to the service, its
/// `Authorization` header is read as the worker's own key and secret joined by a colon, and its
/// body as the two fields, with the stored token unaltered.
pub proof fn law_trade_request_is_understood(
    client_id: Seq<char>,
    client_secret: Seq<char>,
    token: Seq<char>,
)
    ensures
        ({
            let request = crate::refresh::refresh_request_view(client_id, client_secret, token);
            let value = request.headers[0].1;
            &&& request.method == Method::Post
            &&& request.url == "https://api.schwabapi.com/marketdata/v1"@
            &&& request.headers.len() == 2
            &&& request.headers[0].0 == "Authorization"@
            &&& "Basic "@.is_prefix_of(value)
            &&& vstd::utf8::decode_utf8(
                crate::codec_laws::read_base64(value.skip("Basic "@.len() as int)),
            ) == client_id + ":"@ + client_secret
            &&& request.headers[1] == ("Content-Type"@, "application/x-www-form-urlencoded"@)
            &&& request.body matches Some(body) && crate::codec_laws::read_form(body) == seq![
                ("grant_type"@, "refresh_token"@),
                ("refresh_token"@, token),
            ]
        }),
{
    crate::codec_laws::law_credentials_arrive_unaltered(client_id, client_secret);
    crate::codec_laws::law_refresh_token_arrives_unaltered(client_id, client_secret, token);
}

/// The trade of tokens: where the service agrees, the store holds the two tokens of its answer,
/// each under its own key; where it does not, or there is no token to trade, or the worker does not
/// know its key and secret, the store stays as it is. No other key changes and nothing is inserted.
pub proof fn law_trade_stores_the_answered_tokens(
    host: Host,
    world: World,
    key: Seq<char>,
    fuel: nat,
)
    requires
        fuel >= 11,
        world.store.dom().contains("collecting"@),
        world.store["collecting"@] == "true"@,
    ensures
        crate::scheduled_laws::run(host, world, "*/20 * * * *"@, fuel) matches Some((after, last))
            && {
            let known = host.secrets.dom().contains("SCHWAB_APP_KEY"@)
                && host.secrets.dom().contains("SCHWAB_APP_SECRET"@);
            let stored = world.store.dom().contains("refresh_token"@);
            &&& after.executed == world.executed
            &&& key != "access_token"@ && key != "refresh_token"@ ==> after.store.dom().contains(
                key,
            ) == world.store.dom().contains(key) && after.store[key] == world.store[key]
            &&& !known ==> after == world && last == (ActionView::ReportFailure {
                message: "Token rotation loop failed"@,
                cause: None,
            })
            &&& known ==> last == ActionView::Stop
            &&& known && !stored ==> after == world
            &&& known && stored ==> {
                &&& after.answer == (host.service)(
                    HttpRequestView {
                        method: Method::Post,
                        url: "https://api.schwabapi.com/marketdata/v1"@,
                        headers: seq![
                            (
                                "Authorization"@,
                                "Basic "@ + crate::codec::base64_text(
                                    vstd::utf8::encode_utf8(
                                        host.secrets["SCHWAB_APP_KEY"@] + ":"@
                                            + host.secrets["SCHWAB_APP_SECRET"@],
                                    ),
                                ),
                            ),
                            ("Content-Type"@, "application/x-www-form-urlencoded"@),
                        ],
                        body: Some(
                            crate::codec::form_text(
                                seq![
                                    ("grant_type"@, "refresh_token"@),
                                    ("refresh_token"@, world.store["refresh_token"@]),
                                ],
                            ),
                        ),
                    },
                )
                &&& after.answer.code != 200 ==> after.store == world.store
                &&& after.answer.code == 200 ==> {
                    &&& after.store.dom().contains("access_token"@)
                    &&& after.store["access_token"@] == after.answer.access_token
                    &&& after.store.dom().contains("refresh_token"@)
                    &&& after.store["refresh_token"@] == after.answer.refresh_token
                }
            }
        },
{
    reveal_strlit("access_token");
    reveal_strlit("refresh_token");
    assert("access_token"@.len() != "refresh_token"@.len());
    crate::text::lemma_bool_spellings();
    crate::scheduled_laws::law_schedules_are_distinct("*/20 * * * *"@);
    crate::scheduled_laws::lemma_refresh_run_has_its_outcome(host, world, fuel);
}

/// The answer of the market data service when it is asked for the stored symbols with the stored
/// token.
pub open spec fn quotes_answered(host: Host, world: World) -> Answer {
    (host.service)(
        HttpRequestView {
            method: Method::Get,
            url: "https://api.schwabapi.com/marketdata/v1/quotes?symbols="@
                + world.store["symbols"@] + "&fields=closePrice,netPercentChange"@,
            headers: seq![
                ("Authorization"@, "Bearer "@ + world.store["access_token"@]),
                ("Accept"@, "application/json"@),
            ],
            body: None,
        },
    )
}

/// The collection of quotes needs symbols and a token: without symbols nothing is done, without a
/// token that is reported, and an answer of the service other than agreement changes nothing that
/// is kept.
pub proof fn law_collection_needs_symbols_and_token(host: Host, world: World, fuel: nat)
    requires
        world.store.dom().contains("collecting"@),
        world.store["collecting"@] == "true"@,
        !world.store.dom().contains("symbols"@) || !world.store.dom().contains("access_token"@)
            || quotes_answered(host, world).code != 200,
        fuel >= 7 * quotes_answered(host, world).quotes.len() + 11,
    ensures
        crate::scheduled_laws::run(host, world, "*/1 * * * *"@, fuel) matches Some((after, last))
            && {
            let symbols = world.store.dom().contains("symbols"@);
            let token = world.store.dom().contains("access_token"@);
            &&& after.store == world.store
            &&& after.executed == world.executed
            &&& !symbols || token ==> last == ActionView::Stop
            &&& symbols && !token ==> last == (ActionView::ReportFailure {
                message: "Market data extraction loop failed"@,
                cause: Some("Access token missing from storage during collection cycle"@),
            })
        },
{
    crate::text::lemma_bool_spellings();
    crate::scheduled_laws::law_schedules_are_distinct("*/1 * * * *"@);
    crate::scheduled_laws::law_runs_have_their_outcome(host, world, "*/1 * * * *"@, fuel);
}

/// Whether the collection of quotes comes to its quotes.
pub open spec fn comes_to_quotes(host: Host, world: World) -> bool {
    &&& world.store.dom().contains("collecting"@)
    &&& world.store["collecting"@] == "true"@
    &&& world.store.dom().contains("symbols"@)
    &&& world.store.dom().contains("access_token"@)
    &&& quotes_answered(host, world).code == 200
}

/// The service is asked with the stored symbols and the stored token as they are, and the quotes of
/// its answer are collected wherever the switch is on, both are stored, and it agrees.
pub proof fn law_quotes_are_asked_for(host: Host, world: World)
    ensures
        ({
            let answer = (host.service)(
                HttpRequestView {
                    method: Method::Get,
                    url: "https://api.schwabapi.com/marketdata/v1/quotes?symbols="@
                        + world.store["symbols"@] + "&fields=closePrice,netPercentChange"@,
                    headers: seq![
                        ("Authorization"@, "Bearer "@ + world.store["access_token"@]),
                        ("Accept"@, "application/json"@),
                    ],
                    body: None,
                },
            );
            &&& quotes_answered(host, world) == answer
            &&& comes_to_quotes(host, world) <==> world.store.dom().contains("collecting"@)
                && world.store["collecting"@] == "true"@ && world.store.dom().contains("symbols"@)
                && world.store.dom().contains("access_token"@) && answer.code == 200
        }),
{
}

/// The price that a quote counts with: the reported one, and zero where none is reported.
pub proof fn law_missing_price_counts_as_zero(quote: SchwabSymbolDataView)
    ensures
        quote.last_price matches Some(price) ==> crate::scrape::current_price_view(quote) == price,
        quote.last_price is None ==> crate::scrape::current_price_view(quote).bits == 0,
        forall|price: Price| #[trigger]
            crate::scrape::is_zero(price) <==> price.bits == 0 || price.bits
                == 0x8000_0000_0000_0000,
{
}

/// The key of a symbol's price tells the symbol, and no two symbols share one.
pub proof fn law_price_keys_tell_symbols(symbol: Seq<char>, other: Seq<char>)
    ensures
        crate::scrape::price_key_view(symbol) == "last_price_"@ + symbol,
        crate::scrape::price_key_view(symbol) == crate::scrape::price_key_view(other) ==> symbol
            == other,
{
    let front = "last_price_"@;
    assert((front + symbol).skip(front.len() as int) =~= symbol);
    assert((front + other).skip(front.len() as int) =~= other);
}

/// The request for quotes names every symbol as it is stored, and carries the token as it is
/// stored.
pub proof fn law_quotes_request_names_symbols_and_token(symbols: Seq<char>, token: Seq<char>)
    ensures
        ({
            let request = crate::scrape::quotes_request_view(symbols, token);
            &&& request.method == Method::Get
            &&& request.url == "https://api.schwabapi.com/marketdata/v1/quotes?symbols="@ + symbols
                + "&fields=closePrice,netPercentChange"@
            &&& request.headers == seq![
                ("Authorization"@, "Bearer "@ + token),
                ("Accept"@, "application/json"@),
            ]
            &&& request.body is None
        }),
{
}

proof fn lemma_collection(host: Host, world: World, fuel: nat) -> (asked: World)
    requires
        comes_to_quotes(host, world),
        fuel >= 7 * quotes_answered(host, world).quotes.len() + 11,
    ensures
        asked.store == world.store,
        asked.executed == world.executed,
        crate::scheduled_laws::run(host, world, "*/1 * * * *"@, fuel) == Some(
            (
                crate::scheduled_laws::all_recorded(
                    host,
                    asked,
                    quotes_answered(host, world).quotes,
                ),
                ActionView::Stop,
            ),
        ),
{
    crate::text::lemma_bool_spellings();
    crate::scheduled_laws::law_schedules_are_distinct("*/1 * * * *"@);
    crate::scheduled_laws::law_runs_have_their_outcome(host, world, "*/1 * * * *"@, fuel);
    world.with_answer(quotes_answered(host, world))
}

/// A collection inserts one row for each quote of the answer, in their order: the quote's own
/// symbol, the reported price or null, and a change. What was inserted before stays.
pub proof fn law_collection_inserts_every_quote(host: Host, world: World, fuel: nat, i: int)
    requires
        comes_to_quotes(host, world),
        fuel >= 7 * quotes_answered(host, world).quotes.len() + 11,
        0 <= i < quotes_answered(host, world).quotes.len(),
    ensures
        crate::scheduled_laws::run(host, world, "*/1 * * * *"@, fuel) matches Some((after, last))
            && {
            let quotes = quotes_answered(host, world).quotes;
            let (statement, parameters) = after.executed[world.executed.len() + i];
            &&& last == ActionView::Stop
            &&& after.executed.len() == world.executed.len() + quotes.len()
            &&& after.executed.take(world.executed.len() as int) == world.executed
            &&& statement
                == "INSERT INTO stock_quotes (symbol, last_price, diff) VALUES (?1, ?2, ?3)"@
            &&& parameters.len() == 3
            &&& parameters[0] == SqlValueView::Text(quotes[i].symbol)
            &&& quotes[i].last_price matches Some(price) ==> parameters[1] == SqlValueView::Price(
                price,
            )
            &&& quotes[i].last_price is None ==> parameters[1] == SqlValueView::Null
            &&& parameters[2] is Price
        },
{
    let asked = lemma_collection(host, world, fuel);
    let quotes = quotes_answered(host, world).quotes;
    crate::scheduled_laws::law_each_quote_is_inserted_once(host, asked, quotes);
    let after = crate::scheduled_laws::all_recorded(host, asked, quotes);
    assert(after.executed[world.executed.len() + i] == after.executed[asked.executed.len() + i]);
}

/// A collection without quotes leaves everything that is kept as it is.
pub proof fn law_collection_without_quotes_changes_nothing(host: Host, world: World, fuel: nat)
    requires
        comes_to_quotes(host, world),
        quotes_answered(host, world).quotes.len() == 0,
        fuel >= 11,
    ensures
        crate::scheduled_laws::run(host, world, "*/1 * * * *"@, fuel) matches Some((after, last))
            && after.store == world.store && after.executed == world.executed && last
            == ActionView::Stop,
{
    lemma_collection(host, world, fuel);
}

/// The change of a symbol's first quote in a collection is the host's difference between the
/// price that was stored and the quote's price. Where what was stored cannot be read it is the
/// difference of the price and itself, and also where nothing was stored, but zero for a price of
/// zero.
pub proof fn law_change_is_against_the_stored_price(host: Host, world: World, fuel: nat, i: int)
    requires
        comes_to_quotes(host, world),
        fuel >= 7 * quotes_answered(host, world).quotes.len() + 11,
        0 <= i < quotes_answered(host, world).quotes.len(),
        forall|j: int|
            0 <= j < i ==> (#[trigger] quotes_answered(host, world).quotes[j]).symbol
                != quotes_answered(host, world).quotes[i].symbol,
    ensures
        crate::scheduled_laws::run(host, world, "*/1 * * * *"@, fuel) matches Some((after, _)) && {
            let quote = quotes_answered(host, world).quotes[i];
            let key = "last_price_"@ + quote.symbol;
            let (_, parameters) = after.executed[world.executed.len() + i];
            let change = parameters[2];
            let price = match quote.last_price {
                Some(price) => price,
                None => Price { bits: 0 },
            };
            let zero = price.bits == 0 || price.bits == 0x8000_0000_0000_0000;
            &&& world.store.dom().contains(key) ==> match (host.parse)(world.store[key]) {
                Some(last) => change == SqlValueView::Price((host.diff)(last, price)),
                None => change == SqlValueView::Price((host.diff)(price, price)),
            }
            &&& !world.store.dom().contains(key) && zero ==> change == SqlValueView::Price(
                Price { bits: 0 },
            )
            &&& !world.store.dom().contains(key) && !zero ==> change == SqlValueView::Price(
                (host.diff)(price, price),
            )
        },
{
    let asked = lemma_collection(host, world, fuel);
    let quotes = quotes_answered(host, world).quotes;
    let key = crate::scrape::price_key_view(quotes[i].symbol);
    crate::scheduled_laws::law_each_quote_is_inserted_once(host, asked, quotes);
    let after = crate::scheduled_laws::all_recorded(host, asked, quotes);
    assert(after.executed[world.executed.len() + i] == after.executed[asked.executed.len() + i]);
    let front = quotes.take(i);
    assert forall|j: int| 0 <= j < front.len() implies key != crate::scrape::price_key_view(
        (#[trigger] front[j]).symbol,
    ) by {
        assert(front[j] == quotes[j]);
        law_price_keys_tell_symbols(quotes[i].symbol, quotes[j].symbol);
    }
    crate::scheduled_laws::law_only_prices_of_quotes_change(host, asked, front, key);
}

/// The change of any later quote of the symbol in the same collection is against the price of the
/// quote before it, as the host reads that back.
pub proof fn law_change_is_against_the_quote_before(
    host: Host,
    world: World,
    fuel: nat,
    j: int,
    i: int,
)
    requires
        comes_to_quotes(host, world),
        fuel >= 7 * quotes_answered(host, world).quotes.len() + 11,
        0 <= j < i < quotes_answered(host, world).quotes.len(),
        quotes_answered(host, world).quotes[j].symbol == quotes_answered(
            host,
            world,
        ).quotes[i].symbol,
        forall|k: int|
            j < k < i ==> (#[trigger] quotes_answered(host, world).quotes[k]).symbol
                != quotes_answered(host, world).quotes[i].symbol,
    ensures
        crate::scheduled_laws::run(host, world, "*/1 * * * *"@, fuel) matches Some((after, _)) && {
            let before = quotes_answered(host, world).quotes[j];
            let quote = quotes_answered(host, world).quotes[i];
            let (_, parameters) = after.executed[world.executed.len() + i];
            let earlier = match before.last_price {
                Some(price) => price,
                None => Price { bits: 0 },
            };
            let price = match quote.last_price {
                Some(price) => price,
                None => Price { bits: 0 },
            };
            match (host.parse)((host.format)(earlier)) {
                Some(last) => parameters[2] == SqlValueView::Price((host.diff)(last, price)),
                None => parameters[2] == SqlValueView::Price((host.diff)(price, price)),
            }
        },
{
    let asked = lemma_collection(host, world, fuel);
    let quotes = quotes_answered(host, world).quotes;
    crate::scheduled_laws::law_each_quote_is_inserted_once(host, asked, quotes);
    let after = crate::scheduled_laws::all_recorded(host, asked, quotes);
    assert(after.executed[world.executed.len() + i] == after.executed[asked.executed.len() + i]);
    let front = quotes.take(i);
    assert(front[j] == quotes[j]);
    assert forall|k: int| j < k < front.len() implies (#[trigger] front[k]).symbol
        != front[j].symbol by {
        assert(front[k] == quotes[k]);
    }
    crate::scheduled_laws::law_last_quote_is_the_stored_price(host, asked, front, j);
}

/// After a collection the store holds, for every symbol in the answer, the price of its last quote
/// as the host writes it.
pub proof fn law_collection_stores_every_price(host: Host, world: World, fuel: nat, i: int)
    requires
        comes_to_quotes(host, world),
        fuel >= 7 * quotes_answered(host, world).quotes.len() + 11,
        0 <= i < quotes_answered(host, world).quotes.len(),
        forall|j: int|
            i < j < quotes_answered(host, world).quotes.len() ==> (#[trigger] quotes_answered(
                host,
                world,
            ).quotes[j]).symbol != quotes_answered(host, world).quotes[i].symbol,
    ensures
        crate::scheduled_laws::run(host, world, "*/1 * * * *"@, fuel) matches Some((after, _)) && {
            let quote = quotes_answered(host, world).quotes[i];
            let key = "last_price_"@ + quote.symbol;
            let price = match quote.last_price {
                Some(price) => price,
                None => Price { bits: 0 },
            };
            &&& after.store.dom().contains(key)
            &&& after.store[key] == (host.format)(price)
        },
{
    let asked = lemma_collection(host, world, fuel);
    crate::scheduled_laws::law_last_quote_is_the_stored_price(
        host,
        asked,
        quotes_answered(host, world).quotes,
        i,
    );
}

/// A collection changes no key of the store but the prices of the symbols in the answer.
pub proof fn law_collection_changes_prices_only(
    host: Host,
    world: World,
    fuel: nat,
    key: Seq<char>,
)
    requires
        comes_to_quotes(host, world),
        fuel >= 7 * quotes_answered(host, world).quotes.len() + 11,
        forall|j: int|
            0 <= j < quotes_answered(host, world).quotes.len() ==> key != "last_price_"@ + (
            #[trigger] quotes_answered(host, world).quotes[j]).symbol,
    ensures
        crate::scheduled_laws::run(host, world, "*/1 * * * *"@, fuel) matches Some((after, _))
            && after.store.dom().contains(key) == world.store.dom().contains(key)
            && (world.store.dom().contains(key) ==> after.store[key] == world.store[key]),
{
    let asked = lemma_collection(host, world, fuel);
    crate::scheduled_laws::law_only_prices_of_quotes_change(
        host,
        asked,
        quotes_answered(host, world).quotes,
        key,
    );
}

/// A host that fails ends a job, and the run reports the job under its own name; a run that has
/// not come to its job just ends.
pub proof fn law_failure_is_reported(state: ScheduledStateView)
    ensures
        match state {
            ScheduledStateView::Refreshing(_) => crate::scheduled::scheduled_step(
                state,
                EventView::Failed,
            ) == (
                ScheduledStateView::Finished,
                ActionView::ReportFailure { message: "Token rotation loop failed"@, cause: None },
            ),
            ScheduledStateView::Scraping(_) => crate::scheduled::scheduled_step(
                state,
                EventView::Failed,
            ) == (
                ScheduledStateView::Finished,
                ActionView::ReportFailure {
                    message: "Market data extraction loop failed"@,
                    cause: None,
                },
            ),
            _ => crate::scheduled::scheduled_step(state, EventView::Failed) == (
                ScheduledStateView::Finished,
                ActionView::Stop,
            ),
        },
{
}

/// A job that fails on its own ends with an error as well.
pub proof fn law_failure_ends_a_job(refresh: RefreshStateView, scrape: ScrapeStateView)
    ensures
        crate::refresh::refresh_step(refresh, EventView::Failed) == (
            RefreshStateView::Finished,
            ActionView::Abort,
        ),
        crate::scrape::scrape_step(scrape, EventView::Failed) == (
            ScrapeStateView::Finished,
            ActionView::Abort,
        ),
{
}

/// The jobs ask for the store and the database by their names.
pub proof fn law_jobs_bind_by_name(state: ScheduledStateView, event: EventView)
    ensures
        match crate::scheduled::scheduled_step(state, event).1 {
            ActionView::OpenStore { binding } => binding == "SCHWAB_STORE"@,
            ActionView::OpenDatabase { binding } => binding == "SCHWAB_DB"@,
            _ => true,
        },
{
}

/// The schedules and their jobs, and the one text that turns both on.
pub proof fn law_schedules_and_switch(cron: Seq<char>, stored: Option<Seq<char>>)
    ensures
        crate::scheduled::job_of(cron) == Some(Job::Refresh) <==> cron == "*/20 * * * *"@,
        crate::scheduled::job_of(cron) == Some(Job::Scrape) <==> cron == "*/1 * * * *"@,
        crate::scheduled::switched_on(stored) <==> stored == Some("true"@),
{
    crate::text::lemma_bool_spellings();
    crate::scheduled_laws::law_schedules_are_distinct(cron);
}

/// The two tokens of an answer are saved one after the other, the access token first, and each as
/// it was answered.
pub proof fn law_tokens_are_saved_in_order(access_token: Seq<char>, refresh_token: Seq<char>)
    ensures
        ({
            let (saving, first) = crate::refresh::refresh_step(
                RefreshStateView::ReadingTokens,
                EventView::Tokens { access_token, refresh_token },
            );
            let (ending, second) = crate::refresh::refresh_step(saving, EventView::Done);
            let (_, last) = crate::refresh::refresh_step(ending, EventView::Done);
            &&& first == (ActionView::Save { key: "access_token"@, value: access_token })
            &&& second == (ActionView::Save { key: "refresh_token"@, value: refresh_token })
            &&& last == ActionView::Stop
        }),
{
}

/// Once the change of a quote is known, its price is written and saved under the key of its own
/// symbol, and then the quote is inserted with that change, whatever it is.
pub proof fn law_price_is_saved_before_the_quote_is_inserted(
    quote: SchwabSymbolDataView,
    todo: Seq<SchwabSymbolDataView>,
    diff: Price,
    text: Seq<char>,
)
    ensures
        ({
            let (formatting, first) = crate::scrape::scrape_step(
                ScrapeStateView::ComputingDiff { quote, todo },
                EventView::Price { price: Some(diff) },
            );
            let (saving, second) = crate::scrape::scrape_step(
                formatting,
                EventView::Text { text: Some(text) },
            );
            let (preparing, third) = crate::scrape::scrape_step(saving, EventView::Done);
            let (inserting, fourth) = crate::scrape::scrape_step(preparing, EventView::Done);
            let (_, fifth) = crate::scrape::scrape_step(inserting, EventView::Done);
            &&& quote.last_price matches Some(price) ==> first == (ActionView::FormatPrice {
                price,
            })
            &&& quote.last_price is None ==> first == (ActionView::FormatPrice {
                price: Price { bits: 0 },
            })
            &&& second == (ActionView::Save { key: "last_price_"@ + quote.symbol, value: text })
            &&& third == (ActionView::Prepare {
                statement: "INSERT INTO stock_quotes (symbol, last_price, diff) VALUES (?1, ?2, ?3)"@,
                parameters: seq![
                    SqlValueView::Text(quote.symbol),
                    match quote.last_price {
                        Some(price) => SqlValueView::Price(price),
                        None => SqlValueView::Null,
                    },
                    SqlValueView::Price(diff),
                ],
            })
            &&& fourth == ActionView::Execute
            &&& todo.len() == 0 ==> fifth == ActionView::Stop
            &&& todo.len() > 0 ==> fifth == (ActionView::Load {
                key: "last_price_"@ + todo[0].symbol,
            })
        }),
{
    assert(crate::scrape::insert_parameters_view(quote, diff) =~= seq![
        SqlValueView::Text(quote.symbol),
        match quote.last_price {
            Some(price) => SqlValueView::Price(price),
            None => SqlValueView::Null,
        },
        SqlValueView::Price(diff),
    ]);
}

/// The parameters of an inserted row are the quote's own symbol, its reported price or null, and
/// the change.
pub proof fn law_inserted_row_is_the_quote(quote: SchwabSymbolDataView, diff: Price)
    ensures
        ({
            let parameters = crate::scrape::insert_parameters_view(quote, diff);
            &&& parameters.len() == 3
            &&& parameters[0] == SqlValueView::Text(quote.symbol)
            &&& quote.last_price matches Some(price) ==> parameters[1] == SqlValueView::Price(price)
            &&& quote.last_price is None ==> parameters[1] == SqlValueView::Null
            &&& parameters[2] == SqlValueView::Price(diff)
        }),
{
}

/// A job goes on only with the answer that it waits for; any other ends it with an error.
pub proof fn law_only_awaited_answers_count(
    refresh: RefreshStateView,
    scrape: ScrapeStateView,
    event: EventView,
)
    ensures
        match (refresh, event) {
            (RefreshStateView::Start, EventView::Begin) => true,
            (RefreshStateView::ReadingAppKey, EventView::Text { text: Some(_) }) => true,
            (RefreshStateView::ReadingAppSecret { .. }, EventView::Text { text: Some(_) }) => true,
            (RefreshStateView::BindingStore { .. }, EventView::Done) => true,
            (RefreshStateView::LoadingToken { .. }, EventView::Text { .. }) => true,
            (RefreshStateView::Sending, EventView::Status { .. }) => true,
            (RefreshStateView::ReadingTokens, EventView::Tokens { .. }) => true,
            (RefreshStateView::SavingAccess { .. }, EventView::Done) => true,
            (RefreshStateView::SavingRefresh, EventView::Done) => true,
            _ => crate::refresh::refresh_step(refresh, event) == (
                RefreshStateView::Finished,
                ActionView::Abort,
            ),
        },
        match (scrape, event) {
            (ScrapeStateView::Start, EventView::Begin) => true,
            (ScrapeStateView::BindingStore, EventView::Done) => true,
            (ScrapeStateView::LoadingSymbols, EventView::Text { .. }) => true,
            (ScrapeStateView::BindingDatabase { .. }, EventView::Done) => true,
            (ScrapeStateView::LoadingToken { .. }, EventView::Text { .. }) => true,
            (ScrapeStateView::Sending, EventView::Status { .. }) => true,
            (ScrapeStateView::ReadingQuotes, EventView::Quotes { .. }) => true,
            (ScrapeStateView::LoadingPrevious { .. }, EventView::Text { .. }) => true,
            (ScrapeStateView::ParsingPrevious { .. }, EventView::Price { .. }) => true,
            (ScrapeStateView::ComputingDiff { .. }, EventView::Price { price: Some(_) }) => true,
            (ScrapeStateView::FormattingPrice { .. }, EventView::Text { text: Some(_) }) => true,
            (ScrapeStateView::SavingPrice { .. }, EventView::Done) => true,
            (ScrapeStateView::PreparingInsert { .. }, EventView::Done) => true,
            (ScrapeStateView::Inserting { .. }, EventView::Done) => true,
            _ => crate::scrape::scrape_step(scrape, event) == (
                ScrapeStateView::Finished,
                ActionView::Abort,
            ),
        },
{
}

} // verus!

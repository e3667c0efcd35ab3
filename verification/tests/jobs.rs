use schwab_worker::codec::{basic_authorization, bearer_authorization, refresh_form};
use schwab_worker::platform::{
    Action, Event, HttpRequest, Method, Price, SchwabSymbolData, SchwabTokenResponse, SqlValue,
};
use schwab_worker::refresh::{execute_token_refresh, refresh_request, RefreshState};
use schwab_worker::scheduled::{job_for, scheduled, Job, ScheduledState};
use schwab_worker::scrape::{
    current_price, execute_market_scrape, price_key, quotes_request, ScrapeState, INSERT_QUOTE,
};

/// A host with a store and a list of executed statements in memory.
struct Host {
    secrets: bool,
    store: Vec<(String, String)>,
    status: u16,
    quotes: Vec<(&'static str, Option<f64>)>,
    sent: Vec<HttpRequest>,
    prepared: Vec<SqlValue>,
    executed: Vec<Vec<SqlValue>>,
}

fn host(entries: &[(&str, &str)]) -> Host {
    Host {
        secrets: true,
        store: entries.iter().map(|(key, value)| (key.to_string(), value.to_string())).collect(),
        status: 200,
        quotes: Vec::new(),
        sent: Vec::new(),
        prepared: Vec::new(),
        executed: Vec::new(),
    }
}

fn stored(host: &Host, key: &str) -> Option<String> {
    host.store.iter().rev().find(|entry| entry.0 == key).map(|entry| entry.1.clone())
}

fn price(value: f64) -> Price {
    Price { bits: value.to_bits() }
}

fn perform(host: &mut Host, action: Action) -> Result<Event, Action> {
    Ok(match action {
        Action::OpenStore { binding } => {
            assert_eq!(binding, "SCHWAB_STORE");
            Event::Done
        }
        Action::OpenDatabase { binding } => {
            assert_eq!(binding, "SCHWAB_DB");
            Event::Done
        }
        Action::ReadSecret { name } => {
            if host.secrets {
                Event::Text { text: Some(format!("<{}>", name)) }
            } else {
                Event::Failed
            }
        }
        Action::Load { key } => Event::Text { text: stored(host, &key) },
        Action::Save { key, value } => {
            host.store.push((key, value));
            Event::Done
        }
        Action::Send { request } => {
            host.sent.push(request);
            Event::Status { code: host.status }
        }
        Action::ReadTokens => Event::Tokens {
            tokens: SchwabTokenResponse {
                access_token: "new access".to_string(),
                refresh_token: "new refresh".to_string(),
            },
        },
        Action::ReadQuotes => Event::Quotes {
            quotes: host
                .quotes
                .iter()
                .map(|(symbol, last_price)| SchwabSymbolData {
                    symbol: symbol.to_string(),
                    last_price: last_price.map(price),
                })
                .collect(),
        },
        Action::ParsePrice { text } => {
            Event::Price { price: text.parse::<f64>().ok().map(price) }
        }
        Action::ComputeDiff { last, current } => {
            let (last, current) = (f64::from_bits(last.bits), f64::from_bits(current.bits));
            Event::Price { price: Some(price((last - current) / last * 100.0)) }
        }
        Action::FormatPrice { price } => {
            Event::Text { text: Some(f64::from_bits(price.bits).to_string()) }
        }
        Action::Prepare { statement, parameters } => {
            assert_eq!(statement, INSERT_QUOTE);
            host.prepared = parameters;
            Event::Done
        }
        Action::Execute => {
            let parameters = std::mem::take(&mut host.prepared);
            host.executed.push(parameters);
            Event::Done
        }
        last => return Err(last),
    })
}

fn run(host: &mut Host, cron: &str) -> Action {
    let mut state = ScheduledState::Start;
    let mut event = Event::Triggered { cron: cron.to_string() };
    loop {
        let (next, action) = scheduled(state, event);
        state = next;
        event = match perform(host, action) {
            Ok(event) => event,
            Err(action) => {
                assert_eq!(state, ScheduledState::Finished);
                return action;
            }
        };
    }
}

fn text(text: &str) -> SqlValue {
    SqlValue::Text(text.to_string())
}

#[test]
fn each_schedule_has_its_job() {
    assert_eq!(job_for("*/20 * * * *"), Some(Job::Refresh));
    assert_eq!(job_for("*/1 * * * *"), Some(Job::Scrape));
    assert_eq!(job_for("*/5 * * * *"), None);
    assert_eq!(job_for(""), None);
}

#[test]
fn nothing_runs_while_the_switch_is_off() {
    for switch in [None, Some("false"), Some("TRUE"), Some("")] {
        for cron in ["*/20 * * * *", "*/1 * * * *", "0 0 * * *"] {
            let mut host = host(&[
                ("symbols", "AAPL"),
                ("access_token", "access"),
                ("refresh_token", "refresh"),
            ]);
            if let Some(value) = switch {
                host.store.push(("collecting".to_string(), value.to_string()));
            }
            let entries = host.store.len();
            assert_eq!(run(&mut host, cron), Action::Stop);
            assert_eq!(host.store.len(), entries);
            assert!(host.sent.is_empty());
            assert!(host.executed.is_empty());
        }
    }
}

#[test]
fn unknown_schedule_is_reported() {
    let mut host = host(&[("collecting", "true")]);
    assert_eq!(
        run(&mut host, "0 0 * * *"),
        Action::Report { message: "Unknown Cron Schedule execution triggered.".to_string() }
    );
    assert!(host.sent.is_empty());
}

#[test]
fn unreadable_switch_ends_a_run() {
    let cron = "*/1 * * * *".to_string();
    assert_eq!(
        scheduled(ScheduledState::LoadingSwitch { cron: cron.clone() }, Event::Failed),
        (ScheduledState::Finished, Action::Stop)
    );
    assert_eq!(
        scheduled(ScheduledState::BindingStore { cron }, Event::Failed),
        (ScheduledState::Finished, Action::Stop)
    );
    assert_eq!(
        scheduled(ScheduledState::Finished, Event::Done),
        (ScheduledState::Finished, Action::Stop)
    );
}

#[test]
fn refresh_replaces_both_tokens() {
    let mut host = host(&[
        ("collecting", "true"),
        ("access_token", "old access"),
        ("refresh_token", "old refresh"),
    ]);
    assert_eq!(run(&mut host, "*/20 * * * *"), Action::Stop);
    assert_eq!(stored(&host, "access_token"), Some("new access".to_string()));
    assert_eq!(stored(&host, "refresh_token"), Some("new refresh".to_string()));
    assert_eq!(stored(&host, "collecting"), Some("true".to_string()));
    assert_eq!(host.sent.len(), 1);
    assert_eq!(
        Some(&host.sent[0]),
        refresh_request("<SCHWAB_APP_KEY>", "<SCHWAB_APP_SECRET>", "old refresh").ok().as_ref()
    );
    assert!(host.executed.is_empty());
}

#[test]
fn refused_refresh_keeps_the_tokens() {
    let mut host = host(&[
        ("collecting", "true"),
        ("access_token", "old access"),
        ("refresh_token", "old refresh"),
    ]);
    host.status = 401;
    assert_eq!(run(&mut host, "*/20 * * * *"), Action::Stop);
    assert_eq!(host.store.len(), 3);
    assert_eq!(host.sent.len(), 1);
}

#[test]
fn refresh_without_a_token_asks_nobody() {
    let mut host = host(&[("collecting", "true"), ("access_token", "old access")]);
    assert_eq!(run(&mut host, "*/20 * * * *"), Action::Stop);
    assert!(host.sent.is_empty());
    assert_eq!(host.store.len(), 2);
}

#[test]
fn refresh_without_secrets_is_reported() {
    let mut host = host(&[("collecting", "true"), ("refresh_token", "old refresh")]);
    host.secrets = false;
    assert_eq!(
        run(&mut host, "*/20 * * * *"),
        Action::ReportFailure { message: "Token rotation loop failed".to_string(), cause: None }
    );
    assert!(host.sent.is_empty());
}

#[test]
fn refresh_request_identifies_the_worker() {
    let request = refresh_request("key", "s3cret", "a b&c=d/\u{00e9}").unwrap();
    assert_eq!(
        request,
        HttpRequest {
            method: Method::Post,
            url: "https://api.schwabapi.com/marketdata/v1".to_string(),
            headers: vec![
                ("Authorization".to_string(), "Basic a2V5OnMzY3JldA==".to_string()),
                (
                    "Content-Type".to_string(),
                    "application/x-www-form-urlencoded".to_string()
                ),
            ],
            body: Some(
                "grant_type=refresh_token&refresh_token=a+b%26c%3Dd%2F%C3%A9".to_string()
            ),
        }
    );
}

#[test]
fn authorization_values() {
    assert_eq!(basic_authorization("key", "s3cret"), "Basic a2V5OnMzY3JldA==");
    assert_eq!(basic_authorization("", ""), "Basic Og==");
    assert_eq!(basic_authorization("a", "b"), "Basic YTpi");
    assert_eq!(basic_authorization("ab", "c"), "Basic YWI6Yw==");
    assert_eq!(basic_authorization("ab", "cd"), "Basic YWI6Y2Q=");
    assert_eq!(basic_authorization("\u{00fb}\u{00ff}", "~?"), "Basic w7vDvzp+Pw==");
    assert_eq!(bearer_authorization("token"), "Bearer token");
    assert_eq!(
        refresh_form("r").unwrap(),
        "grant_type=refresh_token&refresh_token=r"
    );
}

#[test]
fn refresh_ends_where_the_host_fails() {
    assert_eq!(
        execute_token_refresh(RefreshState::Sending, Event::Failed),
        (RefreshState::Finished, Action::Abort)
    );
    assert_eq!(
        execute_token_refresh(RefreshState::SavingRefresh, Event::Failed),
        (RefreshState::Finished, Action::Abort)
    );
}

#[test]
fn quotes_are_recorded_in_order() {
    let mut host = host(&[
        ("collecting", "true"),
        ("symbols", "AAPL,MSFT,NONE"),
        ("access_token", "access"),
        ("last_price_AAPL", "200"),
        ("last_price_BAD", "not a price"),
    ]);
    host.quotes = vec![("AAPL", Some(150.0)), ("MSFT", Some(80.5)), ("BAD", Some(4.0))];
    assert_eq!(run(&mut host, "*/1 * * * *"), Action::Stop);
    assert_eq!(host.sent, vec![quotes_request("AAPL,MSFT,NONE", "access")]);
    assert_eq!(
        host.executed,
        vec![
            vec![text("AAPL"), SqlValue::Price(price(150.0)), SqlValue::Price(price(25.0))],
            vec![text("MSFT"), SqlValue::Price(price(80.5)), SqlValue::Price(price(0.0))],
            vec![text("BAD"), SqlValue::Price(price(4.0)), SqlValue::Price(price(0.0))],
        ]
    );
    assert_eq!(stored(&host, "last_price_AAPL"), Some("150".to_string()));
    assert_eq!(stored(&host, "last_price_MSFT"), Some("80.5".to_string()));
    assert_eq!(stored(&host, "last_price_BAD"), Some("4".to_string()));
    assert_eq!(stored(&host, "symbols"), Some("AAPL,MSFT,NONE".to_string()));

    host.quotes = vec![("AAPL", Some(300.0))];
    assert_eq!(run(&mut host, "*/1 * * * *"), Action::Stop);
    assert_eq!(
        host.executed[3],
        vec![text("AAPL"), SqlValue::Price(price(300.0)), SqlValue::Price(price(-100.0))]
    );
}

#[test]
fn quote_without_a_price_counts_as_zero() {
    let mut host = host(&[
        ("collecting", "true"),
        ("symbols", "AAPL"),
        ("access_token", "access"),
        ("last_price_AAPL", "200"),
    ]);
    host.quotes = vec![("AAPL", None)];
    assert_eq!(run(&mut host, "*/1 * * * *"), Action::Stop);
    assert_eq!(
        host.executed,
        vec![vec![text("AAPL"), SqlValue::Null, SqlValue::Price(price(100.0))]]
    );
    assert_eq!(stored(&host, "last_price_AAPL"), Some("0".to_string()));
    assert_eq!(
        current_price(&SchwabSymbolData { symbol: "AAPL".to_string(), last_price: None }),
        price(0.0)
    );
}

#[test]
fn first_quote_counts_as_unchanged() {
    for (reported, parameter) in [
        (None, SqlValue::Null),
        (Some(0.0), SqlValue::Price(price(0.0))),
        (Some(2.5), SqlValue::Price(price(2.5))),
    ] {
        let mut host =
            host(&[("collecting", "true"), ("symbols", "ABC"), ("access_token", "tok")]);
        host.quotes = vec![("ABC", reported)];
        assert_eq!(run(&mut host, "*/1 * * * *"), Action::Stop);
        assert_eq!(host.executed, vec![vec![text("ABC"), parameter, SqlValue::Price(price(0.0))]]);
        assert_eq!(
            stored(&host, "last_price_ABC"),
            Some(reported.unwrap_or(0.0).to_string())
        );
    }
}

#[test]
fn first_quote_keeps_the_sign_of_the_arithmetic() {
    let mut host = host(&[("collecting", "true"), ("symbols", "ABC"), ("access_token", "tok")]);
    host.quotes = vec![("ABC", Some(-2.5)), ("DEF", Some(-0.0))];
    assert_eq!(run(&mut host, "*/1 * * * *"), Action::Stop);
    assert_eq!(host.executed[0][2], SqlValue::Price(price(-0.0)));
    assert_eq!(host.executed[1][2], SqlValue::Price(price(0.0)));
}

#[test]
fn unreadable_stored_price_is_replaced_by_the_current_one() {
    let mut host = host(&[
        ("collecting", "true"),
        ("symbols", "ABC,DEF"),
        ("access_token", "tok"),
        ("last_price_ABC", "?"),
        ("last_price_DEF", "?"),
    ]);
    host.quotes = vec![("ABC", Some(2.5)), ("DEF", None)];
    assert_eq!(run(&mut host, "*/1 * * * *"), Action::Stop);
    assert_eq!(host.executed[0][2], SqlValue::Price(price(0.0)));
    let SqlValue::Price(change) = &host.executed[1][2] else { panic!("no change") };
    assert!(f64::from_bits(change.bits).is_nan());
}

#[test]
fn first_quote_of_zero_is_not_divided_by() {
    let quote = SchwabSymbolData { symbol: "ABC".to_string(), last_price: None };
    let (state, action) = execute_market_scrape(
        ScrapeState::LoadingPrevious { quote, todo: vec![] },
        Event::Text { text: None },
    );
    assert_eq!(action, Action::FormatPrice { price: price(0.0) });
    let quote = SchwabSymbolData { symbol: "ABC".to_string(), last_price: None };
    assert_eq!(state, ScrapeState::FormattingPrice { quote, diff: price(0.0), todo: vec![] });
    let quote =
        SchwabSymbolData { symbol: "ABC".to_string(), last_price: Some(price(2.5)) };
    let (_, action) = execute_market_scrape(
        ScrapeState::LoadingPrevious { quote, todo: vec![] },
        Event::Text { text: None },
    );
    assert_eq!(action, Action::ComputeDiff { last: price(2.5), current: price(2.5) });
}

#[test]
fn form_text_of_every_kind_of_byte() {
    assert_eq!(
        refresh_form("aZ09*-._ ~!=&%+/\u{00e9}\u{20ac}").unwrap(),
        "grant_type=refresh_token&refresh_token=aZ09*-._+%7E%21%3D%26%25%2B%2F%C3%A9%E2%82%AC"
    );
    assert_eq!(refresh_form("").unwrap(), "grant_type=refresh_token&refresh_token=");
}

#[test]
fn no_quotes_record_nothing() {
    let mut host =
        host(&[("collecting", "true"), ("symbols", "AAPL"), ("access_token", "access")]);
    assert_eq!(run(&mut host, "*/1 * * * *"), Action::Stop);
    assert!(host.executed.is_empty());
    assert_eq!(host.store.len(), 3);
}

#[test]
fn refused_scrape_records_nothing() {
    let mut host =
        host(&[("collecting", "true"), ("symbols", "AAPL"), ("access_token", "access")]);
    host.quotes = vec![("AAPL", Some(150.0))];
    host.status = 500;
    assert_eq!(run(&mut host, "*/1 * * * *"), Action::Stop);
    assert!(host.executed.is_empty());
    assert_eq!(host.store.len(), 3);
}

#[test]
fn scrape_without_symbols_asks_nobody() {
    let mut host = host(&[("collecting", "true"), ("access_token", "access")]);
    assert_eq!(run(&mut host, "*/1 * * * *"), Action::Stop);
    assert!(host.sent.is_empty());
}

#[test]
fn scrape_without_a_token_is_reported() {
    let mut host = host(&[("collecting", "true"), ("symbols", "AAPL")]);
    assert_eq!(
        run(&mut host, "*/1 * * * *"),
        Action::ReportFailure {
            message: "Market data extraction loop failed".to_string(),
            cause: Some("Access token missing from storage during collection cycle".to_string()),
        }
    );
    assert!(host.sent.is_empty());
}

#[test]
fn failing_host_ends_a_scrape_with_a_report() {
    assert_eq!(
        execute_market_scrape(ScrapeState::ReadingQuotes, Event::Failed),
        (ScrapeState::Finished, Action::Abort)
    );
    assert_eq!(
        scheduled(ScheduledState::Scraping(ScrapeState::ReadingQuotes), Event::Failed),
        (
            ScheduledState::Finished,
            Action::ReportFailure {
                message: "Market data extraction loop failed".to_string(),
                cause: None,
            }
        )
    );
}

#[test]
fn quotes_request_names_symbols_and_token() {
    assert_eq!(
        quotes_request("AAPL,MSFT", "access"),
        HttpRequest {
            method: Method::Get,
            url: "https://api.schwabapi.com/marketdata/v1/quotes?symbols=AAPL,MSFT&fields=closePrice,netPercentChange"
                .to_string(),
            headers: vec![
                ("Authorization".to_string(), "Bearer access".to_string()),
                ("Accept".to_string(), "application/json".to_string()),
            ],
            body: None,
        }
    );
    assert_eq!(price_key("AAPL"), "last_price_AAPL");
}

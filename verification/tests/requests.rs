use schwab_worker::access::check_authorized;
use schwab_worker::fetch::{fetch, FetchState, Setting, HISTORY_QUERY};
use schwab_worker::fields::Fields;
use schwab_worker::platform::{
    Action, Endpoint, Event, HistoryRow, Method, Payload, PreProcessedRow, Price, Reply, SqlValue,
};
use schwab_worker::routes::history::{handle_history, HistoryState, LONG_HISTORY_QUERY};
use schwab_worker::routing::{cors_policy, routes, FALLBACK_PATTERN};

/// A host with a store in memory.
struct Host {
    secret: Option<String>,
    store: Vec<(String, String)>,
    object: Option<Vec<u8>>,
    touched: usize,
}

/// What a client sends.
struct Call {
    method: Method,
    endpoint: Endpoint,
    header: Option<String>,
    symbol: Option<String>,
    fields: Vec<(String, String)>,
}

fn host() -> Host {
    Host { secret: Some("s3cret".to_string()), store: Vec::new(), object: None, touched: 0 }
}

fn call(method: Method, endpoint: Endpoint) -> Call {
    Call {
        method,
        endpoint,
        header: Some("s3cret".to_string()),
        symbol: None,
        fields: Vec::new(),
    }
}

fn put(endpoint: Endpoint, name: &str, value: &str) -> Call {
    let mut call = call(Method::Put, endpoint);
    call.fields.push((name.to_string(), value.to_string()));
    call
}

fn row() -> PreProcessedRow {
    PreProcessedRow {
        symbol: "AAPL".to_string(),
        price: None,
        diff: Some(Price { bits: (1.5f64).to_bits() }),
        scraped_at: "2026-01-01".to_string(),
    }
}

fn long_row() -> HistoryRow {
    HistoryRow {
        symbol: "AAPL".to_string(),
        last_price: Some(Price { bits: (200.0f64).to_bits() }),
        diff: None,
        scraped_at: "2026-01-01".to_string(),
    }
}

fn stored(host: &Host, key: &str) -> Option<String> {
    host.store.iter().rev().find(|entry| entry.0 == key).map(|entry| entry.1.clone())
}

fn serve(host: &mut Host, call: &Call) -> Option<Reply> {
    let mut state = FetchState::Start;
    let mut event = Event::Received { method: call.method };
    let mut answers = 0;
    loop {
        assert!(answers < 9);
        answers += 1;
        let (next, action) = fetch(state, event);
        state = next;
        event = match action {
            Action::OpenBucket { binding } => {
                assert_eq!(binding, "SCHWAB_BUCKET");
                Event::Done
            }
            Action::Dispatch => Event::Routed { endpoint: call.endpoint },
            Action::ReadHeader { name } => {
                assert_eq!(name, "X-Secret-Key");
                Event::Text { text: call.header.clone() }
            }
            Action::ReadSecret { name } => {
                assert_eq!(name, "WORKER_SECRET");
                match &host.secret {
                    Some(secret) => Event::Text { text: Some(secret.clone()) },
                    None => Event::Failed,
                }
            }
            Action::ReadParam { name } => {
                assert_eq!(name, "symbol");
                Event::Text { text: call.symbol.clone() }
            }
            Action::ReadBody => {
                let mut fields = Fields::new();
                for (name, value) in &call.fields {
                    fields.insert(name.clone(), value.clone());
                }
                Event::Body { fields }
            }
            Action::OpenStore { binding } => {
                assert_eq!(binding, "SCHWAB_STORE");
                host.touched += 1;
                Event::Done
            }
            Action::OpenDatabase { binding } => {
                assert_eq!(binding, "SCHWAB_DB");
                host.touched += 1;
                Event::Done
            }
            Action::Load { key } => Event::Text { text: stored(host, &key) },
            Action::Save { key, value } => {
                host.store.push((key, value));
                Event::Done
            }
            Action::LoadObject { key } => {
                assert_eq!(key, "all_tickers.txt");
                host.touched += 1;
                Event::Object { bytes: host.object.clone() }
            }
            Action::Prepare { statement, parameters } => {
                assert_eq!(statement, HISTORY_QUERY);
                assert_eq!(parameters, vec![SqlValue::Text("AAPL".to_string())]);
                Event::Done
            }
            Action::FetchAll => Event::Rows { rows: vec![row()] },
            Action::Respond { reply } => return Some(reply),
            Action::Abort => return None,
            other => panic!("unexpected action {:?}", other),
        };
    }
}

fn refusal(message: &str, status: u16) -> Reply {
    Reply { status, payload: Payload::Message(message.to_string()), headers: vec![], cors: false }
}

fn data(payload: Payload, content_type: &str, cache_control: &str, cors: bool) -> Reply {
    Reply {
        status: 200,
        payload,
        headers: vec![
            ("Content-Type".to_string(), content_type.to_string()),
            ("Cache-Control".to_string(), cache_control.to_string()),
        ],
        cors,
    }
}

#[test]
fn preflight_is_answered_at_once() {
    let (state, action) =
        fetch(FetchState::Start, Event::Received { method: Method::Options });
    assert_eq!(state, FetchState::Finished);
    assert_eq!(
        action,
        Action::Respond {
            reply: Reply { status: 200, payload: Payload::Empty, headers: vec![], cors: true }
        }
    );
}

#[test]
fn wrong_secret_is_refused_everywhere() {
    let endpoints = [
        Endpoint::History,
        Endpoint::PutSymbols,
        Endpoint::GetSymbols,
        Endpoint::PutCollecting,
        Endpoint::GetCollecting,
        Endpoint::AllSymbols,
    ];
    for endpoint in endpoints {
        for header in [None, Some("guess".to_string()), Some(String::new())] {
            let mut host = host();
            let mut request = call(Method::Get, endpoint);
            request.header = header;
            assert_eq!(
                serve(&mut host, &request),
                Some(refusal("Unauthorized connection", 401))
            );
            assert_eq!(host.touched, 0);
            assert!(host.store.is_empty());
        }
    }
}

#[test]
fn header_and_secret_must_agree() {
    let some = |text: &str| Some(text.to_string());
    assert!(check_authorized(&some("a"), &some("a")));
    assert!(!check_authorized(&some("a"), &some("b")));
    assert!(!check_authorized(&None, &some("a")));
    assert!(!check_authorized(&some("a"), &None));
    assert!(check_authorized(&None, &None));
}

#[test]
fn header_without_configured_secret_is_refused() {
    let mut host = host();
    host.secret = None;
    let request = call(Method::Get, Endpoint::GetSymbols);
    assert_eq!(serve(&mut host, &request), Some(refusal("Unauthorized connection", 401)));
    let mut request = call(Method::Get, Endpoint::GetSymbols);
    request.header = None;
    assert_eq!(
        serve(&mut host, &request),
        Some(data(Payload::Bytes(vec![]), "application/text", "private, no-cache", true))
    );
}

#[test]
fn unreadable_header_counts_as_absent() {
    let (state, _) = fetch(
        FetchState::ReadingHeader { endpoint: Endpoint::GetSymbols },
        Event::Failed,
    );
    assert_eq!(
        state,
        FetchState::ReadingSecret { endpoint: Endpoint::GetSymbols, header: None }
    );
}

#[test]
fn unknown_path_is_not_found() {
    let mut host = host();
    let mut request = call(Method::Get, Endpoint::Unknown);
    request.header = None;
    assert_eq!(serve(&mut host, &request), Some(refusal("Not Found", 404)));
}

#[test]
fn symbols_read_back_as_written() {
    let mut host = host();
    let reply = serve(&mut host, &put(Endpoint::PutSymbols, "symbols", "AAPL,MSFT,\u{00fc}"));
    assert_eq!(reply, Some(refusal("Symbols updated successfully", 200)));
    assert_eq!(stored(&host, "symbols"), Some("AAPL,MSFT,\u{00fc}".to_string()));
    let reply = serve(&mut host, &call(Method::Get, Endpoint::GetSymbols));
    assert_eq!(
        reply,
        Some(data(
            Payload::Bytes("AAPL,MSFT,\u{00fc}".as_bytes().to_vec()),
            "application/text",
            "private, no-cache",
            true
        ))
    );
}

#[test]
fn symbols_that_were_never_written_read_as_empty() {
    let mut host = host();
    let reply = serve(&mut host, &call(Method::Get, Endpoint::GetSymbols));
    assert_eq!(
        reply,
        Some(data(Payload::Bytes(vec![]), "application/text", "private, no-cache", true))
    );
}

#[test]
fn collecting_reads_back_as_written() {
    for (value, message) in
        [("true", "data collection started"), ("false", "data collection stopped")]
    {
        let mut host = host();
        let reply = serve(&mut host, &put(Endpoint::PutCollecting, "value", value));
        assert_eq!(reply, Some(refusal(message, 200)));
        let reply = serve(&mut host, &call(Method::Get, Endpoint::GetCollecting));
        assert_eq!(
            reply,
            Some(data(
                Payload::Bytes(value.as_bytes().to_vec()),
                "application/text",
                "private, no-cache",
                true
            ))
        );
        assert_eq!(stored(&host, "symbols"), None);
    }
}

#[test]
fn other_values_of_collecting_are_refused() {
    for value in ["", "True", "FALSE", "1", " true", "true "] {
        let mut host = host();
        let reply = serve(&mut host, &put(Endpoint::PutCollecting, "value", value));
        assert_eq!(reply, Some(refusal("value should be \"true\" or \"false\"", 400)));
        assert!(host.store.is_empty());
    }
}

#[test]
fn missing_members_are_refused() {
    let mut host = host();
    let reply = serve(&mut host, &put(Endpoint::PutSymbols, "value", "AAPL"));
    assert_eq!(reply, Some(refusal("Missing 'symbols' in request body", 400)));
    let reply = serve(&mut host, &put(Endpoint::PutCollecting, "symbols", "true"));
    assert_eq!(reply, Some(refusal("Missing \"value\" field in request body", 400)));
    assert!(host.store.is_empty());
    assert_eq!(host.touched, 0);
}

#[test]
fn the_last_of_two_equal_members_counts() {
    let mut host = host();
    let mut request = put(Endpoint::PutSymbols, "symbols", "AAPL");
    request.fields.push(("symbols".to_string(), "MSFT".to_string()));
    serve(&mut host, &request);
    assert_eq!(stored(&host, "symbols"), Some("MSFT".to_string()));
}

#[test]
fn history_of_a_symbol() {
    let mut host = host();
    let mut request = call(Method::Get, Endpoint::History);
    request.symbol = Some("AAPL".to_string());
    assert_eq!(
        serve(&mut host, &request),
        Some(data(Payload::Rows(vec![row()]), "application/text", "private, no-cache", true))
    );
    assert_eq!(
        HISTORY_QUERY,
        "SELECT symbol, last_price, diff, scraped_at FROM (SELECT symbol, last_price, diff, scraped_at FROM stock_quotes WHERE symbol = ? ORDER BY scraped_at DESC LIMIT 500) ORDER BY scraped_at"
    );
}

#[test]
fn history_without_a_symbol_is_refused() {
    let mut host = host();
    let request = call(Method::Get, Endpoint::History);
    assert_eq!(serve(&mut host, &request), Some(refusal("Bad request parameters", 400)));
}

#[test]
fn all_symbols_come_from_the_object_storage() {
    let mut host = host();
    let request = call(Method::Get, Endpoint::AllSymbols);
    assert_eq!(serve(&mut host, &request), Some(refusal("Object not found", 404)));
    host.object = Some(vec![65, 10, 255]);
    assert_eq!(
        serve(&mut host, &request),
        Some(data(
            Payload::Bytes(vec![65, 10, 255]),
            "application/text",
            "public, max-age=3600",
            true
        ))
    );
}

#[test]
fn a_failing_host_ends_a_request() {
    for state in [
        FetchState::BindingBucket,
        FetchState::BindingDatabase,
        FetchState::PreparingHistory,
        FetchState::FetchingHistory,
        FetchState::ReadingBody { setting: Setting::Symbols },
        FetchState::Saving { message: "done".to_string() },
        FetchState::Loading,
        FetchState::LoadingObject,
    ] {
        assert_eq!(fetch(state, Event::Failed), (FetchState::Finished, Action::Abort));
    }
    assert_eq!(
        fetch(FetchState::Finished, Event::Done),
        (FetchState::Finished, Action::Abort)
    );
}

#[test]
fn settings_have_their_own_keys() {
    assert_eq!(Setting::Symbols.key(), "symbols");
    assert_eq!(Setting::Symbols.member(), "symbols");
    assert_eq!(Setting::Collecting.key(), "collecting");
    assert_eq!(Setting::Collecting.member(), "value");
}

#[test]
fn long_history_of_a_symbol() {
    let (state, action) = handle_history(HistoryState::Start, Event::Begin);
    assert_eq!(action, Action::OpenDatabase { binding: "SCHWAB_DB".to_string() });
    let (state, action) = handle_history(state, Event::Done);
    assert_eq!(action, Action::ReadParam { name: "symbol".to_string() });
    let (refused, action) = handle_history(state, Event::Text { text: None });
    assert_eq!(refused, HistoryState::Finished);
    assert_eq!(action, Action::Respond { reply: refusal("Bad request parameters", 400) });
    let (state, action) = handle_history(state, Event::Text { text: Some("AAPL".to_string()) });
    assert_eq!(
        action,
        Action::Prepare {
            statement: LONG_HISTORY_QUERY.to_string(),
            parameters: vec![SqlValue::Text("AAPL".to_string())],
        }
    );
    assert!(LONG_HISTORY_QUERY.ends_with("LIMIT 2500"));
    let (state, action) = handle_history(state, Event::Done);
    assert_eq!(action, Action::FetchHistory);
    let (failed, action) = handle_history(state, Event::Failed);
    assert_eq!((failed, action), (HistoryState::Finished, Action::Abort));
    let (other, action) = handle_history(state, Event::Rows { rows: vec![row()] });
    assert_eq!((other, action), (HistoryState::Finished, Action::Abort));
    let (state, action) = handle_history(state, Event::History { history: vec![long_row()] });
    assert_eq!(state, HistoryState::Finished);
    assert_eq!(
        action,
        Action::Respond {
            reply: data(
                Payload::History(vec![long_row()]),
                "application/json",
                "private, no-cache",
                false
            )
        }
    );
}

#[test]
fn routes_lead_to_their_endpoints() {
    let table: Vec<(Method, String, Endpoint)> =
        routes().into_iter().map(|route| (route.method, route.pattern, route.endpoint)).collect();
    assert_eq!(
        table,
        vec![
            (Method::Get, "/history/:symbol".to_string(), Endpoint::History),
            (Method::Put, "/symbols".to_string(), Endpoint::PutSymbols),
            (Method::Get, "/symbols".to_string(), Endpoint::GetSymbols),
            (Method::Put, "/collecting".to_string(), Endpoint::PutCollecting),
            (Method::Get, "/collecting".to_string(), Endpoint::GetCollecting),
            (Method::Get, "/all_symbols".to_string(), Endpoint::AllSymbols),
        ]
    );
    assert_eq!(FALLBACK_PATTERN, "/:any");
}

#[test]
fn cross_origin_policy() {
    let policy = cors_policy();
    assert_eq!(policy.origins, vec!["http://127.0.0.1:8080"]);
    assert_eq!(policy.methods, vec![Method::Get, Method::Put, Method::Options]);
    assert_eq!(
        policy.allowed_headers,
        vec!["Content-Type", "Authorization", "Cache-Control", "X-Secret-Key"]
    );
}

//! What each endpoint gives its clients, spelled out: on a host that never fails, for a request
//! that is not a preflight.
use vstd::prelude::*;

use crate::fetch::{FetchStateView, Setting};
use crate::host::{Host, Request, World};
use crate::platform::{
    ActionView, Endpoint, EventView, Method, PayloadView, ReplyView, SqlValueView,
};
use crate::routing::RouteView;

verus! {

/// The newest ticks of a symbol: the reply carries every row that the query for the symbol gave,
/// in the order of the query, and nothing that is kept changes.
pub proof fn law_history_carries_every_row(host: Host, request: Request, world: World)
    requires
        request.method != Method::Options,
        request.endpoint == Endpoint::History,
        request.headers.dom().contains("X-Secret-Key"@) == host.secrets.dom().contains(
            "WORKER_SECRET"@,
        ),
        request.headers.dom().contains("X-Secret-Key"@) ==> request.headers["X-Secret-Key"@]
            == host.secrets["WORKER_SECRET"@],
    ensures
        crate::fetch_laws::serve(host, request, world) matches Some((after, reply)) && {
            &&& after.store == world.store
            &&& after.executed == world.executed
            &&& request.params.dom().contains("symbol"@) ==> {
                let rows = (host.rows)(
                    "SELECT symbol, last_price, diff, scraped_at FROM (SELECT symbol, last_price, diff, scraped_at FROM stock_quotes WHERE symbol = ? ORDER BY scraped_at DESC LIMIT 500) ORDER BY scraped_at"@,
                    seq![SqlValueView::Text(request.params["symbol"@])],
                );
                &&& reply.status == 200
                &&& reply.payload == PayloadView::Rows(rows)
                &&& reply.headers == seq![
                    ("Content-Type"@, "application/text"@),
                    ("Cache-Control"@, "private, no-cache"@),
                ]
                &&& reply.cors
            }
            &&& !request.params.dom().contains("symbol"@) ==> {
                &&& reply.status == 400
                &&& reply.payload == PayloadView::Message("Bad request parameters"@)
                &&& reply.headers.len() == 0
                &&& !reply.cors
            }
        },
{
    crate::fetch_laws::law_requests_have_their_outcome(host, request, world);
}

/// Writing the symbols: the store holds the text exactly as the client sent it, whatever it is,
/// and nothing else changes; a body without it is refused and changes nothing.
pub proof fn law_symbols_are_stored_as_sent(
    host: Host,
    request: Request,
    world: World,
    key: Seq<char>,
)
    requires
        request.method != Method::Options,
        request.endpoint == Endpoint::PutSymbols,
        request.headers.dom().contains("X-Secret-Key"@) == host.secrets.dom().contains(
            "WORKER_SECRET"@,
        ),
        request.headers.dom().contains("X-Secret-Key"@) ==> request.headers["X-Secret-Key"@]
            == host.secrets["WORKER_SECRET"@],
    ensures
        crate::fetch_laws::serve(host, request, world) matches Some((after, reply)) && {
            &&& after.executed == world.executed
            &&& reply.headers.len() == 0
            &&& !reply.cors
            &&& key != "symbols"@ ==> after.store.dom().contains(key)
                == world.store.dom().contains(key) && after.store[key] == world.store[key]
            &&& request.fields.dom().contains("symbols"@) ==> {
                &&& after.store.dom().contains("symbols"@)
                &&& after.store["symbols"@] == request.fields["symbols"@]
                &&& reply.status == 200
                &&& reply.payload == PayloadView::Message("Symbols updated successfully"@)
            }
            &&& !request.fields.dom().contains("symbols"@) ==> {
                &&& after.store == world.store
                &&& reply.status == 400
                &&& reply.payload == PayloadView::Message("Missing 'symbols' in request body"@)
            }
        },
{
    crate::fetch_laws::law_requests_have_their_outcome(host, request, world);
}

/// Turning the switch: the store holds `true` or `false` as the client sent it and nothing else
/// changes; any other text, or none, is refused and changes nothing.
pub proof fn law_switch_is_stored_as_sent(
    host: Host,
    request: Request,
    world: World,
    key: Seq<char>,
)
    requires
        request.method != Method::Options,
        request.endpoint == Endpoint::PutCollecting,
        request.headers.dom().contains("X-Secret-Key"@) == host.secrets.dom().contains(
            "WORKER_SECRET"@,
        ),
        request.headers.dom().contains("X-Secret-Key"@) ==> request.headers["X-Secret-Key"@]
            == host.secrets["WORKER_SECRET"@],
    ensures
        crate::fetch_laws::serve(host, request, world) matches Some((after, reply)) && {
            let sent = request.fields.dom().contains("value"@);
            let value = request.fields["value"@];
            &&& after.executed == world.executed
            &&& reply.headers.len() == 0
            &&& !reply.cors
            &&& key != "collecting"@ ==> after.store.dom().contains(key)
                == world.store.dom().contains(key) && after.store[key] == world.store[key]
            &&& sent && (value == "true"@ || value == "false"@) ==> {
                &&& after.store.dom().contains("collecting"@)
                &&& after.store["collecting"@] == value
                &&& reply.status == 200
            }
            &&& sent && value == "true"@ ==> reply.payload == PayloadView::Message(
                "data collection started"@,
            )
            &&& sent && value == "false"@ ==> reply.payload == PayloadView::Message(
                "data collection stopped"@,
            )
            &&& sent && value != "true"@ && value != "false"@ ==> {
                &&& after.store == world.store
                &&& reply.status == 400
                &&& reply.payload == PayloadView::Message(
                    "value should be \"true\" or \"false\""@,
                )
            }
            &&& !sent ==> {
                &&& after.store == world.store
                &&& reply.status == 400
                &&& reply.payload == PayloadView::Message(
                    "Missing \"value\" field in request body"@,
                )
            }
        },
{
    crate::text::lemma_bool_spellings();
    crate::fetch_laws::law_requests_have_their_outcome(host, request, world);
}

/// Reading a setting: the reply carries the bytes of the stored text, all of them, and none where
/// nothing is stored; nothing that is kept changes.
pub proof fn law_settings_are_read_as_stored(host: Host, request: Request, world: World)
    requires
        request.method != Method::Options,
        request.endpoint == Endpoint::GetSymbols || request.endpoint == Endpoint::GetCollecting,
        request.headers.dom().contains("X-Secret-Key"@) == host.secrets.dom().contains(
            "WORKER_SECRET"@,
        ),
        request.headers.dom().contains("X-Secret-Key"@) ==> request.headers["X-Secret-Key"@]
            == host.secrets["WORKER_SECRET"@],
    ensures
        crate::fetch_laws::serve(host, request, world) matches Some((after, reply)) && {
            let key = if request.endpoint == Endpoint::GetSymbols {
                "symbols"@
            } else {
                "collecting"@
            };
            &&& after == world
            &&& reply.status == 200
            &&& reply.headers == seq![
                ("Content-Type"@, "application/text"@),
                ("Cache-Control"@, "private, no-cache"@),
            ]
            &&& reply.cors
            &&& world.store.dom().contains(key) ==> reply.payload == PayloadView::Bytes(
                vstd::utf8::encode_utf8(world.store[key]),
            )
            &&& !world.store.dom().contains(key) ==> (reply.payload matches PayloadView::Bytes(
                bytes,
            ) && bytes.len() == 0)
        },
{
    crate::fetch_laws::law_requests_have_their_outcome(host, request, world);
}

/// All symbols: the reply carries the whole object, and its absence is told; nothing that is kept
/// changes.
pub proof fn law_all_symbols_are_the_object(host: Host, request: Request, world: World)
    requires
        request.method != Method::Options,
        request.endpoint == Endpoint::AllSymbols,
        request.headers.dom().contains("X-Secret-Key"@) == host.secrets.dom().contains(
            "WORKER_SECRET"@,
        ),
        request.headers.dom().contains("X-Secret-Key"@) ==> request.headers["X-Secret-Key"@]
            == host.secrets["WORKER_SECRET"@],
    ensures
        crate::fetch_laws::serve(host, request, world) matches Some((after, reply)) && {
            &&& after == world
            &&& host.objects.dom().contains("all_tickers.txt"@) ==> {
                &&& reply.status == 200
                &&& reply.payload == PayloadView::Bytes(host.objects["all_tickers.txt"@])
                &&& reply.headers == seq![
                    ("Content-Type"@, "application/text"@),
                    ("Cache-Control"@, "public, max-age=3600"@),
                ]
                &&& reply.cors
            }
            &&& !host.objects.dom().contains("all_tickers.txt"@) ==> {
                &&& reply.status == 404
                &&& reply.payload == PayloadView::Message("Object not found"@)
                &&& reply.headers.len() == 0
                &&& !reply.cors
            }
        },
{
    crate::fetch_laws::law_requests_have_their_outcome(host, request, world);
}

/// A client passes where the header is the configured secret, or where neither is there; whoever
/// does not is told so at every endpoint and changes nothing.
pub proof fn law_guard_compares_header_and_secret(host: Host, request: Request, world: World)
    requires
        request.method != Method::Options,
        request.endpoint != Endpoint::Unknown,
    ensures
        crate::fetch_laws::serve(host, request, world) matches Some((after, reply)) && {
            let presented = request.headers.dom().contains("X-Secret-Key"@);
            let configured = host.secrets.dom().contains("WORKER_SECRET"@);
            let passes = presented == configured && (presented ==> request.headers["X-Secret-Key"@]
                == host.secrets["WORKER_SECRET"@]);
            &&& passes <==> reply.status != 401
            &&& !passes ==> after == world && reply.payload == PayloadView::Message(
                "Unauthorized connection"@,
            ) && reply.headers.len() == 0 && !reply.cors
        },
{
    crate::fetch_laws::law_requests_have_their_outcome(host, request, world);
}

/// A path that leads nowhere is told so, to anybody, and a preflight is answered with the policy
/// alone, whatever its path and headers.
pub proof fn law_strangers_are_answered(host: Host, request: Request, world: World)
    requires
        request.method == Method::Options || request.endpoint == Endpoint::Unknown,
    ensures
        crate::fetch_laws::serve(host, request, world) matches Some((after, reply)) && {
            &&& after == world
            &&& reply.headers.len() == 0
            &&& request.method == Method::Options ==> reply.status == 200 && reply.payload
                == PayloadView::Empty && reply.cors
            &&& request.method != Method::Options ==> reply.status == 404 && reply.payload
                == PayloadView::Message("Not Found"@) && !reply.cors
        },
{
    crate::fetch_laws::law_requests_have_their_outcome(host, request, world);
}

/// A host that fails ends a request with its error, except where it fails to hand over the header
/// or the secret, which then counts as absent.
pub proof fn law_failure_ends_a_request(state: FetchStateView)
    ensures
        match state {
            FetchStateView::ReadingHeader { endpoint } => crate::fetch::fetch_step(
                state,
                EventView::Failed,
            ) == crate::fetch::fetch_step(state, EventView::Text { text: None }),
            FetchStateView::ReadingSecret { endpoint, header } => crate::fetch::fetch_step(
                state,
                EventView::Failed,
            ) == crate::fetch::fetch_step(state, EventView::Text { text: None }),
            _ => crate::fetch::fetch_step(state, EventView::Failed) == (
                FetchStateView::Finished,
                ActionView::Abort,
            ),
        },
{
}

/// The bindings that the endpoints ask for have their names.
pub proof fn law_bindings_have_their_names(state: FetchStateView, event: EventView)
    ensures
        match crate::fetch::fetch_step(state, event).1 {
            ActionView::OpenBucket { binding } => binding == "SCHWAB_BUCKET"@,
            ActionView::OpenStore { binding } => binding == "SCHWAB_STORE"@,
            ActionView::OpenDatabase { binding } => binding == "SCHWAB_DB"@,
            _ => true,
        },
{
}

/// The error replies and the confirmations carry the message that they are given, and data replies
/// their payload with the two headers.
pub proof fn law_replies_carry_what_they_are_given(
    message: Seq<char>,
    status: u16,
    payload: PayloadView,
    content_type: Seq<char>,
    cache_control: Seq<char>,
    cors: bool,
)
    ensures
        ({
            let reply: ReplyView = crate::replies::error_reply_view(message, status);
            &&& reply.status == status
            &&& reply.payload == PayloadView::Message(message)
            &&& reply.headers.len() == 0
            &&& !reply.cors
        }),
        ({
            let reply: ReplyView = crate::replies::ok_reply_view(message);
            &&& reply.status == 200
            &&& reply.payload == PayloadView::Message(message)
            &&& reply.headers.len() == 0
            &&& !reply.cors
        }),
        ({
            let reply: ReplyView = crate::replies::data_reply_view(
                payload,
                content_type,
                cache_control,
                cors,
            );
            &&& reply.status == 200
            &&& reply.payload == payload
            &&& reply.headers == seq![
                ("Content-Type"@, content_type),
                ("Cache-Control"@, cache_control),
            ]
            &&& reply.cors == cors
        }),
        ({
            let reply: ReplyView = crate::replies::preflight_reply_view();
            &&& reply.status == 200
            &&& reply.payload == PayloadView::Empty
            &&& reply.headers.len() == 0
            &&& reply.cors
        }),
{
}

/// The two settings stand under their own keys and come under their own members.
pub proof fn law_settings_have_their_names(setting: Setting)
    ensures
        setting == Setting::Symbols ==> setting.key_view() == "symbols"@ && setting.member_view()
            == "symbols"@ && setting.missing_view() == "Missing 'symbols' in request body"@,
        setting == Setting::Collecting ==> setting.key_view() == "collecting"@
            && setting.member_view() == "value"@ && setting.missing_view()
            == "Missing \"value\" field in request body"@,
{
}

/// Every endpoint is reached by one method and one path.
pub proof fn law_endpoints_are_reached(endpoint: Endpoint)
    requires
        endpoint != Endpoint::Unknown,
    ensures
        crate::routing::routes_view().len() == 6,
        crate::routing::routes_view().contains(
            match endpoint {
                Endpoint::History => RouteView {
                    method: Method::Get,
                    pattern: "/history/:symbol"@,
                    endpoint,
                },
                Endpoint::PutSymbols => RouteView {
                    method: Method::Put,
                    pattern: "/symbols"@,
                    endpoint,
                },
                Endpoint::GetSymbols => RouteView {
                    method: Method::Get,
                    pattern: "/symbols"@,
                    endpoint,
                },
                Endpoint::PutCollecting => RouteView {
                    method: Method::Put,
                    pattern: "/collecting"@,
                    endpoint,
                },
                Endpoint::GetCollecting => RouteView {
                    method: Method::Get,
                    pattern: "/collecting"@,
                    endpoint,
                },
                _ => RouteView { method: Method::Get, pattern: "/all_symbols"@, endpoint },
            },
        ),
{
    let table = crate::routing::routes_view();
    assert(table[0].endpoint == Endpoint::History);
    assert(table[1].endpoint == Endpoint::PutSymbols);
    assert(table[2].endpoint == Endpoint::GetSymbols);
    assert(table[3].endpoint == Endpoint::PutCollecting);
    assert(table[4].endpoint == Endpoint::GetCollecting);
    assert(table[5].endpoint == Endpoint::AllSymbols);
}

/// A request goes on only with the answer that it waits for; any other ends it.
pub proof fn law_only_awaited_answers_count(state: FetchStateView, event: EventView)
    ensures
        match (state, event) {
            (FetchStateView::Start, EventView::Received { .. }) => true,
            (FetchStateView::BindingBucket, EventView::Done) => true,
            (FetchStateView::Dispatching, EventView::Routed { .. }) => true,
            (FetchStateView::ReadingHeader { .. }, EventView::Text { .. }) => true,
            (FetchStateView::ReadingHeader { .. }, EventView::Failed) => true,
            (FetchStateView::ReadingSecret { .. }, EventView::Text { .. }) => true,
            (FetchStateView::ReadingSecret { .. }, EventView::Failed) => true,
            (FetchStateView::BindingDatabase, EventView::Done) => true,
            (FetchStateView::ReadingSymbol, EventView::Text { .. }) => true,
            (FetchStateView::PreparingHistory, EventView::Done) => true,
            (FetchStateView::FetchingHistory, EventView::Rows { .. }) => true,
            (FetchStateView::ReadingBody { .. }, EventView::Body { .. }) => true,
            (FetchStateView::BindingStoreToWrite { .. }, EventView::Done) => true,
            (FetchStateView::Saving { .. }, EventView::Done) => true,
            (FetchStateView::BindingStoreToRead { .. }, EventView::Done) => true,
            (FetchStateView::Loading, EventView::Text { .. }) => true,
            (FetchStateView::LoadingObject, EventView::Object { .. }) => true,
            _ => crate::fetch::fetch_step(state, event) == (
                FetchStateView::Finished,
                ActionView::Abort,
            ),
        },
{
}

/// A guarded endpoint asks for the header and the secret before anything else, whoever the client
/// is.
pub proof fn law_guard_comes_first(endpoint: Endpoint, header: EventView)
    requires
        endpoint != Endpoint::Unknown,
        header.handed_over() is Some,
    ensures
        ({
            let (asked, first) = crate::fetch::fetch_step(
                FetchStateView::Dispatching,
                EventView::Routed { endpoint },
            );
            let (_, second) = crate::fetch::fetch_step(asked, header);
            &&& first == (ActionView::ReadHeader { name: "X-Secret-Key"@ })
            &&& second == (ActionView::ReadSecret { name: "WORKER_SECRET"@ })
        }),
{
}

} // verus!

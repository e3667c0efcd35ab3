//! What holds of the request handler as a whole.
use vstd::prelude::*;

use crate::access::{SECRET_HEADER, WORKER_SECRET};
use crate::fetch::{FetchStateView, Setting, ALL_TICKERS, HISTORY_QUERY};
use crate::host::{Host, Request, World};
use crate::platform::{ActionView, Endpoint, EventView, Method, PayloadView, ReplyView, SqlValueView};

verus! {

/// The action that the handler emits last when it is fed some events, one after the other.
pub open spec fn last_action(state: FetchStateView, events: Seq<EventView>) -> ActionView
    recommends
        events.len() > 0,
    decreases events.len(),
{
    let (next, action) = crate::fetch::fetch_step(state, events[0]);
    if events.len() <= 1 {
        action
    } else {
        last_action(next, events.skip(1))
    }
}

/// How many more answers of the host the handler can take before it ends.
pub open spec fn answers_left(state: FetchStateView) -> nat {
    match state {
        FetchStateView::Start => 9,
        FetchStateView::BindingBucket => 8,
        FetchStateView::Dispatching => 7,
        FetchStateView::ReadingHeader { .. } => 6,
        FetchStateView::ReadingSecret { .. } => 5,
        FetchStateView::BindingDatabase => 4,
        FetchStateView::ReadingSymbol => 3,
        FetchStateView::PreparingHistory => 2,
        FetchStateView::FetchingHistory => 1,
        FetchStateView::ReadingBody { .. } => 3,
        FetchStateView::BindingStoreToWrite { .. } => 2,
        FetchStateView::Saving { .. } => 1,
        FetchStateView::BindingStoreToRead { .. } => 2,
        FetchStateView::Loading => 1,
        FetchStateView::LoadingObject => 1,
        FetchStateView::Finished => 0,
    }
}

/// Each answer of the host, whatever it is, ends the handler or brings it nearer to its end, so
/// that a request is answered or given up after at most nine answers.
pub proof fn law_fetch_ends(state: FetchStateView, event: EventView)
    ensures
        ({
            let (next, action) = crate::fetch::fetch_step(state, event);
            &&& action.is_final() ==> next == FetchStateView::Finished
            &&& !action.is_final() ==> answers_left(next) < answers_left(state)
        }),
        answers_left(state) <= 9,
{
}

/// A handler that has ended does nothing more, whatever it is told.
pub proof fn law_finished_fetch_is_silent(events: Seq<EventView>)
    requires
        events.len() > 0,
    ensures
        last_action(FetchStateView::Finished, events) == ActionView::Abort,
    decreases events.len(),
{
    if events.len() > 1 {
        law_finished_fetch_is_silent(events.skip(1));
    }
}

/// A request whose header is not the configured secret is answered 401, and neither before nor
/// after that answer, whatever the host goes on to say, is anything stored read or written.
pub proof fn law_unauthorized_is_refused(
    endpoint: Endpoint,
    header: EventView,
    secret: EventView,
    rest: Seq<EventView>,
)
    requires
        endpoint != Endpoint::Unknown,
        header.handed_over() is Some,
        secret.handed_over() is Some,
        header.handed_over() != secret.handed_over(),
    ensures
        last_action(
            FetchStateView::Dispatching,
            seq![EventView::Routed { endpoint }, header, secret],
        ) == (ActionView::Respond {
            reply: crate::replies::error_reply_view("Unauthorized connection"@, 401),
        }),
        !last_action(
            FetchStateView::Dispatching,
            seq![EventView::Routed { endpoint }],
        ).touches_storage(),
        !last_action(
            FetchStateView::Dispatching,
            seq![EventView::Routed { endpoint }, header],
        ).touches_storage(),
        rest.len() > 0 ==> !last_action(
            FetchStateView::Dispatching,
            seq![EventView::Routed { endpoint }, header, secret] + rest,
        ).touches_storage(),
{
    let routed = EventView::Routed { endpoint };
    reveal_with_fuel(last_action, 4);
    let two = seq![routed, header];
    assert(two.skip(1) =~= seq![header]);
    let three = seq![routed, header, secret];
    assert(three.skip(1) =~= seq![header, secret]);
    assert(three.skip(1).skip(1) =~= seq![secret]);
    if rest.len() > 0 {
        let all = three + rest;
        assert(all.skip(1)[0] == header);
        assert(all.skip(1).skip(1)[0] == secret);
        assert(all.skip(1).skip(1).skip(1) =~= rest);
        law_finished_fetch_is_silent(rest);
    }
}

/// A preflight request is answered at once.
pub proof fn law_preflight_is_answered_at_once()
    ensures
        last_action(
            FetchStateView::Start,
            seq![EventView::Received { method: Method::Options }],
        ) == (ActionView::Respond { reply: crate::replies::preflight_reply_view() }),
{
}

/// Requests write nothing but the two settings, and the collecting switch only ever holds one of
/// the two truth values: tokens and prices are out of reach.
pub proof fn law_fetch_writes_settings_only(state: FetchStateView, event: EventView)
    ensures
        match crate::fetch::fetch_step(state, event).1 {
            ActionView::Save { key, value } => {
                ||| key == Setting::Symbols.key_view()
                ||| key == Setting::Collecting.key_view() && crate::text::bool_of(value) is Some
            },
            ActionView::Execute => false,
            _ => true,
        },
{
    crate::text::lemma_bool_spellings();
}

/// Whether a request that stands here can still come to write.
pub open spec fn may_write(state: FetchStateView) -> bool {
    match state {
        FetchStateView::Start => true,
        FetchStateView::BindingBucket => true,
        FetchStateView::Dispatching => true,
        FetchStateView::ReadingHeader { endpoint } => writes(endpoint),
        FetchStateView::ReadingSecret { endpoint, .. } => writes(endpoint),
        FetchStateView::ReadingBody { .. } => true,
        FetchStateView::BindingStoreToWrite { .. } => true,
        FetchStateView::Saving { .. } => true,
        _ => false,
    }
}

/// Whether an endpoint is one of the two that write.
pub open spec fn writes(endpoint: Endpoint) -> bool {
    endpoint == Endpoint::PutSymbols || endpoint == Endpoint::PutCollecting
}

/// A request that has been matched to an endpoint that only reads never writes.
pub proof fn law_readers_do_not_write(endpoint: Endpoint, events: Seq<EventView>)
    requires
        !writes(endpoint),
        events.len() > 0,
    ensures
        last_action(
            FetchStateView::Dispatching,
            seq![EventView::Routed { endpoint }] + events,
        ) !is Save,
{
    let all = seq![EventView::Routed { endpoint }] + events;
    assert(all.skip(1) =~= events);
    lemma_reading_stays_reading(
        crate::fetch::fetch_step(FetchStateView::Dispatching, all[0]).0,
        events,
    );
}

proof fn lemma_reading_stays_reading(state: FetchStateView, events: Seq<EventView>)
    requires
        !may_write(state),
        events.len() > 0,
    ensures
        last_action(state, events) !is Save,
    decreases events.len(),
{
    if events.len() > 1 {
        lemma_reading_stays_reading(
            crate::fetch::fetch_step(state, events[0]).0,
            events.skip(1),
        );
    }
}

/// No two routes share method and pattern, the endpoints that write stand behind `PUT` and all
/// others behind `GET`.
pub proof fn law_routes_are_distinct()
    ensures
        forall|i: int, j: int|
            #![trigger crate::routing::routes_view()[i], crate::routing::routes_view()[j]]
            0 <= i < j < crate::routing::routes_view().len() ==> {
                let (one, other) = (
                    crate::routing::routes_view()[i],
                    crate::routing::routes_view()[j],
                );
                &&& one.method != other.method || one.pattern != other.pattern
                &&& one.endpoint != other.endpoint
            },
        forall|i: int|
            #![trigger crate::routing::routes_view()[i]]
            0 <= i < crate::routing::routes_view().len() ==> {
                let route = crate::routing::routes_view()[i];
                &&& route.endpoint != Endpoint::Unknown
                &&& route.method == if writes(route.endpoint) {
                    Method::Put
                } else {
                    Method::Get
                }
            },
{
    reveal_strlit("/history/:symbol");
    reveal_strlit("/symbols");
    reveal_strlit("/collecting");
    reveal_strlit("/all_symbols");
    assert("/history/:symbol"@.len() == 16);
    assert("/symbols"@.len() == 8);
    assert("/collecting"@.len() == 11);
    assert("/all_symbols"@.len() == 12);
}

/// A run of the handler on a host that never fails: the world that it leaves and its reply.
pub open spec fn serve_from(
    host: Host,
    request: Request,
    world: World,
    state: FetchStateView,
    event: EventView,
    fuel: nat,
) -> Option<(World, ReplyView)>
    decreases fuel,
{
    if fuel == 0 {
        None
    } else {
        let (next, action) = crate::fetch::fetch_step(state, event);
        match action {
            ActionView::Respond { reply } => Some((world, reply)),
            ActionView::Abort => None,
            _ => {
                let (changed, answer) = crate::host::perform_for(host, request, world, action);
                serve_from(host, request, changed, next, answer, (fuel - 1) as nat)
            },
        }
    }
}

/// The whole run for a request.
pub open spec fn serve(host: Host, request: Request, world: World) -> Option<(World, ReplyView)> {
    serve_from(
        host,
        request,
        world,
        FetchStateView::Start,
        EventView::Received { method: request.method },
        9,
    )
}

/// The world that a request leaves.
pub open spec fn left_by(host: Host, request: Request, world: World) -> World {
    match serve(host, request, world) {
        Some((after, _)) => after,
        None => world,
    }
}

/// Whether a request carries the secret that the host has configured.
pub open spec fn authorized(host: Host, request: Request) -> bool {
    crate::host::lookup(request.headers, SECRET_HEADER@) == crate::host::lookup(
        host.secrets,
        WORKER_SECRET@,
    )
}

/// The outcome of writing a setting.
pub open spec fn put_outcome(request: Request, setting: Setting, world: World) -> (
    World,
    ReplyView,
) {
    match crate::host::lookup(request.fields, setting.member_view()) {
        None => (world, crate::replies::error_reply_view(setting.missing_view(), 400)),
        Some(value) => match setting {
            Setting::Symbols => (
                world.saved("symbols"@, value),
                crate::replies::ok_reply_view("Symbols updated successfully"@),
            ),
            Setting::Collecting => match crate::text::bool_of(value) {
                Some(true) => (
                    world.saved("collecting"@, "true"@),
                    crate::replies::ok_reply_view("data collection started"@),
                ),
                Some(false) => (
                    world.saved("collecting"@, "false"@),
                    crate::replies::ok_reply_view("data collection stopped"@),
                ),
                None => (
                    world,
                    crate::replies::error_reply_view(
                        "value should be \"true\" or \"false\""@,
                        400,
                    ),
                ),
            },
        },
    }
}

/// The outcome of an endpoint for a client that has been let in.
pub open spec fn endpoint_outcome(host: Host, request: Request, world: World) -> (
    World,
    ReplyView,
) {
    match request.endpoint {
        Endpoint::History => match crate::host::lookup(request.params, "symbol"@) {
            Some(symbol) => {
                let parameters = seq![SqlValueView::Text(symbol)];
                (
                    world.with_prepared(HISTORY_QUERY@, parameters),
                    crate::replies::data_reply_view(
                        PayloadView::Rows((host.rows)(HISTORY_QUERY@, parameters)),
                        "application/text"@,
                        "private, no-cache"@,
                        true,
                    ),
                )
            },
            None => (world, crate::replies::error_reply_view("Bad request parameters"@, 400)),
        },
        Endpoint::PutSymbols => put_outcome(request, Setting::Symbols, world),
        Endpoint::PutCollecting => put_outcome(request, Setting::Collecting, world),
        Endpoint::GetSymbols => (
            world,
            crate::fetch::setting_reply(crate::host::lookup(world.store, "symbols"@)),
        ),
        Endpoint::GetCollecting => (
            world,
            crate::fetch::setting_reply(crate::host::lookup(world.store, "collecting"@)),
        ),
        Endpoint::AllSymbols => match crate::host::lookup(host.objects, ALL_TICKERS@) {
            Some(bytes) => (
                world,
                crate::replies::data_reply_view(
                    PayloadView::Bytes(bytes),
                    "application/text"@,
                    "public, max-age=3600"@,
                    true,
                ),
            ),
            None => (world, crate::replies::error_reply_view("Object not found"@, 404)),
        },
        Endpoint::Unknown => (world, crate::replies::error_reply_view("Not Found"@, 404)),
    }
}

/// The outcome of a request.
pub open spec fn outcome(host: Host, request: Request, world: World) -> (World, ReplyView) {
    if request.method == Method::Options {
        (world, crate::replies::preflight_reply_view())
    } else if request.endpoint != Endpoint::Unknown && !authorized(host, request) {
        (world, crate::replies::error_reply_view("Unauthorized connection"@, 401))
    } else {
        endpoint_outcome(host, request, world)
    }
}

proof fn lemma_request_is_dispatched(host: Host, request: Request, world: World)
    requires
        request.method != Method::Options,
    ensures
        serve(host, request, world) == serve_from(
            host,
            request,
            world,
            FetchStateView::Dispatching,
            EventView::Routed { endpoint: request.endpoint },
            7,
        ),
{
    reveal_with_fuel(serve_from, 3);
}

proof fn lemma_client_is_checked(host: Host, request: Request, world: World)
    requires
        request.endpoint != Endpoint::Unknown,
    ensures
        ({
            let header = crate::host::lookup(request.headers, SECRET_HEADER@);
            let state = FetchStateView::ReadingSecret { endpoint: request.endpoint, header };
            let event = crate::host::perform_for(
                host,
                request,
                world,
                ActionView::ReadSecret { name: WORKER_SECRET@ },
            ).1;
            &&& serve_from(
                host,
                request,
                world,
                FetchStateView::Dispatching,
                EventView::Routed { endpoint: request.endpoint },
                7,
            ) == serve_from(host, request, world, state, event, 5)
            &&& crate::fetch::fetch_step(state, event) == if authorized(host, request) {
                crate::fetch::admitted(request.endpoint)
            } else {
                crate::fetch::refused("Unauthorized connection"@, 401)
            }
        }),
{
    reveal_with_fuel(serve_from, 3);
}

proof fn lemma_endpoint_answers(
    host: Host,
    request: Request,
    world: World,
    state: FetchStateView,
    event: EventView,
)
    requires
        request.endpoint != Endpoint::Unknown,
        crate::fetch::fetch_step(state, event) == crate::fetch::admitted(request.endpoint),
    ensures
        serve_from(host, request, world, state, event, 5) == Some(
            endpoint_outcome(host, request, world),
        ),
{
    match request.endpoint {
        Endpoint::History => {
            reveal_with_fuel(serve_from, 5);
        },
        Endpoint::PutSymbols => {
            reveal_with_fuel(serve_from, 4);
        },
        Endpoint::PutCollecting => {
            reveal_with_fuel(serve_from, 4);
        },
        Endpoint::GetSymbols => {
            reveal_with_fuel(serve_from, 3);
        },
        Endpoint::GetCollecting => {
            reveal_with_fuel(serve_from, 3);
        },
        Endpoint::AllSymbols => {
            reveal_with_fuel(serve_from, 2);
        },
        Endpoint::Unknown => {},
    }
}

/// On a host that never fails every request has the outcome that its endpoint promises.
pub proof fn law_requests_have_their_outcome(host: Host, request: Request, world: World)
    ensures
        serve(host, request, world) == Some(outcome(host, request, world)),
{
    if request.method != Method::Options {
        lemma_request_is_dispatched(host, request, world);
        if request.endpoint != Endpoint::Unknown {
            lemma_client_is_checked(host, request, world);
            if authorized(host, request) {
                let header = crate::host::lookup(request.headers, SECRET_HEADER@);
                let state = FetchStateView::ReadingSecret { endpoint: request.endpoint, header };
                let event = crate::host::perform_for(
                    host,
                    request,
                    world,
                    ActionView::ReadSecret { name: WORKER_SECRET@ },
                ).1;
                lemma_endpoint_answers(host, request, world, state, event);
            }
        }
    }
}

/// What is written as the symbols to track is what a later read gives back.
pub proof fn law_symbols_read_back(host: Host, put: Request, get: Request, world: World)
    requires
        put.method != Method::Options,
        put.endpoint == Endpoint::PutSymbols,
        put.fields.dom().contains("symbols"@),
        authorized(host, put),
        get.method != Method::Options,
        get.endpoint == Endpoint::GetSymbols,
        authorized(host, get),
    ensures
        serve(host, put, world) is Some,
        serve(host, get, left_by(host, put, world)) matches Some((_, reply)) && reply
            == crate::fetch::setting_reply(Some(put.fields["symbols"@])),
{
    law_requests_have_their_outcome(host, put, world);
    law_requests_have_their_outcome(host, get, left_by(host, put, world));
}

/// A truth value that is written to the collecting switch is what a later read gives back, and
/// anything else is refused and changes nothing.
pub proof fn law_collecting_reads_back(host: Host, put: Request, get: Request, world: World)
    requires
        put.method != Method::Options,
        put.endpoint == Endpoint::PutCollecting,
        put.fields.dom().contains("value"@),
        authorized(host, put),
        get.method != Method::Options,
        get.endpoint == Endpoint::GetCollecting,
        authorized(host, get),
    ensures
        serve(host, put, world) is Some,
        crate::text::bool_of(put.fields["value"@]) is Some ==> {
            serve(host, get, left_by(host, put, world)) matches Some((_, reply)) && reply
                == crate::fetch::setting_reply(Some(put.fields["value"@]))
        },
        crate::text::bool_of(put.fields["value"@]) is None ==> {
            serve(host, put, world) matches Some((after, reply)) && after == world && reply.status
                == 400
        },
{
    law_requests_have_their_outcome(host, put, world);
    law_requests_have_their_outcome(host, get, left_by(host, put, world));
}

/// The two settings do not get into each other's way: writing one leaves the other as it was.
pub proof fn law_settings_are_independent(host: Host, put: Request, world: World)
    requires
        writes(put.endpoint),
    ensures
        serve(host, put, world) matches Some((after, _)) && {
            let other = if put.endpoint == Endpoint::PutSymbols {
                Setting::Collecting.key_view()
            } else {
                Setting::Symbols.key_view()
            };
            crate::host::lookup(after.store, other) == crate::host::lookup(world.store, other)
        },
{
    law_requests_have_their_outcome(host, put, world);
    reveal_strlit("symbols");
    reveal_strlit("collecting");
    assert("symbols"@.len() != "collecting"@.len());
}

/// A request that is refused changes nothing in the store.
pub proof fn law_refusals_change_nothing(host: Host, request: Request, world: World)
    ensures
        serve(host, request, world) matches Some((after, reply)) && (reply.status != 200
            ==> after.store == world.store),
{
    law_requests_have_their_outcome(host, request, world);
}

} // verus!

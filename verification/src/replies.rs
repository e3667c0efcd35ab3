//! The shapes of reply that the endpoints share.
use vstd::prelude::*;

use crate::platform::{Payload, PayloadView, Reply, ReplyView};

verus! {

/// A reply that refuses a request.
pub open spec fn error_reply_view(message: Seq<char>, status: u16) -> ReplyView {
    ReplyView {
        status,
        payload: PayloadView::Message(message),
        headers: Seq::empty(),
        cors: false,
    }
}

/// A reply that confirms a request.
pub open spec fn ok_reply_view(message: Seq<char>) -> ReplyView {
    ReplyView {
        status: 200,
        payload: PayloadView::Message(message),
        headers: Seq::empty(),
        cors: false,
    }
}

/// A reply that carries data of the given type and says how long it may be kept.
pub open spec fn data_reply_view(
    payload: PayloadView,
    content_type: Seq<char>,
    cache_control: Seq<char>,
    cors: bool,
) -> ReplyView {
    ReplyView {
        status: 200,
        payload,
        headers: seq![
            ("Content-Type"@, content_type),
            ("Cache-Control"@, cache_control),
        ],
        cors,
    }
}

/// The reply to a cross-origin preflight request.
pub open spec fn preflight_reply_view() -> ReplyView {
    ReplyView { status: 200, payload: PayloadView::Empty, headers: Seq::empty(), cors: true }
}

/// A reply that refuses a request.
pub fn error_reply(message: &str, status: u16) -> (reply: Reply)
    ensures
        reply@ == error_reply_view(message@, status),
{
    let headers: Vec<(String, String)> = Vec::new();
    assert(headers.deep_view() =~= Seq::empty());
    Reply { status, payload: Payload::Message(message.to_owned()), headers, cors: false }
}

/// A reply that confirms a request.
pub fn ok_reply(message: String) -> (reply: Reply)
    ensures
        reply@ == ok_reply_view(message@),
{
    let headers: Vec<(String, String)> = Vec::new();
    assert(headers.deep_view() =~= Seq::empty());
    Reply { status: 200, payload: Payload::Message(message), headers, cors: false }
}

/// A reply that carries data of the given type and says how long it may be kept.
pub fn data_reply(payload: Payload, content_type: &str, cache_control: &str, cors: bool) -> (reply:
    Reply)
    ensures
        reply@ == data_reply_view(payload@, content_type@, cache_control@, cors),
{
    let mut headers: Vec<(String, String)> = Vec::new();
    headers.push(("Content-Type".to_owned(), content_type.to_owned()));
    headers.push(("Cache-Control".to_owned(), cache_control.to_owned()));
    assert(headers.deep_view() =~= seq![
        ("Content-Type"@, content_type@),
        ("Cache-Control"@, cache_control@),
    ]);
    Reply { status: 200, payload, headers, cors }
}

/// The reply to a cross-origin preflight request.
pub fn preflight_reply() -> (reply: Reply)
    ensures
        reply@ == preflight_reply_view(),
{
    let headers: Vec<(String, String)> = Vec::new();
    assert(headers.deep_view() =~= Seq::empty());
    Reply { status: 200, payload: Payload::Empty, headers, cors: true }
}

} // verus!

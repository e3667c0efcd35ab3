//! Who may use the worker's endpoints.
use vstd::prelude::*;

verus! {

/// The header in which a client presents the shared secret.
pub const SECRET_HEADER: &'static str = "X-Secret-Key";

/// The secret that the client has to present.
pub const WORKER_SECRET: &'static str = "WORKER_SECRET";

/// Whether a request that carries `header` may pass where `secret` is configured. Either is
/// `None` where it is absent or cannot be read; a request without the header therefore passes
/// exactly where no secret is configured.
pub fn check_authorized(header: &Option<String>, secret: &Option<String>) -> (allowed: bool)
    ensures
        allowed == (header.deep_view() == secret.deep_view()),
{
    match (header, secret) {
        (Some(presented), Some(expected)) => *presented == *expected,
        (None, None) => true,
        _ => false,
    }
}

} // verus!

//! A worker that keeps a list of stock symbols, collects their quotes on a schedule and serves
//! them to its clients.
//!
//! Every job of the worker is a state machine: a function from where it stands and what the host
//! answered to where it stands next and what the host is to do. The machines speak of the host
//! only through [`platform::Action`] and [`platform::Event`], so that all their decisions are
//! made, and proved, here.
//!
//! * [`fetch`], [`routing`], [`access`], [`replies`]: requests.
//! * [`scheduled`], [`refresh`], [`scrape`]: the background jobs.
//! * [`routes`], [`token`], [`password`]: clients that log in.
//! * [`codec`], [`text`], [`fields`]: what the others are made of.
//! * [`host`] models a host that never fails; [`fetch_laws`], [`scheduled_laws`] and
//!   [`login_laws`] state what holds of whole runs, on that host or on any, and [`codec_laws`]
//!   what the receivers of encoded texts read.
//! * [`endpoint_laws`], [`job_laws`] and [`client_laws`] spell out what comes of whole runs in
//!   terms of what went into them, and [`view_laws`] that the views lose nothing.
pub mod access;
pub mod client_laws;
pub mod codec;
pub mod codec_laws;
pub mod endpoint_laws;
pub mod fetch;
pub mod fetch_laws;
pub mod fields;
pub mod host;
pub mod job_laws;
pub mod login_laws;
pub mod password;
pub mod platform;
pub mod refresh;
pub mod replies;
pub mod routes;
pub mod routing;
pub mod scheduled;
pub mod scheduled_laws;
pub mod scrape;
pub mod text;
pub mod token;
pub mod view_laws;

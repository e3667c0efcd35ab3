//! The handlers for clients that log in.
pub mod history;
pub mod login;

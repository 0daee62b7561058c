//! The decisions of a two-tier calculator service, stated and proved.
//!
//! A compute-and-store service answers `calculate` requests with a record of
//! four arithmetic results and keeps every record it has answered with; a
//! gateway serves a page and relays such requests to it. This crate holds
//! what the two services decide: which request is rejected, what the record of
//! a calculation holds, which reply follows from what the store or the
//! upstream service reported, and which status a failure maps to. It also
//! holds what the two services say word for word: the statements that the
//! store is run with, the address that is relayed to, and the page.
//!
//! Transport, storage and floating-point arithmetic are the caller's. For one
//! `calculate` request the caller decodes the two parameters
//! ([`request::require_operands`]), evaluates the four operations on the
//! operands ([`backend::calculate`] builds the record), asks the store to
//! append the record, and replies as [`backend::conclude`] says. The module
//! [`exchange`] states what a store is left with by a caller that does so.
//!
//! Floating-point values cross this crate by their IEEE 754 binary64 bit
//! patterns (see [`number::Number`]).

pub mod backend;
pub mod error;
pub mod exchange;
pub mod gateway;
pub mod number;
pub mod page;
pub mod record;
pub mod request;
pub mod store;

//! Typed requests and responses of the Postmark REST interface, and the
//! dispatch step that carries any request over any transport.
//!
//! An operation of the service is an [`Endpoint`]: it says its path, its
//! method and the value to send, and names the type of the answer. A
//! transport is a [`Client`]: it carries one request and hands back one
//! answer. Every endpoint is a [`Query`] of every transport; what a query
//! comes to is said once, in [`client`], for all of them.
//!
//! - [`api`] holds the operations, by section of the service.
//! - [`client`] holds the dispatch step and what holds of it.
//! - [`transport`] holds what a transport to the service adds to a request
//!   and keeps of an answer.
//! - [`wire`] holds requests and answers as plain values.
//! - [`json`], [`fields`] and [`codec`] hold JSON documents, the members of
//!   objects, and JSON text.
//! - [`text`] holds integers in decimal.
//!
//! No function of this library waits, reads or sends. A transport that does
//! can be driven by the two halves of a query, [`client::prepare`] and
//! [`client::conclude`].

pub mod api;
pub mod client;
pub mod codec;
pub mod fields;
pub mod json;
pub mod text;
pub mod transport;
pub mod wire;

pub use client::{Client, Endpoint, Query, QueryError};

use vstd::prelude::*;

verus! {

/// The location of the Postmark service.
pub const POSTMARK_API_URL: &'static str = "https://api.postmarkapp.com/";

} // verus!

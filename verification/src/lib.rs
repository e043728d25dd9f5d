//! Core of a typed client for a JSON-over-HTTP bot API.
//!
//! Every remote call is a value: a request struct carrying a borrowed
//! [`bot::Bot`] handle plus the method's parameters, built with chained
//! setters, serialized to a JSON object in which unset optional fields are
//! omitted entirely, and dispatched to an endpoint derived from the bot's
//! token and the method's name.  The wire envelope of every response is
//! `{"ok": bool, "result"?: ..., "error_code"?: int, "description"?: string}`;
//! decoding it yields either the request's typed output or a structured
//! error.  The HTTP exchange itself is left to the caller; everything that
//! computes - serialization, endpoint derivation, envelope decoding, output
//! decoding - lives here and is verified.

pub mod bot;
pub mod json;
pub mod net;
pub mod requests;
pub mod types;

//! Verified protocol layer of a command-line client for a URL-shortening
//! service.
//!
//! The library classifies the outcome of each HTTP exchange into exactly one
//! of: success with data, rejection for a domain reason, or service
//! unreachable. It parses the plain-text response bodies, validates
//! caller-chosen link identifiers, and splits command-line arguments of the
//! form `url+identifier`. The transport itself (the HTTP calls) lives outside
//! the library; callers hand each response, or the fact that the transport
//! failed, to the classification functions here.

pub mod args;
pub mod ident;
pub mod outcome;
pub mod protocol;
pub mod text;

//! A package index proxy: named packages map to repositories on a hosting
//! service, whose release assets are listed and streamed as installable
//! artifacts.
//!
//! This crate holds the decisions of the proxy: the registry of packages,
//! which credential goes upstream, the requests made to the hosting API,
//! and how each outcome becomes a response. Sockets, templates and the
//! HTTP client live around it.

pub mod config;
pub mod credential;
pub mod error;
pub mod handlers;
pub mod laws;
pub mod registry;
pub mod upstream;

use vstd::prelude::*;

verus! {

} // verus!

//! A small git hosting core: pkt-line framing for the smart-HTTP refs
//! advertisement, a mirror pipeline around libgit2 (clone, fast-forward
//! pull, bare-copy sync), and the request-authorization decision logic.
pub mod advert;
pub mod auth;
pub mod convert;
pub mod errors;
mod gitops;
pub mod manager;
pub mod paths;
pub mod pkt;
pub mod service;
pub mod text;

//! Proof of one exact MCP tool call.
//!
//! A call proof calls one tool on one server, once the server has declared that the tool only
//! reads, and yields digests of what was sent and received in place of the payload. A capability
//! allows one such call, once, to the one who asked for it.
//!
//! The library decides and computes. What has to be done with processes, the network and the
//! conversations of a backend it hands out as steps, and it takes back what came of them as events:
//! see [`lifecycle`] and [`qualification`]. What holds of every call and of every capability,
//! whatever comes about, is stated in [`laws`] and [`qualification_laws`], and what a server has to
//! do for a call to be proved in [`success`] and, from the bytes that it sends, in [`wire_laws`].
//! What each step leads to is stated in [`step_laws`] and [`use_laws`], what is taken of what
//! arrives in [`reading_laws`] and [`answer_laws`], and what values say in [`value_laws`] and
//! [`view_laws`].

pub mod answer_laws;
pub mod api;
pub mod backend;
pub mod binding;
pub mod capability;
pub mod checks;
pub mod clock;
pub mod digest;
pub mod evidence;
pub mod failure;
pub mod json;
pub mod laws;
pub mod lifecycle;
pub mod pending;
pub mod prepared;
pub mod protocol;
pub mod qualification;
pub mod qualification_laws;
pub mod reading_laws;
pub mod receive;
pub mod service;
pub mod spawn;
pub mod step_laws;
pub mod success;
pub mod text;
pub mod urls;
pub mod use_laws;
pub mod value_laws;
pub mod verdict;
pub mod view_laws;
pub mod wire_laws;

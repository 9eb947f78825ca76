//! Payment-link registry and proof-request builder for a zero-knowledge
//! payment node, with machine-checked contracts.
//!
//! Payment links:
//! * [`links`]: payment links, their status, and the request and response
//!   records of the link operations.
//! * [`validator`]: the pure checks on one link at one point in time.
//! * [`registry`]: the keyed collection of links and its state machine.
//! * [`listing`]: selecting, ordering and paging links.
//! * [`service`]: the link operations with their HTTP status and response.
//!
//! Proving:
//! * [`element`] and [`codec`]: 256-bit field values and their hex text.
//! * [`notes`]: notes and how they are read from a request.
//! * [`transfer`]: building the fixed-shape request of the proof engine.
//! * [`prove`]: what the proving operations decode and encode around the
//!   proof engine and the note store.
//!
//! Shared:
//! * [`error`]: error kinds, HTTP statuses and failure reports.
//! * [`clock`]: the wall clock.
//! * [`text`]: small string utilities used to build messages.

pub mod text;
pub mod element;
pub mod codec;
pub mod error;
pub mod clock;
pub mod links;
pub mod validator;
pub mod registry;
pub mod listing;
pub mod service;
pub mod notes;
pub mod transfer;
pub mod prove;

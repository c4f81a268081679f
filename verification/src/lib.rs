//! An in-memory test double for a chat-bot platform's HTTP API.
//!
//! The crate has two halves: fixture builders that assemble protocol
//! entities (messages, users, chats) from layered defaults with
//! per-field overrides, and a mock server that emulates the platform's
//! stateful behaviour (send, edit, delete, forward, copy, pin, ban,
//! restrict, media groups) so bot logic can be exercised without a live
//! service.
//!
//! The entity model lives in [`types`] and [`message`]; fixture
//! builders in [`dataset`]; the id-allocating store in [`store`];
//! request bodies and the action handlers in [`requests`] and
//! [`server`]; the per-action audit log in [`responses`]; and the
//! cross-call laws, proved once over the handler contracts, in
//! [`laws`].

pub mod dataset;
pub mod laws;
pub mod message;
pub mod outside;
pub mod requests;
pub mod responses;
pub mod server;
pub mod store;
pub mod types;

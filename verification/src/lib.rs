//! Core of a block builder for a view-based consensus protocol.
//!
//! Consensus asks the builder, once per view, for a candidate block that
//! extends a given parent. The builder keeps one state per parent and view,
//! a registry of those states, and a gateway that routes each request to the
//! state that can answer it.
//!
//! Nothing in this crate waits, sends or signs. Each part decides what is to
//! be done and leaves the doing to its caller:
//!
//! - [`service`] holds the registry of live builder states.
//! - [`builder_state`] holds the state of the builder for one parent and
//!   view, and the messages it handles.
//! - [`gateway`] takes a call for available blocks from step to step, and
//!   looks up claimed blocks.
//! - [`events`] turns consensus events into messages for the builder states.
//! - [`driver`] decides each turn of the loop that follows consensus.
//! - [`bid`] makes the bid that follows each view.
//!
//! The modules whose names end in `_laws` state what holds across the
//! operations of the registry, of a builder state and of the gateway.

pub mod commitment;
pub mod error;
pub mod view_map;
pub mod types;
pub mod builder_state;
pub mod service;
pub mod registry_laws;
pub mod gateway;
pub mod events;
pub mod driver;
pub mod bid;
pub mod state_laws;
pub mod gateway_laws;

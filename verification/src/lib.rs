//! Epoch-reconfiguration supervisor of a consensus node, written as a pure
//! state machine: the caller performs the outside work that each
//! [`protocol::Action`] names and reports back with a [`protocol::Event`].

pub mod config;
pub mod diagnostic;
pub mod laws;
pub mod layout;
pub mod machine;
pub mod protocol;
pub mod restarter;

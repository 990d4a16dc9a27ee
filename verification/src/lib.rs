//! Headless core of a ticket-buying client: the login handshake, the order
//! monitor, the purchase pipeline and the catalog rules, each as verified
//! state transitions over plain values. Network, clock and rendering belong to
//! the shell that drives this crate.

pub mod api;
pub mod catalog;
pub mod client;
pub mod config;
pub mod error;
pub mod form;
pub mod json;
pub mod login;
pub mod model;
pub mod monitor;
pub mod purchase;
pub mod text;

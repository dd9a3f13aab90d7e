//! Core of a single-operator gateway for remote power control: the account
//! store, the session rules, the management-controller client and the request
//! handlers that compose them, each with a machine-checked contract.

pub mod database;
pub mod handlers;
pub mod idrac;
pub mod password;
pub mod session;
pub mod text;
pub mod wire;

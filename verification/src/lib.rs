//! # butlerd
//! The verified core of a client for itch.io's [butlerd](https://github.com/itchio/butler)
//! daemon: what each API call sends, how each answer is read, how the daemon is started and
//! found, and the order of the steps of an installation.
//!
//! - `calls`: the path, JSON body and expected reply of every call of the API.
//! - `rpc`: requests, and the reading of butlerd's JSON-RPC answers.
//! - `json`: JSON text of parameters and objects.
//! - `startup`: paths, the daemon's command line, its startup message, the connection.
//! - `install`: the steps of installing a game and of driving downloads.
//! - `responses`, `packaged`: the values butlerd answers with.
//! - `error`: what can go wrong.
//! - `text`: character-level helpers.
pub mod calls;
pub mod error;
pub mod install;
pub mod json;
pub mod packaged;
pub mod responses;
pub mod rpc;
pub mod startup;
pub mod text;

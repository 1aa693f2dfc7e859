//! The context-menu gateway: the request that a frontend sends to show a
//! popup menu, the rules that decide how each entry and the anchor are read,
//! and the entry point that hands a request to the native menu layer.

use vstd::prelude::*;

pub mod commands;
pub mod desktop;
pub mod models;

verus! {

/// Why a context-menu request failed.
#[derive(Debug, PartialEq, Eq)]
pub enum Error {
    /// The payload did not have the shape of a request; holds the decoder's message.
    Deserialization(String),
    /// The native menu layer could not show the menu; holds its message.
    Platform(String),
}

pub type Result<T> = std::result::Result<T, Error>;

} // verus!

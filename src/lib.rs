//! Commands for a key-value store reached over HTTP: each command is an
//! ordered sequence of wire values headed by its name, sent alone or in a
//! pipeline or transaction, and answered with result-or-error envelopes.

use vstd::prelude::*;

pub mod batch;
pub mod command;
pub mod commands;
pub mod error;
pub mod response;
pub mod wire;

pub use batch::{Pipeline, Transaction};
pub use command::{Command, ReCmd};
pub use error::{ReError, Result};
pub use response::ReResponse;
pub use wire::WireValue;

verus! {

} // verus!

//! Kelpie: addressing, delivery and supervision of terminal agents.

use vstd::prelude::*;

pub mod attribution;
pub mod cli;
pub mod client;
pub mod daemon;
pub mod domain;
pub mod envelope;
pub mod herdr;
pub mod herdr_exec;
pub mod json;
pub mod json_text;
pub mod options;
pub mod text;

verus! {

} // verus!

//! Configuration generation for Malachite consensus nodes and testnets.

use vstd::prelude::*;

pub mod cli;
pub mod config;
pub mod laws;
pub mod peers;
pub mod starknet;
pub mod test_app;
pub mod text;

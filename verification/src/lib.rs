//! Intermediate representation for arithmetic circuits.
//!
//! A circuit is described as a directed expression graph over wires: named
//! values, literal constants, or positional slots. This crate defines the
//! graph's data model and its structural algorithms — free-wire extraction,
//! deduplicated wire-set construction, pre-order expression traversal, and
//! the registry that resolves named sub-circuit invocations. Every operation
//! carries a contract over a mathematical model of the data, and the
//! contracts are machine-checked.

pub mod circuit;
pub mod node;
pub mod wire;

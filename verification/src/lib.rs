//! Assembles the block graph of a Scratch target from tree-shaped builders.
//!
//! Callers describe scripts as nested builders: stacks of statements, expression
//! inputs, procedure definitions and calls.  The library flattens such a tree into
//! nodes under identifiers, linked through `parent` and `next`, resolves field
//! references against symbol tables, and estimates the height of a script for
//! layout.
//!
//! - [`block`], [`stack`], [`custom_block`] and [`func`] hold the builders and their
//!   `build` functions; [`data`] and [`comment`] the builders of variables, lists
//!   and notes.
//! - [`document`], [`value`] and [`arena`] hold what a build yields: nodes, literal
//!   values, and the maps from identifiers to nodes and notes.
//! - [`uid`] holds identifiers and the source of fresh ones; [`build_context`] the
//!   symbol tables and the registry of procedures; [`error`] the faults of
//!   a build; [`opcode`] the names of the operations.
//! - [`assembly`] and [`layout`] are the mathematical model: what a build adds to
//!   the graph for each builder, which builders have a fault, and how tall
//!   a script is.  Every `build` function is verified against it.
//! - [`laws`], [`freshness`] and [`likeness`] hold what is proved of the model:
//!   chains are linked, identifiers stay unique, and a copy of a builder behaves
//!   as the builder does.

pub mod uid;
pub mod value;
pub mod comment;
pub mod document;
pub mod arena;
pub mod custom_block;
pub mod build_context;
pub mod error;
pub mod block;
pub mod stack;
pub mod assembly;
pub mod layout;
pub mod func;
pub mod laws;
pub mod freshness;
pub mod likeness;
pub mod opcode;
pub mod data;

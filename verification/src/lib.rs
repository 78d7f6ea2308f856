//! Verified core of a C-compatible bridge to the Teo application framework:
//! the tagged value model, the text that crosses the boundary, and the
//! decisions the builder and the hook adapters take.

pub mod builder;
pub mod hook;
pub mod ledger;
pub mod task;
pub mod text;
pub mod value;

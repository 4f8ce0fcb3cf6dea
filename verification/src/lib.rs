//! An environment adapter that lets the Typst typesetting engine run against
//! an in-memory, sandboxed world: a virtual filesystem addressed by path
//! names, a precomputed font catalog, a one-shot clock snapshot, and a
//! diagnostics pipeline that turns engine output into rendered artifacts.

pub mod adapter;
pub mod clock;
pub mod diag;
pub mod fonts;
pub mod laws;
pub mod render;
pub mod store;

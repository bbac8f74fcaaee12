//! Lifecycle of a double-buffered presentation surface backed by a GPU swap
//! chain.
//!
//! The library owns the decisions of that lifecycle: which adapter a device is
//! created on, when the fixed pair of back buffers is released and re-wrapped,
//! and how the swap-chain state machine defers expensive recreation from a
//! resize request to the next draw.  The platform's own answers — whether a
//! native call succeeded, which handle it produced, which back buffer is
//! current — enter as plain values, so every decision taken on them is
//! verified for every answer the platform could give.

pub mod adapter;
pub mod composition;
pub mod context;
pub mod error;
pub mod laws;
pub mod machine;
pub mod surface;
pub mod swap_chain;
pub mod window;

//! Lifecycle of a single on-screen window and its hardware-accelerated
//! rendering surface, modelled as verified logic.
//!
//! The library owns the decisions: which display backend a platform gets,
//! how the display / configuration / surface / context chain is built and
//! validated, how the application state machine reacts to lifecycle and
//! window events, and when the dispatch loop halts. The platform calls
//! themselves (window creation, GL entry points, buffer swaps) are performed
//! by an unverified shell that feeds this library plain values and carries
//! out the actions it returns.

pub mod backend;
pub mod events;
pub mod factory;
pub mod machine;
pub mod driver;
pub mod laws;

//! Escape-time field evaluation: the grid layout, the host/device exchange
//! protocol and the dispatch state machine, with their contracts.
pub mod dispatch;
pub mod error;
pub mod exchange;
pub mod grid;
pub mod viewport;

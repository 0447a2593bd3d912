//! A verified core for a clipboard-history manager: a capacity-bounded,
//! content-deduplicating, most-recently-used-ordered store of captured
//! clipboard text, the monitor state machine that feeds it from polled
//! clipboard readings, and the read-side filtering that serves a UI.

pub mod entry;
pub mod monitor;
pub mod query;
pub mod store;
pub mod text;

//! Calendar feed import and event window selection.
//!
//! Raw iCalendar properties are normalised into UTC event records, event batches
//! are reconciled with a store under a replace-by-key contract, and query windows
//! and "next event" selection are computed for display.
pub mod error;
pub mod text;
pub mod instant;
pub mod normalize;
pub mod event;
pub mod feed;
pub mod window;
pub mod display;
pub mod config;
pub mod args;

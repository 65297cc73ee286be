//! Adaptive cadence scheduling: recurring items whose interval is retuned
//! from the feedback given each time an item is finished.

pub mod cadence;
pub mod cli;
pub mod date;
pub mod item;
pub mod order;
pub mod store;
pub mod tag;
pub mod text;

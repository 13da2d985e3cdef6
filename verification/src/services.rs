//! The order service: its clock, its table of orders and its handlers.

pub mod clock;
pub mod laws;
pub mod orders;
pub mod store;

//! Orders of a restaurant's tables: the rows of the orders table, the four
//! operations on it, and the HTTP reply that answers each outcome.

pub mod app;
pub mod chance;
pub mod configs;
pub mod load;
pub mod logging;
pub mod services;

//! Core of a small interactive MySQL client: connection credentials, a
//! connection manager that turns them into a live pooled handle, a query
//! executor that runs one query and assembles its rows, and a total
//! coercion of every native cell value to a display string. Each failure
//! is either typed or absorbed: a rejected query yields an empty grid, a
//! bad row is skipped, a bad cell becomes a sentinel, and only failure to
//! reach the database at all is terminal.

pub mod cell;
pub mod config;
pub mod driver;
pub mod executor;
pub mod manager;
pub mod result;
pub mod state;

//! A stateless SQL-over-columnar-file query service: the verified core.
//!
//! The library holds the cell value model, the conversion of column-major
//! blocks into ordered rows, the per-request pipeline decisions and the
//! process configuration. Running the engine and serving HTTP happen around it.

pub mod value;
pub mod block;
pub mod pipeline;
pub mod config;
pub mod api;

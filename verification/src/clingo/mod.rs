//! The session layer: what this library knows of the engine, and what it
//! makes of the engine's answers. The calls themselves are made elsewhere.

pub mod configuration;
pub mod control;
pub mod error;
pub mod model;
pub mod solve_handle;
pub mod solve_result;
pub mod symbol;

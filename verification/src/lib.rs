//! An automated market maker: swap curves, fees and the pool rules built on them.

pub mod curve;
pub mod error;
pub mod transfer_fee;
pub mod constraints;
pub mod state;
pub mod configs;
pub mod event;
pub mod instructions;
pub mod pool_value;
pub mod ix;

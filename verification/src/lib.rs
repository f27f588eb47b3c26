//! Harvest, swap and pro-rata distribution of transfer fees collected by a
//! taxed token: the planning, batching, encoding and sequencing rules, with
//! the network left to the caller.

pub mod address;
pub mod batch;
pub mod config;
pub mod controller;
pub mod cycle;
pub mod discriminant;
pub mod distribution;
pub mod holders;
pub mod instruction;
pub mod machine;
pub mod program;
pub mod programs;
pub mod swap;

//! MegaSwap faucet: the token issuer of the MegaSwap trading simulation.
//!
//! The faucet dispenses tokens with a proportional controller: the payout grows
//! with the surplus of the faucet above a target floor and shrinks with the
//! deficit below it, clamped between a minimum and a maximum payout. An
//! automint refills a vault that falls below a critical level.
//!
//! The library decides what each instruction does from plain records of the
//! accounts it is given; carrying the decision out (account creation, token
//! transfers and mints) is left to the caller.
#![allow(unused_imports)]

pub mod account;
pub mod config;
pub mod error;
pub mod ids;
pub mod instructions;
pub mod lite;
pub mod pda;
pub mod processor;

pub use ids::ID;

//! The program's instructions and the checks they perform.
pub mod dispense_controller;
pub mod account_checkers;
pub mod helpers;
pub mod initialize;
pub mod dispense;

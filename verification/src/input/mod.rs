//! What the inputs do to the application state.
pub mod branches;
pub mod checkout;
pub mod commands;
pub mod history;
pub mod network;
pub mod operations;
pub mod reset;
pub mod search;
pub mod staging;
pub mod stashes;
pub mod tags;

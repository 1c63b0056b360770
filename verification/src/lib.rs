//! Module lifecycle orchestration for an interactive shell: listing,
//! updating and reloading a set of installed, versioned modules while
//! preserving the shell's active selection across reloads.

pub mod args;
pub mod ledger;
pub mod listing;
pub mod modules;
pub mod reload;
pub mod update;

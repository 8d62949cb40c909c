//! Runs a command and reports how it finished through a configurable set of
//! notification channels.
//!
//! The library holds the decisions: which configuration file is read, which
//! channels a configuration enables, what each channel sends for a message,
//! the text of the completion message, and the order in which the channels
//! are dispatched, stopping at the first failure.
pub mod config;
pub mod desktop;
pub mod manager;
pub mod message;
pub mod notifier;
pub mod webhook;

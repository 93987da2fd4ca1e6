//! Conversation bookkeeping for a command-line chat client.
//!
//! The crate holds the decisions of one run: how flags and environment
//! defaults merge into a configuration, how a text argument resolves to
//! its content, how a conversation is opened or selected in the history,
//! and how one exchange with the completion service is recorded. Reading
//! files, standard input and the network is left to the caller, which
//! hands the library what it read.
//!
//! `run` ties the steps together as a state machine: the caller performs
//! each action it is given and reports back, until it is told to print the
//! reply and write the history, or to give up.

pub mod config;
pub mod failure;
pub mod history;
pub mod input;
pub mod message;
pub mod run;
pub mod turn;

//! A component actor for a message-passing container network: the message
//! vocabulary, the component state machine, the dispatch step of the run loop,
//! the processing handlers and the retry policy of the reliable sender.
pub mod component;
pub mod component_a;
pub mod component_b;
pub mod config;
pub mod control;
pub mod messages;
pub mod reliable_sender;
pub mod state;

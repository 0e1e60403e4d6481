//! The messages that travel between containers.
pub mod another_example_message;
pub mod container_message;
pub mod directives;
pub mod example_message;
pub mod envelope;

use vstd::prelude::*;

verus! {

/// A domain message: a human-readable label and a numeric value.
#[derive(Debug, Clone)]
pub struct ExampleMessage {
    pub message: String,
    pub value: u64,
}

impl Default for ExampleMessage {
    fn default() -> (r: ExampleMessage)
        ensures
            r.message@ == Seq::<char>::empty(),
            r.value == 0,
    {
        ExampleMessage { message: String::new(), value: 0 }
    }
}

impl ExampleMessage {
    /// Builds a message from its label and its value.
    pub fn new(message: String, value: u64) -> (r: ExampleMessage)
        ensures
            r.message == message,
            r.value == value,
    {
        ExampleMessage { message, value }
    }
}

} // verus!

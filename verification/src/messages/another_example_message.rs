use vstd::prelude::*;

verus! {

/// A second domain message: a label and a list of numbers.
#[derive(Debug, Clone)]
pub struct AnotherExampleMessage {
    pub message: String,
    pub data: Vec<u64>,
}

impl Default for AnotherExampleMessage {
    fn default() -> (r: AnotherExampleMessage)
        ensures
            r.message@ == Seq::<char>::empty(),
            r.data@ == Seq::<u64>::empty(),
    {
        AnotherExampleMessage { message: String::new(), data: Vec::new() }
    }
}

} // verus!

//! The processing handler of component B.
use vstd::prelude::*;
use crate::messages::example_message::ExampleMessage;

verus! {

/// The label that component B puts on its responses.
pub open spec fn response_label() -> Seq<char> {
    "Message from ComponentB!"@
}

/// The seconds of work that stand between a message and its response; the
/// caller waits them out before it asks for the response.
pub const PROCESSING_DELAY_SECS: u64 = 1;

/// Builds the response of component B to a message: the value raised by the
/// configured increment, under the label of component B. The input is not
/// changed, and equal inputs give equal responses.
pub fn process_message(message: ExampleMessage, increment_from_config: u8) -> (r: ExampleMessage)
    requires
        message.value + increment_from_config <= u64::MAX,
    ensures
        r.value == message.value + increment_from_config,
        r.message@ == response_label(),
{
    ExampleMessage::new(
        "Message from ComponentB!".to_owned(),
        message.value + increment_from_config as u64,
    )
}

} // verus!

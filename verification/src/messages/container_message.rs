use vstd::prelude::*;
use crate::messages::another_example_message::AnotherExampleMessage;
use crate::messages::directives::{ComponentDirective, ContainerDirective};
use crate::messages::example_message::ExampleMessage;

verus! {

/// The one message type that is sent between containers: exactly one variant
/// is present in each message.
#[derive(Debug, Clone)]
pub enum ContainerMessage {
    ContainerDirectiveMsg(ContainerDirective),
    ComponentDirectiveMsg(ComponentDirective),
    ExampleMessage(ExampleMessage),
    AnotherExampleMessage(AnotherExampleMessage),
}

impl ContainerMessage {
    /// The container directive that the message carries, if it is one.
    pub open spec fn container_directive(&self) -> Option<ContainerDirective> {
        match *self {
            ContainerMessage::ContainerDirectiveMsg(directive) => Some(directive),
            _ => None,
        }
    }

    /// The component directive that the message carries, if it is one.
    pub open spec fn component_directive(&self) -> Option<ComponentDirective> {
        match *self {
            ContainerMessage::ComponentDirectiveMsg(directive) => Some(directive),
            _ => None,
        }
    }

    /// Hands out the container directive if the message is one, and nothing
    /// for every other variant.
    pub fn get_container_directive_message(&self) -> (r: Option<&ContainerDirective>)
        ensures
            match r {
                Some(directive) => self.container_directive() == Some(*directive),
                None => self.container_directive() is None,
            },
    {
        if let ContainerMessage::ContainerDirectiveMsg(directive) = self {
            Some(directive)
        } else {
            None
        }
    }
}

} // verus!

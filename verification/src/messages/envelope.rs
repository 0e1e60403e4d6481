//! The envelope in which a response leaves a component: the message and the
//! names of the components it is addressed to.
use vstd::prelude::*;
use hyperion_framework::messages::client_broker_message::ClientBrokerMessage;
use crate::messages::container_message::ContainerMessage;

verus! {

/// The framework's envelope, with its two public fields: the names of the
/// target clients in order, and the message.
#[verifier::external_type_specification]
#[verifier::reject_recursive_types(T)]
pub struct ExClientBrokerMessage<T>(ClientBrokerMessage<T>);

/// Whether an envelope is addressed to exactly the names `targets`, in their
/// order.
pub open spec fn addressed_to(
    envelope: ClientBrokerMessage<ContainerMessage>,
    targets: Seq<Seq<char>>,
) -> bool {
    &&& envelope.target_clients@.len() == targets.len()
    &&& forall|i: int|
        0 <= i < targets.len() ==> (#[trigger] envelope.target_clients@[i])@ == targets[i]
}

/// Calls `ClientBrokerMessage::new` of hyperion_framework, which turns every
/// target name into an owned string, keeps their order, and stores the
/// message as it is. Trusted: the contract restates that constructor.
#[verifier::external_body]
pub(crate) fn new_envelope(targets: Vec<&str>, message: ContainerMessage) -> (r:
    ClientBrokerMessage<ContainerMessage>)
    ensures
        r.message == message,
        r.target_clients@.len() == targets@.len(),
        forall|i: int|
            0 <= i < targets@.len() ==> (#[trigger] r.target_clients@[i])@ == targets@[i]@,
{
    ClientBrokerMessage::new(targets, message)
}

} // verus!

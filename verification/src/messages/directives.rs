use vstd::prelude::*;
use crate::state::ContainerLifecycleState;

verus! {

/// A control message addressed to a component.
#[derive(Debug, Clone, Copy, PartialEq, Eq, Structural)]
pub enum ComponentDirective {
    /// Start or resume the component.
    SetToActive,
    /// Suspend the component; it keeps listening.
    SetToDormant,
    /// Reserved: the component writes out whatever it is configured to write.
    WriteToFile,
}

/// A control message addressed to the container that supervises the
/// components. A component never acts on one.
#[derive(Debug, Clone, Copy, PartialEq, Eq, Structural)]
pub enum ContainerDirective {
    /// Shut the local container down.
    Shutdown,
    /// Shut the whole container network down.
    SystemShutdown,
    /// Retry the connections that broke.
    RetryAllConnections,
    /// A heartbeat of a container.
    Heartbeat,
    /// Ask a befriended container for its state.
    FriendStateRequest,
    /// The answer to a request for a container's state.
    StateResponse(ContainerLifecycleState),
}

} // verus!

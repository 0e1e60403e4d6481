//! The two state values an actor works with: its own component state, and the
//! lifecycle state of the container that encloses it.
use vstd::prelude::*;
use crate::messages::directives::ComponentDirective;

verus! {

/// The state of one component. `Active` is the initial state, `Dead` is
/// terminal.
#[derive(Debug, Clone, Copy, PartialEq, Eq, Structural)]
pub enum ComponentState {
    /// The component processes domain messages and emits responses.
    Active,
    /// The component has acknowledged a suspend or a shutdown.
    Dormant,
    /// The component was killed; nothing leads out of this state.
    Dead,
}

/// The lifecycle state of the enclosing container. The supervisor writes it
/// into a shared slot as a number; the components only read it.
#[derive(Debug, Clone, Copy, PartialEq, Eq, Structural)]
pub enum ContainerLifecycleState {
    Running,
    MissingConnections,
    DeadComponent,
    ShuttingDown,
    Closed,
}

impl ContainerLifecycleState {
    /// The number under which the state is stored in the shared slot.
    pub open spec fn spec_code(self) -> usize {
        match self {
            ContainerLifecycleState::Running => 0,
            ContainerLifecycleState::MissingConnections => 1,
            ContainerLifecycleState::DeadComponent => 2,
            ContainerLifecycleState::ShuttingDown => 3,
            ContainerLifecycleState::Closed => 4,
        }
    }

    /// The state that a number read from the shared slot stands for.
    pub open spec fn spec_from_code(code: usize) -> Option<ContainerLifecycleState> {
        if code == 0 {
            Some(ContainerLifecycleState::Running)
        } else if code == 1 {
            Some(ContainerLifecycleState::MissingConnections)
        } else if code == 2 {
            Some(ContainerLifecycleState::DeadComponent)
        } else if code == 3 {
            Some(ContainerLifecycleState::ShuttingDown)
        } else if code == 4 {
            Some(ContainerLifecycleState::Closed)
        } else {
            None
        }
    }

    /// The number under which the state is stored in the shared slot.
    pub fn code(self) -> (r: usize)
        ensures
            r == self.spec_code(),
    {
        match self {
            ContainerLifecycleState::Running => 0,
            ContainerLifecycleState::MissingConnections => 1,
            ContainerLifecycleState::DeadComponent => 2,
            ContainerLifecycleState::ShuttingDown => 3,
            ContainerLifecycleState::Closed => 4,
        }
    }

    /// Reads a number from the shared slot back into a state; a number that
    /// stands for no state gives `None`.
    pub fn from_code(code: usize) -> (r: Option<ContainerLifecycleState>)
        ensures
            r == Self::spec_from_code(code),
    {
        if code == 0 {
            Some(ContainerLifecycleState::Running)
        } else if code == 1 {
            Some(ContainerLifecycleState::MissingConnections)
        } else if code == 2 {
            Some(ContainerLifecycleState::DeadComponent)
        } else if code == 3 {
            Some(ContainerLifecycleState::ShuttingDown)
        } else if code == 4 {
            Some(ContainerLifecycleState::Closed)
        } else {
            None
        }
    }

    /// Whether a number read from the shared slot announces the shutdown on
    /// which a component goes dormant and leaves its loop.
    pub open spec fn spec_announces_shutdown(code: usize) -> bool {
        code == ContainerLifecycleState::ShuttingDown.spec_code()
    }

    /// Whether a number read from the shared slot announces the shutdown.
    pub fn announces_shutdown(code: usize) -> (r: bool)
        ensures
            r == Self::spec_announces_shutdown(code),
    {
        code == ContainerLifecycleState::ShuttingDown.code()
    }
}

/// The state a component is in after one directive: `SetToActive` and
/// `SetToDormant` move every state but `Dead` to the state they name,
/// `WriteToFile` changes nothing, and `Dead` stays `Dead`.
pub open spec fn state_after_directive(
    state: ComponentState,
    directive: ComponentDirective,
) -> ComponentState {
    match (state, directive) {
        (ComponentState::Dead, _) => ComponentState::Dead,
        (_, ComponentDirective::SetToActive) => ComponentState::Active,
        (_, ComponentDirective::SetToDormant) => ComponentState::Dormant,
        (_, ComponentDirective::WriteToFile) => state,
    }
}

/// The state a component is in after it has observed the lifecycle number
/// `code`: dormant on a shutdown unless it is dead, unchanged otherwise.
pub open spec fn state_after_lifecycle(state: ComponentState, code: usize) -> ComponentState {
    if ContainerLifecycleState::spec_announces_shutdown(code) && state != ComponentState::Dead {
        ComponentState::Dormant
    } else {
        state
    }
}

/// The state after a sequence of directives, taken one after the other from
/// the front.
pub open spec fn state_after_directives(
    state: ComponentState,
    directives: Seq<ComponentDirective>,
) -> ComponentState
    decreases directives.len(),
{
    if directives.len() == 0 {
        state
    } else {
        state_after_directive(
            state_after_directives(state, directives.drop_last()),
            directives.last(),
        )
    }
}

/// The state that a sequence of directives asks for: the one named by the
/// last `SetToActive` or `SetToDormant` in it, or none where it holds neither.
pub open spec fn requested_state(directives: Seq<ComponentDirective>) -> Option<ComponentState>
    decreases directives.len(),
{
    if directives.len() == 0 {
        None
    } else {
        match directives.last() {
            ComponentDirective::SetToActive => Some(ComponentState::Active),
            ComponentDirective::SetToDormant => Some(ComponentState::Dormant),
            ComponentDirective::WriteToFile => requested_state(directives.drop_last()),
        }
    }
}

/// Applies one directive to a component state.
pub fn apply_directive(state: ComponentState, directive: ComponentDirective) -> (r: ComponentState)
    ensures
        r == state_after_directive(state, directive),
{
    match state {
        ComponentState::Dead => ComponentState::Dead,
        _ => match directive {
            ComponentDirective::SetToActive => ComponentState::Active,
            ComponentDirective::SetToDormant => ComponentState::Dormant,
            ComponentDirective::WriteToFile => state,
        },
    }
}

/// Applies what was read from the lifecycle slot to a component state, and
/// says whether the run loop has to end.
pub fn apply_lifecycle(state: ComponentState, code: usize) -> (r: (ComponentState, bool))
    ensures
        r.0 == state_after_lifecycle(state, code),
        r.1 == ContainerLifecycleState::spec_announces_shutdown(code),
{
    if ContainerLifecycleState::announces_shutdown(code) {
        match state {
            ComponentState::Dead => (ComponentState::Dead, true),
            _ => (ComponentState::Dormant, true),
        }
    } else {
        (state, false)
    }
}

/// Determinism of the state machine: after any sequence of directives a
/// component that was not dead is in the state that the sequence asks for, or
/// in its first state where the sequence asks for none, and it is not dead; a
/// dead component stays dead.
pub proof fn lemma_directives_decide_state(
    state: ComponentState,
    directives: Seq<ComponentDirective>,
)
    ensures
        state == ComponentState::Dead ==> state_after_directives(state, directives)
            == ComponentState::Dead,
        state != ComponentState::Dead ==> state_after_directives(state, directives)
            != ComponentState::Dead,
        state != ComponentState::Dead ==> state_after_directives(state, directives) == (
        match requested_state(directives) {
            Some(requested) => requested,
            None => state,
        }),
    decreases directives.len(),
{
    if directives.len() > 0 {
        lemma_directives_decide_state(state, directives.drop_last());
    }
}

/// The lifecycle number of every state reads back as that state.
pub proof fn lemma_code_round_trip(state: ContainerLifecycleState)
    ensures
        ContainerLifecycleState::spec_from_code(state.spec_code()) == Some(state),
{
}

/// A shutdown leaves no component active: whatever its state was, a component
/// that has observed the shutdown number is dormant or dead, and every other
/// number leaves its state as it was.
pub proof fn lemma_shutdown_suspends(state: ComponentState, code: usize)
    ensures
        ContainerLifecycleState::spec_announces_shutdown(code) ==> state_after_lifecycle(
            state,
            code,
        ) != ComponentState::Active,
        ContainerLifecycleState::spec_announces_shutdown(code) && state != ComponentState::Dead
            ==> state_after_lifecycle(state, code) == ComponentState::Dormant,
        !ContainerLifecycleState::spec_announces_shutdown(code) ==> state_after_lifecycle(
            state,
            code,
        ) == state,
{
}

} // verus!

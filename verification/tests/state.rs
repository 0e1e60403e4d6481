use component_actor::messages::directives::ComponentDirective::{
    SetToActive, SetToDormant, WriteToFile,
};
use component_actor::state::ComponentState::{Active, Dormant};
use component_actor::state::{
    apply_directive, apply_lifecycle, ComponentState, ContainerLifecycleState,
};
use hyperion_framework::containerisation::container_state::ContainerState;

#[test]
fn lifecycle_codes_are_the_slot_numbers() {
    assert_eq!(ContainerLifecycleState::Running.code(), 0);
    assert_eq!(ContainerLifecycleState::MissingConnections.code(), 1);
    assert_eq!(ContainerLifecycleState::DeadComponent.code(), 2);
    assert_eq!(ContainerLifecycleState::ShuttingDown.code(), 3);
    assert_eq!(ContainerLifecycleState::Closed.code(), 4);
}

#[test]
fn lifecycle_codes_match_the_framework() {
    assert_eq!(ContainerLifecycleState::Running.code(), ContainerState::Running as usize);
    assert_eq!(
        ContainerLifecycleState::MissingConnections.code(),
        ContainerState::MissingConnections as usize
    );
    assert_eq!(
        ContainerLifecycleState::DeadComponent.code(),
        ContainerState::DeadComponent as usize
    );
    assert_eq!(
        ContainerLifecycleState::ShuttingDown.code(),
        ContainerState::ShuttingDown as usize
    );
    assert_eq!(ContainerLifecycleState::Closed.code(), ContainerState::Closed as usize);
}

#[test]
fn lifecycle_codes_read_back() {
    let all = [
        ContainerLifecycleState::Running,
        ContainerLifecycleState::MissingConnections,
        ContainerLifecycleState::DeadComponent,
        ContainerLifecycleState::ShuttingDown,
        ContainerLifecycleState::Closed,
    ];
    for state in all {
        assert_eq!(ContainerLifecycleState::from_code(state.code()), Some(state));
    }
    assert_eq!(ContainerLifecycleState::from_code(5), None);
    assert_eq!(ContainerLifecycleState::from_code(usize::MAX), None);
}

#[test]
fn only_shutting_down_announces_shutdown() {
    assert!(ContainerLifecycleState::announces_shutdown(3));
    for code in [0usize, 1, 2, 4, 5, 99] {
        assert!(!ContainerLifecycleState::announces_shutdown(code));
    }
}

#[test]
fn directives_move_the_state() {
    assert_eq!(apply_directive(Active, SetToActive), Active);
    assert_eq!(apply_directive(Active, SetToDormant), Dormant);
    assert_eq!(apply_directive(Active, WriteToFile), Active);
    assert_eq!(apply_directive(Dormant, SetToActive), Active);
    assert_eq!(apply_directive(Dormant, SetToDormant), Dormant);
    assert_eq!(apply_directive(Dormant, WriteToFile), Dormant);
}

#[test]
fn dead_stays_dead_under_every_directive() {
    for directive in [SetToActive, SetToDormant, WriteToFile] {
        assert_eq!(apply_directive(ComponentState::Dead, directive), ComponentState::Dead);
    }
}

#[test]
fn a_directive_sequence_ends_in_the_last_requested_state() {
    let sequence = [SetToDormant, WriteToFile, SetToActive, SetToDormant, WriteToFile];
    let mut state = ComponentState::Active;
    for directive in sequence {
        state = apply_directive(state, directive);
        assert_ne!(state, ComponentState::Dead);
    }
    assert_eq!(state, ComponentState::Dormant);
    let mut untouched = ComponentState::Dormant;
    for directive in [WriteToFile, WriteToFile] {
        untouched = apply_directive(untouched, directive);
    }
    assert_eq!(untouched, ComponentState::Dormant);
}

#[test]
fn shutdown_makes_dormant_and_ends_the_loop() {
    assert_eq!(apply_lifecycle(ComponentState::Active, 3), (ComponentState::Dormant, true));
    assert_eq!(apply_lifecycle(ComponentState::Dormant, 3), (ComponentState::Dormant, true));
    assert_eq!(apply_lifecycle(ComponentState::Dead, 3), (ComponentState::Dead, true));
}

#[test]
fn other_lifecycle_values_change_nothing() {
    for code in [0usize, 1, 2, 4, 17] {
        assert_eq!(apply_lifecycle(ComponentState::Active, code), (ComponentState::Active, false));
        assert_eq!(
            apply_lifecycle(ComponentState::Dormant, code),
            (ComponentState::Dormant, false)
        );
    }
}

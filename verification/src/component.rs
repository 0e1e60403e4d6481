//! The component actor: its state, and the decisions of its run loop. The
//! loop itself waits on a queue and on the lifecycle signal; each thing it
//! wakes up with is an event, and what the actor does with an event is
//! decided here.
use vstd::prelude::*;
use hyperion_framework::messages::client_broker_message::ClientBrokerMessage;
use crate::component_a;
use crate::component_b;
use crate::config::Config;
use crate::messages::container_message::ContainerMessage;
use crate::messages::directives::ComponentDirective;
use crate::messages::envelope::{addressed_to, new_envelope};
use crate::messages::example_message::ExampleMessage;
use crate::state::{
    apply_directive, apply_lifecycle, lemma_directives_decide_state, requested_state,
    state_after_directive, state_after_directives, state_after_lifecycle, ComponentState,
    ContainerLifecycleState,
};

verus! {

/// Which of the two components of the network an actor is.
#[derive(Debug, Clone, Copy, PartialEq, Eq, Structural)]
pub enum ComponentId {
    ComponentA,
    ComponentB,
}

impl ComponentId {
    /// The name under which the network knows the component.
    pub open spec fn spec_name(self) -> Seq<char> {
        match self {
            ComponentId::ComponentA => "ComponentA"@,
            ComponentId::ComponentB => "ComponentB"@,
        }
    }

    /// The component that receives the responses of this one.
    pub open spec fn spec_peer(self) -> ComponentId {
        match self {
            ComponentId::ComponentA => ComponentId::ComponentB,
            ComponentId::ComponentB => ComponentId::ComponentA,
        }
    }

    /// The label that the component puts on its responses.
    pub open spec fn spec_label(self) -> Seq<char> {
        match self {
            ComponentId::ComponentA => component_a::response_label(),
            ComponentId::ComponentB => component_b::response_label(),
        }
    }

    /// The name under which the network knows the component.
    pub fn name(self) -> (r: &'static str)
        ensures
            r@ == self.spec_name(),
    {
        match self {
            ComponentId::ComponentA => "ComponentA",
            ComponentId::ComponentB => "ComponentB",
        }
    }

    /// The component that receives the responses of this one.
    pub fn peer(self) -> (r: ComponentId)
        ensures
            r == self.spec_peer(),
    {
        match self {
            ComponentId::ComponentA => ComponentId::ComponentB,
            ComponentId::ComponentB => ComponentId::ComponentA,
        }
    }
}

/// What the run loop woke up with.
#[derive(Debug)]
pub enum LoopEvent {
    /// The next message from the inbound queue.
    Message(ContainerMessage),
    /// A wake-up from the lifecycle signal, with the number that the actor
    /// read from the shared slot after it woke. The number may be the one it
    /// had before: a wake-up alone says nothing.
    LifecycleWake(usize),
}

/// What the actor decided on one event.
#[derive(Debug)]
pub struct StepOutcome {
    /// Whether the run loop ends here.
    pub exit: bool,
    /// The envelope to hand to the reliable sender, if there is one.
    pub outbound: Option<ClientBrokerMessage<ContainerMessage>>,
}

/// The state of an actor after an event. A dead actor takes nothing up; a
/// component directive moves the state, a lifecycle wake-up moves it if it
/// announces the shutdown, and every other message leaves it alone.
pub open spec fn next_state(state: ComponentState, event: LoopEvent) -> ComponentState {
    if state == ComponentState::Dead {
        state
    } else {
        match event {
            LoopEvent::Message(message) => match message.component_directive() {
                Some(directive) => state_after_directive(state, directive),
                None => state,
            },
            LoopEvent::LifecycleWake(code) => state_after_lifecycle(state, code),
        }
    }
}

/// Whether the run loop ends on an event: it does where the actor is dead, and
/// where it wakes up to the shutdown of its container.
pub open spec fn ends_loop(state: ComponentState, event: LoopEvent) -> bool {
    state == ComponentState::Dead || match event {
        LoopEvent::Message(_) => false,
        LoopEvent::LifecycleWake(code) => ContainerLifecycleState::spec_announces_shutdown(code),
    }
}

/// The state of an actor after a sequence of events, taken one after the
/// other from the front.
pub open spec fn state_after_events(state: ComponentState, events: Seq<LoopEvent>) -> ComponentState
    decreases events.len(),
{
    if events.len() == 0 {
        state
    } else {
        next_state(state_after_events(state, events.drop_last()), events.last())
    }
}

/// The events that a sequence of component directives arrives as: one
/// message for each, in order.
pub open spec fn directive_events(directives: Seq<ComponentDirective>) -> Seq<LoopEvent> {
    Seq::new(
        directives.len(),
        |i: int| LoopEvent::Message(ContainerMessage::ComponentDirectiveMsg(directives[i])),
    )
}

/// Whether `envelope` is the response of the component `id` to a message of
/// the value `value` under the increment `increment`: one example message
/// with the sum and the label of `id`, addressed to the peer of `id` alone.
pub open spec fn is_response(
    envelope: ClientBrokerMessage<ContainerMessage>,
    id: ComponentId,
    value: u64,
    increment: u8,
) -> bool {
    &&& addressed_to(envelope, seq![id.spec_peer().spec_name()])
    &&& envelope.message matches ContainerMessage::ExampleMessage(response)
    &&& response.value == value + increment
    &&& response.message@ == id.spec_label()
}

/// A component of the network: its own state, and the configuration it was
/// built with.
#[derive(Debug)]
pub struct Component {
    component_state: ComponentState,
    config: Config,
    id: ComponentId,
}

impl Component {
    /// The current state of the component.
    pub closed spec fn state(&self) -> ComponentState {
        self.component_state
    }

    /// The configuration of the component.
    pub closed spec fn configuration(&self) -> Config {
        self.config
    }

    /// Which component this is.
    pub closed spec fn identity(&self) -> ComponentId {
        self.id
    }

    /// Whether the handler can answer `message`: the sum it has to form fits
    /// the value's type. Every message but an example message can be taken.
    pub open spec fn can_take(&self, message: ContainerMessage) -> bool {
        message matches ContainerMessage::ExampleMessage(example) ==> example.value
            + self.configuration().component.increment <= u64::MAX
    }

    /// What `outbound` has to be after `message`: the response where the
    /// message is an example message, and nothing for every other.
    pub open spec fn answers(
        &self,
        message: ContainerMessage,
        outbound: Option<ClientBrokerMessage<ContainerMessage>>,
    ) -> bool {
        match message {
            ContainerMessage::ExampleMessage(example) => outbound matches Some(envelope)
                && is_response(
                envelope,
                self.identity(),
                example.value,
                self.configuration().component.increment,
            ),
            _ => outbound is None,
        }
    }

    /// A new component: active, with the given configuration.
    pub fn new(config: Config, id: ComponentId) -> (r: Component)
        ensures
            r.state() == ComponentState::Active,
            r.configuration() == config,
            r.identity() == id,
    {
        Component { component_state: ComponentState::Active, config, id }
    }

    /// The current state of the component.
    pub fn component_state(&self) -> (r: ComponentState)
        ensures
            r == self.state(),
    {
        self.component_state
    }

    /// The configuration of the component.
    pub fn config(&self) -> (r: &Config)
        ensures
            *r == self.configuration(),
    {
        &self.config
    }

    /// Which component this is.
    pub fn id(&self) -> (r: ComponentId)
        ensures
            r == self.identity(),
    {
        self.id
    }

    /// Whether the component is dead. The run loop asks this before it waits
    /// for the next event, and ends if it is.
    pub fn is_dead(&self) -> (r: bool)
        ensures
            r == (self.state() == ComponentState::Dead),
    {
        self.component_state == ComponentState::Dead
    }

    /// Kills the component from outside: it is dead from here on.
    pub fn kill(&mut self)
        ensures
            final(self).state() == ComponentState::Dead,
            final(self).configuration() == old(self).configuration(),
            final(self).identity() == old(self).identity(),
    {
        self.component_state = ComponentState::Dead;
    }

    /// Whether the handler can answer `message` (see `can_take`).
    pub fn accepts(&self, message: &ContainerMessage) -> (r: bool)
        ensures
            r == self.can_take(*message),
    {
        match message {
            ContainerMessage::ExampleMessage(example) => example.value <= u64::MAX
                - self.config.component.increment as u64,
            _ => true,
        }
    }

    /// Whether `message` is one that this component has no handling for and
    /// makes a note of: a container directive, while the component is active.
    pub open spec fn notes_unmapped(&self, message: ContainerMessage) -> bool {
        message is ContainerDirectiveMsg && self.state() == ComponentState::Active
    }

    /// Whether the component makes a note of `message` as unmapped (see
    /// `notes_unmapped`). The message is passed over either way.
    pub fn reports_unmapped(&self, message: &ContainerMessage) -> (r: bool)
        ensures
            r == self.notes_unmapped(*message),
    {
        match message {
            ContainerMessage::ContainerDirectiveMsg(_) => self.component_state
                == ComponentState::Active,
            _ => false,
        }
    }

    /// Takes one inbound message. A component directive moves the state and
    /// gives no response; an example message goes to the handler of this
    /// component, and its response comes back addressed to the peer; every
    /// other message is passed over.
    pub fn process_incoming_message(&mut self, message: ContainerMessage) -> (r: Option<
        ClientBrokerMessage<ContainerMessage>,
    >)
        requires
            old(self).can_take(message),
        ensures
            final(self).state() == (match message.component_directive() {
                Some(directive) => state_after_directive(old(self).state(), directive),
                None => old(self).state(),
            }),
            final(self).configuration() == old(self).configuration(),
            final(self).identity() == old(self).identity(),
            old(self).answers(message, r),
    {
        match message {
            ContainerMessage::ComponentDirectiveMsg(directive) => {
                self.component_state = apply_directive(self.component_state, directive);
                None
            },
            ContainerMessage::ExampleMessage(example) => {
                let increment: u8 = self.config.component.increment;
                let response: ExampleMessage = match self.id {
                    ComponentId::ComponentA => component_a::process_message(example, increment),
                    ComponentId::ComponentB => component_b::process_message(example, increment),
                };
                let targets: Vec<&str> = vec![self.id.peer().name()];
                Some(new_envelope(targets, ContainerMessage::ExampleMessage(response)))
            },
            ContainerMessage::AnotherExampleMessage(_) => None,
            ContainerMessage::ContainerDirectiveMsg(_) => None,
        }
    }

    /// Takes the number read from the lifecycle slot after a wake-up. On the
    /// shutdown number the component goes dormant and the loop ends; on every
    /// other number nothing happens.
    pub fn observe_lifecycle(&mut self, code: usize) -> (exit: bool)
        ensures
            exit == ContainerLifecycleState::spec_announces_shutdown(code),
            final(self).state() == state_after_lifecycle(old(self).state(), code),
            final(self).configuration() == old(self).configuration(),
            final(self).identity() == old(self).identity(),
    {
        let (state, exit) = apply_lifecycle(self.component_state, code);
        self.component_state = state;
        exit
    }

    /// One turn of the run loop: the check for a dead component, then the
    /// event. A dead component ends the loop and leaves the event alone.
    pub fn step(&mut self, event: LoopEvent) -> (r: StepOutcome)
        requires
            event matches LoopEvent::Message(message) ==> old(self).can_take(message),
        ensures
            final(self).state() == next_state(old(self).state(), event),
            final(self).configuration() == old(self).configuration(),
            final(self).identity() == old(self).identity(),
            r.exit == ends_loop(old(self).state(), event),
            match event {
                LoopEvent::Message(message) if old(self).state() != ComponentState::Dead => old(
                    self,
                ).answers(message, r.outbound),
                _ => r.outbound is None,
            },
    {
        if self.is_dead() {
            return StepOutcome { exit: true, outbound: None };
        }
        match event {
            LoopEvent::Message(message) => {
                let outbound = self.process_incoming_message(message);
                StepOutcome { exit: false, outbound }
            },
            LoopEvent::LifecycleWake(code) => {
                let exit = self.observe_lifecycle(code);
                StepOutcome { exit, outbound: None }
            },
        }
    }
}

/// Dead is terminal and is reached from outside only: a dead actor stays
/// dead on every event and its loop ends, and no event makes an actor dead
/// that was not.
pub proof fn lemma_dead_only_from_outside(state: ComponentState, event: LoopEvent)
    ensures
        state == ComponentState::Dead ==> next_state(state, event) == ComponentState::Dead
            && ends_loop(state, event),
        state != ComponentState::Dead ==> next_state(state, event) != ComponentState::Dead,
{
}

/// A sequence of component directives that arrives as messages leaves the
/// actor in the state that the state machine gives for the directives: the
/// one that the last `SetToActive` or `SetToDormant` names, where the actor
/// was not dead.
pub proof fn lemma_directive_messages_decide_state(
    state: ComponentState,
    directives: Seq<ComponentDirective>,
)
    ensures
        state_after_events(state, directive_events(directives)) == state_after_directives(
            state,
            directives,
        ),
        state != ComponentState::Dead ==> state_after_events(state, directive_events(directives))
            == (match requested_state(directives) {
            Some(requested) => requested,
            None => state,
        }),
    decreases directives.len(),
{
    lemma_directives_decide_state(state, directives);
    if directives.len() > 0 {
        lemma_directive_messages_decide_state(state, directives.drop_last());
        lemma_directives_decide_state(state, directives.drop_last());
        assert(directive_events(directives).drop_last() =~= directive_events(
            directives.drop_last(),
        ));
    }
}

/// A message that is no component directive changes no state and ends no
/// loop: the actor passes over what it has no handling for, and takes the
/// next event.
pub proof fn lemma_other_messages_keep_loop(state: ComponentState, message: ContainerMessage)
    requires
        message.component_directive() is None,
    ensures
        next_state(state, LoopEvent::Message(message)) == state,
        state != ComponentState::Dead ==> !ends_loop(state, LoopEvent::Message(message)),
{
}

/// A wake-up to the shutdown number ends the loop of every actor, whatever
/// its state, and leaves it dormant unless it was dead; a wake-up to any
/// other number ends no loop and changes no state.
pub proof fn lemma_shutdown_ends_loop(state: ComponentState, code: usize)
    ensures
        code == ContainerLifecycleState::ShuttingDown.spec_code() ==> ends_loop(
            state,
            LoopEvent::LifecycleWake(code),
        ),
        code == ContainerLifecycleState::ShuttingDown.spec_code() && state != ComponentState::Dead
            ==> next_state(state, LoopEvent::LifecycleWake(code)) == ComponentState::Dormant,
        code != ContainerLifecycleState::ShuttingDown.spec_code() && state != ComponentState::Dead
            ==> !ends_loop(state, LoopEvent::LifecycleWake(code)) && next_state(
            state,
            LoopEvent::LifecycleWake(code),
        ) == state,
{
}

} // verus!

//! The life cycle of one invocation of a plugin: the states that it passes
//! through, the events that move it on, and what the host has to do next.
//!
//! The host calls into the plugin and waits for it; this module decides. An
//! invocation is stepped with each thing that happened, and answers with the
//! action that is due.

use crate::capability::{first_unbound, imported_names, link_text, AuditRecord, Namespace};
use crate::context::{ExecutionContext, Sandbox};
use crate::registry::{Algorithm, ConfigError, Guest, Registry};
use vstd::prelude::*;

verus! {

/// The exported operation that a request asks for.
#[derive(Clone, Copy, Debug, PartialEq, Eq, Structural)]
pub enum Operation {
    Encrypt,
    Decrypt,
}

impl Operation {
    /// The name under which a plugin exports the operation.
    pub open spec fn export(self) -> Seq<char> {
        match self {
            Operation::Encrypt => "encr"@,
            Operation::Decrypt => "decr"@,
        }
    }

    /// The name by which the audit trail calls the operation.
    pub open spec fn label(self) -> Seq<char> {
        match self {
            Operation::Encrypt => "encrypt"@,
            Operation::Decrypt => "decrypt"@,
        }
    }

    /// The name under which a plugin exports the operation.
    pub fn export_name(self) -> (name: &'static str)
        ensures
            name@ == self.export(),
    {
        match self {
            Operation::Encrypt => "encr",
            Operation::Decrypt => "decr",
        }
    }

    /// The name by which the audit trail calls the operation.
    pub fn name(self) -> (name: &'static str)
        ensures
            name@ == self.label(),
    {
        match self {
            Operation::Encrypt => "encrypt",
            Operation::Decrypt => "decrypt",
        }
    }
}

/// Why an invocation gave no output.
#[derive(Clone, Debug, PartialEq, Eq)]
pub enum Fault {
    /// The plugin could not be instantiated; the text says why.
    Instantiation(String),
    /// The plugin trapped while it ran; the text is its diagnostic.
    Trap(String),
}

impl Fault {
    /// The text that the fault carries.
    pub fn diagnostic(&self) -> (text: &str)
        ensures
            text@ == match *self {
                Fault::Instantiation(reason) => reason@,
                Fault::Trap(reason) => reason@,
            },
    {
        match self {
            Fault::Instantiation(reason) => reason.as_str(),
            Fault::Trap(reason) => reason.as_str(),
        }
    }
}

/// Where an invocation stands.
#[derive(Clone, Debug, PartialEq, Eq)]
pub enum State {
    /// The request was accepted and its plugin resolved.
    Received,
    /// The execution context of the call exists.
    ContextBuilt,
    /// The plugin was instantiated against the context and the namespace.
    Instantiated,
    /// The plugin has called a capability of the host.
    CapabilityCallout,
    /// The plugin makes no further callout and runs to its result.
    OperationExecuting,
    /// The plugin returned its output.
    Completed(String),
    /// The invocation failed.
    Faulted(Fault),
}

/// What happened to an invocation.
#[derive(Clone, Debug, PartialEq, Eq)]
pub enum Event {
    /// The execution context was built.
    ContextBuilt,
    /// Instantiation succeeded.
    Instantiated,
    /// Instantiation failed, for the reason given.
    InstantiationFailed(String),
    /// The plugin called the audit recorder.
    Callout(AuditRecord),
    /// The plugin has made its last callout.
    Executing,
    /// The operation returned this output.
    Returned(String),
    /// The plugin trapped, with this diagnostic. A host that sets a limit to
    /// a call, of time or of anything else, ends the call with this event
    /// when the limit is exceeded.
    Trapped(String),
}

/// What the host is to do after an event.
#[derive(Clone, Copy, Debug, PartialEq, Eq, Structural)]
pub enum Action {
    /// Instantiate the plugin against the context and the namespace.
    Instantiate,
    /// Call the plugin's export for this operation with the input.
    Call(Operation),
    /// Perform the callout that was recorded, and let the plugin go on.
    Record,
    /// Wait for the operation to end.
    Await,
    /// Hand the outcome to the caller and discard the context.
    Deliver,
    /// Nothing: the event does not apply to the state, which stays as it is.
    Ignore,
}

/// Whether `event` can happen to an invocation in `state`.
pub open spec fn admits(state: State, event: Event) -> bool {
    match (state, event) {
        (State::Received, Event::ContextBuilt) => true,
        (State::ContextBuilt, Event::Instantiated) => true,
        (State::ContextBuilt, Event::InstantiationFailed(_)) => true,
        (State::Instantiated, Event::Callout(_)) => true,
        (State::CapabilityCallout, Event::Callout(_)) => true,
        (State::Instantiated, Event::Executing) => true,
        (State::CapabilityCallout, Event::Executing) => true,
        (State::OperationExecuting, Event::Returned(_)) => true,
        (State::Instantiated, Event::Trapped(_)) => true,
        (State::CapabilityCallout, Event::Trapped(_)) => true,
        (State::OperationExecuting, Event::Trapped(_)) => true,
        _ => false,
    }
}

/// The state that follows `state` on `event`: the next one where the state
/// admits the event, and `state` itself where it does not.
pub open spec fn next_state(state: State, event: Event) -> State {
    if !admits(state, event) {
        state
    } else {
        match event {
            Event::ContextBuilt => State::ContextBuilt,
            Event::Instantiated => State::Instantiated,
            Event::InstantiationFailed(reason) => State::Faulted(Fault::Instantiation(reason)),
            Event::Callout(_) => State::CapabilityCallout,
            Event::Executing => State::OperationExecuting,
            Event::Returned(output) => State::Completed(output),
            Event::Trapped(diagnostic) => State::Faulted(Fault::Trap(diagnostic)),
        }
    }
}

/// What the host is to do when `event` has happened in `state` to an
/// invocation of `operation`.
pub open spec fn response(state: State, event: Event, operation: Operation) -> Action {
    if !admits(state, event) {
        Action::Ignore
    } else {
        match event {
            Event::ContextBuilt => Action::Instantiate,
            Event::Instantiated => Action::Call(operation),
            Event::InstantiationFailed(_) => Action::Deliver,
            Event::Callout(_) => Action::Record,
            Event::Executing => Action::Await,
            Event::Returned(_) => Action::Deliver,
            Event::Trapped(_) => Action::Deliver,
        }
    }
}

/// How far a state is along the life cycle.
pub open spec fn rank(state: State) -> nat {
    match state {
        State::Received => 0,
        State::ContextBuilt => 1,
        State::Instantiated => 2,
        State::CapabilityCallout => 3,
        State::OperationExecuting => 4,
        State::Completed(_) => 5,
        State::Faulted(_) => 5,
    }
}

/// Whether a state ends the invocation.
pub open spec fn terminal(state: State) -> bool {
    state is Completed || state is Faulted
}

/// The outcome that a state stands for: the output of a completed
/// invocation, the fault of a failed one, and none while it is under way.
pub open spec fn outcome_of(state: State) -> Option<Result<String, Fault>> {
    match state {
        State::Completed(output) => Some(Ok(output)),
        State::Faulted(fault) => Some(Err(fault)),
        _ => None,
    }
}

/// What an invocation is, to its contracts.
pub struct Run {
    pub operation: Operation,
    pub input: Seq<char>,
    pub state: State,
    /// The callouts that the plugin has made, oldest first.
    pub callouts: Seq<AuditRecord>,
}

impl Run {
    /// The invocation after `event`.
    pub open spec fn after(self, event: Event) -> Run {
        Run {
            operation: self.operation,
            input: self.input,
            state: next_state(self.state, event),
            callouts: match event {
                Event::Callout(record) if admits(self.state, event) => self.callouts.push(record),
                _ => self.callouts,
            },
        }
    }
}

/// One request to a plugin, from its acceptance to its outcome.
#[derive(Debug)]
pub struct Invocation {
    operation: Operation,
    input: String,
    state: State,
    callouts: Vec<AuditRecord>,
}

impl View for Invocation {
    type V = Run;

    closed spec fn view(&self) -> Run {
        Run {
            operation: self.operation,
            input: self.input@,
            state: self.state,
            callouts: self.callouts@,
        }
    }
}

impl Invocation {
    /// Accepts a request: `operation` on `input`.
    pub fn receive(operation: Operation, input: String) -> (invocation: Invocation)
        ensures
            invocation@ == (Run {
                operation,
                input: input@,
                state: State::Received,
                callouts: Seq::<AuditRecord>::empty(),
            }),
    {
        Invocation { operation, input, state: State::Received, callouts: Vec::new() }
    }

    /// The operation that was asked for.
    pub fn operation(&self) -> (operation: Operation)
        ensures
            operation == self@.operation,
    {
        self.operation
    }

    /// The input of the request.
    pub fn input(&self) -> (input: &str)
        ensures
            input@ == self@.input,
    {
        self.input.as_str()
    }

    /// Where the invocation stands.
    pub fn state(&self) -> (state: &State)
        ensures
            *state == self@.state,
    {
        &self.state
    }

    /// The callouts that the plugin has made, oldest first.
    pub fn callouts(&self) -> (callouts: &Vec<AuditRecord>)
        ensures
            callouts@ == self@.callouts,
    {
        &self.callouts
    }

    /// Whether the invocation has ended.
    pub fn is_over(&self) -> (over: bool)
        ensures
            over == terminal(self@.state),
    {
        match &self.state {
            State::Completed(_) => true,
            State::Faulted(_) => true,
            _ => false,
        }
    }

    /// Moves the invocation on by one event and says what is due next. An
    /// event that the state does not admit changes nothing.
    pub fn step(&mut self, event: Event) -> (action: Action)
        ensures
            final(self)@ == old(self)@.after(event),
            action == response(old(self)@.state, event, old(self)@.operation),
    {
        match event {
            Event::ContextBuilt => match &self.state {
                State::Received => {
                    self.state = State::ContextBuilt;
                    Action::Instantiate
                },
                _ => Action::Ignore,
            },
            Event::Instantiated => match &self.state {
                State::ContextBuilt => {
                    self.state = State::Instantiated;
                    Action::Call(self.operation)
                },
                _ => Action::Ignore,
            },
            Event::InstantiationFailed(reason) => match &self.state {
                State::ContextBuilt => {
                    self.state = State::Faulted(Fault::Instantiation(reason));
                    Action::Deliver
                },
                _ => Action::Ignore,
            },
            Event::Callout(record) => match &self.state {
                State::Instantiated | State::CapabilityCallout => {
                    self.state = State::CapabilityCallout;
                    self.callouts.push(record);
                    Action::Record
                },
                _ => Action::Ignore,
            },
            Event::Executing => match &self.state {
                State::Instantiated | State::CapabilityCallout => {
                    self.state = State::OperationExecuting;
                    Action::Await
                },
                _ => Action::Ignore,
            },
            Event::Returned(output) => match &self.state {
                State::OperationExecuting => {
                    self.state = State::Completed(output);
                    Action::Deliver
                },
                _ => Action::Ignore,
            },
            Event::Trapped(diagnostic) => match &self.state {
                State::Instantiated | State::CapabilityCallout | State::OperationExecuting => {
                    self.state = State::Faulted(Fault::Trap(diagnostic));
                    Action::Deliver
                },
                _ => Action::Ignore,
            },
        }
    }

    /// Ends the call of the operation with what the plugin gave: its output,
    /// or the diagnostic of its trap. The plugin can make no callout after
    /// its call has ended, so the invocation first passes to
    /// `OperationExecuting`, and from there to its end.
    pub fn conclude(&mut self, result: Result<String, String>) -> (action: Action)
        ensures
            final(self)@ == old(self)@.after(Event::Executing).after(
                match result {
                    Ok(output) => Event::Returned(output),
                    Err(diagnostic) => Event::Trapped(diagnostic),
                },
            ),
            action == response(
                old(self)@.after(Event::Executing).state,
                match result {
                    Ok(output) => Event::Returned(output),
                    Err(diagnostic) => Event::Trapped(diagnostic),
                },
                old(self)@.operation,
            ),
    {
        self.step(Event::Executing);
        match result {
            Ok(output) => self.step(Event::Returned(output)),
            Err(diagnostic) => self.step(Event::Trapped(diagnostic)),
        }
    }

    /// The outcome of the invocation: the output of a completed one, the
    /// fault of a failed one, and none while it is under way.
    pub fn into_outcome(self) -> (outcome: Option<Result<String, Fault>>)
        ensures
            outcome == outcome_of(self@.state),
    {
        match self.state {
            State::Completed(output) => Some(Ok(output)),
            State::Faulted(fault) => Some(Err(fault)),
            _ => None,
        }
    }
}

/// An invocation that was started, with what the host needs to go on.
pub struct Started {
    pub invocation: Invocation,
    /// The context that the plugin is to be instantiated against; none where
    /// the invocation has already failed.
    pub context: Option<ExecutionContext>,
    /// What is due.
    pub action: Action,
}

/// What starting an invocation of `operation` on `input` gives, for a plugin
/// with these imports and this configuration under a namespace that binds
/// `bound`.
///
/// Where every import is satisfied, the invocation stands at `ContextBuilt`
/// with a fresh context of its own, and instantiation is due. Where an
/// import is unbound, the invocation has failed with a fault of
/// instantiation that names the import, there is no context, and the
/// outcome is due.
pub open spec fn starts(
    started: Started,
    bound: Set<Seq<char>>,
    imports: Seq<Seq<char>>,
    config: Seq<(Seq<char>, Seq<char>)>,
    operation: Operation,
    input: Seq<char>,
) -> bool {
    &&& started.invocation@.operation == operation
    &&& started.invocation@.input == input
    &&& started.invocation@.callouts == Seq::<AuditRecord>::empty()
    &&& match first_unbound(bound, imports) {
        None => {
            &&& started.invocation@.state == State::ContextBuilt
            &&& started.context matches Some(context)
            &&& context@ == Sandbox::fresh(config)
            &&& started.action == Action::Instantiate
        },
        Some(import) => {
            &&& started.invocation@.state matches State::Faulted(Fault::Instantiation(reason))
            &&& reason@ == link_text(import)
            &&& started.context is None
            &&& started.action == Action::Deliver
        },
    }
}

/// Starts an invocation of a resolved plugin: accepts the request, builds the
/// execution context from the plugin's configuration, and links the plugin
/// against the namespace.
pub fn begin(guest: &Guest, namespace: &Namespace, operation: Operation, input: String) -> (started:
    Started)
    ensures
        starts(
            started,
            namespace@,
            imported_names(guest.component),
            guest.env_vars.deep_view(),
            operation,
            input@,
        ),
{
    let mut invocation = Invocation::receive(operation, input);
    let context = ExecutionContext::build(&guest.env_vars);
    let due = invocation.step(Event::ContextBuilt);
    match namespace.link(&guest.component) {
        Ok(_) => Started { invocation, context: Some(context), action: due },
        Err(error) => {
            let action = invocation.step(Event::InstantiationFailed(error.message()));
            Started { invocation, context: None, action }
        },
    }
}

/// Resolves the key of a request and starts its invocation.
///
/// A key that resolves to no plugin is refused as unknown before anything is
/// built: there is then no invocation, and so nothing to instantiate. For a
/// key that resolves, the plugin is returned with the invocation that
/// `begin` starts for it.
pub fn dispatch<'a>(
    registry: &'a Registry,
    namespace: &Namespace,
    key: &str,
    operation: Operation,
    input: String,
) -> (dispatched: Result<(&'a Guest, Started), ConfigError>)
    ensures
        match dispatched {
            Ok((guest, started)) => {
                &&& Algorithm::named(key@) matches Some(algorithm)
                &&& registry@.dom().contains(algorithm)
                &&& *guest == registry@[algorithm]
                &&& starts(
                    started,
                    namespace@,
                    imported_names(guest.component),
                    guest.env_vars.deep_view(),
                    operation,
                    input@,
                )
            },
            Err(error) => {
                &&& error == ConfigError::UnknownKey
                &&& match Algorithm::named(key@) {
                    Some(algorithm) => !registry@.dom().contains(algorithm),
                    None => true,
                }
            },
        },
{
    match registry.resolve(key) {
        Ok(guest) => {
            let started = begin(guest, namespace, operation, input);
            Ok((guest, started))
        },
        Err(error) => Err(error),
    }
}

/// An invocation that has ended stays as it is, whatever happens.
pub proof fn lemma_terminal_states_absorb(state: State, event: Event)
    requires
        terminal(state),
    ensures
        next_state(state, event) == state,
        !admits(state, event),
{
}

/// No event takes an invocation back: a step either leaves the state as it
/// is or moves it further along the life cycle, and only a callout that
/// follows a callout is admitted without moving it.
pub proof fn lemma_no_state_is_reentered(state: State, event: Event)
    ensures
        rank(next_state(state, event)) >= rank(state),
        admits(state, event) && rank(next_state(state, event)) == rank(state) ==> state
            is CapabilityCallout && event is Callout,
{
}

/// Callouts come before the operation ends: once an invocation executes its
/// operation or has ended, its record of callouts is final.
pub proof fn lemma_callouts_precede_the_end(run: Run, event: Event)
    requires
        rank(run.state) >= 4,
    ensures
        run.after(event).callouts == run.callouts,
{
}

/// The record of callouts only grows: whatever happens to an invocation, the
/// callouts that it has recorded stay, in their order.
pub proof fn lemma_callouts_are_kept(run: Run, event: Event)
    ensures
        run.callouts.is_prefix_of(run.after(event).callouts),
{
}

/// A trap never looks like output: whenever a plugin traps, in any state in
/// which it can, the invocation ends in a fault that carries the diagnostic,
/// and its outcome is that fault and no output, whatever the diagnostic says.
pub proof fn lemma_trap_is_no_output(state: State, diagnostic: String, output: String)
    requires
        admits(state, Event::Trapped(diagnostic)),
    ensures
        next_state(state, Event::Trapped(diagnostic)) == State::Faulted(Fault::Trap(diagnostic)),
        outcome_of(next_state(state, Event::Trapped(diagnostic))) == Some(
            Err::<String, Fault>(Fault::Trap(diagnostic)),
        ),
        outcome_of(next_state(state, Event::Trapped(diagnostic))) != Some(
            Ok::<String, Fault>(output),
        ),
{
}

} // verus!

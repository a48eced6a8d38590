//! The bot as decisions on plain values.
//!
//! The handlers say what is to be sent; the dispatch loop says what state the
//! bot is in. Sending, waiting and listening are left to the caller.

use crate::bot::thank_react::{replies_to, thank_react_filter};
use crate::message::Message;
use vstd::prelude::*;

pub mod remove_si;
pub mod send;
pub mod thank_react;

verus! {

/// Why a handler gave up on a message.
#[derive(Debug, Clone, Copy, PartialEq, Eq, Structural)]
pub enum HandlerError {
    /// The link handler found no chat to reply in.
    NoChatToReplyIn,
    /// The reaction handler found no chat to react in.
    NoChatToReactIn,
}

impl HandlerError {
    /// The words of the error.
    pub fn message(&self) -> (text: &'static str)
        ensures
            text@ == match *self {
                HandlerError::NoChatToReplyIn => "failed to get chat id"@,
                HandlerError::NoChatToReactIn => "No chat id for message"@,
            },
    {
        match self {
            HandlerError::NoChatToReplyIn => "failed to get chat id",
            HandlerError::NoChatToReactIn => "No chat id for message",
        }
    }
}

/// The handler that a message goes to.
#[derive(Debug, Clone, Copy, PartialEq, Eq, Structural)]
pub enum Route {
    /// The message replies to the bot: react to it.
    ThankReact,
    /// Any other message: look for links to clean.
    RemoveSi,
}

/// Which handler a message goes to: the reaction handler where the message
/// replies to one of the bot's own, the link handler otherwise.
pub fn route(me: u64, message: &Message) -> (route: Route)
    ensures
        route == if replies_to(me, *message) {
            Route::ThankReact
        } else {
            Route::RemoveSi
        },
{
    if thank_react_filter(me, message) {
        Route::ThankReact
    } else {
        Route::RemoveSi
    }
}

/// How long a shutdown may take after the first interrupt, in seconds.
pub const FORCED_SHUTDOWN_TIMEOUT_SECS: u64 = 10;

/// The state of the dispatch loop.
#[derive(Debug, Clone, Copy, PartialEq, Eq, Structural)]
pub enum DispatchState {
    /// Events are routed to the handlers.
    Running,
    /// A handler has panicked; the dispatch context is being rebuilt.
    HandlerPanicked,
    /// An interrupt has come; work in flight may still finish.
    ShuttingDown,
    /// The loop has ended, and stays so.
    Terminated,
}

/// What can happen to the dispatch loop.
#[derive(Debug, Clone, Copy, PartialEq, Eq, Structural)]
pub enum DispatchEvent {
    /// A handler panicked.
    HandlerPanic,
    /// A fresh dispatch context stands.
    Restarted,
    /// The interrupt signal came.
    Interrupt,
    /// The shutdown timeout ran out.
    TimeoutElapsed,
    /// The dispatcher came to its end of its own accord.
    Finished,
}

/// What the caller is to do after an event.
#[derive(Debug, Clone, Copy, PartialEq, Eq, Structural)]
pub enum DispatchAction {
    /// Nothing.
    Carry,
    /// Log the panic and build a fresh dispatch context.
    LogAndRestart,
    /// Let the work in flight finish, and start the shutdown timeout.
    BeginShutdown,
    /// Leave the loop in the ordinary way.
    Stop,
    /// Leave at once, whatever is still in flight.
    ForceExit,
}

/// The state that the loop starts in.
pub open spec fn initial_state() -> DispatchState {
    DispatchState::Running
}

/// The state after an event.
pub open spec fn next_state(state: DispatchState, event: DispatchEvent) -> DispatchState {
    match (state, event) {
        (DispatchState::Terminated, _) => DispatchState::Terminated,
        (_, DispatchEvent::Finished) => DispatchState::Terminated,
        (DispatchState::ShuttingDown, DispatchEvent::Interrupt) => DispatchState::Terminated,
        (DispatchState::ShuttingDown, DispatchEvent::TimeoutElapsed) => DispatchState::Terminated,
        (DispatchState::ShuttingDown, _) => DispatchState::ShuttingDown,
        (_, DispatchEvent::Interrupt) => DispatchState::ShuttingDown,
        (DispatchState::Running, DispatchEvent::HandlerPanic) => DispatchState::HandlerPanicked,
        (DispatchState::HandlerPanicked, DispatchEvent::Restarted) => DispatchState::Running,
        (state, _) => state,
    }
}

/// What the caller is to do on an event.
pub open spec fn action_on(state: DispatchState, event: DispatchEvent) -> DispatchAction {
    match (state, event) {
        (DispatchState::Terminated, _) => DispatchAction::Carry,
        (_, DispatchEvent::Finished) => DispatchAction::Stop,
        (DispatchState::ShuttingDown, DispatchEvent::Interrupt) => DispatchAction::ForceExit,
        (DispatchState::ShuttingDown, DispatchEvent::TimeoutElapsed) => DispatchAction::ForceExit,
        (_, DispatchEvent::HandlerPanic) => DispatchAction::LogAndRestart,
        (DispatchState::ShuttingDown, _) => DispatchAction::Carry,
        (_, DispatchEvent::Interrupt) => DispatchAction::BeginShutdown,
        _ => DispatchAction::Carry,
    }
}

/// Once the loop has ended, no event brings it back or asks for anything.
pub proof fn lemma_terminated_stays(event: DispatchEvent)
    ensures
        next_state(DispatchState::Terminated, event) == DispatchState::Terminated,
        action_on(DispatchState::Terminated, event) == DispatchAction::Carry,
{
}

/// No state but `Terminated` is final: from each of the others the end of
/// the dispatcher leads on to it.
pub proof fn lemma_only_terminated_is_final(state: DispatchState)
    requires
        state != DispatchState::Terminated,
    ensures
        next_state(state, DispatchEvent::Finished) != state,
{
}

/// After the first interrupt the loop is shutting down; a second interrupt,
/// or the timeout, ends it at once.
pub proof fn lemma_interrupts_end_the_loop(forcing: DispatchEvent)
    requires
        forcing == DispatchEvent::Interrupt || forcing == DispatchEvent::TimeoutElapsed,
    ensures
        next_state(initial_state(), DispatchEvent::Interrupt) == DispatchState::ShuttingDown,
        next_state(DispatchState::ShuttingDown, forcing) == DispatchState::Terminated,
        action_on(DispatchState::ShuttingDown, forcing) == DispatchAction::ForceExit,
{
}

/// A panic of a handler does not end the loop: it is logged, and with the
/// fresh dispatch context the loop runs again.
pub proof fn lemma_panic_is_recovered()
    ensures
        next_state(DispatchState::Running, DispatchEvent::HandlerPanic)
            == DispatchState::HandlerPanicked,
        action_on(DispatchState::Running, DispatchEvent::HandlerPanic)
            == DispatchAction::LogAndRestart,
        next_state(DispatchState::HandlerPanicked, DispatchEvent::Restarted)
            == DispatchState::Running,
{
}

impl DispatchState {
    /// The state that the loop starts in: running.
    pub fn new() -> (state: DispatchState)
        ensures
            state == initial_state(),
    {
        DispatchState::Running
    }

    /// Whether the loop has ended.
    pub fn is_terminal(&self) -> (ended: bool)
        ensures
            ended == (*self == DispatchState::Terminated),
    {
        match self {
            DispatchState::Terminated => true,
            _ => false,
        }
    }

    /// The state after an event, and what the caller is to do.
    pub fn step(self, event: DispatchEvent) -> (next: (DispatchState, DispatchAction))
        ensures
            next.0 == next_state(self, event),
            next.1 == action_on(self, event),
    {
        match (self, event) {
            (DispatchState::Terminated, _) => (DispatchState::Terminated, DispatchAction::Carry),
            (_, DispatchEvent::Finished) => (DispatchState::Terminated, DispatchAction::Stop),
            (DispatchState::ShuttingDown, DispatchEvent::Interrupt) => (
                DispatchState::Terminated,
                DispatchAction::ForceExit,
            ),
            (DispatchState::ShuttingDown, DispatchEvent::TimeoutElapsed) => (
                DispatchState::Terminated,
                DispatchAction::ForceExit,
            ),
            (DispatchState::ShuttingDown, DispatchEvent::HandlerPanic) => (
                DispatchState::ShuttingDown,
                DispatchAction::LogAndRestart,
            ),
            (DispatchState::ShuttingDown, _) => (DispatchState::ShuttingDown, DispatchAction::Carry),
            (_, DispatchEvent::Interrupt) => (
                DispatchState::ShuttingDown,
                DispatchAction::BeginShutdown,
            ),
            (DispatchState::Running, DispatchEvent::HandlerPanic) => (
                DispatchState::HandlerPanicked,
                DispatchAction::LogAndRestart,
            ),
            (DispatchState::HandlerPanicked, DispatchEvent::HandlerPanic) => (
                DispatchState::HandlerPanicked,
                DispatchAction::LogAndRestart,
            ),
            (DispatchState::HandlerPanicked, DispatchEvent::Restarted) => (
                DispatchState::Running,
                DispatchAction::Carry,
            ),
            (state, _) => (state, DispatchAction::Carry),
        }
    }
}

} // verus!

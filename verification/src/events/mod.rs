pub mod types;

use vstd::prelude::*;

verus! {

/// Actions that event handlers hand up to the application.
#[derive(Debug, Clone, Copy, PartialEq, Eq, Structural)]
pub enum ActionType {
    /// Quit the application.
    Quit,
    /// A tool finished drawing an element.
    FinishedDrawing,
}

/// The outcome of handling an event.
#[derive(Debug, Clone, Copy, PartialEq, Eq, Structural)]
pub enum EventResult {
    /// Handled: stop passing the event on.
    Consumed,
    /// Not handled: the next handler gets it.
    Ignored,
    /// Handled, and the application has something to do.
    Action(ActionType),
}

/// Where an answer leaves a chain of handlers: `None` passes the event on,
/// `Some(true)` quits, `Some(false)` stops the chain there.
pub open spec fn settled(r: EventResult) -> Option<bool> {
    match r {
        EventResult::Ignored => None,
        EventResult::Action(ActionType::Quit) => Some(true),
        _ => Some(false),
    }
}

/// Where an answer leaves a chain of handlers: an ignored event goes on to
/// the next handler, a quit action quits, anything else stops the chain.
pub fn settle(r: EventResult) -> (q: Option<bool>)
    ensures
        q == settled(r),
{
    match r {
        EventResult::Ignored => None,
        EventResult::Action(ActionType::Quit) => Some(true),
        _ => Some(false),
    }
}

} // verus!
pub mod global;
pub mod dispatch;

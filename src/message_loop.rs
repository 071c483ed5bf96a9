//! The decision taken on each turn of the main thread's message pump.
use vstd::prelude::*;

verus! {

/// What the pump does with the result of fetching the next message.
#[derive(Clone, Copy, Debug, PartialEq, Eq, Structural)]
pub enum PumpStep {
    /// A message was fetched: translate and dispatch it, then fetch again.
    Dispatch,
    /// The quit message came, or fetching failed: leave the loop.
    Quit,
}

/// Maps the status of a blocking message fetch to the next step: a
/// positive status carries a message, zero means quit and a negative
/// status an error, and both of those end the loop.
pub fn pump_step(fetch_status: i32) -> (s: PumpStep)
    ensures
        s == (if fetch_status > 0 { PumpStep::Dispatch } else { PumpStep::Quit }),
{
    if fetch_status > 0 {
        PumpStep::Dispatch
    } else {
        PumpStep::Quit
    }
}

} // verus!

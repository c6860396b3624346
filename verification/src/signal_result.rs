use vstd::prelude::*;

verus! {

/// What one delivery checkpoint decided, for the trap-return path to act
/// on.
#[derive(Clone, Copy, PartialEq, Eq, Structural, Debug)]
pub enum SignalResult {
    /// No deliverable signal was found, or the delivered signal was
    /// discarded; the task resumes with its context unchanged.
    NoAction,
    /// A default-action signal terminates the task; carries the signal
    /// number as the cause.
    Terminated(usize),
    /// A default-action signal stops the task.
    Stopped,
    /// A default-action signal continues a stopped task.
    Continued,
    /// The context was rewritten in place to enter a user handler.
    HandlerEntered,
}

} // verus!

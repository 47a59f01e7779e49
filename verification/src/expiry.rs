//! What the closing timer does when it fires.

use vstd::prelude::*;

verus! {

/// What a timer callback tells the event loop about its own future.
#[derive(Clone, Copy, Debug, PartialEq, Eq, Hash, Structural)]
pub enum Directive {
    /// Call me again after the same delay.
    Continue,
    /// Remove me: I will not run again.
    Break,
}

/// The outcome of one firing of the closing timer.
#[derive(Debug, PartialEq, Eq)]
pub struct Expiry<H> {
    /// The window to destroy, if there is one left.
    pub destroy: Option<H>,
    /// What to tell the event loop.
    pub directive: Directive,
}

/// The outcome when the timer's weak reference resolves to `window`:
/// `Some` while the window lives, `None` once it is gone.
pub open spec fn expiry<H>(window: Option<H>) -> Expiry<H> {
    Expiry { destroy: window, directive: Directive::Break }
}

/// Decides what the closing timer does on firing. `window` is what its weak
/// reference resolves to at that moment. A live window is handed back to be
/// destroyed; a window that is already gone leaves nothing to do. Either
/// way the timer does not run again.
pub fn expire<H>(window: Option<H>) -> (outcome: Expiry<H>)
    ensures
        outcome == expiry(window),
{
    match window {
        Some(live) => Expiry { destroy: Some(live), directive: Directive::Break },
        None => Expiry { destroy: None, directive: Directive::Break },
    }
}

} // verus!

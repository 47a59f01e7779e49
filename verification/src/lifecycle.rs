//! The life of one plate: unbuilt, shown, destroyed.

use vstd::prelude::*;

verus! {

/// Where a plate stands in its life.
#[derive(Clone, Copy, Debug, PartialEq, Eq, Hash, Structural)]
pub enum Phase {
    /// Configured, no window yet.
    Unbuilt,
    /// The window is on screen and the closing timer is armed.
    Shown,
    /// The window is gone.
    Destroyed,
}

/// What can happen to a plate.
#[derive(Clone, Copy, Debug, PartialEq, Eq, Hash, Structural)]
pub enum Event {
    /// The plate was built and its window presented.
    Build,
    /// The closing timer fired.
    TimerFired,
    /// The user or the window manager closed the window.
    Closed,
}

impl Phase {
    /// The phase that follows `self` on `event`. An event that has no
    /// transition from `self` leaves the phase as it is.
    pub open spec fn spec_after(self, event: Event) -> Phase {
        match (self, event) {
            (Phase::Unbuilt, Event::Build) => Phase::Shown,
            (Phase::Shown, Event::TimerFired) => Phase::Destroyed,
            (Phase::Shown, Event::Closed) => Phase::Destroyed,
            _ => self,
        }
    }

    /// Whether the plate itself destroys its window on `event`: only the
    /// timer does, and only while the window is still there.
    pub open spec fn spec_destroys(self, event: Event) -> bool {
        self == Phase::Shown && event == Event::TimerFired
    }

    /// How far the phase is along the plate's life.
    pub open spec fn rank(self) -> nat {
        match self {
            Phase::Unbuilt => 0,
            Phase::Shown => 1,
            Phase::Destroyed => 2,
        }
    }

    /// The phase that follows `self` on `event`.
    #[verifier::when_used_as_spec(spec_after)]
    pub fn after(self, event: Event) -> (next: Phase)
        ensures
            next == self.spec_after(event),
    {
        match self {
            Phase::Unbuilt => match event {
                Event::Build => Phase::Shown,
                _ => Phase::Unbuilt,
            },
            Phase::Shown => match event {
                Event::Build => Phase::Shown,
                _ => Phase::Destroyed,
            },
            Phase::Destroyed => Phase::Destroyed,
        }
    }

    /// Whether the plate itself destroys its window on `event`.
    #[verifier::when_used_as_spec(spec_destroys)]
    pub fn destroys(self, event: Event) -> (yes: bool)
        ensures
            yes == self.spec_destroys(event),
    {
        match (self, event) {
            (Phase::Shown, Event::TimerFired) => true,
            _ => false,
        }
    }
}

/// The phase reached from `start` after `events`, taken in order.
pub open spec fn run(start: Phase, events: Seq<Event>) -> Phase
    decreases events.len(),
{
    if events.len() == 0 {
        start
    } else {
        run(start.spec_after(events.first()), events.drop_first())
    }
}

/// How often the plate destroys its window while `events` happen in order,
/// starting in `start`.
pub open spec fn destructions(start: Phase, events: Seq<Event>) -> nat
    decreases events.len(),
{
    if events.len() == 0 {
        0
    } else {
        let now: nat = if start.spec_destroys(events.first()) { 1 } else { 0 };
        now + destructions(start.spec_after(events.first()), events.drop_first())
    }
}

/// A plate only moves forward: no event takes it to an earlier phase.
pub proof fn lemma_phase_never_goes_back(start: Phase, events: Seq<Event>)
    ensures
        start.rank() <= run(start, events).rank(),
    decreases events.len(),
{
    if events.len() > 0 {
        lemma_phase_never_goes_back(start.spec_after(events.first()), events.drop_first());
    }
}

/// Once a plate has left `Unbuilt` it never is unbuilt again.
pub proof fn lemma_unbuilt_is_not_reentered(start: Phase, events: Seq<Event>)
    requires
        start != Phase::Unbuilt,
    ensures
        run(start, events) != Phase::Unbuilt,
{
    lemma_phase_never_goes_back(start, events);
}

/// `Destroyed` is final: whatever happens afterwards, the plate stays
/// destroyed and destroys nothing.
pub proof fn lemma_destroyed_is_final(events: Seq<Event>)
    ensures
        run(Phase::Destroyed, events) == Phase::Destroyed,
        destructions(Phase::Destroyed, events) == 0,
    decreases events.len(),
{
    if events.len() > 0 {
        lemma_destroyed_is_final(events.drop_first());
    }
}

/// Whatever happens and in whatever order, a plate destroys its window at
/// most once.
pub proof fn lemma_destroys_at_most_once(start: Phase, events: Seq<Event>)
    ensures
        destructions(start, events) <= 1,
    decreases events.len(),
{
    if events.len() > 0 {
        if start.spec_destroys(events.first()) {
            lemma_destroyed_is_final(events.drop_first());
        } else {
            lemma_destroys_at_most_once(start.spec_after(events.first()), events.drop_first());
        }
    }
}

/// When the window was closed from outside while shown, the timer's later
/// firing, and anything else that happens, destroys nothing.
pub proof fn lemma_timer_after_closure_destroys_nothing(later: Seq<Event>)
    ensures
        Phase::Shown.spec_after(Event::Closed) == Phase::Destroyed,
        destructions(Phase::Shown, seq![Event::Closed] + later) == 0,
{
    let events = seq![Event::Closed] + later;
    assert(events.first() == Event::Closed);
    assert(events.drop_first() =~= later);
    lemma_destroyed_is_final(later);
}

} // verus!

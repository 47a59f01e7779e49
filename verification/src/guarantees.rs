//! What holds of every plate, whatever its configuration.

use vstd::prelude::*;
use crate::edge::{Edge, Layer};
use crate::expiry::{expiry, Directive};
use crate::lifecycle::{Event, Phase};
use crate::plate::PlateView;
use crate::step::StepView;

verus! {

/// Whether an event loop that was asked at `armed_at` to call back after
/// `delay` seconds, and did so at `fired_at`, has kept to the delay. Times
/// are whole seconds on the event loop's clock.
pub open spec fn kept_delay(armed_at: nat, delay: nat, fired_at: nat) -> bool {
    armed_at + delay <= fired_at
}

/// The delay that the closing timer of `steps` is armed with: that of the
/// last step.
pub open spec fn closing_delay<A, W>(steps: Seq<StepView<A, W>>) -> nat
    recommends
        steps.len() > 0,
        steps.last() is ScheduleClose,
{
    steps.last()->seconds
}

/// What a weak reference to the window resolves to tells of the plate: a
/// window that is still there is shown, one that is gone is destroyed.
pub open spec fn phase_of<H>(window: Option<H>) -> Phase {
    match window {
        Some(_) => Phase::Shown,
        None => Phase::Destroyed,
    }
}

/// Building makes exactly one window, first of all: it belongs to the
/// plate's application, bears the plate's title and has the plate's content
/// as its only child. The window is shown exactly once, after everything
/// else has been set on it.
pub proof fn lemma_shows_one_window<A, W>(plate: PlateView<A, W>, overlay: bool)
    ensures
        StepView::creations(plate.script(overlay)) == seq![
            StepView::Create {
                application: plate.factory,
                title: plate.title,
                child: plate.tag.widget(),
            },
        ],
        plate.script(overlay).first() is Create,
        StepView::presentations(plate.script(overlay)) == seq![StepView::<A, W>::Present],
        plate.script(overlay)[plate.script(overlay).len() - 2] is Present,
{
    reveal_with_fuel(Seq::filter, 7);
    let steps = plate.script(overlay);
    assert(StepView::creations(steps).len() == 1);
    assert(StepView::presentations(steps).len() == 1);
}

/// With or without the overlay layer, the window is stripped of its
/// decoration and then fixed in size, each once.
pub proof fn lemma_window_is_bare_and_fixed<A, W>(plate: PlateView<A, W>, overlay: bool)
    ensures
        StepView::adjustments(plate.script(overlay)) == seq![
            StepView::<A, W>::SetDecorated(false),
            StepView::<A, W>::SetResizable(false),
        ],
{
    reveal_with_fuel(Seq::filter, 7);
    assert(StepView::adjustments(plate.script(overlay)).len() == 2);
}

/// Building arms one timer, as its last step, with the plate's duration for
/// a delay; a duration of zero is no exception. So a window that lives until
/// the timer fires is destroyed then and no sooner than `duration` seconds
/// after the timer was armed, as long as the event loop keeps to the delay.
pub proof fn lemma_closes_after_duration<A, W, H>(
    plate: PlateView<A, W>,
    overlay: bool,
    armed_at: nat,
    fired_at: nat,
    window: H,
)
    requires
        kept_delay(armed_at, closing_delay(plate.script(overlay)), fired_at),
    ensures
        StepView::timers(plate.script(overlay)) == seq![
            StepView::<A, W>::ScheduleClose { seconds: plate.duration },
        ],
        plate.script(overlay).last() is ScheduleClose,
        closing_delay(plate.script(overlay)) == plate.duration,
        armed_at + plate.duration <= fired_at,
        expiry(Some(window)).destroy == Some(window),
{
    reveal_with_fuel(Seq::filter, 7);
    assert(StepView::timers(plate.script(overlay)).len() == 1);
}

/// A plate destroys its window on no other occasion than the firing of its
/// timer, and then only while the window is shown.
pub proof fn lemma_only_the_timer_destroys(phase: Phase, event: Event)
    ensures
        phase.spec_destroys(event) ==> event == Event::TimerFired && phase == Phase::Shown,
        phase.spec_destroys(event) ==> phase.spec_after(event) == Phase::Destroyed,
{
}

/// When the window is gone by the time the timer fires, the timer leaves
/// everything as it is: it has nothing to destroy, and it cannot fail.
pub proof fn lemma_gone_window_is_left_alone<H>()
    ensures
        expiry::<H>(None).destroy is None,
        phase_of::<H>(None) == Phase::Destroyed,
        !phase_of::<H>(None).spec_destroys(Event::TimerFired),
        phase_of::<H>(None).spec_after(Event::TimerFired) == Phase::Destroyed,
{
}

/// The timer destroys a window exactly when the plate is still shown, and
/// then the very window that its weak reference resolved to.
pub proof fn lemma_timer_follows_lifecycle<H>(window: Option<H>)
    ensures
        expiry(window).destroy is Some <==> phase_of(window).spec_destroys(Event::TimerFired),
        expiry(window).destroy == window,
        phase_of(expiry(window).destroy).spec_after(Event::TimerFired) == Phase::Destroyed,
{
}

/// The timer is one-shot: whatever it finds on firing, it tells the event
/// loop not to call it again.
pub proof fn lemma_timer_is_one_shot<H>(window: Option<H>)
    ensures
        expiry(window).directive == Directive::Break,
        expiry(window).directive != Directive::Continue,
{
}

/// Whether an event loop that calls a timer again only after it has answered
/// `Continue` can have got `answers`, in this order, from one timer.
pub open spec fn reruns_only_on_continue(answers: Seq<Directive>) -> bool {
    forall|i: int| 0 <= i < answers.len() - 1 ==> answers[i] == Directive::Continue
}

/// The closing timer runs at most once. `found` is what its weak reference
/// resolved to at each of its firings, in order: an event loop that calls a
/// timer again only after `Continue` gets to no second firing.
pub proof fn lemma_timer_runs_at_most_once<H>(found: Seq<Option<H>>)
    requires
        reruns_only_on_continue(found.map_values(|window: Option<H>| expiry(window).directive)),
    ensures
        found.len() <= 1,
{
    let answers = found.map_values(|window: Option<H>| expiry(window).directive);
    if found.len() > 1 {
        assert(answers[0] == expiry(found[0]).directive);
        assert(answers[0] == Directive::Continue);
    }
}

/// Without overlay support no step attaches the window to a layer, and the
/// anchor and margin rules have no effect at all: with any other rules in
/// their place the plate shows by the same steps.
pub proof fn lemma_plain_window_without_overlay<A, W>(
    plate: PlateView<A, W>,
    anchors: Seq<(Edge, bool)>,
    margins: Seq<(Edge, i32)>,
)
    ensures
        StepView::attachments(plate.script(false)) == Seq::<StepView<A, W>>::empty(),
        (PlateView { anchors, margins, ..plate }).script(false) == plate.script(false),
{
    reveal_with_fuel(Seq::filter, 7);
    assert(StepView::attachments(plate.script(false)).len() == 0);
}

/// With overlay support the window is attached once, to the overlay layer,
/// with the plate's anchor and margin rules as they were given, in order and
/// value. The attachment comes right after the window is made, and the rest
/// of the steps are those of a plain window.
pub proof fn lemma_overlay_keeps_rules<A, W>(plate: PlateView<A, W>)
    ensures
        StepView::attachments(plate.script(true)) == seq![
            StepView::<A, W>::Attach {
                anchors: plate.anchors,
                margins: plate.margins,
                layer: Layer::Overlay,
            },
        ],
        plate.script(true)[1] is Attach,
        plate.script(true).remove(1) == plate.script(false),
{
    reveal_with_fuel(Seq::filter, 7);
    assert(StepView::attachments(plate.script(true)).len() == 1);
}

} // verus!

//! The plate: a window's configuration, and the script that shows it.

use vstd::prelude::*;
use crate::edge::{Edge, Layer};
use crate::step::{Step, StepView};
use crate::tag::Tag;

verus! {

/// The configuration of one plate. It is used once: `build` consumes it.
///
/// `A` is the toolkit's application handle and `W` its widget handle.
#[derive(Debug)]
pub struct Plate<A, W> {
    factory: A,
    title: String,
    tag: Tag<W>,
    margins: Vec<(Edge, i32)>,
    anchors: Vec<(Edge, bool)>,
    duration: u64,
}

/// A `Plate` as a mathematical value.
pub struct PlateView<A, W> {
    /// The application that will own the window.
    pub factory: A,
    pub title: Seq<char>,
    pub tag: Tag<W>,
    /// Which edges the window sticks to, in the order given.
    pub anchors: Seq<(Edge, bool)>,
    /// The distance from each edge, in the order given.
    pub margins: Seq<(Edge, i32)>,
    /// Whole seconds between showing the window and closing it.
    pub duration: nat,
}

impl<A, W> View for Plate<A, W> {
    type V = PlateView<A, W>;

    closed spec fn view(&self) -> PlateView<A, W> {
        PlateView {
            factory: self.factory,
            title: self.title@,
            tag: self.tag,
            anchors: self.anchors@,
            margins: self.margins@,
            duration: self.duration as nat,
        }
    }
}

impl<A, W> PlateView<A, W> {
    /// The steps that show the plate, in order. The window is attached to
    /// the overlay layer exactly when `overlay` says that the display server
    /// can do it; nothing else depends on `overlay`.
    pub open spec fn script(self, overlay: bool) -> Seq<StepView<A, W>> {
        let create = StepView::Create {
            application: self.factory,
            title: self.title,
            child: self.tag.widget(),
        };
        let attach = StepView::Attach {
            anchors: self.anchors,
            margins: self.margins,
            layer: Layer::Overlay,
        };
        let rest = seq![
            StepView::SetDecorated(false),
            StepView::SetResizable(false),
            StepView::Present,
            StepView::ScheduleClose { seconds: self.duration },
        ];
        if overlay {
            seq![create, attach] + rest
        } else {
            seq![create] + rest
        }
    }
}

impl<A, W> Plate<A, W> {
    /// Creates a plate from its parts.
    pub fn new(
        factory: A,
        title: String,
        tag: Tag<W>,
        anchors: Vec<(Edge, bool)>,
        margins: Vec<(Edge, i32)>,
        duration: u64,
    ) -> (plate: Self)
        ensures
            plate@ == (PlateView {
                factory,
                title: title@,
                tag,
                anchors: anchors@,
                margins: margins@,
                duration: duration as nat,
            }),
    {
        Plate { factory, title, tag, margins, anchors, duration }
    }

    /// Turns the plate into the steps that show its window and arm the timer
    /// that closes it. `overlay` is what the display server's capability
    /// probe has just answered.
    pub fn build(self, overlay: bool) -> (steps: Vec<Step<A, W>>)
        ensures
            steps.deep_view() == self@.script(overlay),
    {
        let Plate { factory, title, tag, margins, anchors, duration } = self;
        let child = tag.into_widget();
        let mut steps: Vec<Step<A, W>> = Vec::new();
        steps.push(Step::Create { application: factory, title, child });
        if overlay {
            steps.push(Step::Attach { anchors, margins, layer: Layer::Overlay });
        }
        steps.push(Step::SetDecorated(false));
        steps.push(Step::SetResizable(false));
        steps.push(Step::Present);
        steps.push(Step::ScheduleClose { seconds: duration });
        steps
    }
}

} // verus!

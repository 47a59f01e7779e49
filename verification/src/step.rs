//! The commands that a plate issues to the windowing toolkit.

use vstd::prelude::*;
use crate::edge::{Edge, Layer};

verus! {

/// One command to the toolkit. All of them but `Create` act on the window
/// that the preceding `Create` has made. None of them destroys a window.
#[derive(Debug, PartialEq, Eq)]
pub enum Step<A, W> {
    /// Make a top-level window owned by `application`, titled `title`, with
    /// `child` as its only child.
    Create { application: A, title: String, child: W },
    /// Put the window on the compositor's `layer`, with the anchor and
    /// margin rules in the order given.
    Attach { anchors: Vec<(Edge, bool)>, margins: Vec<(Edge, i32)>, layer: Layer },
    /// Turn the title bar and border on or off.
    SetDecorated(bool),
    /// Let the user resize the window, or fix its size to that of its content.
    SetResizable(bool),
    /// Show the window.
    Present,
    /// Arm a one-shot timer that fires `seconds` from now and holds no more
    /// than a weak reference to the window.
    ScheduleClose { seconds: u64 },
}

/// A `Step` as a mathematical value.
pub enum StepView<A, W> {
    Create { application: A, title: Seq<char>, child: W },
    Attach { anchors: Seq<(Edge, bool)>, margins: Seq<(Edge, i32)>, layer: Layer },
    SetDecorated(bool),
    SetResizable(bool),
    Present,
    ScheduleClose { seconds: nat },
}

impl<A, W> View for Step<A, W> {
    type V = StepView<A, W>;

    open spec fn view(&self) -> StepView<A, W> {
        match *self {
            Step::Create { application, title, child } => StepView::Create {
                application,
                title: title@,
                child,
            },
            Step::Attach { anchors, margins, layer } => StepView::Attach {
                anchors: anchors@,
                margins: margins@,
                layer,
            },
            Step::SetDecorated(on) => StepView::SetDecorated(on),
            Step::SetResizable(on) => StepView::SetResizable(on),
            Step::Present => StepView::Present,
            Step::ScheduleClose { seconds } => StepView::ScheduleClose { seconds: seconds as nat },
        }
    }
}

impl<A, W> StepView<A, W> {
    /// The steps of `steps` that make a window, in order.
    pub open spec fn creations(steps: Seq<Self>) -> Seq<Self> {
        steps.filter(|step: Self| step is Create)
    }

    /// The steps of `steps` that attach the window to a layer, in order.
    pub open spec fn attachments(steps: Seq<Self>) -> Seq<Self> {
        steps.filter(|step: Self| step is Attach)
    }

    /// The steps of `steps` that set the window's decoration or its
    /// resizability, in order.
    pub open spec fn adjustments(steps: Seq<Self>) -> Seq<Self> {
        steps.filter(|step: Self| step is SetDecorated || step is SetResizable)
    }

    /// The steps of `steps` that show the window, in order.
    pub open spec fn presentations(steps: Seq<Self>) -> Seq<Self> {
        steps.filter(|step: Self| step is Present)
    }

    /// The steps of `steps` that arm a timer, in order.
    pub open spec fn timers(steps: Seq<Self>) -> Seq<Self> {
        steps.filter(|step: Self| step is ScheduleClose)
    }
}

impl<A, W> DeepView for Step<A, W> {
    type V = StepView<A, W>;

    open spec fn deep_view(&self) -> StepView<A, W> {
        self@
    }
}

} // verus!

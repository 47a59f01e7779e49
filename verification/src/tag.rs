//! The root content of a plate.

use vstd::prelude::*;

verus! {

/// The single visual element that a plate embeds: either a text label or a
/// container. `W` is the toolkit's widget handle; the library carries it
/// through and never looks inside.
#[derive(Debug, PartialEq, Eq)]
pub enum Tag<W> {
    Label(W),
    Box(W),
}

impl<W> Tag<W> {
    /// The widget that the tag holds, whichever variant is active.
    pub open spec fn widget(self) -> W {
        match self {
            Tag::Label(w) => w,
            Tag::Box(w) => w,
        }
    }

    /// Resolves the active variant to the widget it holds.
    pub fn into_widget(self) -> (w: W)
        ensures
            w == self.widget(),
    {
        match self {
            Tag::Label(w) => w,
            Tag::Box(w) => w,
        }
    }
}

} // verus!

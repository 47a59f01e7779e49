//! Screen edges and compositor layers, as plain values.

use vstd::prelude::*;

verus! {

/// One of the four edges of an output. An anchor rule binds the window's
/// edge to it; a margin rule sets the window's distance from it.
#[derive(Clone, Copy, Debug, PartialEq, Eq, Hash, Structural)]
pub enum Edge {
    Left,
    Right,
    Top,
    Bottom,
}

/// A rendering layer of the compositor, from the lowest to the highest.
/// Windows on `Overlay` are drawn above ordinary application windows.
#[derive(Clone, Copy, Debug, PartialEq, Eq, Hash, Structural)]
pub enum Layer {
    Background,
    Bottom,
    Top,
    Overlay,
}

} // verus!

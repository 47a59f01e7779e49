//! Short-lived overlay windows ("plates") for greeter-style notifications.
//!
//! A [`Plate`] describes one undecorated, fixed-size window: its title, its
//! root content, where it sits on the screen and how long it stays.
//! [`Plate::build`] turns the description into the ordered [`Step`]s that
//! show the window, and [`expire`] decides what the closing timer does when
//! it fires. The library touches no toolkit: its caller performs the steps
//! and reports what it finds.

pub mod edge;
pub mod expiry;
pub mod guarantees;
pub mod lifecycle;
pub mod plate;
pub mod step;
pub mod tag;

pub use crate::edge::{Edge, Layer};
pub use crate::expiry::{expire, Directive, Expiry};
pub use crate::lifecycle::{Event, Phase};
pub use crate::plate::Plate;
pub use crate::step::Step;
pub use crate::tag::Tag;

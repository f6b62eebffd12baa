//! Attach custom debug and display renderings to types you do not own.
//!
//! The crate is built from three pieces:
//!
//! - a formatter contract ([`debug::CustomDebug`], [`display::CustomDisplay`])
//!   describing how a formatter definition renders its target type into a
//!   [`sink::Sink`];
//! - an attachment marker ([`debug::AttachDebug`], [`display::AttachDisplay`])
//!   declaring, purely at compile time, that a target type may be rendered by a
//!   given formatter definition;
//! - a [`Carrier`], a non-owning wrapper that borrows a target value, names a
//!   formatter definition as a type parameter, and forwards rendering to it.
//!
//! The convenience traits [`DebugExt`] and [`DisplayExt`] add `.debug()` and
//! `.display()` methods to every type with an attached formatter; each returns
//! a [`Carrier`] ready to render.

use vstd::prelude::*;

pub use crate::carrier::Carrier;
use crate::debug::AttachDebug;
use crate::display::AttachDisplay;

mod carrier;
pub mod debug;
pub mod display;
pub mod formatters;
pub mod sink;

verus! {

/// Adds a `.debug()` method, in the manner of `Path::display`, to any type
/// with a debug-kind formatter attached.
///
/// The method exists only where `AttachDebug<D>` is implemented for the type:
/// asking for a debug rendering of a type with no attached debug formatter is
/// rejected when the program is compiled, never at run time.  When several
/// debug formatters are attached to one type, the caller selects one by naming
/// `D` explicitly (or by constructing the [`Carrier`] directly).
pub trait DebugExt<D> {
    /// Returns a [`Carrier`] that renders `self` via the attached
    /// debug-kind formatter definition `D`.
    fn debug(&self) -> (r: Carrier<'_, Self, D>)
        ensures
            r.target() == self,
    ;
}

/// Adds a `.display()` method, in the manner of `Path::display`, to any type
/// with a display-kind formatter attached.
///
/// The method exists only where `AttachDisplay<D>` is implemented for the
/// type; a type with no attached display formatter cannot be asked for a
/// display rendering at all.
pub trait DisplayExt<D> {
    /// Returns a [`Carrier`] that renders `self` via the attached
    /// display-kind formatter definition `D`.
    fn display(&self) -> (r: Carrier<'_, Self, D>)
        ensures
            r.target() == self,
    ;
}

impl<T, D> DebugExt<D> for T where T: AttachDebug<D> + ?Sized {
    fn debug(&self) -> (r: Carrier<'_, T, D>) {
        Carrier::new(self)
    }
}

impl<T, D> DisplayExt<D> for T where T: AttachDisplay<D> + ?Sized {
    fn display(&self) -> (r: Carrier<'_, T, D>) {
        Carrier::new(self)
    }
}

} // verus!

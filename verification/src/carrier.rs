//! The [`Carrier`]: the bridge from an attached (target, formatter) pair to
//! an actual rendering call.

use core::marker::PhantomData;
use vstd::prelude::*;
use vstd::seq_lib::*;

use crate::debug::AttachDebug;
use crate::debug::CustomDebug;
use crate::display::AttachDisplay;
use crate::display::CustomDisplay;
use crate::sink::Sink;
use crate::sink::SinkError;

verus! {

/// A non-owning wrapper that borrows a target value and names, as the type
/// parameter `D`, the formatter definition that will render it.
///
/// A `Carrier` is ephemeral: it is constructed for one rendering call and
/// discarded.  It owns nothing and copies nothing — it holds only the borrow,
/// so it cannot outlive the wrapped value.  Which rendering operations it
/// offers is decided entirely at compile time: [`Carrier::fmt_debug`] exists
/// exactly when `T` has `D` attached as a debug formatter, and
/// [`Carrier::fmt_display`] exactly when `T` has `D` attached as a display
/// formatter; both may exist at once for the same pair.
pub struct Carrier<'t, T: ?Sized, D> {
    t: &'t T,
    formatter: PhantomData<D>,
}

impl<'t, T: ?Sized, D> Carrier<'t, T, D> {
    /// The borrowed target value.
    pub closed spec fn target(self) -> &'t T {
        self.t
    }

    /// Wraps a borrowed target value.  The value itself is not copied: the
    /// carrier holds exactly the given reference.
    pub fn new(t: &'t T) -> (r: Self)
        ensures
            r.target() == t,
    {
        Carrier { t, formatter: PhantomData }
    }
}

impl<'t, T, D> Carrier<'t, T, D> where T: AttachDebug<D> + ?Sized, D: CustomDebug<Target = T> {
    /// Renders the wrapped value with the attached debug formatter `D`,
    /// forwarding the sink unchanged and passing any sink failure back
    /// unchanged.
    ///
    /// The contract is the same as calling `D::fmt_target` directly on the
    /// wrapped reference: on success the sink gains exactly
    /// `D::rendered(self.target())` — rendering through a carrier and
    /// rendering directly produce identical output.  Only the debug-kind
    /// formatter is consulted; a display attachment of `T`, if any, plays no
    /// part.
    pub fn fmt_debug(&self, f: &mut Sink) -> (r: Result<(), SinkError>)
        ensures
            final(f).limit() == old(f).limit(),
            old(f).out().is_prefix_of(final(f).out()),
            r is Ok <==> old(f).can_accept(D::rendered(self.target()).len()),
            r is Ok ==> final(f).out() == old(f).out() + D::rendered(self.target()),
    {
        D::fmt_target(self.t, f)
    }
}

impl<'t, T, D> Carrier<'t, T, D> where T: AttachDisplay<D> + ?Sized, D: CustomDisplay<Target = T> {
    /// Renders the wrapped value with the attached display formatter `D`,
    /// forwarding the sink unchanged and passing any sink failure back
    /// unchanged.
    ///
    /// The contract is the same as calling `D::fmt_target` directly on the
    /// wrapped reference: on success the sink gains exactly
    /// `D::rendered(self.target())`.  Only the display-kind formatter is
    /// consulted; a debug attachment of `T`, if any, plays no part.
    pub fn fmt_display(&self, f: &mut Sink) -> (r: Result<(), SinkError>)
        ensures
            final(f).limit() == old(f).limit(),
            old(f).out().is_prefix_of(final(f).out()),
            r is Ok <==> old(f).can_accept(D::rendered(self.target()).len()),
            r is Ok ==> final(f).out() == old(f).out() + D::rendered(self.target()),
    {
        D::fmt_target(self.t, f)
    }
}

} // verus!

//! The debug-kind formatter contract and its attachment marker.
//!
//! A debug-kind formatter produces a structural, diagnostic rendering of its
//! target.  Defining a formatter means implementing [`CustomDebug`] on a
//! stateless marker type; attaching it to a target type means implementing
//! [`AttachDebug`] for that target.  Both steps happen entirely at compile
//! time: there is no registry value and no runtime lookup.

use vstd::prelude::*;
use vstd::seq_lib::*;

use crate::sink::Sink;
use crate::sink::SinkError;

verus! {

/// A marker declaring that the target type may be rendered by the debug-kind
/// formatter definition `D`.
///
/// Implementing `AttachDebug<D>` for a type `T` is the entire act of
/// registering `D` as a debug formatter for `T`.  Several formatter
/// definitions may be attached to the same target type; each call site picks
/// one by naming it.  A combination that was never attached simply has no
/// rendering operation: using it is rejected when the program is compiled.
pub trait AttachDebug<D> {

}

/// The contract of a debug-kind formatter definition: how to render one
/// target shape into a [`Sink`].
pub trait CustomDebug {
    /// The target shape this formatter renders; it may be unsized, such as a
    /// slice, which is why rendering always takes the target by reference.
    type Target: ?Sized;

    /// The characters that rendering `target` produces.
    spec fn rendered(target: &Self::Target) -> Seq<char>;

    /// Renders `target` into `f`.
    ///
    /// Rendering itself cannot fail: the call succeeds exactly when the sink
    /// can accept the whole rendering, and on success appends exactly
    /// [`rendered`](CustomDebug::rendered)`(target)`.  On failure the sink
    /// holds some prefix of what a successful call would have written.
    fn fmt_target(target: &Self::Target, f: &mut Sink) -> (r: Result<(), SinkError>)
        ensures
            final(f).limit() == old(f).limit(),
            old(f).out().is_prefix_of(final(f).out()),
            r is Ok <==> old(f).can_accept(Self::rendered(target).len()),
            r is Ok ==> final(f).out() == old(f).out() + Self::rendered(target),
    ;
}

} // verus!

//! Formatter definitions shipped with the crate.
//!
//! These are complete, verified formatters that double as the reference
//! examples for the attachment mechanism: a debug formatter for `u64` slices
//! that also prints their length ([`SliceWithLenDebug`]), a plainer
//! alternative attached to the same target ([`BareSliceDebug`]), and a pair
//! of formatters — one per kind — for a wrapped integer with no rendering of
//! its own ([`ExternValue`]).

use vstd::prelude::*;
use vstd::seq_lib::*;

use crate::debug::AttachDebug;
use crate::debug::CustomDebug;
use crate::display::AttachDisplay;
use crate::display::CustomDisplay;
use crate::sink::dec_chars;
use crate::sink::Sink;
use crate::sink::SinkError;

verus! {

/// The comma-separated decimal renderings of the elements of `s`, as they
/// appear between the brackets of a rendered slice.
pub open spec fn comma_items(s: Seq<u64>) -> Seq<char>
    decreases s.len(),
{
    if s.len() == 0 {
        Seq::empty()
    } else if s.len() == 1 {
        dec_chars(s[0] as nat)
    } else {
        comma_items(s.drop_last()) + ", "@ + dec_chars(s.last() as nat)
    }
}

/// What [`SliceWithLenDebug`] renders for a slice whose elements are `s`.
pub open spec fn slice_with_len_rendered(s: Seq<u64>) -> Seq<char> {
    "Slice { len: "@ + dec_chars(s.len()) + ", items: ["@ + comma_items(s) + "] }"@
}

/// What [`BareSliceDebug`] renders for a slice whose elements are `s`.
pub open spec fn bare_slice_rendered(s: Seq<u64>) -> Seq<char> {
    "["@ + comma_items(s) + "]"@
}

/// What [`ExternValueDisplay`] renders for the wrapped value `v`.
pub open spec fn extern_value_displayed(v: u64) -> Seq<char> {
    "Extern type has a value - "@ + dec_chars(v as nat) + "!"@
}

/// What [`ExternValueDebug`] renders for the wrapped value `v`.
pub open spec fn extern_value_debugged(v: u64) -> Seq<char> {
    "ExternValue("@ + dec_chars(v as nat) + ")"@
}

/// The two rendering kinds attached to [`ExternValue`] stay apart: for every
/// wrapped value, the debug rendering and the display rendering differ, so an
/// output produced through the debug entry point can never be the display
/// formatter's output, nor the other way round.
pub proof fn lemma_extern_value_kinds_distinct(v: u64)
    ensures
        extern_value_debugged(v) != extern_value_displayed(v),
{
    reveal_strlit("ExternValue(");
    reveal_strlit(")");
    reveal_strlit("Extern type has a value - ");
    reveal_strlit("!");
    assert(extern_value_debugged(v).len() != extern_value_displayed(v).len());
}

/// The two debug formatters attached to `u64` slices are genuinely distinct
/// choices: for every slice, their renderings differ, so selecting one or the
/// other by name yields its own independently recognisable output.
pub proof fn lemma_slice_debug_formatters_distinct(s: Seq<u64>)
    ensures
        slice_with_len_rendered(s) != bare_slice_rendered(s),
{
    reveal_strlit("Slice { len: ");
    reveal_strlit("[");
    assert(slice_with_len_rendered(s)[0] == 'S');
    assert(bare_slice_rendered(s)[0] == '[');
}

/// Splitting off one more item keeps the comma-separated rendering of a
/// prefix consistent: rendering the first `i + 1` items appends a separator
/// and the next item's digits to the rendering of the first `i`.
proof fn lemma_comma_items_step(s: Seq<u64>, i: int)
    requires
        1 <= i < s.len(),
    ensures
        comma_items(s.take(i + 1)) == comma_items(s.take(i)) + ", "@ + dec_chars(s[i] as nat),
{
    let t = s.take(i + 1);
    assert(t.drop_last() =~= s.take(i));
    assert(t.last() == s[i]);
}

/// Writes the contents of the finished scratch sink `tmp` into `f` as one
/// write, so that the whole rendering either lands in `f` or leaves it
/// unchanged.
fn commit(tmp: &Sink, f: &mut Sink) -> (r: Result<(), SinkError>)
    ensures
        final(f).limit() == old(f).limit(),
        old(f).out().is_prefix_of(final(f).out()),
        r is Ok <==> old(f).can_accept(tmp.out().len()),
        r is Ok ==> final(f).out() == old(f).out() + tmp.out(),
        r is Err ==> final(f).out() == old(f).out(),
{
    let r = f.write_str(tmp.as_str());
    proof {
        assert(old(f).out() =~= f.out().subrange(0, old(f).out().len() as int));
    }
    r
}

/// Appends the comma-separated decimal items of `target` to an unbounded
/// sink.
fn write_items(f: &mut Sink, target: &[u64])
    requires
        old(f).limit() is None,
    ensures
        final(f).limit() == old(f).limit(),
        final(f).out() == old(f).out() + comma_items(target@),
{
    let n = target.len();
    let mut i: usize = 0;
    while i < n
        invariant
            n == target@.len(),
            i <= n,
            f.limit() is None,
            f.out() == old(f).out() + comma_items(target@.take(i as int)),
        decreases n - i,
    {
        if i > 0 {
            f.push_str(", ");
        }
        f.push_u64(target[i]);
        proof {
            if i == 0 {
                assert(target@.take(1)[0] == target@[0]);
                assert(f.out() =~= old(f).out() + comma_items(target@.take(i + 1)));
            } else {
                lemma_comma_items_step(target@, i as int);
                assert(f.out() =~= old(f).out() + comma_items(target@.take(i + 1)));
            }
        }
        i = i + 1;
    }
    proof {
        assert(target@.take(n as int) =~= target@);
    }
}

/// A debug formatter for `u64` slices that renders the length alongside the
/// items.
pub struct SliceWithLenDebug;

impl CustomDebug for SliceWithLenDebug {
    type Target = [u64];

    open spec fn rendered(target: &[u64]) -> Seq<char> {
        slice_with_len_rendered(target@)
    }

    fn fmt_target(target: &[u64], f: &mut Sink) -> (r: Result<(), SinkError>) {
        let mut tmp = Sink::new();
        tmp.push_str("Slice { len: ");
        tmp.push_u64(target.len() as u64);
        tmp.push_str(", items: [");
        write_items(&mut tmp, target);
        tmp.push_str("] }");
        proof {
            assert(tmp.out() =~= slice_with_len_rendered(target@));
        }
        commit(&tmp, f)
    }
}

impl AttachDebug<SliceWithLenDebug> for [u64] {

}

/// A plainer debug formatter for `u64` slices: only the bracketed items.  It
/// attaches to the same target as [`SliceWithLenDebug`]; a call site chooses
/// between the two by naming one.
pub struct BareSliceDebug;

impl CustomDebug for BareSliceDebug {
    type Target = [u64];

    open spec fn rendered(target: &[u64]) -> Seq<char> {
        bare_slice_rendered(target@)
    }

    fn fmt_target(target: &[u64], f: &mut Sink) -> (r: Result<(), SinkError>) {
        let mut tmp = Sink::new();
        tmp.push_str("[");
        write_items(&mut tmp, target);
        tmp.push_str("]");
        proof {
            assert(tmp.out() =~= bare_slice_rendered(target@));
        }
        commit(&tmp, f)
    }
}

impl AttachDebug<BareSliceDebug> for [u64] {

}

/// A stand-in for a foreign type with no rendering of its own: it wraps a
/// bare integer.  The crate attaches one formatter of each kind to it, so a
/// single target type shows both renderings side by side.
pub struct ExternValue {
    /// The wrapped integer.
    pub value: u64,
}

/// The display formatter attached to [`ExternValue`].
pub struct ExternValueDisplay;

impl CustomDisplay for ExternValueDisplay {
    type Target = ExternValue;

    open spec fn rendered(target: &ExternValue) -> Seq<char> {
        extern_value_displayed(target.value)
    }

    fn fmt_target(target: &ExternValue, f: &mut Sink) -> (r: Result<(), SinkError>) {
        let mut tmp = Sink::new();
        tmp.push_str("Extern type has a value - ");
        tmp.push_u64(target.value);
        tmp.push_str("!");
        proof {
            assert(tmp.out() =~= extern_value_displayed(target.value));
        }
        commit(&tmp, f)
    }
}

impl AttachDisplay<ExternValueDisplay> for ExternValue {

}

/// The debug formatter attached to [`ExternValue`].
pub struct ExternValueDebug;

impl CustomDebug for ExternValueDebug {
    type Target = ExternValue;

    open spec fn rendered(target: &ExternValue) -> Seq<char> {
        extern_value_debugged(target.value)
    }

    fn fmt_target(target: &ExternValue, f: &mut Sink) -> (r: Result<(), SinkError>) {
        let mut tmp = Sink::new();
        tmp.push_str("ExternValue(");
        tmp.push_u64(target.value);
        tmp.push_str(")");
        proof {
            assert(tmp.out() =~= extern_value_debugged(target.value));
        }
        commit(&tmp, f)
    }
}

impl AttachDebug<ExternValueDebug> for ExternValue {

}

} // verus!

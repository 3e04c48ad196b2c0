use vstd::prelude::*;

use crate::fmt_by_holder::{DerefHolder, TargetHolder};
use crate::sink::{RenderError, TextSink};

verus! {

/// The strategy capability: one operation that renders a borrowed value into
/// a render sink.  A strategy is a cheaply duplicable value; one strategy
/// type may implement the capability for several data types, which is what
/// lets a strategy see through a holder to the value inside it.
///
/// `output` is the text the strategy produces for a value; `output_known`
/// says whether that text really pins the write down (it is false for a
/// strategy wrapping an arbitrary callable).  `fmt_pre` is what a caller
/// must establish before rendering (`true` for every built-in strategy).
pub trait FmtHandler<Inner>: Sized + Copy {
    /// What must hold before the strategy may render this value.
    spec fn fmt_pre(self, inner: &Inner) -> bool;

    /// Whether `output` pins the rendered text down.
    spec fn output_known(self, inner: &Inner) -> bool;

    /// The text this strategy renders for this value.
    spec fn output(self, inner: &Inner) -> Seq<char>;

    /// Render the value into the sink.  The sink only ever grows and keeps
    /// its capacity; when the output is pinned down, rendering succeeds
    /// exactly when the whole output fits, and then appends exactly it.
    fn fmt(&self, inner: &Inner, f: &mut TextSink) -> (r: Result<(), RenderError>)
        requires
            self.fmt_pre(inner),
        ensures
            final(f).cap() == old(f).cap(),
            old(f)@.is_prefix_of(final(f)@),
            self.output_known(inner) ==> (r is Ok <==> old(f)@.len() + self.output(inner).len()
                <= old(f).cap()),
            self.output_known(inner) && r is Ok ==> final(f)@ == old(f)@ + self.output(inner),
    ;
}

/// Attaching a strategy to data.  `fmt_by` borrows the data into a
/// `TargetHolder`; `fmt_deref_by` moves it into a `DerefHolder`.  Every type
/// can be attached to; which strategies apply is decided by the strategy's
/// own `FmtHandler` implementations.
pub trait FmtBy: Sized {
    /// Attach a strategy to a borrowed value.
    fn fmt_by<'s, D: FmtHandler<Self>>(&'s self, handler: D) -> (r: TargetHolder<'s, Self, D>)
        ensures
            r.inner == self,
            r.handler == handler,
    {
        TargetHolder { inner: self, handler }
    }

    /// Attach a strategy to an owned value.
    fn fmt_deref_by<D: FmtHandler<Self>>(self, handler: D) -> (r: DerefHolder<Self, D>)
        ensures
            r.inner == self,
            r.handler == handler,
    {
        DerefHolder { inner: self, handler }
    }
}

impl<T: Sized> FmtBy for T {

}

} // verus!

use vstd::prelude::*;

use crate::fmt_by::{FmtBy, FmtHandler};
use crate::fmt_by_holder::{DerefHolder, TargetHolder};
use crate::sink::{RenderError, TextSink};

verus! {

/// The ad hoc function strategy: a reference to a callable that computes the
/// rendered text of a value.  It turns any matching callable into a strategy
/// without declaring a named type.  Nothing pins down what an arbitrary
/// callable produces, so its `output_known` is false; rendering through it
/// promises that on success the sink grew by exactly a text the callable can
/// return, and on failure — the callable's own, or a full sink — the sink is
/// unchanged.
pub struct FmtWithWrapper<'f, F>(pub &'f F);

impl<'f, F> Clone for FmtWithWrapper<'f, F> {
    fn clone(&self) -> (r: Self)
        ensures
            r == *self,
    {
        FmtWithWrapper(self.0)
    }
}

impl<'f, F> Copy for FmtWithWrapper<'f, F> {

}

impl<'f, Inner, F: Fn(&Inner) -> Result<Vec<char>, RenderError>> FmtHandler<
    Inner,
> for FmtWithWrapper<'f, F> {
    open spec fn fmt_pre(self, inner: &Inner) -> bool {
        call_requires(*self.0, (inner,))
    }

    open spec fn output_known(self, inner: &Inner) -> bool {
        false
    }

    open spec fn output(self, inner: &Inner) -> Seq<char> {
        Seq::empty()
    }

    fn fmt(&self, inner: &Inner, f: &mut TextSink) -> (r: Result<(), RenderError>)
        ensures
            r is Ok ==> exists|text: Vec<char>|
                call_ensures(*self.0, (inner,), Ok::<Vec<char>, RenderError>(text)) && final(f)@
                    == old(f)@ + text@,
            r is Err ==> final(f)@ == old(f)@,
    {
        match (*self.0)(inner) {
            Ok(text) => f.write_chars(&text),
            Err(e) => {
                proof {
                    crate::chars::lemma_prefix_refl(old(f)@);
                }
                Err(e)
            },
        }
    }
}

/// Attaching an ad hoc function strategy to data.
pub trait FmtWith: FmtBy {
    /// Attach a callable to a borrowed value.
    fn fmt_with<'s, 'f, F: Fn(&Self) -> Result<Vec<char>, RenderError>>(
        &'s self,
        func: &'f F,
    ) -> (r: TargetHolder<'s, Self, FmtWithWrapper<'f, F>>)
        ensures
            r.inner == self,
            r.handler == (FmtWithWrapper(func)),
    {
        self.fmt_by(FmtWithWrapper(func))
    }

    /// Attach a callable to an owned value.
    fn fmt_deref_with<'f, F: Fn(&Self) -> Result<Vec<char>, RenderError>>(self, func: &'f F) -> (r:
        DerefHolder<Self, FmtWithWrapper<'f, F>>)
        ensures
            r.inner == self,
            r.handler == (FmtWithWrapper(func)),
    {
        self.fmt_deref_by(FmtWithWrapper(func))
    }
}

impl<T: Sized> FmtWith for T {

}

} // verus!

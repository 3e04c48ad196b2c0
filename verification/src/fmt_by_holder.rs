use vstd::prelude::*;

use crate::fmt_by::FmtHandler;
use crate::fmt_data::FmtData;
use crate::fmt_with::FmtWithWrapper;
use crate::sink::{FmtForm, RenderError, TextSink};

verus! {

/// The transparent-access relation: a wrapper exposing an inner value as if
/// it were that value, together with the rebuild operation that produces the
/// same wrapper around a substituted inner value.  On a chained holder the
/// rebuild tunnels through every layer of wrapping down to the data.
pub trait WithInner<'i, Inner>: Sized {
    /// The inner value seen through the wrapper.
    spec fn spec_inner(self) -> Inner;

    /// The wrapper rebuilt around a substituted inner value.
    spec fn rebuilt(self, inner: Inner) -> Self;

    /// Read access to the inner value.
    fn inner_ref(&self) -> (r: &Inner)
        ensures
            *r == self.spec_inner(),
    ;

    /// The same wrapper around a different inner value.
    fn with_inner(&self, inner: &'i Inner) -> (r: Self)
        ensures
            r == self.rebuilt(*inner),
    ;
}

/// Chaining: wrap an existing holder, of either kind, as the inner value of
/// a new owning holder with one more strategy on top.  The strategy attached
/// last is the outermost one: it renders first and decides whether and how
/// the wrapped holder's own rendering is used.
pub trait FmtByHolder: Sized {
    /// Chain one more strategy on top of this holder.
    fn then_by<D: FmtHandler<Self>>(self, handler: D) -> (r: DerefHolder<Self, D>)
        ensures
            r.inner == self,
            r.handler == handler,
    {
        DerefHolder { inner: self, handler }
    }

    /// Chain the strategy type's default value on top of this holder.
    fn then_as<D: FmtHandler<Self> + Default>(self) -> (r: DerefHolder<Self, D>)
        ensures
            r.inner == self,
            call_ensures(D::default, (), r.handler),
    {
        self.then_by(D::default())
    }

    /// Chain an ad hoc function strategy on top of this holder.
    fn then_with<'f, F: Fn(&Self) -> Result<Vec<char>, RenderError>>(self, func: &'f F) -> (r:
        DerefHolder<Self, FmtWithWrapper<'f, F>>)
        ensures
            r.inner == self,
            r.handler == (FmtWithWrapper(func)),
    {
        self.then_by(FmtWithWrapper(func))
    }
}

/// The borrowing holder: a borrowed reference to data coupled with a
/// strategy.  It is a plain value, freely duplicated, and never outlives the
/// borrowed data.
#[derive(Clone, Copy)]
pub struct TargetHolder<'a, T, D> {
    pub inner: &'a T,
    pub handler: D,
}

impl<'a, T, D> FmtByHolder for TargetHolder<'a, T, D> {

}

impl<'a, T, D: Copy> WithInner<'a, T> for TargetHolder<'a, T, D> {
    open spec fn spec_inner(self) -> T {
        *self.inner
    }

    open spec fn rebuilt(self, inner: T) -> Self {
        TargetHolder { inner: &inner, handler: self.handler }
    }

    fn inner_ref(&self) -> (r: &T) {
        self.inner
    }

    fn with_inner(&self, inner: &'a T) -> (r: Self) {
        TargetHolder { inner, handler: self.handler }
    }
}

impl<'a, T, D: FmtHandler<T>> TargetHolder<'a, T, D> {
    /// Read access to the borrowed data.
    pub fn deref(&self) -> (r: &T)
        ensures
            r == self.inner,
    {
        self.inner
    }

    /// Read access to the borrowed data.
    pub fn as_ref(&self) -> (r: &T)
        ensures
            r == self.inner,
    {
        self.inner
    }

    /// Render the held data with the held strategy.
    pub fn render(&self, f: &mut TextSink) -> (r: Result<(), RenderError>)
        requires
            self.handler.fmt_pre(self.inner),
        ensures
            final(f).cap() == old(f).cap(),
            old(f)@.is_prefix_of(final(f)@),
            self.handler.output_known(self.inner) ==> (r is Ok <==> old(f)@.len()
                + self.handler.output(self.inner).len() <= old(f).cap()),
            self.handler.output_known(self.inner) && r is Ok ==> final(f)@ == old(f)@
                + self.handler.output(self.inner),
    {
        self.handler.fmt(self.inner, f)
    }

    /// Render for a requested output form.  Every form delegates to the one
    /// strategy call: the contract does not mention the form, so the text is
    /// the same whichever form is asked for.
    pub fn render_as(&self, form: FmtForm, f: &mut TextSink) -> (r: Result<(), RenderError>)
        requires
            self.handler.fmt_pre(self.inner),
        ensures
            final(f).cap() == old(f).cap(),
            old(f)@.is_prefix_of(final(f)@),
            self.handler.output_known(self.inner) ==> (r is Ok <==> old(f)@.len()
                + self.handler.output(self.inner).len() <= old(f).cap()),
            self.handler.output_known(self.inner) && r is Ok ==> final(f)@ == old(f)@
                + self.handler.output(self.inner),
    {
        let _form = form;
        self.handler.fmt(self.inner, f)
    }

    /// Render into a fresh unbounded sink and hand the text back.
    pub fn to_text(&self) -> (r: Result<String, RenderError>)
        requires
            self.handler.fmt_pre(self.inner),
        ensures
            self.handler.output_known(self.inner) ==> (r is Ok <==> self.handler.output(
                self.inner,
            ).len() <= usize::MAX),
            self.handler.output_known(self.inner) ==> (r matches Ok(s) ==> s@
                == self.handler.output(self.inner)),
    {
        let mut f = TextSink::new();
        match self.handler.fmt(self.inner, &mut f) {
            Ok(_) => Ok(f.text_string()),
            Err(e) => Err(e),
        }
    }
}

/// A holder renders through its strategy, in both of its own textual forms:
/// asking a holder for its debug form still performs the same strategy call.
impl<'a, T, D: FmtHandler<T>> FmtData for TargetHolder<'a, T, D> {
    open spec fn text(&self) -> Seq<char> {
        self.handler.output(self.inner)
    }

    open spec fn debug_text(&self) -> Seq<char> {
        self.handler.output(self.inner)
    }

    open spec fn text_known(&self) -> bool {
        self.handler.output_known(self.inner)
    }

    open spec fn write_pre(&self) -> bool {
        self.handler.fmt_pre(self.inner)
    }

    fn write_text(&self, f: &mut TextSink) -> (r: Result<(), RenderError>) {
        self.handler.fmt(self.inner, f)
    }

    fn write_debug(&self, f: &mut TextSink) -> (r: Result<(), RenderError>) {
        self.handler.fmt(self.inner, f)
    }
}

/// The owning holder: an owned value coupled with a strategy.  The value may
/// itself be a holder, which is how chains are built; transparent access then
/// tunnels through it.
#[derive(Clone, Copy)]
pub struct DerefHolder<T, D> {
    pub inner: T,
    pub handler: D,
}

impl<T, D> FmtByHolder for DerefHolder<T, D> {

}

impl<'i, Inner, T: WithInner<'i, Inner>, D: Copy> WithInner<'i, Inner> for DerefHolder<T, D> {
    open spec fn spec_inner(self) -> Inner {
        self.inner.spec_inner()
    }

    open spec fn rebuilt(self, inner: Inner) -> Self {
        DerefHolder { inner: self.inner.rebuilt(inner), handler: self.handler }
    }

    fn inner_ref(&self) -> (r: &Inner) {
        self.inner.inner_ref()
    }

    fn with_inner(&self, inner: &'i Inner) -> (r: Self) {
        DerefHolder { inner: self.inner.with_inner(inner), handler: self.handler }
    }
}

impl<T, D: FmtHandler<T>> DerefHolder<T, D> {
    /// Read access through the held value, down to the inner data its
    /// transparent-access relation exposes.
    pub fn deref<'i, Inner>(&self) -> (r: &Inner) where T: WithInner<'i, Inner>
        ensures
            *r == self.inner.spec_inner(),
    {
        self.inner.inner_ref()
    }

    /// Read access to the owned value itself.
    pub fn as_ref(&self) -> (r: &T)
        ensures
            *r == self.inner,
    {
        &self.inner
    }

    /// The pass-through mutable view: write access to the owned value, the
    /// holder afterwards pairing the same strategy with whatever the caller
    /// leaves behind the reference.  Substituting the data deep inside a
    /// chain goes through `with_inner` instead.
    pub fn deref_mut(&mut self) -> (r: &mut T)
        ensures
            *r == old(self).inner,
            final(self).inner == *final(r),
            final(self).handler == old(self).handler,
    {
        &mut self.inner
    }

    /// Render the held value with the held strategy.
    pub fn render(&self, f: &mut TextSink) -> (r: Result<(), RenderError>)
        requires
            self.handler.fmt_pre(&self.inner),
        ensures
            final(f).cap() == old(f).cap(),
            old(f)@.is_prefix_of(final(f)@),
            self.handler.output_known(&self.inner) ==> (r is Ok <==> old(f)@.len()
                + self.handler.output(&self.inner).len() <= old(f).cap()),
            self.handler.output_known(&self.inner) && r is Ok ==> final(f)@ == old(f)@
                + self.handler.output(&self.inner),
    {
        self.handler.fmt(&self.inner, f)
    }

    /// Render for a requested output form; the form never changes the text.
    pub fn render_as(&self, form: FmtForm, f: &mut TextSink) -> (r: Result<(), RenderError>)
        requires
            self.handler.fmt_pre(&self.inner),
        ensures
            final(f).cap() == old(f).cap(),
            old(f)@.is_prefix_of(final(f)@),
            self.handler.output_known(&self.inner) ==> (r is Ok <==> old(f)@.len()
                + self.handler.output(&self.inner).len() <= old(f).cap()),
            self.handler.output_known(&self.inner) && r is Ok ==> final(f)@ == old(f)@
                + self.handler.output(&self.inner),
    {
        let _form = form;
        self.handler.fmt(&self.inner, f)
    }

    /// Render into a fresh unbounded sink and hand the text back.
    pub fn to_text(&self) -> (r: Result<String, RenderError>)
        requires
            self.handler.fmt_pre(&self.inner),
        ensures
            self.handler.output_known(&self.inner) ==> (r is Ok <==> self.handler.output(
                &self.inner,
            ).len() <= usize::MAX),
            self.handler.output_known(&self.inner) ==> (r matches Ok(s) ==> s@
                == self.handler.output(&self.inner)),
    {
        let mut f = TextSink::new();
        match self.handler.fmt(&self.inner, &mut f) {
            Ok(_) => Ok(f.text_string()),
            Err(e) => Err(e),
        }
    }
}

/// An owning holder renders through its strategy in both textual forms, just
/// as the borrowing holder does.
impl<T, D: FmtHandler<T>> FmtData for DerefHolder<T, D> {
    open spec fn text(&self) -> Seq<char> {
        self.handler.output(&self.inner)
    }

    open spec fn debug_text(&self) -> Seq<char> {
        self.handler.output(&self.inner)
    }

    open spec fn text_known(&self) -> bool {
        self.handler.output_known(&self.inner)
    }

    open spec fn write_pre(&self) -> bool {
        self.handler.fmt_pre(&self.inner)
    }

    fn write_text(&self, f: &mut TextSink) -> (r: Result<(), RenderError>) {
        self.handler.fmt(&self.inner, f)
    }

    fn write_debug(&self, f: &mut TextSink) -> (r: Result<(), RenderError>) {
        self.handler.fmt(&self.inner, f)
    }
}

} // verus!

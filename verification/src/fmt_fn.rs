use vstd::prelude::*;

use crate::chars::lemma_prefix_refl;
use crate::fmt_data::FmtData;
use crate::sink::{FmtForm, RenderError, TextSink};

verus! {

/// A renderable value built from a callable alone: the callable computes the
/// text.  The wrapper answers every output form with the same call, so any
/// custom rendering logic is reached through one uniform surface.  Nothing
/// pins down what an arbitrary callable produces, so rendering through it
/// promises only that the sink grows and keeps its capacity.
#[derive(Clone, Copy)]
pub struct FmtFn<F>(pub F);

impl<F: Fn() -> Result<Vec<char>, RenderError>> FmtFn<F> {
    /// Render the callable's text into the sink.  On success the sink grew by
    /// a text the callable can return; what that text is depends on the
    /// callable alone.
    pub fn render(&self, f: &mut TextSink) -> (r: Result<(), RenderError>)
        requires
            call_requires(self.0, ()),
        ensures
            final(f).cap() == old(f).cap(),
            old(f)@.is_prefix_of(final(f)@),
            r is Ok ==> exists|text: Vec<char>|
                call_ensures(self.0, (), Ok::<Vec<char>, RenderError>(text)) && final(f)@ == old(
                    f,
                )@ + text@,
    {
        match (self.0)() {
            Ok(text) => f.write_chars(&text),
            Err(e) => {
                proof {
                    lemma_prefix_refl(old(f)@);
                }
                Err(e)
            },
        }
    }

    /// Render for a requested output form; every form makes the same call.
    pub fn render_as(&self, form: FmtForm, f: &mut TextSink) -> (r: Result<(), RenderError>)
        requires
            call_requires(self.0, ()),
        ensures
            final(f).cap() == old(f).cap(),
            old(f)@.is_prefix_of(final(f)@),
            r is Ok ==> exists|text: Vec<char>|
                call_ensures(self.0, (), Ok::<Vec<char>, RenderError>(text)) && final(f)@ == old(
                    f,
                )@ + text@,
    {
        let _form = form;
        self.render(f)
    }

    /// Render into a fresh unbounded sink and hand the text back.
    pub fn to_text(&self) -> (r: Result<String, RenderError>)
        requires
            call_requires(self.0, ()),
        ensures
            r matches Ok(s) ==> exists|text: Vec<char>|
                call_ensures(self.0, (), Ok::<Vec<char>, RenderError>(text)) && s@ == text@,
    {
        let mut f = TextSink::new();
        match self.render(&mut f) {
            Ok(_) => Ok(f.text_string()),
            Err(e) => Err(e),
        }
    }
}

impl<F: Fn() -> Result<Vec<char>, RenderError>> FmtData for FmtFn<F> {
    open spec fn text(&self) -> Seq<char> {
        Seq::empty()
    }

    open spec fn debug_text(&self) -> Seq<char> {
        Seq::empty()
    }

    open spec fn text_known(&self) -> bool {
        false
    }

    open spec fn write_pre(&self) -> bool {
        call_requires(self.0, ())
    }

    fn write_text(&self, f: &mut TextSink) -> (r: Result<(), RenderError>) {
        self.render(f)
    }

    fn write_debug(&self, f: &mut TextSink) -> (r: Result<(), RenderError>) {
        self.render(f)
    }
}

} // verus!

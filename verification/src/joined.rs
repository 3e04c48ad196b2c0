use vstd::prelude::*;

use crate::fmt_by::FmtHandler;
use crate::fmt_data::FmtData;
use crate::join::{joined_known, joined_pre, spec_join, spec_texts, write_joined};
use crate::sink::{RenderError, TextSink};

verus! {

/// The delimiter-joining strategy: renders the elements of a vector in order,
/// in their display forms, with the delimiter's display form between them.
/// An empty vector renders as empty text; a single element renders with no
/// delimiter.  This variant iterates the vector by reference.
#[derive(Clone, Copy)]
pub struct Joined<Delim>(pub Delim);

impl<Delim: Default> Default for Joined<Delim> {
    fn default() -> (r: Self)
        ensures
            call_ensures(Delim::default, (), r.0),
    {
        Joined(Delim::default())
    }
}

impl<T: FmtData, Delim: FmtData + Copy> FmtHandler<Vec<T>> for Joined<Delim> {
    open spec fn fmt_pre(self, inner: &Vec<T>) -> bool {
        joined_pre(inner@) && self.0.write_pre()
    }

    open spec fn output_known(self, inner: &Vec<T>) -> bool {
        joined_known(inner@) && self.0.text_known()
    }

    open spec fn output(self, inner: &Vec<T>) -> Seq<char> {
        spec_join(spec_texts(inner@, false), self.0.text())
    }

    fn fmt(&self, inner: &Vec<T>, f: &mut TextSink) -> (r: Result<(), RenderError>) {
        write_joined(inner, &self.0, false, f)
    }
}

/// The delimiter-joining strategy for sequences that are iterated by value:
/// over a vector the two iteration disciplines visit the same elements in the
/// same order, so this renders exactly as `Joined` does.
#[derive(Clone, Copy)]
pub struct CloneIterJoined<Delim>(pub Delim);

impl<Delim: Default> Default for CloneIterJoined<Delim> {
    fn default() -> (r: Self)
        ensures
            call_ensures(Delim::default, (), r.0),
    {
        CloneIterJoined(Delim::default())
    }
}

impl<T: FmtData, Delim: FmtData + Copy> FmtHandler<Vec<T>> for CloneIterJoined<Delim> {
    open spec fn fmt_pre(self, inner: &Vec<T>) -> bool {
        joined_pre(inner@) && self.0.write_pre()
    }

    open spec fn output_known(self, inner: &Vec<T>) -> bool {
        joined_known(inner@) && self.0.text_known()
    }

    open spec fn output(self, inner: &Vec<T>) -> Seq<char> {
        spec_join(spec_texts(inner@, false), self.0.text())
    }

    fn fmt(&self, inner: &Vec<T>, f: &mut TextSink) -> (r: Result<(), RenderError>) {
        write_joined(inner, &self.0, false, f)
    }
}

} // verus!

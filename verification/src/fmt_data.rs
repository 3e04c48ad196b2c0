use vstd::prelude::*;

use crate::chars::{
    decimal_i64, quoted_chars, radix_chars, spec_decimal, spec_escape_char, spec_quoted,
    spec_radix,
};
use crate::join::{joined_known, joined_pre, spec_join, spec_texts, write_joined};
use crate::sink::{RenderError, TextSink};

verus! {

/// Data that carries its own default textual forms: a display form (`text`)
/// and a debug form (`debug_text`).  `text_known()` says whether the two
/// forms really pin down what the write operations produce; where it is false
/// (a value that renders through an arbitrary callable) the write operations
/// promise only that the sink grows and keeps its capacity.  `write_pre` is
/// what a caller must establish before writing (the obligation of a wrapped
/// callable; `true` for every plain value).
pub trait FmtData: Sized {
    /// The display form of the value.
    spec fn text(&self) -> Seq<char>;

    /// The debug form of the value.
    spec fn debug_text(&self) -> Seq<char>;

    /// Whether `text` and `debug_text` pin the written output down.
    spec fn text_known(&self) -> bool;

    /// What must hold before the value may be written.
    spec fn write_pre(&self) -> bool;

    /// Write the display form into the sink.  Succeeds exactly when the whole
    /// form fits; on failure a prefix of it may remain written.
    fn write_text(&self, f: &mut TextSink) -> (r: Result<(), RenderError>)
        requires
            self.write_pre(),
        ensures
            final(f).cap() == old(f).cap(),
            old(f)@.is_prefix_of(final(f)@),
            self.text_known() ==> (r is Ok <==> old(f)@.len() + self.text().len() <= old(
                f,
            ).cap()),
            self.text_known() && r is Ok ==> final(f)@ == old(f)@ + self.text(),
    ;

    /// Write the debug form into the sink, under the same contract as
    /// `write_text` with `debug_text` in place of `text`.
    fn write_debug(&self, f: &mut TextSink) -> (r: Result<(), RenderError>)
        requires
            self.write_pre(),
        ensures
            final(f).cap() == old(f).cap(),
            old(f)@.is_prefix_of(final(f)@),
            self.text_known() ==> (r is Ok <==> old(f)@.len() + self.debug_text().len() <= old(
                f,
            ).cap()),
            self.text_known() && r is Ok ==> final(f)@ == old(f)@ + self.debug_text(),
    ;
}

impl FmtData for i32 {
    open spec fn text(&self) -> Seq<char> {
        spec_decimal(*self as int)
    }

    open spec fn debug_text(&self) -> Seq<char> {
        spec_decimal(*self as int)
    }

    open spec fn text_known(&self) -> bool {
        true
    }

    open spec fn write_pre(&self) -> bool {
        true
    }

    fn write_text(&self, f: &mut TextSink) -> (r: Result<(), RenderError>) {
        let v = decimal_i64(*self as i64);
        f.write_chars(&v)
    }

    fn write_debug(&self, f: &mut TextSink) -> (r: Result<(), RenderError>) {
        let v = decimal_i64(*self as i64);
        f.write_chars(&v)
    }
}

impl FmtData for i64 {
    open spec fn text(&self) -> Seq<char> {
        spec_decimal(*self as int)
    }

    open spec fn debug_text(&self) -> Seq<char> {
        spec_decimal(*self as int)
    }

    open spec fn text_known(&self) -> bool {
        true
    }

    open spec fn write_pre(&self) -> bool {
        true
    }

    fn write_text(&self, f: &mut TextSink) -> (r: Result<(), RenderError>) {
        let v = decimal_i64(*self);
        f.write_chars(&v)
    }

    fn write_debug(&self, f: &mut TextSink) -> (r: Result<(), RenderError>) {
        let v = decimal_i64(*self);
        f.write_chars(&v)
    }
}

impl FmtData for u32 {
    open spec fn text(&self) -> Seq<char> {
        spec_radix(*self as nat, 10, false)
    }

    open spec fn debug_text(&self) -> Seq<char> {
        spec_radix(*self as nat, 10, false)
    }

    open spec fn text_known(&self) -> bool {
        true
    }

    open spec fn write_pre(&self) -> bool {
        true
    }

    fn write_text(&self, f: &mut TextSink) -> (r: Result<(), RenderError>) {
        let v = radix_chars(*self as u64, 10, false);
        f.write_chars(&v)
    }

    fn write_debug(&self, f: &mut TextSink) -> (r: Result<(), RenderError>) {
        let v = radix_chars(*self as u64, 10, false);
        f.write_chars(&v)
    }
}

impl FmtData for u64 {
    open spec fn text(&self) -> Seq<char> {
        spec_radix(*self as nat, 10, false)
    }

    open spec fn debug_text(&self) -> Seq<char> {
        spec_radix(*self as nat, 10, false)
    }

    open spec fn text_known(&self) -> bool {
        true
    }

    open spec fn write_pre(&self) -> bool {
        true
    }

    fn write_text(&self, f: &mut TextSink) -> (r: Result<(), RenderError>) {
        let v = radix_chars(*self, 10, false);
        f.write_chars(&v)
    }

    fn write_debug(&self, f: &mut TextSink) -> (r: Result<(), RenderError>) {
        let v = radix_chars(*self, 10, false);
        f.write_chars(&v)
    }
}

/// A string's display form is its characters; its debug form quotes them,
/// escaping exactly newline, tab, carriage return, the double quote and the
/// backslash — every other character, printable or not, stands for itself.
impl<'s> FmtData for &'s str {
    open spec fn text(&self) -> Seq<char> {
        self@
    }

    open spec fn debug_text(&self) -> Seq<char> {
        spec_quoted(self@)
    }

    open spec fn text_known(&self) -> bool {
        true
    }

    open spec fn write_pre(&self) -> bool {
        true
    }

    fn write_text(&self, f: &mut TextSink) -> (r: Result<(), RenderError>) {
        f.write_str(self)
    }

    fn write_debug(&self, f: &mut TextSink) -> (r: Result<(), RenderError>) {
        let v = quoted_chars(self);
        f.write_chars(&v)
    }
}

/// An owned string renders as the string slice it holds, in both forms.
impl FmtData for String {
    open spec fn text(&self) -> Seq<char> {
        self@
    }

    open spec fn debug_text(&self) -> Seq<char> {
        spec_quoted(self@)
    }

    open spec fn text_known(&self) -> bool {
        true
    }

    open spec fn write_pre(&self) -> bool {
        true
    }

    fn write_text(&self, f: &mut TextSink) -> (r: Result<(), RenderError>) {
        f.write_str(self.as_str())
    }

    fn write_debug(&self, f: &mut TextSink) -> (r: Result<(), RenderError>) {
        let v = quoted_chars(self.as_str());
        f.write_chars(&v)
    }
}

impl FmtData for char {
    open spec fn text(&self) -> Seq<char> {
        seq![*self]
    }

    open spec fn debug_text(&self) -> Seq<char> {
        seq!['\''] + spec_escape_char(*self) + seq!['\'']
    }

    open spec fn text_known(&self) -> bool {
        true
    }

    open spec fn write_pre(&self) -> bool {
        true
    }

    fn write_text(&self, f: &mut TextSink) -> (r: Result<(), RenderError>) {
        let r = f.write_char(*self);
        proof {
            if r is Ok {
                assert(f@ =~= old(f)@ + self.text());
            }
        }
        r
    }

    fn write_debug(&self, f: &mut TextSink) -> (r: Result<(), RenderError>) {
        let mut v: Vec<char> = Vec::new();
        v.push('\'');
        crate::chars::push_escaped(&mut v, *self);
        v.push('\'');
        proof {
            assert(v@ =~= self.debug_text());
        }
        f.write_chars(&v)
    }
}

/// A pair renders in key/value form: the debug form of the key, a colon and a
/// space, then the debug form of the value.  Both of its forms are that same
/// key/value text.
impl<K: FmtData, V: FmtData> FmtData for (K, V) {
    open spec fn text(&self) -> Seq<char> {
        self.0.debug_text() + seq![':', ' '] + self.1.debug_text()
    }

    open spec fn debug_text(&self) -> Seq<char> {
        self.0.debug_text() + seq![':', ' '] + self.1.debug_text()
    }

    open spec fn text_known(&self) -> bool {
        self.0.text_known() && self.1.text_known()
    }

    open spec fn write_pre(&self) -> bool {
        self.0.write_pre() && self.1.write_pre()
    }

    fn write_text(&self, f: &mut TextSink) -> (r: Result<(), RenderError>) {
        write_pair(self, f)
    }

    fn write_debug(&self, f: &mut TextSink) -> (r: Result<(), RenderError>) {
        write_pair(self, f)
    }
}

/// Write a key/value pair: key in debug form, `": "`, value in debug form.
fn write_pair<K: FmtData, V: FmtData>(p: &(K, V), f: &mut TextSink) -> (r: Result<
    (),
    RenderError,
>)
    requires
        p.0.write_pre(),
        p.1.write_pre(),
    ensures
        final(f).cap() == old(f).cap(),
        old(f)@.is_prefix_of(final(f)@),
        p.0.text_known() && p.1.text_known() ==> (r is Ok <==> old(f)@.len() + (p.0.debug_text()
            + seq![':', ' '] + p.1.debug_text()).len() <= old(f).cap()),
        p.0.text_known() && p.1.text_known() && r is Ok ==> final(f)@ == old(f)@ + (
        p.0.debug_text() + seq![':', ' '] + p.1.debug_text()),
{
    let ghost whole = p.0.debug_text() + seq![':', ' '] + p.1.debug_text();
    match p.0.write_debug(f) {
        Ok(_) => {},
        Err(e) => {
            return Err(e);
        },
    }
    match f.write_str(": ") {
        Ok(_) => {},
        Err(e) => {
            proof {
                reveal_strlit(": ");
            }
            return Err(e);
        },
    }
    proof {
        reveal_strlit(": ");
    }
    let r = p.1.write_debug(f);
    proof {
        if p.0.text_known() && p.1.text_known() {
            if r is Ok {
                assert(f@ =~= old(f)@ + whole);
            }
        }
    }
    r
}

/// A vector renders in list form: its elements' debug forms between square
/// brackets, separated by a comma and a space.
impl<T: FmtData> FmtData for Vec<T> {
    open spec fn text(&self) -> Seq<char> {
        seq!['['] + spec_join(spec_texts(self@, true), seq![',', ' ']) + seq![']']
    }

    open spec fn debug_text(&self) -> Seq<char> {
        seq!['['] + spec_join(spec_texts(self@, true), seq![',', ' ']) + seq![']']
    }

    open spec fn text_known(&self) -> bool {
        joined_known(self@)
    }

    open spec fn write_pre(&self) -> bool {
        joined_pre(self@)
    }

    fn write_text(&self, f: &mut TextSink) -> (r: Result<(), RenderError>) {
        write_list(self, f)
    }

    fn write_debug(&self, f: &mut TextSink) -> (r: Result<(), RenderError>) {
        write_list(self, f)
    }
}

/// Write a vector in list form.
fn write_list<T: FmtData>(v: &Vec<T>, f: &mut TextSink) -> (r: Result<(), RenderError>)
    requires
        joined_pre(v@),
    ensures
        final(f).cap() == old(f).cap(),
        old(f)@.is_prefix_of(final(f)@),
        joined_known(v@) ==> (r is Ok <==> old(f)@.len() + (seq!['['] + spec_join(
            spec_texts(v@, true),
            seq![',', ' '],
        ) + seq![']']).len() <= old(f).cap()),
        joined_known(v@) && r is Ok ==> final(f)@ == old(f)@ + (seq!['['] + spec_join(
            spec_texts(v@, true),
            seq![',', ' '],
        ) + seq![']']),
{
    crate::join::write_wrapped(v, '[', ']', f)
}

} // verus!

use vstd::prelude::*;

use crate::fmt_by::FmtHandler;
use crate::repeat::spec_repeat;
use crate::sink::{RenderError, TextSink};

verus! {

/// The uppercase mapping of a text: what `str::to_uppercase` returns, as a
/// sequence of characters.  The mapping is a function of the characters
/// alone; its full definition is Unicode's uppercase property, so it is left
/// named rather than written out.
pub uninterp spec fn upper_of(s: Seq<char>) -> Seq<char>;

/// Relies on `str::to_uppercase`: returns the uppercase equivalent of the
/// text, each character mapped to its Unicode uppercase form (characters
/// without a mapping stand for themselves); the result depends on the
/// characters alone, and an empty text stays empty.  The body only converts
/// the returned string to its characters.
#[verifier::external_body]
fn to_uppercase_chars(s: &str) -> (r: Vec<char>)
    ensures
        r@ == upper_of(s@),
        s@.len() == 0 ==> r@.len() == 0,
{
    s.to_uppercase().chars().collect()
}

/// A strategy carrying its own configuration: renders a marker character,
/// then the text, then the marker repeated a configured number of times.
#[derive(Clone, Copy)]
pub struct MarkerProxy(pub char, pub usize);

impl Default for MarkerProxy {
    fn default() -> (r: Self)
        ensures
            r == (MarkerProxy('*', 0)),
    {
        MarkerProxy('*', 0)
    }
}

impl<'s> FmtHandler<&'s str> for MarkerProxy {
    open spec fn fmt_pre(self, inner: &&'s str) -> bool {
        true
    }

    open spec fn output_known(self, inner: &&'s str) -> bool {
        true
    }

    open spec fn output(self, inner: &&'s str) -> Seq<char> {
        seq![self.0] + inner@ + spec_repeat(seq![self.0], self.1 as nat)
    }

    fn fmt(&self, inner: &&'s str, f: &mut TextSink) -> (r: Result<(), RenderError>) {
        let mut v: Vec<char> = Vec::new();
        v.push(self.0);
        let n = inner.unicode_len();
        let mut i: usize = 0;
        while i < n
            invariant
                i <= n,
                n == inner@.len(),
                v@ == seq![self.0] + inner@.subrange(0, i as int),
            decreases n - i,
        {
            v.push(inner.get_char(i));
            proof {
                assert(v@ =~= seq![self.0] + inner@.subrange(0, i + 1));
            }
            i = i + 1;
        }
        proof {
            assert(inner@.subrange(0, n as int) =~= inner@);
        }
        let m = self.1;
        proof {
            assert(seq![self.0] + inner@ + spec_repeat(seq![self.0], 0) =~= seq![self.0]
                + inner@);
        }
        let mut j: usize = 0;
        while j < m
            invariant
                j <= m,
                m == self.1,
                v@ == seq![self.0] + inner@ + spec_repeat(seq![self.0], j as nat),
            decreases m - j,
        {
            v.push(self.0);
            proof {
                assert(v@ =~= seq![self.0] + inner@ + spec_repeat(seq![self.0], (j + 1) as nat));
            }
            j = j + 1;
        }
        proof {
            assert(v@ == self.output(inner));
        }
        f.write_chars(&v)
    }
}

/// The case-transform strategy: renders a text with each character mapped to
/// its uppercase form, characters without an uppercase mapping standing for
/// themselves.  The mapping itself is `str::to_uppercase`'s, named `upper_of`
/// in contracts.
#[derive(Clone, Copy)]
pub struct UppercaseStringProxy;

impl Default for UppercaseStringProxy {
    fn default() -> (r: Self)
        ensures
            r == (UppercaseStringProxy {}),
    {
        UppercaseStringProxy
    }
}

impl<'s> FmtHandler<&'s str> for UppercaseStringProxy {
    open spec fn fmt_pre(self, inner: &&'s str) -> bool {
        true
    }

    open spec fn output_known(self, inner: &&'s str) -> bool {
        true
    }

    open spec fn output(self, inner: &&'s str) -> Seq<char> {
        upper_of(inner@)
    }

    fn fmt(&self, inner: &&'s str, f: &mut TextSink) -> (r: Result<(), RenderError>) {
        let v = to_uppercase_chars(*inner);
        f.write_chars(&v)
    }
}

impl FmtHandler<String> for UppercaseStringProxy {
    open spec fn fmt_pre(self, inner: &String) -> bool {
        true
    }

    open spec fn output_known(self, inner: &String) -> bool {
        true
    }

    open spec fn output(self, inner: &String) -> Seq<char> {
        upper_of(inner@)
    }

    fn fmt(&self, inner: &String, f: &mut TextSink) -> (r: Result<(), RenderError>) {
        let v = to_uppercase_chars(inner.as_str());
        f.write_chars(&v)
    }
}

} // verus!

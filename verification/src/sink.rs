use crate::chars::lemma_prefix_refl;
use vstd::prelude::*;

verus! {

/// The single error of the library: the render sink could not accept further
/// text.  It is never recovered from internally; every render operation
/// surfaces it to the caller at once.
#[derive(Clone, Copy, Debug, PartialEq, Eq, Structural)]
pub struct RenderError;

/// The output forms a holder can be asked to render.  A form is a dispatch
/// convenience, not a behavioural branch: every form is answered by the same
/// strategy call, so the produced text never depends on the form chosen.
#[derive(Clone, Copy, Debug, PartialEq, Eq, Structural)]
pub enum FmtForm {
    Display,
    Debug,
    Binary,
    Octal,
    LowerHex,
    UpperHex,
    LowerExp,
    UpperExp,
    Pointer,
}

/// The render sink: a destination that accepts pieces of text until its
/// capacity is reached.  Its view is the sequence of characters written so
/// far; `cap()` is the fixed capacity.  Each write either appends whole and
/// returns `Ok`, or leaves the sink unchanged and returns `Err(RenderError)`,
/// exactly when the piece would not fit.
pub struct TextSink {
    text: Vec<char>,
    limit: usize,
}

impl View for TextSink {
    type V = Seq<char>;

    closed spec fn view(&self) -> Seq<char> {
        self.text@
    }
}

/// Relies on `String`'s `FromIterator<char>`: collecting characters yields
/// the string holding exactly those characters in order.
#[verifier::external_body]
fn collect_chars(v: &Vec<char>) -> (r: String)
    ensures
        r@ == v@,
{
    v.iter().collect()
}

impl TextSink {
    /// The capacity the sink was created with.  Every write keeps the text
    /// within `limit`, so on any sink this module hands out the two branches
    /// agree; the second exists only so that the bound below holds of every
    /// value of the type.
    pub closed spec fn cap(&self) -> nat {
        if self.text@.len() <= self.limit {
            self.limit as nat
        } else {
            self.text@.len()
        }
    }

    /// A sink never holds more characters than its capacity.
    pub proof fn lemma_sink_space(s: TextSink)
        ensures
            s@.len() <= s.cap(),
    {
    }

    /// An unbounded sink (its capacity is the largest representable size).
    pub fn new() -> (r: Self)
        ensures
            r@ == Seq::<char>::empty(),
            r.cap() == usize::MAX,
    {
        TextSink { text: Vec::new(), limit: usize::MAX }
    }

    /// A sink that accepts at most `limit` characters.
    pub fn bounded(limit: usize) -> (r: Self)
        ensures
            r@ == Seq::<char>::empty(),
            r.cap() == limit,
    {
        TextSink { text: Vec::new(), limit }
    }

    /// How many characters have been written so far.
    pub fn len(&self) -> (r: usize)
        ensures
            r == self@.len(),
    {
        self.text.len()
    }

    /// The characters written so far, in order.
    pub fn chars(&self) -> (r: &Vec<char>)
        ensures
            r@ == self@,
    {
        &self.text
    }

    /// The text written so far, as a `String`.
    pub fn text_string(&self) -> (r: String)
        ensures
            r@ == self@,
    {
        collect_chars(&self.text)
    }

    /// Append one character; fails, leaving the sink unchanged, exactly when
    /// it would not fit.
    pub fn write_char(&mut self, c: char) -> (r: Result<(), RenderError>)
        ensures
            final(self).cap() == old(self).cap(),
            old(self)@.is_prefix_of(final(self)@),
            r is Ok <==> old(self)@.len() + 1 <= old(self).cap(),
            r is Ok ==> final(self)@ == old(self)@.push(c),
            r is Err ==> final(self)@ == old(self)@,
    {
        if self.text.len() < self.limit {
            self.text.push(c);
            proof {
                assert(old(self)@.is_prefix_of(self@)) by {
                    assert(old(self)@ =~= self@.subrange(0, old(self)@.len() as int));
                }
            }
            Ok(())
        } else {
            proof {
                lemma_prefix_refl(old(self)@);
            }
            Err(RenderError)
        }
    }

    /// Append a sequence of characters whole; fails, leaving the sink
    /// unchanged, exactly when the whole sequence would not fit.
    pub fn write_chars(&mut self, s: &Vec<char>) -> (r: Result<(), RenderError>)
        ensures
            final(self).cap() == old(self).cap(),
            old(self)@.is_prefix_of(final(self)@),
            r is Ok <==> old(self)@.len() + s@.len() <= old(self).cap(),
            r is Ok ==> final(self)@ == old(self)@ + s@,
            r is Err ==> final(self)@ == old(self)@,
    {
        if s.len() == 0 {
            proof {
                assert(old(self)@ + s@ =~= old(self)@);
            }
            return Ok(());
        }
        if self.text.len() <= self.limit && s.len() <= self.limit - self.text.len() {
            let mut i: usize = 0;
            while i < s.len()
                invariant
                    i <= s@.len(),
                    old(self)@.len() + s@.len() <= old(self).cap(),
                    self.limit == old(self).cap(),
                    self.text@ == old(self)@ + s@.subrange(0, i as int),
                decreases s@.len() - i,
            {
                self.text.push(s[i]);
                proof {
                    assert(self.text@ == old(self)@ + s@.subrange(0, i + 1));
                }
                i = i + 1;
            }
            proof {
                assert(self.text@ == old(self)@ + s@);
            }
            Ok(())
        } else {
            Err(RenderError)
        }
    }

    /// Append the characters of a string slice whole; fails, leaving the sink
    /// unchanged, exactly when they would not fit.
    pub fn write_str(&mut self, s: &str) -> (r: Result<(), RenderError>)
        ensures
            final(self).cap() == old(self).cap(),
            old(self)@.is_prefix_of(final(self)@),
            r is Ok <==> old(self)@.len() + s@.len() <= old(self).cap(),
            r is Ok ==> final(self)@ == old(self)@ + s@,
            r is Err ==> final(self)@ == old(self)@,
    {
        let n = s.unicode_len();
        if n == 0 {
            proof {
                assert(old(self)@ + s@ =~= old(self)@);
            }
            return Ok(());
        }
        if self.text.len() <= self.limit && n <= self.limit - self.text.len() {
            let mut i: usize = 0;
            while i < n
                invariant
                    i <= n,
                    n == s@.len(),
                    old(self)@.len() + s@.len() <= old(self).cap(),
                    self.limit == old(self).cap(),
                    self.text@ == old(self)@ + s@.subrange(0, i as int),
                decreases n - i,
            {
                self.text.push(s.get_char(i));
                proof {
                    assert(self.text@ == old(self)@ + s@.subrange(0, i + 1));
                }
                i = i + 1;
            }
            proof {
                assert(self.text@ == old(self)@ + s@);
            }
            Ok(())
        } else {
            Err(RenderError)
        }
    }
}

} // verus!

use vstd::prelude::*;

use crate::chars::{lemma_prefix_refl, lemma_prefix_trans};
use crate::fmt_by::FmtHandler;
use crate::fmt_data::FmtData;
use crate::sink::{RenderError, TextSink};

verus! {

/// The text repeated `n` times, concatenated with no separator.
pub open spec fn spec_repeat(t: Seq<char>, n: nat) -> Seq<char>
    decreases n,
{
    if n == 0 {
        Seq::empty()
    } else {
        spec_repeat(t, (n - 1) as nat) + t
    }
}

/// Fewer repetitions never give a longer text.
pub proof fn lemma_repeat_len_mono(t: Seq<char>, i: nat, n: nat)
    requires
        i <= n,
    ensures
        spec_repeat(t, i).len() <= spec_repeat(t, n).len(),
    decreases n - i,
{
    if i < n {
        lemma_repeat_len_mono(t, (i + 1) as nat, n);
    }
}

/// The repetition strategy: renders the value's display form `n` times
/// concatenated; zero repetitions write nothing at all, whatever the input.
#[derive(Clone, Copy)]
pub struct Repeat(pub usize);

impl Default for Repeat {
    fn default() -> (r: Self)
        ensures
            r == (Repeat(0)),
    {
        Repeat(0)
    }
}

impl<T: FmtData> FmtHandler<T> for Repeat {
    open spec fn fmt_pre(self, inner: &T) -> bool {
        inner.write_pre()
    }

    open spec fn output_known(self, inner: &T) -> bool {
        inner.text_known()
    }

    open spec fn output(self, inner: &T) -> Seq<char> {
        spec_repeat(inner.text(), self.0 as nat)
    }

    fn fmt(&self, inner: &T, f: &mut TextSink) -> (r: Result<(), RenderError>)
        ensures
            self.0 == 0 ==> r is Ok && final(f)@ == old(f)@,
    {
        let ghost t = inner.text();
        let n = self.0;
        proof {
            TextSink::lemma_sink_space(*f);
            lemma_prefix_refl(old(f)@);
        }
        if n == 0 {
            proof {
                assert(old(f)@ + spec_repeat(t, 0) =~= old(f)@);
            }
            return Ok(());
        }
        let mut i: usize = 0;
        while i < n
            invariant
                i <= n,
                n == self.0,
                inner.write_pre(),
                t == inner.text(),
                f.cap() == old(f).cap(),
                old(f)@.is_prefix_of(f@),
                old(f)@.len() <= old(f).cap(),
                inner.text_known() ==> f@ == old(f)@ + spec_repeat(t, i as nat),
            decreases n - i,
        {
            let ghost before = f@;
            let re = inner.write_text(f);
            proof {
                lemma_prefix_trans(old(f)@, before, f@);
                if inner.text_known() {
                    assert(spec_repeat(t, (i + 1) as nat) == spec_repeat(t, i as nat) + t);
                    lemma_repeat_len_mono(t, (i + 1) as nat, n as nat);
                }
            }
            match re {
                Ok(_) => {},
                Err(e) => {
                    return Err(e);
                },
            }
            proof {
                if inner.text_known() {
                    assert(f@ =~= old(f)@ + spec_repeat(t, (i + 1) as nat));
                }
            }
            i = i + 1;
        }
        proof {
            if inner.text_known() {
                TextSink::lemma_sink_space(*f);
            }
        }
        Ok(())
    }
}

} // verus!

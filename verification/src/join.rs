use vstd::prelude::*;

use crate::chars::{lemma_prefix_refl, lemma_prefix_trans};
use crate::fmt_data::FmtData;
use crate::sink::{RenderError, TextSink};

verus! {

/// The chosen textual form of each element of a sequence: debug forms when
/// `debug` holds, display forms otherwise.
pub open spec fn spec_texts<T: FmtData>(s: Seq<T>, debug: bool) -> Seq<Seq<char>> {
    s.map_values(|x: T| if debug { x.debug_text() } else { x.text() })
}

/// Whether every element's textual forms are pinned down.
pub open spec fn joined_known<T: FmtData>(s: Seq<T>) -> bool {
    forall|i: int| 0 <= i < s.len() ==> (#[trigger] s[i]).text_known()
}

/// Whether every element may be written.
pub open spec fn joined_pre<T: FmtData>(s: Seq<T>) -> bool {
    forall|i: int| 0 <= i < s.len() ==> (#[trigger] s[i]).write_pre()
}

/// The parts joined in order with the delimiter between them: an empty
/// sequence of parts joins to empty text, a single part stands alone.
pub open spec fn spec_join(parts: Seq<Seq<char>>, delim: Seq<char>) -> Seq<char>
    decreases parts.len(),
{
    if parts.len() == 0 {
        Seq::empty()
    } else if parts.len() == 1 {
        parts[0]
    } else {
        spec_join(parts.drop_last(), delim) + delim + parts.last()
    }
}

/// Joining one more part appends the delimiter and that part.
pub proof fn lemma_join_step(parts: Seq<Seq<char>>, delim: Seq<char>, i: int)
    requires
        1 <= i < parts.len(),
    ensures
        spec_join(parts.subrange(0, i + 1), delim) == spec_join(parts.subrange(0, i), delim)
            + delim + parts[i],
{
    let a = parts.subrange(0, i + 1);
    assert(a.drop_last() =~= parts.subrange(0, i));
    assert(a.last() == parts[i]);
}

/// A join of a prefix of the parts is at most as long as the whole join.
pub proof fn lemma_join_len_mono(parts: Seq<Seq<char>>, delim: Seq<char>, i: int)
    requires
        0 <= i <= parts.len(),
    ensures
        spec_join(parts.subrange(0, i), delim).len() <= spec_join(parts, delim).len(),
    decreases parts.len() - i,
{
    if i == parts.len() {
        assert(parts.subrange(0, i) =~= parts);
    } else {
        if i == 0 {
            assert(parts.subrange(0, 0) =~= Seq::<Seq<char>>::empty());
        } else {
            lemma_join_step(parts, delim, i);
        }
        if i == 0 && parts.len() >= 1 {
            assert(parts.subrange(0, 1)[0] == parts[0]);
        }
        lemma_join_len_mono(parts, delim, i + 1);
    }
}

/// Write the elements' chosen forms in order, the delimiter's display form
/// between them.  When every element's form is pinned down and so is the
/// delimiter's, this succeeds exactly when the whole join fits.
pub(crate) fn write_joined<T: FmtData, D: FmtData>(
    elems: &Vec<T>,
    delim: &D,
    debug: bool,
    f: &mut TextSink,
) -> (r: Result<(), RenderError>)
    requires
        joined_pre(elems@),
        delim.write_pre(),
    ensures
        final(f).cap() == old(f).cap(),
        old(f)@.is_prefix_of(final(f)@),
        joined_known(elems@) && delim.text_known() ==> (r is Ok <==> old(f)@.len() + spec_join(
            spec_texts(elems@, debug),
            delim.text(),
        ).len() <= old(f).cap()),
        joined_known(elems@) && delim.text_known() && r is Ok ==> final(f)@ == old(f)@
            + spec_join(spec_texts(elems@, debug), delim.text()),
{
    let ghost parts = spec_texts(elems@, debug);
    let ghost dl = delim.text();
    let ghost known = joined_known(elems@) && delim.text_known();
    proof {
        TextSink::lemma_sink_space(*f);
        lemma_prefix_refl(old(f)@);
        assert(parts.len() == elems@.len());
    }
    let n = elems.len();
    let mut i: usize = 0;
    while i < n
        invariant
            n == elems@.len(),
            i <= n,
            joined_pre(elems@),
            delim.write_pre(),
            parts == spec_texts(elems@, debug),
            dl == delim.text(),
            known == (joined_known(elems@) && delim.text_known()),
            f.cap() == old(f).cap(),
            old(f)@.is_prefix_of(f@),
            old(f)@.len() <= old(f).cap(),
            known ==> f@ == old(f)@ + spec_join(parts.subrange(0, i as int), dl),
        decreases n - i,
    {
        proof {
            assert(parts[i as int] == (if debug {
                elems@[i as int].debug_text()
            } else {
                elems@[i as int].text()
            }));
        }
        if i > 0 {
            let ghost before = f@;
            let rd = delim.write_text(f);
            proof {
                lemma_prefix_trans(old(f)@, before, f@);
            }
            match rd {
                Ok(_) => {},
                Err(e) => {
                    proof {
                        if known {
                            lemma_join_step(parts, dl, i as int);
                            lemma_join_len_mono(parts, dl, i + 1);
                        }
                    }
                    return Err(e);
                },
            }
        }
        let ghost mid = f@;
        let re = if debug {
            elems[i].write_debug(f)
        } else {
            elems[i].write_text(f)
        };
        proof {
            lemma_prefix_trans(old(f)@, mid, f@);
            if known {
                if i == 0 {
                    assert(parts.subrange(0, 1)[0] == parts[0]);
                    assert(parts.subrange(0, 0) =~= Seq::<Seq<char>>::empty());
                } else {
                    lemma_join_step(parts, dl, i as int);
                }
                lemma_join_len_mono(parts, dl, i + 1);
            }
        }
        match re {
            Ok(_) => {},
            Err(e) => {
                return Err(e);
            },
        }
        proof {
            if known {
                assert(f@ =~= old(f)@ + spec_join(parts.subrange(0, i + 1), dl));
            }
        }
        i = i + 1;
    }
    proof {
        assert(parts.subrange(0, n as int) =~= parts);
        if known {
            TextSink::lemma_sink_space(*f);
        }
    }
    Ok(())
}

/// Write the elements' debug forms between `open` and `close`, separated by
/// a comma and a space: the common shape of list and map renderings.
pub(crate) fn write_wrapped<T: FmtData>(
    elems: &Vec<T>,
    open: char,
    close: char,
    f: &mut TextSink,
) -> (r: Result<(), RenderError>)
    requires
        joined_pre(elems@),
    ensures
        final(f).cap() == old(f).cap(),
        old(f)@.is_prefix_of(final(f)@),
        joined_known(elems@) ==> (r is Ok <==> old(f)@.len() + (seq![open] + spec_join(
            spec_texts(elems@, true),
            seq![',', ' '],
        ) + seq![close]).len() <= old(f).cap()),
        joined_known(elems@) && r is Ok ==> final(f)@ == old(f)@ + (seq![open] + spec_join(
            spec_texts(elems@, true),
            seq![',', ' '],
        ) + seq![close]),
{
    let ghost body = spec_join(spec_texts(elems@, true), seq![',', ' ']);
    let ghost whole = seq![open] + body + seq![close];
    proof {
        reveal_strlit(", ");
        assert(", "@ =~= seq![',', ' ']);
    }
    match f.write_char(open) {
        Ok(_) => {},
        Err(e) => {
            return Err(e);
        },
    }
    let ghost mid = f@;
    match write_joined(elems, &", ", true, f) {
        Ok(_) => {},
        Err(e) => {
            proof {
                lemma_prefix_trans(old(f)@, mid, f@);
            }
            return Err(e);
        },
    }
    proof {
        lemma_prefix_trans(old(f)@, mid, f@);
    }
    let ghost mid2 = f@;
    let r = f.write_char(close);
    proof {
        lemma_prefix_trans(old(f)@, mid2, f@);
        if joined_known(elems@) {
            if r is Ok {
                assert(f@ =~= old(f)@ + whole);
            }
        }
    }
    r
}

} // verus!

use vstd::prelude::*;

use crate::fmt_by::FmtHandler;
use crate::fmt_by_holder::{DerefHolder, TargetHolder, WithInner};
use crate::fmt_data::FmtData;
use crate::join::{spec_join, spec_texts};
use crate::joined::Joined;
use crate::number::{spec_sat_abs, NumberDisplayProxy};
use crate::repeat::{spec_repeat, Repeat};

verus! {

/// Attaching a strategy and rendering reproduces the strategy's output for
/// the data, exactly: the holder's text — what `render` and `render_as`
/// append for any requested output form — is the strategy's `output` on the
/// held data, for the borrowing and the owning holder alike.
pub proof fn lemma_attach_renders_strategy_output<'a, T, D: FmtHandler<T>>(data: &'a T, handler: D)
    ensures
        (TargetHolder { inner: data, handler }).text() == handler.output(data),
        (DerefHolder { inner: *data, handler }).text() == handler.output(data),
{
}

/// The order of attachment is observable: chaining wraps the existing holder
/// whole, so the strategy attached last is the outermost one, and the chained
/// holder's text is what that strategy decides to produce for the wrapped
/// holder — the wrapped strategy's own output enters only where the outer one
/// delegates to it.
pub proof fn lemma_chain_outermost_decides<'a, T, A, B>(data: &'a T, a: A, b: B) where
    A: FmtHandler<T>,
    B: FmtHandler<TargetHolder<'a, T, A>>,

    ensures
        (DerefHolder { inner: TargetHolder { inner: data, handler: a }, handler: b }).text()
            == b.output(&(TargetHolder { inner: data, handler: a })),
        (TargetHolder { inner: data, handler: a }).text() == a.output(data),
{
}

/// Joining an empty vector yields empty text.
pub proof fn lemma_joined_empty<T: FmtData, D: FmtData + Copy>(j: Joined<D>, v: Vec<T>)
    requires
        v@.len() == 0,
    ensures
        j.output(&v) == Seq::<char>::empty(),
{
    assert(spec_texts(v@, false).len() == 0);
}

/// Joining a one-element vector yields that element's text, with no
/// delimiter.
pub proof fn lemma_joined_single<T: FmtData, D: FmtData + Copy>(j: Joined<D>, v: Vec<T>)
    requires
        v@.len() == 1,
    ensures
        j.output(&v) == v@[0].text(),
{
    assert(spec_texts(v@, false)[0] == v@[0].text());
}

/// Zero repetitions yield empty text, on any input.
pub proof fn lemma_repeat_zero<T: FmtData>(inner: &T)
    ensures
        (Repeat(0)).output(inner) == Seq::<char>::empty(),
{
}

/// Repetition concatenates with no separator: the text of `n` repetitions is
/// exactly `n` times as long as one copy.
pub proof fn lemma_repeat_len(t: Seq<char>, n: nat)
    ensures
        spec_repeat(t, n).len() == n * t.len(),
    decreases n,
{
    if n > 0 {
        lemma_repeat_len(t, (n - 1) as nat);
        assert(n * t.len() == (n - 1) * t.len() + t.len()) by (nonlinear_arith);
    }
}

/// Rebuilding tunnels through one layer of wrapping: the sign-flipping
/// strategy chained after any numeric strategy renders a negative value as
/// the sign word followed by the saturated magnitude rendered through that
/// same strategy.
pub proof fn lemma_rebuild_through_chain<'a, D: FmtHandler<i32>>(n: &'a i32, d: D)
    requires
        *n < 0,
    ensures
        ({
            let m = spec_sat_abs(*n as int) as i32;
            (NumberDisplayProxy {}).output(&(TargetHolder { inner: n, handler: d })) == seq!['负']
                + d.output(&m)
        }),
{
}

/// Rebuilding tunnels through any depth of owning holders: on a chained
/// holder whose value sees through to an integer, the sign-flipping strategy
/// renders a negative value's magnitude through the whole chain below it,
/// rebuilt around the saturated magnitude.
pub proof fn lemma_rebuild_through_deep_chain<T, D>(h: DerefHolder<T, D>, n: i32) where
    T: for <'any> WithInner<'any, i32>,
    D: FmtHandler<T>,

    requires
        h.inner.spec_inner() == n,
        n < 0,
    ensures
        ({
            let m = spec_sat_abs(n as int) as i32;
            (NumberDisplayProxy {}).output(&h) == seq!['负'] + h.handler.output(
                &h.inner.rebuilt(m),
            )
        }),
{
}

} // verus!

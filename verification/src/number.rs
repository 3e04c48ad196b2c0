use vstd::prelude::*;

use crate::chars::{radix_chars, spec_radix};
use crate::fmt_by::FmtHandler;
use crate::fmt_by_holder::{DerefHolder, TargetHolder, WithInner};
use crate::sink::{RenderError, TextSink};

verus! {

/// The magnitude used by the signed-numeric strategy: the absolute value,
/// saturated to the largest representable value for the one input whose
/// absolute value is not representable.
pub open spec fn spec_sat_abs(n: int) -> int {
    if n == i32::MIN {
        i32::MAX as int
    } else if n < 0 {
        -n
    } else {
        n
    }
}

/// The saturated absolute value of a signed 32-bit integer.
pub fn sat_abs(n: i32) -> (r: i32)
    ensures
        r == spec_sat_abs(n as int),
{
    if n == i32::MIN {
        i32::MAX
    } else if n < 0 {
        -n
    } else {
        n
    }
}

/// The text of the signed-numeric strategy on a plain integer: `负` and the
/// saturated magnitude for a negative value, `零` for zero, `正` and the value
/// for a positive one.
pub open spec fn spec_signed_text(n: int) -> Seq<char> {
    if n < 0 {
        seq!['负'] + spec_radix(spec_sat_abs(n) as nat, 10, false)
    } else if n == 0 {
        seq!['零']
    } else {
        seq!['正'] + spec_radix(n as nat, 10, false)
    }
}

/// The signed-numeric strategy.  On a plain integer it renders the sign as a
/// word and then the magnitude.  On a holder wrapping an integer it renders
/// the sign word and then, for a negative value, rebuilds the holder around
/// the saturated magnitude and lets the holder's own strategy render it: the
/// magnitude is rendered through the very strategy this one was chained
/// after.
#[derive(Clone, Copy)]
pub struct NumberDisplayProxy;

impl Default for NumberDisplayProxy {
    fn default() -> (r: Self)
        ensures
            r == (NumberDisplayProxy {}),
    {
        NumberDisplayProxy
    }
}

impl FmtHandler<i32> for NumberDisplayProxy {
    open spec fn fmt_pre(self, inner: &i32) -> bool {
        true
    }

    open spec fn output_known(self, inner: &i32) -> bool {
        true
    }

    open spec fn output(self, inner: &i32) -> Seq<char> {
        spec_signed_text(*inner as int)
    }

    fn fmt(&self, inner: &i32, f: &mut TextSink) -> (r: Result<(), RenderError>) {
        let v = *inner;
        if v < 0 {
            match f.write_char('负') {
                Ok(_) => {},
                Err(e) => {
                    return Err(e);
                },
            }
            let m = sat_abs(v);
            let digits = radix_chars(m as u64, 10, false);
            let r = f.write_chars(&digits);
            proof {
                if r is Ok {
                    assert(f@ =~= old(f)@ + spec_signed_text(v as int));
                }
            }
            r
        } else if v == 0 {
            let r = f.write_char('零');
            proof {
                if r is Ok {
                    assert(f@ =~= old(f)@ + spec_signed_text(v as int));
                }
            }
            r
        } else {
            match f.write_char('正') {
                Ok(_) => {},
                Err(e) => {
                    return Err(e);
                },
            }
            let digits = radix_chars(v as u64, 10, false);
            let r = f.write_chars(&digits);
            proof {
                if r is Ok {
                    assert(f@ =~= old(f)@ + spec_signed_text(v as int));
                }
            }
            r
        }
    }
}

/// The text of the signed-numeric strategy on a holder wrapping an integer:
/// the sign word, then the held strategy's output for the magnitude.
pub open spec fn spec_signed_holder_text<D: FmtHandler<i32>>(d: D, n: int) -> Seq<char> {
    if n < 0 {
        let m = spec_sat_abs(n) as i32;
        seq!['负'] + d.output(&m)
    } else if n == 0 {
        seq!['零']
    } else {
        let p = n as i32;
        seq!['正'] + d.output(&p)
    }
}

impl<'a, D: FmtHandler<i32>> FmtHandler<TargetHolder<'a, i32, D>> for NumberDisplayProxy {
    open spec fn fmt_pre(self, inner: &TargetHolder<'a, i32, D>) -> bool {
        if *inner.inner < 0 {
            let m = spec_sat_abs(*inner.inner as int) as i32;
            inner.handler.fmt_pre(&m)
        } else if *inner.inner == 0 {
            true
        } else {
            inner.handler.fmt_pre(inner.inner)
        }
    }

    open spec fn output_known(self, inner: &TargetHolder<'a, i32, D>) -> bool {
        if *inner.inner < 0 {
            let m = spec_sat_abs(*inner.inner as int) as i32;
            inner.handler.output_known(&m)
        } else if *inner.inner == 0 {
            true
        } else {
            inner.handler.output_known(inner.inner)
        }
    }

    open spec fn output(self, inner: &TargetHolder<'a, i32, D>) -> Seq<char> {
        spec_signed_holder_text(inner.handler, *inner.inner as int)
    }

    fn fmt(&self, inner: &TargetHolder<'a, i32, D>, f: &mut TextSink) -> (r: Result<
        (),
        RenderError,
    >) {
        let v = *inner.inner;
        if v < 0 {
            match f.write_char('负') {
                Ok(_) => {},
                Err(e) => {
                    return Err(e);
                },
            }
            let m = sat_abs(v);
            let rebuilt: TargetHolder<'_, i32, D> = TargetHolder {
                inner: &m,
                handler: inner.handler,
            };
            let r = rebuilt.render(f);
            proof {
                if r is Ok && inner.handler.output_known(&m) {
                    assert(f@ =~= old(f)@ + spec_signed_holder_text(inner.handler, v as int));
                }
            }
            r
        } else if v == 0 {
            let r = f.write_char('零');
            proof {
                if r is Ok {
                    assert(f@ =~= old(f)@ + spec_signed_holder_text(inner.handler, v as int));
                }
            }
            r
        } else {
            match f.write_char('正') {
                Ok(_) => {},
                Err(e) => {
                    return Err(e);
                },
            }
            let r = inner.handler.fmt(inner.inner, f);
            proof {
                if r is Ok && inner.handler.output_known(inner.inner) {
                    assert(f@ =~= old(f)@ + spec_signed_holder_text(inner.handler, v as int));
                }
            }
            r
        }
    }
}

/// The signed-numeric strategy on an owning holder whose value sees through
/// to an integer: the rebuild tunnels through every layer of wrapping, so the
/// magnitude of a negative value is rendered by the chain below this
/// strategy.
impl<T, D> FmtHandler<DerefHolder<T, D>> for NumberDisplayProxy where
    T: for <'any> WithInner<'any, i32>,
    D: FmtHandler<T>,
 {
    open spec fn fmt_pre(self, inner: &DerefHolder<T, D>) -> bool {
        let v = inner.inner.spec_inner();
        if v < 0 {
            let m = spec_sat_abs(v as int) as i32;
            inner.handler.fmt_pre(&inner.inner.rebuilt(m))
        } else if v == 0 {
            true
        } else {
            inner.handler.fmt_pre(&inner.inner)
        }
    }

    open spec fn output_known(self, inner: &DerefHolder<T, D>) -> bool {
        let v = inner.inner.spec_inner();
        if v < 0 {
            let m = spec_sat_abs(v as int) as i32;
            inner.handler.output_known(&inner.inner.rebuilt(m))
        } else if v == 0 {
            true
        } else {
            inner.handler.output_known(&inner.inner)
        }
    }

    open spec fn output(self, inner: &DerefHolder<T, D>) -> Seq<char> {
        let v = inner.inner.spec_inner();
        if v < 0 {
            let m = spec_sat_abs(v as int) as i32;
            seq!['负'] + inner.handler.output(&inner.inner.rebuilt(m))
        } else if v == 0 {
            seq!['零']
        } else {
            seq!['正'] + inner.handler.output(&inner.inner)
        }
    }

    fn fmt(&self, inner: &DerefHolder<T, D>, f: &mut TextSink) -> (r: Result<(), RenderError>) {
        let v = *inner.inner.inner_ref();
        if v < 0 {
            match f.write_char('负') {
                Ok(_) => {},
                Err(e) => {
                    return Err(e);
                },
            }
            let m = sat_abs(v);
            let rebuilt = inner.inner.with_inner(&m);
            let r = inner.handler.fmt(&rebuilt, f);
            proof {
                if r is Ok && inner.handler.output_known(&rebuilt) {
                    assert(f@ =~= old(f)@ + self.output(inner));
                }
            }
            r
        } else if v == 0 {
            let r = f.write_char('零');
            proof {
                if r is Ok {
                    assert(f@ =~= old(f)@ + self.output(inner));
                }
            }
            r
        } else {
            match f.write_char('正') {
                Ok(_) => {},
                Err(e) => {
                    return Err(e);
                },
            }
            let r = inner.handler.fmt(&inner.inner, f);
            proof {
                if r is Ok && inner.handler.output_known(&inner.inner) {
                    assert(f@ =~= old(f)@ + self.output(inner));
                }
            }
            r
        }
    }
}

} // verus!

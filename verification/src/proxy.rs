use vstd::prelude::*;

use crate::chars::{radix_chars, spec_radix};
use crate::fmt_by::FmtHandler;
use crate::fmt_data::FmtData;
use crate::sink::{RenderError, TextSink};

verus! {

/// Renders a value in its own display form.
#[derive(Clone, Copy)]
pub struct DisplayProxy;

impl Default for DisplayProxy {
    fn default() -> (r: Self)
        ensures
            r == (DisplayProxy {}),
    {
        DisplayProxy
    }
}

impl<T: FmtData> FmtHandler<T> for DisplayProxy {
    open spec fn fmt_pre(self, inner: &T) -> bool {
        inner.write_pre()
    }

    open spec fn output_known(self, inner: &T) -> bool {
        inner.text_known()
    }

    open spec fn output(self, inner: &T) -> Seq<char> {
        inner.text()
    }

    fn fmt(&self, inner: &T, f: &mut TextSink) -> (r: Result<(), RenderError>) {
        inner.write_text(f)
    }
}

/// Renders a value in its own debug form.
#[derive(Clone, Copy)]
pub struct DebugProxy;

impl Default for DebugProxy {
    fn default() -> (r: Self)
        ensures
            r == (DebugProxy {}),
    {
        DebugProxy
    }
}

impl<T: FmtData> FmtHandler<T> for DebugProxy {
    open spec fn fmt_pre(self, inner: &T) -> bool {
        inner.write_pre()
    }

    open spec fn output_known(self, inner: &T) -> bool {
        inner.text_known()
    }

    open spec fn output(self, inner: &T) -> Seq<char> {
        inner.debug_text()
    }

    fn fmt(&self, inner: &T, f: &mut TextSink) -> (r: Result<(), RenderError>) {
        inner.write_debug(f)
    }
}

/// Renders an integer as its binary digits.
#[derive(Clone, Copy)]
pub struct BinaryProxy;

impl Default for BinaryProxy {
    fn default() -> (r: Self)
        ensures
            r == (BinaryProxy {}),
    {
        BinaryProxy
    }
}

/// Renders an integer as its octal digits.
#[derive(Clone, Copy)]
pub struct OctalProxy;

impl Default for OctalProxy {
    fn default() -> (r: Self)
        ensures
            r == (OctalProxy {}),
    {
        OctalProxy
    }
}

/// Renders an integer as its hexadecimal digits, lower case.
#[derive(Clone, Copy)]
pub struct LowerHexProxy;

impl Default for LowerHexProxy {
    fn default() -> (r: Self)
        ensures
            r == (LowerHexProxy {}),
    {
        LowerHexProxy
    }
}

/// Renders an integer as its hexadecimal digits, upper case.
#[derive(Clone, Copy)]
pub struct UpperHexProxy;

impl Default for UpperHexProxy {
    fn default() -> (r: Self)
        ensures
            r == (UpperHexProxy {}),
    {
        UpperHexProxy
    }
}

/// The digits of a signed value in a base: the value's two's-complement bits
/// read as an unsigned number, as the standard numeric forms do.
pub open spec fn spec_radix_i32(n: int, base: nat, upper: bool) -> Seq<char> {
    spec_radix((n as i32 as u32) as nat, base, upper)
}

impl FmtHandler<u32> for BinaryProxy {
    open spec fn fmt_pre(self, inner: &u32) -> bool {
        true
    }

    open spec fn output_known(self, inner: &u32) -> bool {
        true
    }

    open spec fn output(self, inner: &u32) -> Seq<char> {
        spec_radix(*inner as nat, 2, false)
    }

    fn fmt(&self, inner: &u32, f: &mut TextSink) -> (r: Result<(), RenderError>) {
        let v = radix_chars(*inner as u64, 2, false);
        f.write_chars(&v)
    }
}

impl FmtHandler<i32> for BinaryProxy {
    open spec fn fmt_pre(self, inner: &i32) -> bool {
        true
    }

    open spec fn output_known(self, inner: &i32) -> bool {
        true
    }

    open spec fn output(self, inner: &i32) -> Seq<char> {
        spec_radix_i32(*inner as int, 2, false)
    }

    fn fmt(&self, inner: &i32, f: &mut TextSink) -> (r: Result<(), RenderError>) {
        let v = radix_chars(*inner as u32 as u64, 2, false);
        f.write_chars(&v)
    }
}

impl FmtHandler<u32> for OctalProxy {
    open spec fn fmt_pre(self, inner: &u32) -> bool {
        true
    }

    open spec fn output_known(self, inner: &u32) -> bool {
        true
    }

    open spec fn output(self, inner: &u32) -> Seq<char> {
        spec_radix(*inner as nat, 8, false)
    }

    fn fmt(&self, inner: &u32, f: &mut TextSink) -> (r: Result<(), RenderError>) {
        let v = radix_chars(*inner as u64, 8, false);
        f.write_chars(&v)
    }
}

impl FmtHandler<i32> for OctalProxy {
    open spec fn fmt_pre(self, inner: &i32) -> bool {
        true
    }

    open spec fn output_known(self, inner: &i32) -> bool {
        true
    }

    open spec fn output(self, inner: &i32) -> Seq<char> {
        spec_radix_i32(*inner as int, 8, false)
    }

    fn fmt(&self, inner: &i32, f: &mut TextSink) -> (r: Result<(), RenderError>) {
        let v = radix_chars(*inner as u32 as u64, 8, false);
        f.write_chars(&v)
    }
}

impl FmtHandler<u32> for LowerHexProxy {
    open spec fn fmt_pre(self, inner: &u32) -> bool {
        true
    }

    open spec fn output_known(self, inner: &u32) -> bool {
        true
    }

    open spec fn output(self, inner: &u32) -> Seq<char> {
        spec_radix(*inner as nat, 16, false)
    }

    fn fmt(&self, inner: &u32, f: &mut TextSink) -> (r: Result<(), RenderError>) {
        let v = radix_chars(*inner as u64, 16, false);
        f.write_chars(&v)
    }
}

impl FmtHandler<i32> for LowerHexProxy {
    open spec fn fmt_pre(self, inner: &i32) -> bool {
        true
    }

    open spec fn output_known(self, inner: &i32) -> bool {
        true
    }

    open spec fn output(self, inner: &i32) -> Seq<char> {
        spec_radix_i32(*inner as int, 16, false)
    }

    fn fmt(&self, inner: &i32, f: &mut TextSink) -> (r: Result<(), RenderError>) {
        let v = radix_chars(*inner as u32 as u64, 16, false);
        f.write_chars(&v)
    }
}

impl FmtHandler<u32> for UpperHexProxy {
    open spec fn fmt_pre(self, inner: &u32) -> bool {
        true
    }

    open spec fn output_known(self, inner: &u32) -> bool {
        true
    }

    open spec fn output(self, inner: &u32) -> Seq<char> {
        spec_radix(*inner as nat, 16, true)
    }

    fn fmt(&self, inner: &u32, f: &mut TextSink) -> (r: Result<(), RenderError>) {
        let v = radix_chars(*inner as u64, 16, true);
        f.write_chars(&v)
    }
}

impl FmtHandler<i32> for UpperHexProxy {
    open spec fn fmt_pre(self, inner: &i32) -> bool {
        true
    }

    open spec fn output_known(self, inner: &i32) -> bool {
        true
    }

    open spec fn output(self, inner: &i32) -> Seq<char> {
        spec_radix_i32(*inner as int, 16, true)
    }

    fn fmt(&self, inner: &i32, f: &mut TextSink) -> (r: Result<(), RenderError>) {
        let v = radix_chars(*inner as u32 as u64, 16, true);
        f.write_chars(&v)
    }
}

/// Renders an integer in scientific notation, lower-case exponent marker.
#[derive(Clone, Copy)]
pub struct LowerExpProxy;

impl Default for LowerExpProxy {
    fn default() -> (r: Self)
        ensures
            r == (LowerExpProxy {}),
    {
        LowerExpProxy
    }
}

/// Renders an integer in scientific notation, upper-case exponent marker.
#[derive(Clone, Copy)]
pub struct UpperExpProxy;

impl Default for UpperExpProxy {
    fn default() -> (r: Self)
        ensures
            r == (UpperExpProxy {}),
    {
        UpperExpProxy
    }
}

impl FmtHandler<u32> for LowerExpProxy {
    open spec fn fmt_pre(self, inner: &u32) -> bool {
        true
    }

    open spec fn output_known(self, inner: &u32) -> bool {
        true
    }

    open spec fn output(self, inner: &u32) -> Seq<char> {
        crate::chars::spec_exp_nat(*inner as nat, false)
    }

    fn fmt(&self, inner: &u32, f: &mut TextSink) -> (r: Result<(), RenderError>) {
        let v = crate::chars::exp_chars_u64(*inner as u64, false);
        f.write_chars(&v)
    }
}

impl FmtHandler<i32> for LowerExpProxy {
    open spec fn fmt_pre(self, inner: &i32) -> bool {
        true
    }

    open spec fn output_known(self, inner: &i32) -> bool {
        true
    }

    open spec fn output(self, inner: &i32) -> Seq<char> {
        crate::chars::spec_exp_int(*inner as int, false)
    }

    fn fmt(&self, inner: &i32, f: &mut TextSink) -> (r: Result<(), RenderError>) {
        let v = crate::chars::exp_chars_i64(*inner as i64, false);
        f.write_chars(&v)
    }
}

impl FmtHandler<u32> for UpperExpProxy {
    open spec fn fmt_pre(self, inner: &u32) -> bool {
        true
    }

    open spec fn output_known(self, inner: &u32) -> bool {
        true
    }

    open spec fn output(self, inner: &u32) -> Seq<char> {
        crate::chars::spec_exp_nat(*inner as nat, true)
    }

    fn fmt(&self, inner: &u32, f: &mut TextSink) -> (r: Result<(), RenderError>) {
        let v = crate::chars::exp_chars_u64(*inner as u64, true);
        f.write_chars(&v)
    }
}

impl FmtHandler<i32> for UpperExpProxy {
    open spec fn fmt_pre(self, inner: &i32) -> bool {
        true
    }

    open spec fn output_known(self, inner: &i32) -> bool {
        true
    }

    open spec fn output(self, inner: &i32) -> Seq<char> {
        crate::chars::spec_exp_int(*inner as int, true)
    }

    fn fmt(&self, inner: &i32, f: &mut TextSink) -> (r: Result<(), RenderError>) {
        let v = crate::chars::exp_chars_i64(*inner as i64, true);
        f.write_chars(&v)
    }
}


/// The digits of a signed 64-bit value in a base: its two's-complement bits
/// read as an unsigned number, as the standard numeric forms do.
pub open spec fn spec_radix_i64(n: int, base: nat, upper: bool) -> Seq<char> {
    spec_radix((n as i64 as u64) as nat, base, upper)
}

impl FmtHandler<u64> for BinaryProxy {
    open spec fn fmt_pre(self, inner: &u64) -> bool {
        true
    }

    open spec fn output_known(self, inner: &u64) -> bool {
        true
    }

    open spec fn output(self, inner: &u64) -> Seq<char> {
        spec_radix(*inner as nat, 2, false)
    }

    fn fmt(&self, inner: &u64, f: &mut TextSink) -> (r: Result<(), RenderError>) {
        let v = radix_chars(*inner, 2, false);
        f.write_chars(&v)
    }
}

impl FmtHandler<i64> for BinaryProxy {
    open spec fn fmt_pre(self, inner: &i64) -> bool {
        true
    }

    open spec fn output_known(self, inner: &i64) -> bool {
        true
    }

    open spec fn output(self, inner: &i64) -> Seq<char> {
        spec_radix_i64(*inner as int, 2, false)
    }

    fn fmt(&self, inner: &i64, f: &mut TextSink) -> (r: Result<(), RenderError>) {
        let v = radix_chars(*inner as u64, 2, false);
        f.write_chars(&v)
    }
}

impl FmtHandler<u64> for OctalProxy {
    open spec fn fmt_pre(self, inner: &u64) -> bool {
        true
    }

    open spec fn output_known(self, inner: &u64) -> bool {
        true
    }

    open spec fn output(self, inner: &u64) -> Seq<char> {
        spec_radix(*inner as nat, 8, false)
    }

    fn fmt(&self, inner: &u64, f: &mut TextSink) -> (r: Result<(), RenderError>) {
        let v = radix_chars(*inner, 8, false);
        f.write_chars(&v)
    }
}

impl FmtHandler<i64> for OctalProxy {
    open spec fn fmt_pre(self, inner: &i64) -> bool {
        true
    }

    open spec fn output_known(self, inner: &i64) -> bool {
        true
    }

    open spec fn output(self, inner: &i64) -> Seq<char> {
        spec_radix_i64(*inner as int, 8, false)
    }

    fn fmt(&self, inner: &i64, f: &mut TextSink) -> (r: Result<(), RenderError>) {
        let v = radix_chars(*inner as u64, 8, false);
        f.write_chars(&v)
    }
}

impl FmtHandler<u64> for LowerHexProxy {
    open spec fn fmt_pre(self, inner: &u64) -> bool {
        true
    }

    open spec fn output_known(self, inner: &u64) -> bool {
        true
    }

    open spec fn output(self, inner: &u64) -> Seq<char> {
        spec_radix(*inner as nat, 16, false)
    }

    fn fmt(&self, inner: &u64, f: &mut TextSink) -> (r: Result<(), RenderError>) {
        let v = radix_chars(*inner, 16, false);
        f.write_chars(&v)
    }
}

impl FmtHandler<i64> for LowerHexProxy {
    open spec fn fmt_pre(self, inner: &i64) -> bool {
        true
    }

    open spec fn output_known(self, inner: &i64) -> bool {
        true
    }

    open spec fn output(self, inner: &i64) -> Seq<char> {
        spec_radix_i64(*inner as int, 16, false)
    }

    fn fmt(&self, inner: &i64, f: &mut TextSink) -> (r: Result<(), RenderError>) {
        let v = radix_chars(*inner as u64, 16, false);
        f.write_chars(&v)
    }
}

impl FmtHandler<u64> for UpperHexProxy {
    open spec fn fmt_pre(self, inner: &u64) -> bool {
        true
    }

    open spec fn output_known(self, inner: &u64) -> bool {
        true
    }

    open spec fn output(self, inner: &u64) -> Seq<char> {
        spec_radix(*inner as nat, 16, true)
    }

    fn fmt(&self, inner: &u64, f: &mut TextSink) -> (r: Result<(), RenderError>) {
        let v = radix_chars(*inner, 16, true);
        f.write_chars(&v)
    }
}

impl FmtHandler<i64> for UpperHexProxy {
    open spec fn fmt_pre(self, inner: &i64) -> bool {
        true
    }

    open spec fn output_known(self, inner: &i64) -> bool {
        true
    }

    open spec fn output(self, inner: &i64) -> Seq<char> {
        spec_radix_i64(*inner as int, 16, true)
    }

    fn fmt(&self, inner: &i64, f: &mut TextSink) -> (r: Result<(), RenderError>) {
        let v = radix_chars(*inner as u64, 16, true);
        f.write_chars(&v)
    }
}

impl FmtHandler<u64> for LowerExpProxy {
    open spec fn fmt_pre(self, inner: &u64) -> bool {
        true
    }

    open spec fn output_known(self, inner: &u64) -> bool {
        true
    }

    open spec fn output(self, inner: &u64) -> Seq<char> {
        crate::chars::spec_exp_nat(*inner as nat, false)
    }

    fn fmt(&self, inner: &u64, f: &mut TextSink) -> (r: Result<(), RenderError>) {
        let v = crate::chars::exp_chars_u64(*inner, false);
        f.write_chars(&v)
    }
}

impl FmtHandler<i64> for LowerExpProxy {
    open spec fn fmt_pre(self, inner: &i64) -> bool {
        true
    }

    open spec fn output_known(self, inner: &i64) -> bool {
        true
    }

    open spec fn output(self, inner: &i64) -> Seq<char> {
        crate::chars::spec_exp_int(*inner as int, false)
    }

    fn fmt(&self, inner: &i64, f: &mut TextSink) -> (r: Result<(), RenderError>) {
        let v = crate::chars::exp_chars_i64(*inner, false);
        f.write_chars(&v)
    }
}

impl FmtHandler<u64> for UpperExpProxy {
    open spec fn fmt_pre(self, inner: &u64) -> bool {
        true
    }

    open spec fn output_known(self, inner: &u64) -> bool {
        true
    }

    open spec fn output(self, inner: &u64) -> Seq<char> {
        crate::chars::spec_exp_nat(*inner as nat, true)
    }

    fn fmt(&self, inner: &u64, f: &mut TextSink) -> (r: Result<(), RenderError>) {
        let v = crate::chars::exp_chars_u64(*inner, true);
        f.write_chars(&v)
    }
}

impl FmtHandler<i64> for UpperExpProxy {
    open spec fn fmt_pre(self, inner: &i64) -> bool {
        true
    }

    open spec fn output_known(self, inner: &i64) -> bool {
        true
    }

    open spec fn output(self, inner: &i64) -> Seq<char> {
        crate::chars::spec_exp_int(*inner as int, true)
    }

    fn fmt(&self, inner: &i64, f: &mut TextSink) -> (r: Result<(), RenderError>) {
        let v = crate::chars::exp_chars_i64(*inner, true);
        f.write_chars(&v)
    }
}

/// Renders a callable's result: the held data is itself a callable that
/// computes the text.  Nothing pins an arbitrary callable's result down; on
/// success the sink grew by exactly a text the callable can return, and on
/// failure the sink is unchanged.
#[derive(Clone, Copy)]
pub struct FmtFnProxy;

impl Default for FmtFnProxy {
    fn default() -> (r: Self)
        ensures
            r == (FmtFnProxy {}),
    {
        FmtFnProxy
    }
}

impl<F: Fn() -> Result<Vec<char>, RenderError>> FmtHandler<F> for FmtFnProxy {
    open spec fn fmt_pre(self, inner: &F) -> bool {
        call_requires(*inner, ())
    }

    open spec fn output_known(self, inner: &F) -> bool {
        false
    }

    open spec fn output(self, inner: &F) -> Seq<char> {
        Seq::empty()
    }

    fn fmt(&self, inner: &F, f: &mut TextSink) -> (r: Result<(), RenderError>)
        ensures
            r is Ok ==> exists|text: Vec<char>|
                call_ensures(*inner, (), Ok::<Vec<char>, RenderError>(text)) && final(f)@ == old(
                    f,
                )@ + text@,
            r is Err ==> final(f)@ == old(f)@,
    {
        match (*inner)() {
            Ok(text) => f.write_chars(&text),
            Err(e) => {
                proof {
                    crate::chars::lemma_prefix_refl(old(f)@);
                }
                Err(e)
            },
        }
    }
}

} // verus!

use vstd::prelude::*;

use crate::fmt_by::FmtHandler;
use crate::fmt_data::FmtData;
use crate::join::{joined_known, joined_pre, spec_join, spec_texts, write_wrapped};
use crate::sink::{RenderError, TextSink};

verus! {

/// The text of a map rendering: each pair's key/value form, in order, between
/// braces, separated by a comma and a space.
pub open spec fn spec_map_text<K: FmtData, V: FmtData>(s: Seq<(K, V)>) -> Seq<char> {
    seq!['{'] + spec_join(spec_texts(s, true), seq![',', ' ']) + seq!['}']
}

/// The key/value map-style strategy: renders a vector of pairs as a map
/// literal, `{key: value, ...}`, keys and values in their debug forms, in the
/// vector's order.  This variant reads the pairs by reference.
#[derive(Clone, Copy)]
pub struct DebugMap;

impl Default for DebugMap {
    fn default() -> (r: Self)
        ensures
            r == (DebugMap {}),
    {
        DebugMap
    }
}

impl<K: FmtData, V: FmtData> FmtHandler<Vec<(K, V)>> for DebugMap {
    open spec fn fmt_pre(self, inner: &Vec<(K, V)>) -> bool {
        joined_pre(inner@)
    }

    open spec fn output_known(self, inner: &Vec<(K, V)>) -> bool {
        joined_known(inner@)
    }

    open spec fn output(self, inner: &Vec<(K, V)>) -> Seq<char> {
        spec_map_text(inner@)
    }

    fn fmt(&self, inner: &Vec<(K, V)>, f: &mut TextSink) -> (r: Result<(), RenderError>) {
        write_wrapped(inner, '{', '}', f)
    }
}

/// The map-style strategy for sequences whose iteration hands out references
/// to whole pairs; over a vector of pairs it renders exactly as `DebugMap`.
#[derive(Clone, Copy)]
pub struct RefItemDebugMap;

impl Default for RefItemDebugMap {
    fn default() -> (r: Self)
        ensures
            r == (RefItemDebugMap {}),
    {
        RefItemDebugMap
    }
}

impl<K: FmtData, V: FmtData> FmtHandler<Vec<(K, V)>> for RefItemDebugMap {
    open spec fn fmt_pre(self, inner: &Vec<(K, V)>) -> bool {
        joined_pre(inner@)
    }

    open spec fn output_known(self, inner: &Vec<(K, V)>) -> bool {
        joined_known(inner@)
    }

    open spec fn output(self, inner: &Vec<(K, V)>) -> Seq<char> {
        spec_map_text(inner@)
    }

    fn fmt(&self, inner: &Vec<(K, V)>, f: &mut TextSink) -> (r: Result<(), RenderError>) {
        write_wrapped(inner, '{', '}', f)
    }
}

/// The map-style strategy for sequences that are iterated by value; over a
/// vector of pairs it renders exactly as `DebugMap`.
#[derive(Clone, Copy)]
pub struct CloneIterDebugMap;

impl Default for CloneIterDebugMap {
    fn default() -> (r: Self)
        ensures
            r == (CloneIterDebugMap {}),
    {
        CloneIterDebugMap
    }
}

impl<K: FmtData, V: FmtData> FmtHandler<Vec<(K, V)>> for CloneIterDebugMap {
    open spec fn fmt_pre(self, inner: &Vec<(K, V)>) -> bool {
        joined_pre(inner@)
    }

    open spec fn output_known(self, inner: &Vec<(K, V)>) -> bool {
        joined_known(inner@)
    }

    open spec fn output(self, inner: &Vec<(K, V)>) -> Seq<char> {
        spec_map_text(inner@)
    }

    fn fmt(&self, inner: &Vec<(K, V)>, f: &mut TextSink) -> (r: Result<(), RenderError>) {
        write_wrapped(inner, '{', '}', f)
    }
}

} // verus!

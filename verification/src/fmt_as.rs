use vstd::prelude::*;

use crate::fmt_by::{FmtBy, FmtHandler};
use crate::fmt_by_holder::{DerefHolder, TargetHolder};

verus! {

/// Attaching a strategy by its type alone, using the strategy type's default
/// construction.  The built-in strategies are zero-sized or small values with
/// a `Default`, so naming the type is enough.
pub trait FmtAs: FmtBy {
    /// Attach the strategy type's default value to a borrowed value.
    fn fmt_as<'s, D: FmtHandler<Self> + Default>(&'s self) -> (r: TargetHolder<'s, Self, D>)
        ensures
            r.inner == self,
            call_ensures(D::default, (), r.handler),
    {
        self.fmt_by(D::default())
    }

    /// Attach the strategy type's default value to an owned value.
    fn fmt_deref_as<D: FmtHandler<Self> + Default>(self) -> (r: DerefHolder<Self, D>)
        ensures
            r.inner == self,
            call_ensures(D::default, (), r.handler),
    {
        self.fmt_deref_by(D::default())
    }
}

impl<T: Sized> FmtAs for T {

}

} // verus!

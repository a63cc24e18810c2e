use vstd::prelude::*;

verus! {

/// A type that can list a small, fixed, ordered set of representative values
/// of itself.
pub trait EveryVariant: Sized {
    /// What a sample is, as far as the samples are compared: the value
    /// itself for plain scalars, the characters of a string, and the shape of
    /// the fields for a composite type.
    type Model;

    /// The model of one value.
    spec fn model(&self) -> Self::Model;

    /// The models of the representative values, in the order in which
    /// `every_variant` returns them.
    spec fn variants() -> Seq<Self::Model>;

    /// Every representative value of the type, in a fixed order. The result
    /// depends on the type alone: two calls give equal sequences.
    fn every_variant() -> (r: Vec<Self>)
        ensures
            r@.map_values(|v: Self| v.model()) == Self::variants(),
            r@.len() == Self::variants().len(),
    ;

    /// Calls `closure` on each representative value in order, for the types
    /// that choose to offer it; by default it does nothing.
    fn for_every_variant<F: Fn(&Self)>(closure: F)
        requires
            forall|v: &Self| #[trigger] closure.requires((v,)),
    {
        let _ = closure;
    }
}

/// A fresh copy of the `i`-th representative value of `T`.
pub(crate) fn sample_at<T: EveryVariant>(i: usize) -> (r: T)
    requires
        i < T::variants().len(),
    ensures
        r.model() == T::variants()[i as int],
{
    let mut all = T::every_variant();
    assert(all@.map_values(|v: T| v.model())[i as int] == T::variants()[i as int]);
    all.swap_remove(i)
}

} // verus!

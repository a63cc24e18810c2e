use vstd::prelude::*;

use crate::derive::lemma_cross_len;
use crate::sampling::EveryVariant;

verus! {

/// Product law: a product of two fields has as many samples as the product
/// of the fields' sample counts. A product of more fields nests pairs, so its
/// count is the product over all of its fields.
pub proof fn product_law<A: EveryVariant, B: EveryVariant>()
    ensures
        <(A, B) as EveryVariant>::variants().len() == A::variants().len()
            * B::variants().len(),
{
    lemma_cross_len(A::variants(), B::variants());
}

/// Sum law: a choice between two alternatives has as many samples as both
/// alternatives together. An enum nests such choices, one per variant, so
/// its count is the sum over its variants; a fallible result is the choice
/// between its success and its failure type.
pub proof fn sum_law<A: EveryVariant, B: EveryVariant>()
    ensures
        <Result<A, B> as EveryVariant>::variants().len() == A::variants().len()
            + B::variants().len(),
{
}

/// Optional law: an optional value has one sample more than its inner type.
pub proof fn optional_law<T: EveryVariant>()
    ensures
        <Option<T> as EveryVariant>::variants().len() == T::variants().len() + 1,
{
}

/// Sequence law: a growable sequence has four samples where its element type
/// has any, and two (the full and the empty sequence) where it has none.
pub proof fn growable_law<T: EveryVariant>()
    ensures
        <Vec<T> as EveryVariant>::variants().len() == if T::variants().len() > 0 {
            4nat
        } else {
            2nat
        },
{
}

} // verus!

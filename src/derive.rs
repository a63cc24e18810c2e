use vstd::prelude::*;

use crate::sampling::{sample_at, EveryVariant};

verus! {

/// Every pair of one element of `xs` and one of `ys`. The first component
/// varies slowest: all pairs with `xs[0]` come first, in the order of `ys`.
pub open spec fn cross<M, N>(xs: Seq<M>, ys: Seq<N>) -> Seq<(M, N)>
    decreases xs.len(),
{
    if xs.len() == 0 {
        Seq::empty()
    } else {
        cross(xs.drop_last(), ys).add(ys.map_values(|y: N| (xs.last(), y)))
    }
}

/// Taking one more element of `xs` appends its pairs with all of `ys`.
pub proof fn lemma_cross_step<M, N>(xs: Seq<M>, ys: Seq<N>, i: int)
    requires
        0 <= i < xs.len(),
    ensures
        cross(xs.take(i + 1), ys) == cross(xs.take(i), ys).add(
            ys.map_values(|y: N| (xs[i], y)),
        ),
{
    let front = xs.take(i + 1);
    assert(front.drop_last() =~= xs.take(i));
    assert(ys.map_values(|y: N| (front.last(), y)) =~= ys.map_values(|y: N| (xs[i], y)));
}

/// The product has one element per pair.
pub proof fn lemma_cross_len<M, N>(xs: Seq<M>, ys: Seq<N>)
    ensures
        cross(xs, ys).len() == xs.len() * ys.len(),
    decreases xs.len(),
{
    if xs.len() > 0 {
        lemma_cross_len(xs.drop_last(), ys);
        assert((xs.len() - 1) * ys.len() + ys.len() == xs.len() * ys.len()) by (nonlinear_arith);
    }
}

/// A product of two fields: every combination of one sample of each, the
/// first field varying slowest. A product of more fields nests pairs to the
/// right: `(A, (B, C))`.
impl<A: EveryVariant, B: EveryVariant> EveryVariant for (A, B) {
    type Model = (A::Model, B::Model);

    open spec fn model(&self) -> (A::Model, B::Model) {
        (self.0.model(), self.1.model())
    }

    open spec fn variants() -> Seq<(A::Model, B::Model)> {
        cross(A::variants(), B::variants())
    }

    fn every_variant() -> (r: Vec<(A, B)>) {
        let ghost xs = A::variants();
        let ghost ys = B::variants();
        let n = A::every_variant().len();
        let mut r: Vec<(A, B)> = Vec::new();
        let mut i: usize = 0;
        assert(xs.take(0) =~= Seq::<A::Model>::empty());
        assert(r@.map_values(|v: (A, B)| v.model()) =~= cross(xs.take(0), ys));
        while i < n
            invariant
                xs == A::variants(),
                ys == B::variants(),
                n == xs.len(),
                i <= n,
                r@.map_values(|v: (A, B)| v.model()) == cross(xs.take(i as int), ys),
            decreases n - i,
        {
            let mut bs = B::every_variant();
            let m = bs.len();
            assert(forall|k: int| 0 <= k < m ==> #[trigger] bs@[k].model() == ys[k]) by {
                assert(forall|k: int|
                    0 <= k < m ==> bs@.map_values(|v: B| v.model())[k] == ys[k]);
            }
            let ghost done = cross(xs.take(i as int), ys);
            let mut j: usize = 0;
            assert(r@.map_values(|v: (A, B)| v.model()) =~= done.add(
                ys.take(0).map_values(|y: B::Model| (xs[i as int], y)),
            ));
            while j < m
                invariant
                    xs == A::variants(),
                    ys == B::variants(),
                    n == xs.len(),
                    i < n,
                    m == ys.len(),
                    j <= m,
                    bs@.len() == m - j,
                    forall|k: int| 0 <= k < m - j ==> #[trigger] bs@[k].model() == ys[j + k],
                    r@.map_values(|v: (A, B)| v.model()) == done.add(
                        ys.take(j as int).map_values(|y: B::Model| (xs[i as int], y)),
                    ),
                decreases m - j,
            {
                let a = sample_at::<A>(i);
                let b = bs.remove(0);
                let ghost before = r@;
                r.push((a, b));
                proof {
                    assert(r@.map_values(|v: (A, B)| v.model()) =~= before.map_values(
                        |v: (A, B)| v.model(),
                    ).push((xs[i as int], ys[j as int])));
                    assert(ys.take(j + 1).map_values(|y: B::Model| (xs[i as int], y))
                        =~= ys.take(j as int).map_values(|y: B::Model| (xs[i as int], y)).push(
                        (xs[i as int], ys[j as int]),
                    ));
                    assert(r@.map_values(|v: (A, B)| v.model()) =~= done.add(
                        ys.take(j + 1).map_values(|y: B::Model| (xs[i as int], y)),
                    ));
                }
                j = j + 1;
            }
            proof {
                assert(ys.take(m as int) =~= ys);
                lemma_cross_step(xs, ys, i as int);
            }
            i = i + 1;
        }
        assert(xs.take(n as int) =~= xs);
        r
    }
}

/// The structural description of a composite type, from which its samples
/// are derived. A struct's parts are its fields, nested as pairs to the right
/// (`(A, (B, C))`), and `()` for no field. An enum's parts are its variants,
/// each the parts of its fields, nested to the right as sums:
/// `Result<V1, Result<V2, V3>>`, whose samples are those of the first
/// alternative followed by those of the rest.
pub trait Shape: Sized {
    /// The parts that a value is assembled from.
    type Parts: EveryVariant;

    /// The model of the parts that a value holds.
    spec fn shape(&self) -> <Self::Parts as EveryVariant>::Model;

    /// Builds the value that holds these parts.
    fn assemble(parts: Self::Parts) -> (r: Self)
        ensures
            r.shape() == parts.model(),
    ;
}

/// The samples of a composite type: one value assembled from each sample of
/// its parts, in the same order. So a derived type has exactly as many
/// samples as its parts, with no multiplier and no loss.
pub fn derive_variants<S: Shape>() -> (r: Vec<S>)
    ensures
        r@.map_values(|v: S| v.shape()) == S::Parts::variants(),
        r@.len() == S::Parts::variants().len(),
{
    let ghost base = S::Parts::variants();
    let mut parts = S::Parts::every_variant();
    let n = parts.len();
    assert(forall|k: int| 0 <= k < n ==> #[trigger] parts@[k].model() == base[k]) by {
        assert(forall|k: int|
            0 <= k < n ==> parts@.map_values(|v: S::Parts| v.model())[k] == base[k]);
    }
    let mut r: Vec<S> = Vec::new();
    let mut i: usize = 0;
    while i < n
        invariant
            n == base.len(),
            i <= n,
            parts@.len() == n - i,
            forall|k: int| 0 <= k < n - i ==> #[trigger] parts@[k].model() == base[i + k],
            r@.len() == i,
            forall|k: int| 0 <= k < i ==> #[trigger] r@[k].shape() == base[k],
        decreases n - i,
    {
        let p = parts.remove(0);
        r.push(S::assemble(p));
        i = i + 1;
    }
    assert(r@.map_values(|v: S| v.shape()) =~= base);
    r
}

} // verus!

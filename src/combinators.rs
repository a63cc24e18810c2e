use vstd::prelude::*;

use crate::sampling::{sample_at, EveryVariant};

verus! {

/// The samples of an optional value: the absent value first, then each
/// sample of the inner type, present.
pub open spec fn optional_variants<M>(inner: Seq<M>) -> Seq<Option<M>> {
    seq![None].add(inner.map_values(|m: M| Some(m)))
}

/// The samples of a fallible result: each success sample, then each failure
/// sample.
pub open spec fn result_variants<M, N>(oks: Seq<M>, errs: Seq<N>) -> Seq<Result<M, N>> {
    oks.map_values(|m: M| Ok(m)).add(errs.map_values(|n: N| Err(n)))
}

/// The samples of a growable sequence: its shapes, not every content. The
/// full inner sample sequence, the empty sequence, then (only where the inner
/// type has a sample) a single first sample and ten copies of the first
/// sample.
pub open spec fn growable_variants<M>(inner: Seq<M>) -> Seq<Seq<M>> {
    if inner.len() == 0 {
        seq![inner, Seq::empty()]
    } else {
        seq![inner, Seq::empty(), seq![inner[0]], Seq::new(10, |k: int| inner[0])]
    }
}

impl<T: EveryVariant> EveryVariant for Option<T> {
    type Model = Option<T::Model>;

    open spec fn model(&self) -> Option<T::Model> {
        match self {
            None => None,
            Some(t) => Some(t.model()),
        }
    }

    open spec fn variants() -> Seq<Option<T::Model>> {
        optional_variants(T::variants())
    }

    fn every_variant() -> (r: Vec<Option<T>>) {
        let ghost base = T::variants();
        let mut r: Vec<Option<T>> = Vec::new();
        r.push(None);
        let mut inner = T::every_variant();
        let n = inner.len();
        assert(forall|k: int| 0 <= k < n ==> #[trigger] inner@[k].model() == base[k]) by {
            assert(forall|k: int| 0 <= k < n ==> inner@.map_values(|v: T| v.model())[k] == base[k]);
        }
        let mut i: usize = 0;
        while i < n
            invariant
                n == base.len(),
                i <= n,
                inner@.len() == n - i,
                forall|k: int| 0 <= k < n - i ==> #[trigger] inner@[k].model() == base[i + k],
                r@.len() == i + 1,
                r@[0] is None,
                forall|k: int| 0 <= k < i ==> #[trigger] r@[k + 1].model() == Some(base[k]),
            decreases n - i,
        {
            let t = inner.remove(0);
            r.push(Some(t));
            i = i + 1;
        }
        assert(r@.map_values(|v: Option<T>| v.model()) =~= optional_variants(base)) by {
            assert forall|k: int| 1 <= k < r@.len() implies #[trigger] r@[k].model() == Some(
                base[k - 1],
            ) by {
                assert(r@[(k - 1) + 1].model() == Some(base[k - 1]));
            }
        }
        r
    }
}

impl<T: EveryVariant, E: EveryVariant> EveryVariant for Result<T, E> {
    type Model = Result<T::Model, E::Model>;

    open spec fn model(&self) -> Result<T::Model, E::Model> {
        match self {
            Ok(t) => Ok(t.model()),
            Err(e) => Err(e.model()),
        }
    }

    open spec fn variants() -> Seq<Result<T::Model, E::Model>> {
        result_variants(T::variants(), E::variants())
    }

    fn every_variant() -> (r: Vec<Result<T, E>>) {
        let ghost oks = T::variants();
        let ghost errs = E::variants();
        let mut r: Vec<Result<T, E>> = Vec::new();
        let mut tvec = T::every_variant();
        let n = tvec.len();
        assert(forall|k: int| 0 <= k < n ==> #[trigger] tvec@[k].model() == oks[k]) by {
            assert(forall|k: int| 0 <= k < n ==> tvec@.map_values(|v: T| v.model())[k] == oks[k]);
        }
        let mut i: usize = 0;
        while i < n
            invariant
                n == oks.len(),
                i <= n,
                tvec@.len() == n - i,
                forall|k: int| 0 <= k < n - i ==> #[trigger] tvec@[k].model() == oks[i + k],
                r@.len() == i,
                forall|k: int| 0 <= k < i ==> #[trigger] r@[k].model() == Ok::<T::Model, E::Model>(oks[k]),
            decreases n - i,
        {
            let t = tvec.remove(0);
            r.push(Ok(t));
            i = i + 1;
        }
        let mut evec = E::every_variant();
        let m = evec.len();
        assert(forall|k: int| 0 <= k < m ==> #[trigger] evec@[k].model() == errs[k]) by {
            assert(forall|k: int| 0 <= k < m ==> evec@.map_values(|v: E| v.model())[k] == errs[k]);
        }
        let mut j: usize = 0;
        while j < m
            invariant
                n == oks.len(),
                m == errs.len(),
                j <= m,
                evec@.len() == m - j,
                forall|k: int| 0 <= k < m - j ==> #[trigger] evec@[k].model() == errs[j + k],
                r@.len() == n + j,
                forall|k: int| 0 <= k < n ==> #[trigger] r@[k].model() == Ok::<T::Model, E::Model>(oks[k]),
                forall|k: int| 0 <= k < j ==> #[trigger] r@[n + k].model() == Err::<T::Model, E::Model>(errs[k]),
            decreases m - j,
        {
            let e = evec.remove(0);
            r.push(Err(e));
            j = j + 1;
        }
        assert(r@.map_values(|v: Result<T, E>| v.model()) =~= result_variants(oks, errs)) by {
            assert forall|k: int| n <= k < r@.len() implies #[trigger] r@[k].model() == Err::<
                T::Model,
                E::Model,
            >(errs[k - n]) by {
                assert(r@[n + (k - n)].model() == Err::<T::Model, E::Model>(errs[k - n]));
            }
        }
        r
    }
}

impl<T: EveryVariant> EveryVariant for Vec<T> {
    type Model = Seq<T::Model>;

    open spec fn model(&self) -> Seq<T::Model> {
        self@.map_values(|v: T| v.model())
    }

    open spec fn variants() -> Seq<Seq<T::Model>> {
        growable_variants(T::variants())
    }

    fn every_variant() -> (r: Vec<Vec<T>>) {
        let ghost base = T::variants();
        let full = T::every_variant();
        let n = full.len();
        assert(full.model() == base);
        let mut r: Vec<Vec<T>> = Vec::new();
        r.push(full);
        let empty: Vec<T> = Vec::new();
        assert(empty.model() =~= Seq::<T::Model>::empty());
        r.push(empty);
        if n > 0 {
            let single = vec![sample_at::<T>(0)];
            assert(single.model() =~= seq![base[0]]);
            r.push(single);
            let mut repeated: Vec<T> = Vec::new();
            while repeated.len() < 10
                invariant
                    base == T::variants(),
                    0 < base.len(),
                    repeated@.len() <= 10,
                    forall|k: int| 0 <= k < repeated@.len() ==> #[trigger] repeated@[k].model() == base[0],
                decreases 10 - repeated@.len(),
            {
                repeated.push(sample_at::<T>(0));
            }
            assert(repeated.model() =~= Seq::new(10, |k: int| base[0]));
            r.push(repeated);
            assert(r@.map_values(|v: Vec<T>| v.model()) =~= growable_variants(base));
        } else {
            assert(r@.map_values(|v: Vec<T>| v.model()) =~= growable_variants(base));
        }
        r
    }
}

} // verus!

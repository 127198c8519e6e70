//! The transformation trait for builds that do without a janitor: the same
//! contract as `crate::morph::TryMorph`, with a `try_morph` that takes only
//! `self`. The derive implements it in builds without the `janitor` feature.
use vstd::prelude::*;
use crate::error::MorphError;
use crate::morph::vec_result_view;

verus! {

/// Fallible transformation of `self` into `Target`, without a janitor.
///
/// Implementations are usually written by `#[derive(Morph)]`.
pub trait TryMorph<Target>: Sized {
    /// Whether `out` is a possible outcome of transforming `self`. An
    /// implementation that states nothing allows every outcome.
    open spec fn morph_outcome(self, out: Result<Target, MorphError>) -> bool {
        true
    }

    /// Attempts to transform `self` into `Target`.
    fn try_morph(self) -> (out: Result<Target, MorphError>)
        ensures
            self.morph_outcome(out),
    ;
}

/// Whether `out` is an outcome of transforming `items` one by one, in order,
/// stopping at the first error: on success one result per item, each an
/// outcome of its item; on failure, the error of some item `k` while every
/// item before `k` transformed.
pub open spec fn seq_morph_outcome<T: TryMorph<U>, U>(
    items: Seq<T>,
    out: Result<Seq<U>, MorphError>,
) -> bool {
    match out {
        Ok(us) => {
            &&& us.len() == items.len()
            &&& forall|i: int| 0 <= i < items.len() ==> #[trigger] items[i].morph_outcome(Ok(us[i]))
        },
        Err(e) => exists|k: int|
            {
                &&& 0 <= k < items.len()
                &&& #[trigger] items[k].morph_outcome(Err(e))
                &&& forall|i: int| 0 <= i < k ==> #[trigger] morphs_ok::<T, U>(items[i])
            },
    }
}

/// Whether some successful outcome of transforming `x` exists.
pub open spec fn morphs_ok<T: TryMorph<U>, U>(x: T) -> bool {
    exists|u: U| #[trigger] x.morph_outcome(Ok(u))
}

/// A vector transforms element by element, in order, and stops at the first
/// error, which is the vector's error.
impl<T: TryMorph<U>, U> TryMorph<Vec<U>> for Vec<T> {
    open spec fn morph_outcome(self, out: Result<Vec<U>, MorphError>) -> bool {
        seq_morph_outcome(self@, vec_result_view(out))
    }

    fn try_morph(self) -> (out: Result<Vec<U>, MorphError>) {
        let ghost items = self@;
        let mut mapped: Vec<U> = Vec::with_capacity(self.len());
        for item in it: self.into_iter()
            invariant
                it.seq() == items,
                mapped.len() == it.index(),
                forall|i: int| 0 <= i < mapped.len() ==> #[trigger] items[i].morph_outcome(Ok(mapped@[i])),
        {
            let ghost k = it.index();
            match item.try_morph() {
                Ok(u) => {
                    mapped.push(u);
                },
                Err(e) => {
                    assert(items[k].morph_outcome(Err(e)));
                    assert forall|i: int| 0 <= i < k implies #[trigger] morphs_ok::<T, U>(items[i]) by {
                        assert(items[i].morph_outcome(Ok(mapped@[i])));
                    }
                    return Err(e);
                },
            }
        }
        Ok(mapped)
    }
}

} // verus!

//! Mappers for sequences.
use vstd::prelude::*;
use vstd::std_specs::convert::{IntoSpec, TryIntoSpec};

use crate::with::{ExtraInto, TryExtraInto};

verus! {

/// Maps every element with `Into`, keeping the order.
pub fn vec<F, I>(from: Vec<F>) -> (r: Vec<I>)
    where
        F: Into<I>,
    ensures
        r.len() == from.len(),
        F::obeys_into_spec() ==> forall|i: int| 0 <= i < from.len() ==> r@[i] == from@[i].into_spec(),
{
    let ghost src = from@;
    let mut r: Vec<I> = Vec::with_capacity(from.len());
    for x in it: from.into_iter()
        invariant
            it.seq() == src,
            r.len() == it.index(),
            F::obeys_into_spec() ==> forall|j: int| 0 <= j < r.len() ==> r@[j] == src[j].into_spec(),
    {
        r.push(x.into());
    }
    r
}

/// Maps every element with `ExtraInto`, keeping the order.
pub fn vec_extra<F, I>(from: Vec<F>) -> (r: Vec<I>)
    where
        F: ExtraInto<I>,
    ensures
        r.len() == from.len(),
        F::obeys_extra_into() ==> forall|i: int|
            0 <= i < from.len() ==> from@[i].extra_into_ensures(#[trigger] r@[i]),
{
    let ghost src = from@;
    let mut r: Vec<I> = Vec::with_capacity(from.len());
    for x in it: from.into_iter()
        invariant
            it.seq() == src,
            r.len() == it.index(),
            F::obeys_extra_into() ==> forall|j: int|
                0 <= j < r.len() ==> src[j].extra_into_ensures(#[trigger] r@[j]),
    {
        r.push(x.into_extra());
    }
    r
}

/// All the first `n` elements convert.
pub open spec fn all_ok<F, I>(s: Seq<F>, n: int) -> bool
    where
        F: TryInto<I>,
{
    forall|j: int| 0 <= j < n ==> (#[trigger] s[j].try_into_spec()) is Ok
}

/// Every element converted, in order; or the error of the first element that
/// does not convert.
pub open spec fn try_vec_outcome<F, I>(from: Seq<F>, r: Result<Vec<I>, <F as TryInto<I>>::Error>) -> bool
    where
        F: TryInto<I>,
{
    match r {
        Ok(v) => v.len() == from.len() && forall|i: int|
            0 <= i < from.len() ==> from[i].try_into_spec() == Ok::<I, <F as TryInto<I>>::Error>(
                #[trigger] v@[i],
            ),
        Err(e) => exists|k: int|
            0 <= k < from.len() && all_ok::<F, I>(from, k) && from[k].try_into_spec() == Err::<
                I,
                <F as TryInto<I>>::Error,
            >(e),
    }
}

/// Maps every element with `TryInto`, keeping the order, and stops at the
/// first element that fails, with its error.
pub fn try_vec<F, I>(from: Vec<F>) -> (r: Result<Vec<I>, <F as TryInto<I>>::Error>)
    where
        F: TryInto<I>,
    ensures
        F::obeys_try_into_spec() ==> try_vec_outcome(from@, r),
{
    let ghost src = from@;
    let mut r: Vec<I> = Vec::with_capacity(from.len());
    for x in it: from.into_iter()
        invariant
            it.seq() == src,
            r.len() == it.index(),
            F::obeys_try_into_spec() ==> forall|j: int|
                0 <= j < r.len() ==> src[j].try_into_spec() == Ok::<I, <F as TryInto<I>>::Error>(
                    #[trigger] r@[j],
                ),
    {
        match x.try_into() {
            Ok(v) => r.push(v),
            Err(e) => {
                proof {
                    if F::obeys_try_into_spec() {
                        assert(all_ok::<F, I>(src, r.len() as int)) by {
                            assert forall|j: int| 0 <= j < r.len() implies (#[trigger] src[j].try_into_spec()) is Ok by {
                                assert(src[j].try_into_spec() == Ok::<I, <F as TryInto<I>>::Error>(r@[j]));
                            }
                        }
                    }
                }
                return Err(e);
            },
        }
    }
    Ok(r)
}

/// Every element's outcome is described by its conversion's contract; on
/// failure, the error is that of one element.
pub open spec fn try_extra_outcome<F, I>(from: Seq<F>, r: Result<Vec<I>, <F as TryExtraInto<I>>::Error>) -> bool
    where
        F: TryExtraInto<I>,
{
    match r {
        Ok(v) => forall|i: int|
            0 <= i < from.len() ==> from[i].try_extra_into_ensures(
                Ok::<I, <F as TryExtraInto<I>>::Error>(#[trigger] v@[i]),
            ),
        Err(e) => exists|k: int|
            0 <= k < from.len() && #[trigger] from[k].try_extra_into_ensures(
                Err::<I, <F as TryExtraInto<I>>::Error>(e),
            ),
    }
}

/// Maps every element with `TryExtraInto`, keeping the order, and stops at
/// the first element that fails.
pub fn try_vec_extra<F, I>(from: Vec<F>) -> (r: Result<Vec<I>, <F as TryExtraInto<I>>::Error>)
    where
        F: TryExtraInto<I>,
    ensures
        r matches Ok(v) ==> v.len() == from.len(),
        F::obeys_try_extra_into() ==> try_extra_outcome(from@, r),
{
    let ghost src = from@;
    let mut r: Vec<I> = Vec::with_capacity(from.len());
    for x in it: from.into_iter()
        invariant
            it.seq() == src,
            src == from@,
            r.len() == it.index(),
            F::obeys_try_extra_into() ==> forall|j: int|
                0 <= j < r.len() ==> src[j].try_extra_into_ensures(
                    Ok::<I, <F as TryExtraInto<I>>::Error>(#[trigger] r@[j]),
                ),
    {
        let ghost idx = it.index();
        let ghost gx = x;
        match x.try_into_extra() {
            Ok(v) => r.push(v),
            Err(e) => {
                proof {
                    assert(gx == src[idx as int]);
                    if F::obeys_try_extra_into() {
                        let ghost r0 = Err::<Vec<I>, <F as TryExtraInto<I>>::Error>(e);
                        assert(try_extra_outcome(src, r0)) by {
                            let k = idx as int;
                            assert(0 <= k < src.len() && src[k].try_extra_into_ensures(
                                Err::<I, <F as TryExtraInto<I>>::Error>(r0->Err_0),
                            ));
                        }
                    }
                }
                return Err(e);
            },
        }
    }
    Ok(r)
}

} // verus!

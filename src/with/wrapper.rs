//! Applying a mapping function to the contents of a container, keeping its
//! shape: an optional value keeps its absence, a sequence its order.
use vstd::prelude::*;

verus! {

/// Maps the contained value, keeping absence.
pub fn option_map_inner<T, U, Z: Fn(T) -> U>(from: Option<T>, f: Z) -> (r: Option<U>)
    requires
        from matches Some(t) ==> f.requires((t,)),
    ensures
        r is Some == from is Some,
        from matches Some(t) ==> f.ensures((t,), r->Some_0),
{
    match from {
        Some(t) => Some(f(t)),
        None => None,
    }
}

/// Maps the contained value with a fallible function, keeping absence and
/// passing the function's error on.
pub fn option_try_map_inner<T, U, E, Z: Fn(T) -> Result<U, E>>(from: Option<T>, f: Z) -> (r: Result<
    Option<U>,
    E,
>)
    requires
        from matches Some(t) ==> f.requires((t,)),
    ensures
        from is None ==> r matches Ok(None),
        from is Some ==> (r matches Ok(v) ==> v is Some),
        from matches Some(t) ==> f.ensures(
            (t,),
            match r {
                Ok(v) => Ok(v->Some_0),
                Err(e) => Err(e),
            },
        ),
{
    match from {
        Some(t) => match f(t) {
            Ok(u) => Ok(Some(u)),
            Err(e) => Err(e),
        },
        None => Ok(None),
    }
}

/// Maps every element, keeping the order.
pub fn vec_map_inner<T, U, Z: Fn(T) -> U>(from: Vec<T>, f: Z) -> (r: Vec<U>)
    requires
        forall|i: int| 0 <= i < from.len() ==> f.requires((#[trigger] from@[i],)),
    ensures
        r.len() == from.len(),
        forall|i: int| 0 <= i < from.len() ==> f.ensures((from@[i],), #[trigger] r@[i]),
{
    let ghost src = from@;
    let mut r: Vec<U> = Vec::with_capacity(from.len());
    for x in it: from.into_iter()
        invariant
            it.seq() == src,
            r.len() == it.index(),
            forall|i: int| 0 <= i < src.len() ==> f.requires((#[trigger] src[i],)),
            forall|j: int| 0 <= j < r.len() ==> f.ensures((src[j],), #[trigger] r@[j]),
    {
        proof {
            assert(x == src[it.index() as int]);
        }
        r.push(f(x));
    }
    r
}

/// Maps every element with a fallible function, keeping the order, and stops
/// at the first element whose mapping fails, with its error.
pub fn vec_try_map_inner<T, U, E, Z: Fn(T) -> Result<U, E>>(from: Vec<T>, f: Z) -> (r: Result<
    Vec<U>,
    E,
>)
    requires
        forall|i: int| 0 <= i < from.len() ==> f.requires((#[trigger] from@[i],)),
    ensures
        match r {
            Ok(v) => v.len() == from.len() && forall|i: int|
                0 <= i < from.len() ==> f.ensures((from@[i],), Ok::<U, E>(#[trigger] v@[i])),
            Err(e) => exists|k: int| 0 <= k < from.len() && f.ensures((#[trigger] from@[k],), Err::<U, E>(e)),
        },
{
    let ghost src = from@;
    let mut r: Vec<U> = Vec::with_capacity(from.len());
    for x in it: from.into_iter()
        invariant
            it.seq() == src,
            src == from@,
            r.len() == it.index(),
            forall|i: int| 0 <= i < src.len() ==> f.requires((#[trigger] src[i],)),
            forall|j: int| 0 <= j < r.len() ==> f.ensures((src[j],), Ok::<U, E>(#[trigger] r@[j])),
    {
        let ghost idx = it.index();
        proof {
            assert(x == src[idx as int]);
        }
        match f(x) {
            Ok(u) => r.push(u),
            Err(e) => {
                proof {
                    assert(f.ensures((src[idx as int],), Err::<U, E>(e)));
                }
                return Err(e);
            },
        }
    }
    Ok(r)
}

} // verus!

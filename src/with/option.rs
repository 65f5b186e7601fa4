//! Mappers for optional values.
use vstd::prelude::*;
use vstd::std_specs::convert::{IntoSpec, TryIntoSpec};

use crate::with::error::{anyhow_message, anyhow_wrap};
use crate::with::{ExtraInto, TryExtraInto};

verus! {

/// The outcome of a fallible conversion, wrapped into `Some` on success.
pub open spec fn some_ok<T, E>(r: Result<T, E>) -> Result<Option<T>, E> {
    match r {
        Ok(v) => Ok(Some(v)),
        Err(e) => Err(e),
    }
}

/// Maps the contained value with `Into`, keeping absence.
pub fn option<F, I>(from: Option<F>) -> (r: Option<I>)
    where
        F: Into<I>,
    ensures
        r is Some == from is Some,
        from matches Some(f) ==> (F::obeys_into_spec() ==> r == Some(f.into_spec())),
{
    match from {
        Some(f) => Some(f.into()),
        None => None,
    }
}

/// Maps the contained value with `ExtraInto`, keeping absence.
pub fn option_extra<F, I>(from: Option<F>) -> (r: Option<I>)
    where
        F: ExtraInto<I>,
    ensures
        r is Some == from is Some,
        from matches Some(f) ==> (F::obeys_extra_into() ==> f.extra_into_ensures(r->Some_0)),
{
    match from {
        Some(f) => Some(f.into_extra()),
        None => None,
    }
}

/// Converts a value with `Into` and wraps it into `Some`.
pub fn add_option<F, I>(from: F) -> (r: Option<I>)
    where
        F: Into<I>,
    ensures
        r is Some,
        F::obeys_into_spec() ==> r == Some(from.into_spec()),
{
    Some(from.into())
}

/// Converts a value with `ExtraInto` and wraps it into `Some`.
pub fn add_option_extra<F, I>(from: F) -> (r: Option<I>)
    where
        F: ExtraInto<I>,
    ensures
        r is Some,
        F::obeys_extra_into() ==> from.extra_into_ensures(r->Some_0),
{
    Some(from.into_extra())
}

/// Maps the contained value with `TryInto`, keeping absence and passing the
/// conversion's error on.
pub fn try_option<F, I>(from: Option<F>) -> (r: Result<Option<I>, <F as TryInto<I>>::Error>)
    where
        F: TryInto<I>,
    ensures
        from is None ==> r matches Ok(None),
        from matches Some(f) ==> (F::obeys_try_into_spec() ==> r == some_ok(f.try_into_spec())),
        from is Some ==> (r matches Ok(v) ==> v is Some),
{
    match from {
        Some(f) => match f.try_into() {
            Ok(v) => Ok(Some(v)),
            Err(e) => Err(e),
        },
        None => Ok(None),
    }
}

/// Maps the contained value with `TryExtraInto`, keeping absence.
pub fn try_option_extra<F, I>(from: Option<F>) -> (r: Result<Option<I>, <F as TryExtraInto<I>>::Error>)
    where
        F: TryExtraInto<I>,
    ensures
        from is None ==> r matches Ok(None),
        from is Some ==> (r matches Ok(v) ==> v is Some),
        from matches Some(f) ==> (F::obeys_try_extra_into() ==> f.try_extra_into_ensures(
            match r {
                Ok(v) => Ok(v->Some_0),
                Err(e) => Err(e),
            },
        )),
{
    match from {
        Some(f) => match f.try_into_extra() {
            Ok(v) => Ok(Some(v)),
            Err(e) => Err(e),
        },
        None => Ok(None),
    }
}

/// Converts a value with `TryInto` and wraps it into `Some`.
pub fn try_add_option<F, I>(from: F) -> (r: Result<Option<I>, <F as TryInto<I>>::Error>)
    where
        F: TryInto<I>,
    ensures
        F::obeys_try_into_spec() ==> r == some_ok(from.try_into_spec()),
        r matches Ok(v) ==> v is Some,
{
    match from.try_into() {
        Ok(v) => Ok(Some(v)),
        Err(e) => Err(e),
    }
}

/// Converts a value with `TryExtraInto` and wraps it into `Some`.
pub fn try_add_option_extra<F, I>(from: F) -> (r: Result<Option<I>, <F as TryExtraInto<I>>::Error>)
    where
        F: TryExtraInto<I>,
    ensures
        r matches Ok(v) ==> v is Some,
        F::obeys_try_extra_into() ==> from.try_extra_into_ensures(
            match r {
                Ok(v) => Ok(v->Some_0),
                Err(e) => Err(e),
            },
        ),
{
    match from.try_into_extra() {
        Ok(v) => Ok(Some(v)),
        Err(e) => Err(e),
    }
}

/// Unwraps a required value and converts it with `TryInto`; absence is an error.
pub fn try_remove_option<F, I>(from: Option<F>) -> (r: Result<I, anyhow::Error>)
    where
        F: TryInto<I>,
        <F as TryInto<I>>::Error: std::error::Error + Send + Sync + 'static,
    ensures
        from is None ==> r is Err,
        from matches Some(f) ==> (F::obeys_try_into_spec() ==> (r is Ok
            <==> f.try_into_spec() is Ok)),
        from matches Some(f) ==> (F::obeys_try_into_spec() ==> (r matches Ok(v)
            ==> f.try_into_spec() == Ok::<I, <F as TryInto<I>>::Error>(v))),
{
    match from {
        Some(f) => match f.try_into() {
            Ok(v) => Ok(v),
            Err(e) => Err(anyhow_wrap(e)),
        },
        None => Err(anyhow_message("The value was required but not present")),
    }
}

/// Unwraps a required value and converts it with `TryExtraInto`; absence is an error.
pub fn try_remove_option_extra<F, I>(from: Option<F>) -> (r: Result<I, anyhow::Error>)
    where
        F: TryExtraInto<I>,
        <F as TryExtraInto<I>>::Error: std::error::Error + Send + Sync + 'static,
    ensures
        from is None ==> r is Err,
        from matches Some(f) ==> (F::obeys_try_extra_into() ==> (r matches Ok(v)
            ==> f.try_extra_into_ensures(Ok::<I, <F as TryExtraInto<I>>::Error>(v)))),
{
    match from {
        Some(f) => match f.try_into_extra() {
            Ok(v) => Ok(v),
            Err(e) => Err(anyhow_wrap(e)),
        },
        None => Err(anyhow_message("The value was required but not present")),
    }
}

} // verus!

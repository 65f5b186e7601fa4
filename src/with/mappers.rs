//! Mappers named in `with` options: a type that maps values of one type to
//! another, and the forms derived from that mapping.
use vstd::prelude::*;
use vstd::std_specs::convert::{IntoSpec, TryIntoSpec};

use crate::with::error::MapperError;

verus! {

/// Maps values of type `F` to values of type `I`.
pub trait TypeMapper<F, I> {
    /// The values that `map` accepts.
    spec fn map_requires(from: F) -> bool;

    /// Whether `map` is described by `map_spec`.
    spec fn obeys_map_spec() -> bool;

    spec fn map_spec(from: F) -> I;

    /// Maps between types.
    fn map(from: F) -> (r: I)
        requires
            Self::map_requires(from),
        ensures
            Self::obeys_map_spec() ==> r == Self::map_spec(from),
    ;

    /// Maps between types, as a conversion that cannot fail.
    fn try_map(from: F) -> (r: Result<I, std::convert::Infallible>)
        requires
            Self::map_requires(from),
        ensures
            r is Ok,
            Self::obeys_map_spec() ==> r == Ok::<I, std::convert::Infallible>(Self::map_spec(from)),
    {
        Ok(Self::map(from))
    }

    /// Maps encapsulating into an `Option`.
    fn map_into_option(from: F) -> (r: Option<I>)
        requires
            Self::map_requires(from),
        ensures
            r is Some,
            Self::obeys_map_spec() ==> r == Some(Self::map_spec(from)),
    {
        Some(Self::map(from))
    }

    /// Maps removing an `Option`; absence is an error.
    fn try_map_removing_option(from: Option<F>) -> (r: Result<I, MapperError>)
        requires
            from matches Some(f) ==> Self::map_requires(f),
        ensures
            from is None ==> r is Err,
            from is Some ==> r is Ok,
            from matches Some(f) ==> (Self::obeys_map_spec() ==> r == Ok::<I, MapperError>(
                Self::map_spec(f),
            )),
    {
        match from {
            Some(f) => Ok(Self::map(f)),
            None => Err(MapperError::new("The value was required but not present")),
        }
    }

    /// Maps removing an `Option`, giving the default value when absent.
    fn map_removing_option_default(from: Option<F>) -> (r: I)
        where
            I: Default,
        requires
            from matches Some(f) ==> Self::map_requires(f),
        ensures
            from matches Some(f) ==> (Self::obeys_map_spec() ==> r == Self::map_spec(f)),
            from is None ==> call_ensures(I::default, (), r),
    {
        match from {
            Some(f) => Self::map(f),
            None => I::default(),
        }
    }
}

/// Maps values of type `F` to values of type `I`, or fails.
pub trait TypeFallibleMapper<F, I> {
    type Error;

    /// Whether `try_map` is described by `try_map_ensures`.
    spec fn obeys_try_map_spec() -> bool;

    /// What holds of a value and the outcome of its mapping.
    spec fn try_map_ensures(from: F, r: Result<I, Self::Error>) -> bool;

    /// Maps between types.
    fn try_map(from: F) -> (r: Result<I, Self::Error>)
        ensures
            Self::obeys_try_map_spec() ==> Self::try_map_ensures(from, r),
    ;

    /// Maps encapsulating into an `Option`.
    fn try_map_into_option(from: F) -> (r: Result<Option<I>, Self::Error>)
        ensures
            r matches Ok(v) ==> v is Some,
            Self::obeys_try_map_spec() ==> Self::try_map_ensures(
                from,
                match r {
                    Ok(v) => Ok(v->Some_0),
                    Err(e) => Err(e),
                },
            ),
    {
        match Self::try_map(from) {
            Ok(v) => Ok(Some(v)),
            Err(e) => Err(e),
        }
    }

    /// Maps removing an `Option`, giving the default value when absent.
    fn try_map_removing_option_default(from: Option<F>) -> (r: Result<I, Self::Error>)
        where
            I: Default,
        ensures
            from matches Some(f) ==> (Self::obeys_try_map_spec() ==> Self::try_map_ensures(f, r)),
            from is None ==> (r matches Ok(v) && call_ensures(I::default, (), v)),
    {
        match from {
            Some(f) => Self::try_map(f),
            None => Ok(I::default()),
        }
    }
}

/// Mapper that uses the `Into` trait.
pub struct IntoMapper;

impl<F, I> TypeMapper<F, I> for IntoMapper where F: Into<I> {
    open spec fn map_requires(from: F) -> bool {
        true
    }

    open spec fn obeys_map_spec() -> bool {
        F::obeys_into_spec()
    }

    open spec fn map_spec(from: F) -> I {
        from.into_spec()
    }

    fn map(from: F) -> (r: I) {
        from.into()
    }
}

/// Mapper that uses the `TryInto` trait.
pub struct TryIntoMapper;

impl<F, I> TypeFallibleMapper<F, I> for TryIntoMapper where F: TryInto<I> {
    type Error = <F as TryInto<I>>::Error;

    open spec fn obeys_try_map_spec() -> bool {
        F::obeys_try_into_spec()
    }

    open spec fn try_map_ensures(from: F, r: Result<I, Self::Error>) -> bool {
        r == from.try_into_spec()
    }

    fn try_map(from: F) -> (r: Result<I, Self::Error>) {
        from.try_into()
    }
}

} // verus!

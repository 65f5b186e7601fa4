//! Helpers that generated conversions call for wrapped member values.
pub mod chrono;
pub mod closure;
pub mod error;
pub mod hashmap;
pub mod option;
pub mod mappers;
pub mod vec;
pub mod wrapper;

use vstd::prelude::*;
use vstd::std_specs::convert::{IntoSpec, TryIntoSpec};

verus! {

/// A conversion that std's `Into` cannot provide, for types of other crates
/// and their wrappers.
pub trait ExtraInto<T>: Sized {
    /// Whether `into_extra` is described by `extra_into_ensures`.
    spec fn obeys_extra_into() -> bool;

    /// What holds of `self` and the value it converts to.
    spec fn extra_into_ensures(self, r: T) -> bool;

    fn into_extra(self) -> (r: T)
        ensures
            Self::obeys_extra_into() ==> self.extra_into_ensures(r),
    ;
}

/// A fallible conversion that std's `TryInto` cannot provide.
pub trait TryExtraInto<T>: Sized {
    type Error;

    /// Whether `try_into_extra` is described by `try_extra_into_ensures`.
    spec fn obeys_try_extra_into() -> bool;

    /// What holds of `self` and the outcome of its conversion.
    spec fn try_extra_into_ensures(self, r: Result<T, Self::Error>) -> bool;

    fn try_into_extra(self) -> (r: Result<T, Self::Error>)
        ensures
            Self::obeys_try_extra_into() ==> self.try_extra_into_ensures(r),
    ;
}

impl<F, I> ExtraInto<Option<I>> for Option<F> where F: Into<I> {
    open spec fn obeys_extra_into() -> bool {
        F::obeys_into_spec()
    }

    open spec fn extra_into_ensures(self, r: Option<I>) -> bool {
        r == match self {
            Some(f) => Some(f.into_spec()),
            None => None,
        }
    }

    fn into_extra(self) -> (r: Option<I>) {
        option::option(self)
    }
}

impl<F, I> TryExtraInto<Option<I>> for Option<F> where F: TryInto<I> {
    type Error = <F as TryInto<I>>::Error;

    open spec fn obeys_try_extra_into() -> bool {
        F::obeys_try_into_spec()
    }

    open spec fn try_extra_into_ensures(self, r: Result<Option<I>, Self::Error>) -> bool {
        r == match self {
            Some(f) => option::some_ok(f.try_into_spec()),
            None => Ok(None),
        }
    }

    fn try_into_extra(self) -> (r: Result<Option<I>, Self::Error>) {
        option::try_option(self)
    }
}

impl<F, I> ExtraInto<Vec<I>> for Vec<F> where F: Into<I> {
    open spec fn obeys_extra_into() -> bool {
        F::obeys_into_spec()
    }

    open spec fn extra_into_ensures(self, r: Vec<I>) -> bool {
        &&& r.len() == self.len()
        &&& forall|i: int| 0 <= i < self.len() ==> r@[i] == self@[i].into_spec()
    }

    fn into_extra(self) -> (r: Vec<I>) {
        vec::vec(self)
    }
}

impl<F, I> TryExtraInto<Vec<I>> for Vec<F> where F: TryInto<I> {
    type Error = <F as TryInto<I>>::Error;

    open spec fn obeys_try_extra_into() -> bool {
        F::obeys_try_into_spec()
    }

    open spec fn try_extra_into_ensures(self, r: Result<Vec<I>, Self::Error>) -> bool {
        vec::try_vec_outcome(self@, r)
    }

    fn try_into_extra(self) -> (r: Result<Vec<I>, Self::Error>) {
        vec::try_vec(self)
    }
}

impl<KI, VI, KF, VF> ExtraInto<std::collections::HashMap<KI, VI>> for std::collections::HashMap<
    KF,
    VF,
> where KI: Eq + std::hash::Hash, KF: Eq + std::hash::Hash + Into<KI>, VF: Into<VI> {
    open spec fn obeys_extra_into() -> bool {
        vstd::std_specs::hash::obeys_key_model::<KF>() && vstd::std_specs::hash::obeys_key_model::<
            KI,
        >() && KF::obeys_into_spec() && VF::obeys_into_spec()
    }

    open spec fn extra_into_ensures(self, r: std::collections::HashMap<KI, VI>) -> bool {
        hashmap::converted(self@, r@)
    }

    fn into_extra(self) -> (r: std::collections::HashMap<KI, VI>) {
        hashmap::hashmap(self)
    }
}

} // verus!

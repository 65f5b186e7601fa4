//! Function values called through a method, by value or by reference.
use vstd::prelude::*;

verus! {

/// Maps a value with a function that borrows it.
pub trait RefMapper<T, R> {
    /// The values the function accepts.
    spec fn map_value_requires(&self, arg: T) -> bool;

    /// What holds of a value and its result.
    spec fn map_value_ensures(&self, arg: T, r: R) -> bool;

    fn map_value(&self, arg: T) -> (r: R)
        requires
            self.map_value_requires(arg),
        ensures
            self.map_value_ensures(arg, r),
    ;
}

impl<F, T, R> RefMapper<T, R> for F where F: Fn(&T) -> R {
    open spec fn map_value_requires(&self, arg: T) -> bool {
        self.requires((&arg,))
    }

    open spec fn map_value_ensures(&self, arg: T, r: R) -> bool {
        self.ensures((&arg,), r)
    }

    fn map_value(&self, arg: T) -> (r: R) {
        (self)(&arg)
    }
}

/// Maps a value with a function that takes it.
pub trait ValueMapper<T, R> {
    /// The values the function accepts.
    spec fn map_value_requires(&self, arg: T) -> bool;

    /// What holds of a value and its result.
    spec fn map_value_ensures(&self, arg: T, r: R) -> bool;

    fn map_value(&self, arg: T) -> (r: R)
        requires
            self.map_value_requires(arg),
        ensures
            self.map_value_ensures(arg, r),
    ;
}

impl<'a, F, T, R> ValueMapper<T, R> for &'a F where F: Fn(T) -> R {
    open spec fn map_value_requires(&self, arg: T) -> bool {
        (**self).requires((arg,))
    }

    open spec fn map_value_ensures(&self, arg: T, r: R) -> bool {
        (**self).ensures((arg,), r)
    }

    fn map_value(&self, arg: T) -> (r: R) {
        (*self)(arg)
    }
}

} // verus!

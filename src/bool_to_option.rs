//! Turning a `bool` into an `Option`.
use vstd::prelude::*;

verus! {

/// Conversions from a truth value to an optional value.
pub trait BoolToOption: Sized {
    /// The truth value that `self` stands for.
    spec fn holds(&self) -> bool;

    /// `Some(t)` when `self` holds, else `None`.
    fn and<T>(self, t: T) -> (r: Option<T>)
        ensures
            r == (if self.holds() { Some(t) } else { None::<T> }),
    ;

    /// `Some(f())` when `self` holds, else `None` (and `f` is not called).
    fn and_then<T, F: FnOnce() -> T>(self, f: F) -> (r: Option<T>)
        requires
            self.holds() ==> f.requires(()),
        ensures
            self.holds() ==> r is Some && f.ensures((), r->0),
            !self.holds() ==> r is None,
    ;

    /// `Some(t)` when `self` does not hold, else `None`.
    fn or<T>(self, t: T) -> (r: Option<T>)
        ensures
            r == (if self.holds() { None::<T> } else { Some(t) }),
    ;

    /// `Some(f())` when `self` does not hold, else `None` (and `f` is not called).
    fn or_then<T, F: FnOnce() -> T>(self, f: F) -> (r: Option<T>)
        requires
            !self.holds() ==> f.requires(()),
        ensures
            !self.holds() ==> r is Some && f.ensures((), r->0),
            self.holds() ==> r is None,
    ;
}

impl BoolToOption for bool {
    open spec fn holds(&self) -> bool {
        *self
    }

    fn and<T>(self, t: T) -> (r: Option<T>) {
        if self {
            Some(t)
        } else {
            None
        }
    }

    fn and_then<T, F: FnOnce() -> T>(self, f: F) -> (r: Option<T>) {
        if self {
            Some(f())
        } else {
            None
        }
    }

    fn or<T>(self, t: T) -> (r: Option<T>) {
        (!self).and(t)
    }

    fn or_then<T, F: FnOnce() -> T>(self, f: F) -> (r: Option<T>) {
        (!self).and_then(f)
    }
}

} // verus!

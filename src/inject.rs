//! Type identity.
use std::any::TypeId;
use vstd::prelude::*;

use crate::container::Container;
use crate::error::InjectError;

verus! {

#[verifier::external_type_specification]
#[verifier::external_body]
pub struct ExTypeId(std::any::TypeId);

/// Relies on `TypeId::of`: the identity of a `'static` type.
pub assume_specification<T: ?Sized + 'static>[ std::any::TypeId::of::<T> ]() -> TypeId;

/// Relies on `TypeId`'s `PartialEq`: two identities compare equal exactly when they are the
/// same value.
pub assume_specification[ <std::any::TypeId as core::cmp::PartialEq>::eq ](
    a: &TypeId,
    b: &TypeId,
) -> (r: bool)
    ensures
        r == (*a == *b),
;

/// The identity of `T`, under which a container keys its providers.
pub fn id<T: 'static>() -> TypeId {
    TypeId::of::<T>()
}

/// Whether two identities are the same.
pub fn same_id(a: &TypeId, b: &TypeId) -> (r: bool)
    ensures
        r == (*a == *b),
{
    *a == *b
}

/// Marker of an injectable type: any `'static` type.
pub trait Inject: 'static {

}

impl<T: 'static> Inject for T {

}

/// Self-construction of a default-constructible type: when no provider is installed, such a
/// type is resolved as its default value.
pub trait InjectExt: Sized + Default {
    /// Builds the default value; nothing is resolved from `container`.
    fn inject(container: &Container) -> (r: Result<Self, InjectError>)
        ensures
            r matches Ok(v) && call_ensures(Self::default, (), v),
    ;
}

impl<T: Default> InjectExt for T {
    fn inject(container: &Container) -> (r: Result<T, InjectError>) {
        Ok(T::default())
    }
}

} // verus!

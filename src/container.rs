//! The runtime container: providers of values of any type, keyed by type identity.
//!
//! A value provider is stored under the identity of the type it produces, a reference
//! provider under the identity of the type it lends; the two paths are independent key
//! spaces. The key and the stored provider are fixed together when a provider is installed,
//! so a lookup finds a provider of the requested type. Resolving a value invokes its provider
//! with the container, so a provider may resolve its own dependencies from it.
//!
//! The contracts here speak only of the set of installed keys: no specification can tie a
//! type parameter to its identity, so which install a lookup reflects cannot be stated of
//! this container. The laws of installing, resolving and duplicating (the last install
//! wins, the two paths are independent, a child is an independent copy) are stated and
//! proved on `registry::Registry`, which holds providers of one value type under explicit
//! identities.
use std::any::{Any, TypeId};
use std::collections::HashMap;
use std::rc::Rc;
use std::sync::Arc;
use vstd::prelude::*;

use crate::error::InjectError;
use crate::registry::{reference_key, value_key, TypeKey};

verus! {

/// A value provider: given a container, it produces a value of its provided type or fails.
pub trait Provider {
    type ProvidedType: 'static;

    /// Provides the value, possibly resolving what it needs from `container`.
    fn provide(&self, container: &Container) -> Result<Self::ProvidedType, InjectError>;

    /// The identity of the provided type, under which the provider is installed.
    fn id(&self) -> TypeId {
        TypeId::of::<Self::ProvidedType>()
    }
}

/// A reference provider: given a container, it lends a value that it owns, or fails.
pub trait RefProvider {
    type ProvidedRef: 'static;

    /// Lends the provided value for as long as the provider and the container are borrowed.
    fn provide<'a>(&'a self, container: &'a Container) -> Result<&'a Self::ProvidedRef, InjectError>;

    /// The identity of the lent type, under which the provider is installed.
    fn id(&self) -> TypeId {
        TypeId::of::<Self::ProvidedRef>()
    }
}

/// Relies on the closure `f` itself: it is called with `container`, and what it returns is
/// handed back.
#[verifier::external_body]
fn call_factory<T, F: Fn(&Container) -> Result<T, InjectError>>(f: &F, container: &Container) -> Result<
    T,
    InjectError,
> {
    f(container)
}

impl<F, T: 'static> Provider for F where F: Fn(&Container) -> Result<T, InjectError> {
    type ProvidedType = T;

    fn provide(&self, container: &Container) -> Result<T, InjectError> {
        call_factory(self, container)
    }
}

impl<T: 'static> Provider for Arc<T> {
    type ProvidedType = Arc<T>;

    fn provide(&self, container: &Container) -> Result<Arc<T>, InjectError> {
        Ok(Arc::clone(self))
    }
}

impl<T: 'static> Provider for Rc<T> {
    type ProvidedType = Rc<T>;

    fn provide(&self, container: &Container) -> Result<Rc<T>, InjectError> {
        Ok(Rc::clone(self))
    }
}

impl<T: 'static> RefProvider for Arc<T> {
    type ProvidedRef = T;

    fn provide<'a>(&'a self, container: &'a Container) -> Result<&'a T, InjectError> {
        Ok(&**self)
    }
}

impl<T: 'static> RefProvider for Rc<T> {
    type ProvidedRef = T;

    fn provide<'a>(&'a self, container: &'a Container) -> Result<&'a T, InjectError> {
        Ok(&**self)
    }
}

impl<T: 'static> RefProvider for Box<T> {
    type ProvidedRef = T;

    fn provide<'a>(&'a self, container: &'a Container) -> (r: Result<&'a T, InjectError>)
        ensures
            r matches Ok(v) && *v == **self,
    {
        Ok(&**self)
    }
}

/// A container of value and reference providers, keyed by the identity of the type each
/// provides.
#[verifier::external_body]
pub struct Container {
    values: HashMap<TypeId, Rc<dyn Any>>,
    references: HashMap<TypeId, Rc<dyn Any>>,
}

/// The keys under which providers are installed in a container.
pub uninterp spec fn provided_keys(c: Container) -> Set<TypeKey>;

/// Whether no value provider is installed.
pub open spec fn no_value_providers(keys: Set<TypeKey>) -> bool {
    forall|k: TypeId| !keys.contains(#[trigger] value_key(k))
}

/// Whether no reference provider is installed.
pub open spec fn no_reference_providers(keys: Set<TypeKey>) -> bool {
    forall|k: TypeId| !keys.contains(#[trigger] reference_key(k))
}

impl Container {
    /// An empty container.
    ///
    /// Relies on `HashMap::new`: an empty map.
    #[verifier::external_body]
    pub fn new() -> (c: Container)
        ensures
            provided_keys(c) == Set::<TypeKey>::empty(),
    {
        Container { values: HashMap::new(), references: HashMap::new() }
    }

    /// Installs a value provider under the identity of the type it provides, replacing a
    /// value provider installed for that type before.
    ///
    /// Relies on `HashMap::insert` keyed by `TypeId::of`: one key is added, or kept.
    #[verifier::external_body]
    pub fn install<P: Provider + 'static>(&mut self, provider: P)
        ensures
            exists|k: TypeId|
                provided_keys(*final(self)) == provided_keys(*old(self)).insert(value_key(k)),
    {
        let boxed: Box<dyn Provider<ProvidedType = P::ProvidedType>> = Box::new(provider);
        self.values.insert(TypeId::of::<P::ProvidedType>(), Rc::new(boxed));
    }

    /// Installs a reference provider under the identity of the type it lends, replacing a
    /// reference provider installed for that type before.
    ///
    /// Relies on `HashMap::insert` keyed by `TypeId::of`: one key is added, or kept.
    #[verifier::external_body]
    pub fn install_ref<P: RefProvider + 'static>(&mut self, provider: P)
        ensures
            exists|k: TypeId|
                provided_keys(*final(self)) == provided_keys(*old(self)).insert(reference_key(k)),
    {
        let boxed: Box<dyn RefProvider<ProvidedRef = P::ProvidedRef>> = Box::new(provider);
        self.references.insert(TypeId::of::<P::ProvidedRef>(), Rc::new(boxed));
    }

    /// Resolves a value of type `T` with the value provider installed for `T`: no provider
    /// gives `MissingProvider`, and a provider's result is returned as it is.
    ///
    /// Relies on `HashMap::get` keyed by `TypeId::of` and on `downcast_ref`.
    #[verifier::external_body]
    pub fn get<T: Any>(&self) -> (r: Result<T, InjectError>)
        ensures
            no_value_providers(provided_keys(*self)) ==> r matches Err(InjectError::MissingProvider),
    {
        match self.values.get(&TypeId::of::<T>()) {
            None => Err(InjectError::MissingProvider),
            Some(p) => match p.downcast_ref::<Box<dyn Provider<ProvidedType = T>>>() {
                Some(p) => p.provide(self),
                None => Err(InjectError::FailedCast),
            },
        }
    }

    /// Resolves a reference to a `T` with the reference provider installed for `T`: no
    /// provider gives `MissingProvider`, and a provider's result is returned as it is.
    ///
    /// Relies on `HashMap::get` keyed by `TypeId::of` and on `downcast_ref`.
    #[verifier::external_body]
    pub fn get_ref<T: Any>(&self) -> (r: Result<&T, InjectError>)
        ensures
            no_reference_providers(provided_keys(*self)) ==> r matches Err(InjectError::MissingProvider),
    {
        match self.references.get(&TypeId::of::<T>()) {
            None => Err(InjectError::MissingProvider),
            Some(p) => match p.downcast_ref::<Box<dyn RefProvider<ProvidedRef = T>>>() {
                Some(p) => p.provide(self),
                None => Err(InjectError::FailedCast),
            },
        }
    }

    /// A new container with the providers installed here now, shared with this one. Later
    /// installs into either do not reach the other.
    ///
    /// Relies on `HashMap::clone`: the same keys, with shared handles to the same providers.
    #[verifier::external_body]
    pub fn create_child(&self) -> (c: Container)
        ensures
            provided_keys(c) == provided_keys(*self),
    {
        Container { values: self.values.clone(), references: self.references.clone() }
    }
}

/// Selects one argument of a call: a value given by keyword takes precedence over any
/// provider; without one, the parameter is resolved by `resolve`.
pub fn select_argument<T, F>(keyword: Option<T>, resolve: F) -> (r: Result<T, InjectError>) where
    F: FnOnce() -> Result<T, InjectError>
    requires
        keyword is None ==> resolve.requires(()),
    ensures
        keyword matches Some(v) ==> r == Ok::<T, InjectError>(v),
        keyword is None ==> resolve.ensures((), r),
{
    match keyword {
        Some(v) => Ok(v),
        None => resolve(),
    }
}

/// The two paths are independent: installing a value provider into a container without
/// reference providers leaves it without reference providers, and the other way round; so
/// resolving on the other path still finds no provider.
pub proof fn installs_keep_the_other_path(keys: Set<TypeKey>, k: TypeId)
    ensures
        no_reference_providers(keys) ==> no_reference_providers(keys.insert(value_key(k))),
        no_value_providers(keys) ==> no_value_providers(keys.insert(reference_key(k))),
{
}

} // verus!

//! Ready-made providers.
use std::marker::PhantomData;
use std::sync::Arc;
use vstd::prelude::*;

use crate::container::{provided_keys, Container, Provider};
use crate::error::InjectError;
use crate::registry::{reference_key, value_key};

verus! {

/// One value, provided both as a shared handle and as a borrow.
pub struct InstanceProvider<T> {
    pub instance: Arc<T>,
}

impl<T: 'static> Provider for InstanceProvider<T> {
    type ProvidedType = Arc<T>;

    fn provide(&self, container: &Container) -> (r: Result<Arc<T>, InjectError>)
        ensures
            r matches Ok(a) && *a == *self.instance,
    {
        Ok(Arc::clone(&self.instance))
    }
}

impl<T: 'static> InstanceProvider<T> {
    /// A provider of `instance`.
    pub fn new(instance: T) -> (r: InstanceProvider<T>)
        ensures
            *r.instance == instance,
    {
        InstanceProvider { instance: Arc::new(instance) }
    }

    /// Installs the instance as a value provider of `Arc<T>` and a reference provider of
    /// `T`.
    pub fn install_into(self, container: &mut Container)
        ensures
            exists|a: std::any::TypeId, b: std::any::TypeId|
                provided_keys(*final(container)) == provided_keys(*old(container)).insert(
                    value_key(a),
                ).insert(reference_key(b)),
    {
        let cloned = Arc::clone(&self.instance);
        container.install(self);
        container.install_ref(cloned);
    }
}

/// A provider of default values: each resolution constructs a new one.
pub struct DefaultProvider<T> {
    type_: PhantomData<T>,
}

impl<T: Default> DefaultProvider<T> {
    /// A provider of `T`'s default value.
    pub fn new() -> (r: DefaultProvider<T>) {
        DefaultProvider { type_: PhantomData }
    }
}

impl<T: Default + 'static> Provider for DefaultProvider<T> {
    type ProvidedType = T;

    fn provide(&self, container: &Container) -> (r: Result<T, InjectError>)
        ensures
            r matches Ok(v) && call_ensures(T::default, (), v),
    {
        Ok(T::default())
    }
}

} // verus!

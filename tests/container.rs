use std::rc::Rc;
use std::sync::Arc;

use inject::container::select_argument;
use inject::providers::{DefaultProvider, InstanceProvider};
use inject::{Container, InjectError, InjectExt, Provider, RefProvider};

#[derive(Debug, PartialEq, Clone, Copy, Default)]
struct FakeImpl {
    val: isize,
}

#[derive(Debug, PartialEq, Clone, Copy)]
struct Data {
    a: isize,
}

#[derive(Debug, PartialEq, Clone, Copy)]
struct Instance(isize);

impl Instance {
    fn new(a: isize) -> Self {
        Instance(a)
    }

    /// What the annotation generates for `new`: each parameter resolved from the container.
    fn inject(container: &Container) -> Result<Self, InjectError> {
        Ok(Self::new(container.get::<isize>().or_else(|_| <isize>::inject(container))?))
    }
}

#[derive(Debug, PartialEq, Clone, Copy)]
struct Service {
    a: Instance,
}

impl Service {
    fn inject(container: &Container) -> Result<Self, InjectError> {
        Ok(Service { a: container.get::<Instance>().or_else(|_| <Instance>::inject(container))? })
    }
}

/// A provider of `Data` that resolves its field from the container.
struct DataFromInt;

impl Provider for DataFromInt {
    type ProvidedType = Data;

    fn provide(&self, container: &Container) -> Result<Data, InjectError> {
        Ok(Data { a: container.get::<isize>()? })
    }
}

struct Const(isize);

impl Provider for Const {
    type ProvidedType = isize;

    fn provide(&self, _: &Container) -> Result<isize, InjectError> {
        Ok(self.0)
    }
}

#[test]
fn test_get_without_provider_installed_errors() {
    let expected = Err(InjectError::MissingProvider);
    let container = Container::new();

    let provided = container.get::<Data>();

    assert_eq!(provided, expected)
}

#[test]
fn get_uses_installed_provider_and_last_install_wins() {
    let mut container = Container::new();
    container.install(Const(1));
    container.install(Const(2));
    assert_eq!(container.get::<isize>(), Ok(2));
    assert_eq!(container.get::<i32>(), Err(InjectError::MissingProvider));
}

#[test]
fn default_construction_only_when_allowed() {
    let container = Container::new();
    let created = container.get::<isize>().or_else(|_| <isize>::inject(&container));
    assert_eq!(created, Ok(0));
    assert_eq!(container.get::<isize>(), Err(InjectError::MissingProvider));
}

#[test]
fn reference_and_value_paths_are_independent() {
    let mut container = Container::new();
    container.install_ref(Box::new(5isize));
    assert_eq!(container.get_ref::<isize>(), Ok(&5));
    assert_eq!(container.get::<isize>(), Err(InjectError::MissingProvider));
    assert_eq!(container.get::<isize>().or_else(|_| <isize>::inject(&container)), Ok(0));
}

#[test]
fn provider_resolves_nested_dependencies() {
    let mut container = Container::new();
    container.install(Const(7));
    container.install(DataFromInt);
    assert_eq!(container.get::<Data>(), Ok(Data { a: 7 }));
    let empty = Container::new();
    assert_eq!(empty.get::<Data>(), Err(InjectError::MissingProvider));
}

#[test]
fn scenario_constructor_resolves_through_installed_provider() {
    let mut container = Container::new();
    container.install(Const(2));
    let instance = container.get::<Instance>().or_else(|_| Instance::inject(&container));
    assert_eq!(instance, Ok(Instance(2)));
    let service = container.get::<Service>().or_else(|_| Service::inject(&container));
    assert_eq!(service, Ok(Service { a: Instance(2) }));
}

#[test]
fn child_shares_providers_and_installs_stay_local() {
    let mut parent = Container::new();
    parent.install(Const(2));
    let mut child = parent.create_child();
    assert_eq!(child.get::<isize>(), Ok(2));
    child.install(Const(3));
    child.install_ref(Rc::new(4i32));
    assert_eq!(parent.get::<isize>(), Ok(2));
    assert_eq!(parent.get_ref::<i32>(), Err(InjectError::MissingProvider));
    assert_eq!(child.get::<isize>(), Ok(3));
}

#[test]
fn shared_handles_provide_values_and_references() {
    let mut container = Container::new();
    let arc = Arc::new(5isize);
    container.install(Arc::clone(&arc));
    container.install_ref(arc);
    assert_eq!(*container.get::<Arc<isize>>().unwrap(), 5);
    assert_eq!(container.get_ref::<isize>(), Ok(&5));
}

#[test]
fn test_default_provider() {
    let boxed_ref = FakeImpl { val: 1 };
    let box_provider = Box::from(boxed_ref);

    let mut container = Container::new();
    container.install(DefaultProvider::<FakeImpl>::new());
    container.install_ref(box_provider);
    let expected = Ok(FakeImpl { val: 0 });
    let provided = container.get::<FakeImpl>();

    assert_eq!(provided, expected);

    let reference: &FakeImpl = container.get_ref::<FakeImpl>().unwrap();
    assert_eq!(&boxed_ref, reference);
}

#[test]
fn instance_provider_serves_both_paths() {
    let mut container = Container::new();
    InstanceProvider::new(3isize).install_into(&mut container);
    assert_eq!(*container.get::<Arc<isize>>().unwrap(), 3);
    assert_eq!(container.get_ref::<isize>(), Ok(&3));
}

fn f(a: isize) -> isize {
    a + 1
}

/// What the call form generates for `f`: a keyword, else resolution with default construction.
fn call_f(container: &Container, a: Option<isize>) -> Result<isize, InjectError> {
    let a = select_argument(a, || container.get::<isize>().or_else(|_| <isize>::inject(container)))?;
    Ok(f(a))
}

#[test]
fn scenario_call_with_empty_container_and_keyword() {
    let mut container = Container::new();
    assert_eq!(call_f(&container, None), Ok(1));
    assert_eq!(call_f(&container, Some(2)), Ok(3));
    container.install(Const(40));
    assert_eq!(call_f(&container, Some(2)), Ok(3));
    assert_eq!(call_f(&container, None), Ok(41));
}

#[test]
fn reference_provider_lends_from_the_handle() {
    let container = Container::new();
    let boxed = Box::new(9isize);
    assert_eq!(RefProvider::provide(&boxed, &container), Ok(&9));
}

#[test]
fn closures_are_value_providers() {
    let mut container = Container::new();
    container.install(|_: &Container| Ok(5usize));
    container.install(|c: &Container| Ok(Data { a: c.get::<usize>()? as isize }));
    assert_eq!(container.get::<usize>(), Ok(5));
    assert_eq!(container.get::<Data>(), Ok(Data { a: 5 }));
}

#[test]
fn providers_report_their_identity() {
    assert_eq!(Provider::id(&Const(1)), inject::id::<isize>());
    assert_eq!(RefProvider::id(&Box::new(1u8)), inject::id::<u8>());
}

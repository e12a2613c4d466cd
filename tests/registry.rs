use std::rc::Rc;

use inject::container::select_argument;
use inject::registry::Factory;
use inject::registry::Registry;
use inject::{id, InjectError};

/// The values held by the containers of these tests.
#[derive(Debug, PartialEq, Clone, Copy)]
enum Val {
    Int(isize),
    Instance(isize),
}

#[test]
fn missing_provider_without_factory() {
    let container: Registry<isize> = Registry::new();
    assert_eq!(container.get(&id::<isize>()), Err(InjectError::MissingProvider));
    assert_eq!(container.get_ref(&id::<isize>()).map(|v| *v), Err(InjectError::MissingProvider));
}

#[test]
fn default_construction_only_when_create_is_allowed() {
    let container: Registry<isize> = Registry::new();
    assert_eq!(container.get_or_default(&id::<isize>(), true).map(|v| *v), Ok(0));
    assert_eq!(container.get_or_default(&id::<isize>(), false), Err(InjectError::MissingProvider));
}

#[test]
fn installed_provider_wins_over_default() {
    let mut container: Registry<isize> = Registry::new();
    container.install(id::<isize>(), Rc::new(7));
    assert_eq!(container.get_or_default(&id::<isize>(), true).map(|v| *v), Ok(7));
    assert_eq!(container.get(&id::<isize>()).map(|v| *v), Ok(7));
}

#[test]
fn last_install_wins_without_error() {
    let mut container: Registry<isize> = Registry::new();
    container.install(id::<isize>(), Rc::new(1));
    container.install(id::<isize>(), Rc::new(2));
    assert_eq!(container.get(&id::<isize>()).map(|v| *v), Ok(2));
}

#[test]
fn registry_paths_are_independent() {
    let mut container: Registry<isize> = Registry::new();
    container.install_ref(id::<isize>(), Rc::new(5));
    assert_eq!(container.get(&id::<isize>()), Err(InjectError::MissingProvider));
    assert_eq!(container.get_ref(&id::<isize>()), Ok(&5));

    let mut other: Registry<isize> = Registry::new();
    other.install(id::<isize>(), Rc::new(6));
    assert_eq!(other.get(&id::<isize>()).map(|v| *v), Ok(6));
    assert_eq!(other.get_ref(&id::<isize>()), Err(InjectError::MissingProvider));
}

#[test]
fn registry_child_installs_stay_local() {
    let mut parent: Registry<isize> = Registry::new();
    parent.install(id::<isize>(), Rc::new(2));
    let mut child = parent.create_child();
    assert_eq!(child.get(&id::<isize>()).map(|v| *v), Ok(2));

    child.install(id::<isize>(), Rc::new(3));
    child.install(id::<i32>(), Rc::new(4));
    assert_eq!(parent.get(&id::<isize>()).map(|v| *v), Ok(2));
    assert_eq!(parent.get(&id::<i32>()), Err(InjectError::MissingProvider));

    parent.install_ref(id::<isize>(), Rc::new(9));
    assert_eq!(child.get_ref(&id::<isize>()), Err(InjectError::MissingProvider));
    assert_eq!(child.get(&id::<isize>()).map(|v| *v), Ok(3));
}

#[test]
fn resolve_falls_back_to_self_construction() {
    let container: Registry<isize> = Registry::new();
    let r = container.resolve(&id::<isize>(), true, |_c: &Registry<isize>| Ok(Rc::new(11)));
    assert_eq!(r.map(|v| *v), Ok(11));
    let r = container.resolve(&id::<isize>(), false, |_c: &Registry<isize>| Ok(Rc::new(11)));
    assert_eq!(r, Err(InjectError::MissingProvider));
}

#[test]
fn planned_parameter_uses_fallback_when_excluded() {
    let container: Registry<isize> = Registry::new();
    let r = container.resolve_param(&id::<isize>(), false, |_c: &Registry<isize>| Ok(Rc::new(0)), Some(Rc::new(1)));
    assert_eq!(r.map(|v| *v), Ok(1));
    let r = container.resolve_param(&id::<isize>(), false, |_c: &Registry<isize>| Ok(Rc::new(0)), None);
    assert_eq!(r, Err(InjectError::MissingProvider));
    let r = container.resolve_param(
        &id::<isize>(),
        true,
        |_c: &Registry<isize>| Err(InjectError::MissingProvider),
        Some(Rc::new(8)),
    );
    assert_eq!(r.map(|v| *v), Ok(8));
}

#[test]
fn keyword_overrides_installed_provider() {
    let mut container: Registry<isize> = Registry::new();
    container.install(id::<isize>(), Rc::new(2));
    let b = select_argument(Some(5), || container.get(&id::<isize>()).map(|v| *v));
    assert_eq!(b, Ok(5));
    let a = select_argument(None, || container.get(&id::<isize>()).map(|v| *v));
    assert_eq!(a, Ok(2));
}

fn f(a: isize) -> isize {
    a + 1
}

/// Calls `f`, resolving `a` from the container unless it is given by keyword.
fn call_f(container: &Registry<isize>, a: Option<isize>) -> Result<isize, InjectError> {
    let a = select_argument(a, || container.get_or_default(&id::<isize>(), true).map(|v| *v))?;
    Ok(f(a))
}

#[test]
fn scenario_call_with_empty_container() {
    let container: Registry<isize> = Registry::new();
    assert_eq!(call_f(&container, None), Ok(1));
}

#[test]
fn scenario_call_with_keyword() {
    let mut container: Registry<isize> = Registry::new();
    assert_eq!(call_f(&container, Some(2)), Ok(3));
    container.install(id::<isize>(), Rc::new(40));
    assert_eq!(call_f(&container, Some(2)), Ok(3));
    assert_eq!(call_f(&container, None), Ok(41));
}

struct Instance;

/// Builds `Instance(a)`, resolving `a` from the container.
fn construct_instance(c: &Registry<Val>) -> Result<Rc<Val>, InjectError> {
    let a = match c.get(&id::<isize>()) {
        Ok(v) => match *v {
            Val::Int(a) => a,
            Val::Instance(_) => return Err(InjectError::FailedCast),
        },
        Err(_) => 0,
    };
    Ok(Rc::new(Val::Instance(a)))
}

#[test]
fn scenario_nested_resolution_through_constructor() {
    let mut container: Registry<Val> = Registry::new();
    container.install(id::<isize>(), Rc::new(Val::Int(2)));
    let r = container.resolve(&id::<Instance>(), true, construct_instance);
    assert_eq!(r.map(|v| *v), Ok(Val::Instance(2)));
}

#[test]
fn scenario_reference_and_default_do_not_interfere() {
    let mut container: Registry<isize> = Registry::new();
    container.install_ref(id::<isize>(), Rc::new(5));
    assert_eq!(container.get_ref(&id::<isize>()), Ok(&5));
    assert_eq!(container.get_or_default(&id::<isize>(), true).map(|v| *v), Ok(0));
}

#[test]
fn error_messages() {
    assert_eq!(InjectError::FailedCast.message(), "failed cast");
    assert_eq!(InjectError::MissingProvider.message(), "no provider available");
}

/// Factories of the test values; each resolves what it needs from the container.
enum Make {
    InstanceFromInt,
    Fails,
}

impl Factory<Val> for Make {
    fn provide(&self, container: &Registry<Val, Make>) -> Result<Rc<Val>, InjectError> {
        match self {
            Make::InstanceFromInt => match *container.get(&id::<isize>())? {
                Val::Int(a) => Ok(Rc::new(Val::Instance(a))),
                Val::Instance(_) => Err(InjectError::FailedCast),
            },
            Make::Fails => Err(InjectError::FailedCast),
        }
    }
}

#[test]
fn factory_resolves_its_dependencies_from_the_container() {
    let mut container: Registry<Val, Make> = Registry::new();
    container.install(id::<isize>(), Rc::new(Val::Int(2)));
    container.install_factory(id::<Instance>(), Make::InstanceFromInt);
    assert_eq!(container.get(&id::<Instance>()).map(|v| *v), Ok(Val::Instance(2)));

    container.install(id::<isize>(), Rc::new(Val::Int(5)));
    assert_eq!(container.get(&id::<Instance>()).map(|v| *v), Ok(Val::Instance(5)));

    let child = container.create_child();
    assert_eq!(child.get(&id::<Instance>()).map(|v| *v), Ok(Val::Instance(5)));
}

#[test]
fn factory_failure_is_returned_unchanged() {
    let mut container: Registry<Val, Make> = Registry::new();
    container.install_factory(id::<Instance>(), Make::InstanceFromInt);
    assert_eq!(container.get(&id::<Instance>()), Err(InjectError::MissingProvider));
    container.install_factory(id::<Instance>(), Make::Fails);
    assert_eq!(container.get(&id::<Instance>()), Err(InjectError::FailedCast));
    let r = container.resolve(&id::<Instance>(), true, |_c: &Registry<Val, Make>| Ok(Rc::new(Val::Instance(9))));
    assert_eq!(r.map(|v| *v), Ok(Val::Instance(9)));
}

#[test]
fn factory_and_instance_replace_each_other() {
    let mut container: Registry<Val, Make> = Registry::new();
    container.install(id::<Instance>(), Rc::new(Val::Instance(1)));
    container.install_factory(id::<Instance>(), Make::Fails);
    assert_eq!(container.get(&id::<Instance>()), Err(InjectError::FailedCast));
    container.install(id::<Instance>(), Rc::new(Val::Instance(1)));
    assert_eq!(container.get(&id::<Instance>()).map(|v| *v), Ok(Val::Instance(1)));
    assert_eq!(container.get_ref(&id::<Instance>()), Err(InjectError::MissingProvider));
}

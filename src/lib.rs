//! Dependency injection: a type-identity keyed registry of providers, and the planning and
//! code generation behind the `inject` annotation and the `get`, `call` and `container`
//! macro forms.
use vstd::prelude::*;

pub mod arguments;
pub mod bool_to_option;
pub mod container;
pub mod error;
pub mod expand;
pub mod forms;
pub mod inject;
pub mod input;
pub mod names;
pub mod plan;
pub mod providers;
pub mod registry;
pub mod syntax;
pub mod text;

pub use container::{Container, Provider, RefProvider};
pub use error::{ExpandError, InjectError};
pub use inject::{id, Inject, InjectExt};

verus! {

} // verus!

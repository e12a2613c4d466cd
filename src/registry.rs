//! A registry of providers for values of one type `V`, with its laws.
//!
//! A container maps a key (a type identity together with a resolution path) to a provider.
//! On the value path a provider is a shared handle, handed out as a duplicate handle, or a
//! factory, invoked with the container so that it can resolve its own dependencies; on the
//! reference path a provider is an owning handle, of which a borrow is lent. The two paths
//! are independent key spaces. Providers are held through shared handles, so a child
//! container shares the provider instances of its parent.
use std::any::TypeId;
use std::rc::Rc;
use vstd::prelude::*;

use crate::error::InjectError;
use crate::inject::same_id;

verus! {

/// Which of the two resolution paths a key belongs to.
#[derive(Debug, Clone, Copy, PartialEq, Eq, Structural)]
pub enum Path {
    /// Resolving an owned value (a shared handle to it).
    Value,
    /// Resolving a borrow of a value held by the provider.
    Reference,
}

/// The key of a provider: a type identity on one resolution path.
#[derive(Clone, Copy)]
pub struct TypeKey {
    pub id: TypeId,
    pub path: Path,
}

/// The key of a value provider for the type with identity `id`.
pub open spec fn value_key(id: TypeId) -> TypeKey {
    TypeKey { id, path: Path::Value }
}

/// The key of a reference provider for the type with identity `id`.
pub open spec fn reference_key(id: TypeId) -> TypeKey {
    TypeKey { id, path: Path::Reference }
}

/// What is installed under a key: a value handed out as it is, or a factory.
pub enum Installed<V, F> {
    Instance(V),
    Factory(F),
}

/// A value factory: given the container it is installed in, it produces a value or fails.
/// It may resolve what it needs from that container.
pub trait Factory<V>: Sized {
    fn provide(&self, container: &Registry<V, Self>) -> Result<Rc<V>, InjectError>;
}

/// The factory type of a container that holds no factories.
pub struct NoFactory;

impl<V> Factory<V> for NoFactory {
    fn provide(&self, container: &Registry<V, NoFactory>) -> Result<Rc<V>, InjectError> {
        Err(InjectError::MissingProvider)
    }
}

/// What a lookup of `k` in the providers `m` yields.
pub open spec fn lookup<V>(m: Map<TypeKey, V>, k: TypeKey) -> Result<V, InjectError> {
    if m.contains_key(k) {
        Ok(m[k])
    } else {
        Err(InjectError::MissingProvider)
    }
}

/// The provided value behind a resolution's outcome.
pub open spec fn provided<V>(r: Result<Rc<V>, InjectError>) -> Result<V, InjectError> {
    match r {
        Ok(v) => Ok(*v),
        Err(e) => Err(e),
    }
}

/// The provided value behind a borrowing resolution's outcome.
pub open spec fn lent<V>(r: Result<&V, InjectError>) -> Result<V, InjectError> {
    match r {
        Ok(v) => Ok(*v),
        Err(e) => Err(e),
    }
}

/// Whether `r` is a possible outcome of resolving the value key `k` in `c`: a missing
/// provider is an error, an instance is handed out, and a factory's result is returned as the
/// factory gave it.
pub open spec fn resolves<V, F: Factory<V>>(c: &Registry<V, F>, k: TypeKey, r: Result<Rc<V>, InjectError>) -> bool {
    match lookup(c@, k) {
        Err(e) => r == Err::<Rc<V>, InjectError>(e),
        Ok(Installed::Instance(v)) => provided(r) == Ok::<V, InjectError>(v),
        Ok(Installed::Factory(f)) => call_ensures(F::provide, (&f, c), r),
    }
}

/// What borrowing resolution of the reference key `k` in the providers `m` lends.
pub open spec fn lending<V, F>(m: Map<TypeKey, Installed<V, F>>, k: TypeKey) -> Result<V, InjectError> {
    match lookup(m, k) {
        Err(e) => Err(e),
        Ok(Installed::Instance(v)) => Ok(v),
        Ok(Installed::Factory(_)) => Err(InjectError::FailedCast),
    }
}

impl TypeKey {
    /// The key of a value provider for the identity `id`.
    pub fn value(id: TypeId) -> (k: TypeKey)
        ensures
            k == value_key(id),
    {
        TypeKey { id, path: Path::Value }
    }

    /// The key of a reference provider for the identity `id`.
    pub fn reference(id: TypeId) -> (k: TypeKey)
        ensures
            k == reference_key(id),
    {
        TypeKey { id, path: Path::Reference }
    }

    /// Whether two keys are the same.
    pub fn same(&self, other: &TypeKey) -> (r: bool)
        ensures
            r == (*self == *other),
    {
        same_id(&self.id, &other.id) && self.path == other.path
    }
}

/// An installed provider, tagged with the path it was installed for.
enum Provision<V, F> {
    Shared(Rc<V>),
    Made(Rc<F>),
    Lent(Rc<V>),
}

impl<V, F> Provision<V, F> {
    spec fn path(&self) -> Path {
        match self {
            Provision::Shared(_) => Path::Value,
            Provision::Made(_) => Path::Value,
            Provision::Lent(_) => Path::Reference,
        }
    }

    spec fn held(&self) -> Installed<V, F> {
        match self {
            Provision::Shared(v) => Installed::Instance(**v),
            Provision::Made(f) => Installed::Factory(**f),
            Provision::Lent(v) => Installed::Instance(**v),
        }
    }

    fn duplicate(&self) -> (r: Provision<V, F>)
        ensures
            r.path() == self.path(),
            r.held() == self.held(),
    {
        match self {
            Provision::Shared(v) => Provision::Shared(Rc::clone(v)),
            Provision::Made(f) => Provision::Made(Rc::clone(f)),
            Provision::Lent(v) => Provision::Lent(Rc::clone(v)),
        }
    }
}

/// A registry of providers of `V` values, keyed by type identity and resolution path.
///
/// At most one provider is installed per key; installing again replaces it.
pub struct Registry<V, F = NoFactory> {
    entries: Vec<(TypeKey, Provision<V, F>)>,
    model: Ghost<Map<TypeKey, Installed<V, F>>>,
}

impl<V, F> View for Registry<V, F> {
    type V = Map<TypeKey, Installed<V, F>>;

    closed spec fn view(&self) -> Map<TypeKey, Installed<V, F>> {
        self.model@
    }
}

impl<V, F> Registry<V, F> {
    /// The entries agree with the model: keys are unique, each entry is installed under the
    /// path of its key, and the model holds exactly the entries' values.
    #[verifier::type_invariant]
    closed spec fn wf(&self) -> bool {
        &&& forall|i: int|
            0 <= i < self.entries@.len() ==> {
                let (k, p) = #[trigger] self.entries@[i];
                &&& self.model@.contains_key(k)
                &&& self.model@[k] == p.held()
                &&& p.path() == k.path
            }
        &&& forall|k: TypeKey| #[trigger]
            self.model@.contains_key(k) ==> exists|i: int|
                0 <= i < self.entries@.len() && (#[trigger] self.entries@[i]).0 == k
        &&& forall|i: int, j: int|
            0 <= i < self.entries@.len() && 0 <= j < self.entries@.len() && (
            #[trigger] self.entries@[i]).0 == (#[trigger] self.entries@[j]).0 ==> i == j
    }

    /// An empty container.
    pub fn new() -> (c: Registry<V, F>)
        ensures
            c@ == Map::<TypeKey, Installed<V, F>>::empty(),
    {
        Registry { entries: Vec::new(), model: Ghost(Map::empty()) }
    }

    /// The index of the entry under `key`, if any.
    fn position(&self, key: &TypeKey) -> (r: Option<usize>)
        ensures
            match r {
                Some(i) => i < self.entries@.len() && self.entries@[i as int].0 == *key,
                None => !self@.contains_key(*key),
            },
    {
        let mut i: usize = 0;
        while i < self.entries.len()
            invariant
                i <= self.entries@.len(),
                forall|j: int| 0 <= j < i ==> (#[trigger] self.entries@[j]).0 != *key,
            decreases self.entries@.len() - i,
        {
            if self.entries[i].0.same(key) {
                return Some(i);
            }
            i = i + 1;
        }
        proof {
            use_type_invariant(self);
        }
        None
    }

    /// Installs `p` under `key`, replacing a provider installed there before.
    fn put(&mut self, key: TypeKey, p: Provision<V, F>)
        requires
            p.path() == key.path,
        ensures
            final(self)@ == old(self)@.insert(key, p.held()),
    {
        proof {
            use_type_invariant(&*self);
        }
        let ghost held = p.held();
        let found = self.position(&key);
        let mut taken = Registry::new();
        std::mem::swap(self, &mut taken);
        let Registry { mut entries, model } = taken;
        let ghost before = entries@;
        let ghost at: int;
        match found {
            Some(i) => {
                entries.set(i, (key, p));
                proof {
                    at = i as int;
                }
            },
            None => {
                entries.push((key, p));
                proof {
                    at = entries@.len() - 1;
                }
            },
        }
        let ghost m = model@.insert(key, held);
        assert forall|k: TypeKey| #[trigger] m.contains_key(k) implies exists|i: int|
            0 <= i < entries@.len() && (#[trigger] entries@[i]).0 == k by {
            if k == key {
                assert(entries@[at].0 == k);
            } else {
                assert(model@.contains_key(k));
                let i = choose|i: int| 0 <= i < before.len() && (#[trigger] before[i]).0 == k;
                assert(entries@[i].0 == k);
            }
        }
        *self = Registry { entries, model: Ghost(m) };
    }

    /// Installs a value provider for the type with identity `id`: resolving that type then
    /// yields a duplicate of the shared handle `provider`. A value provider installed for the
    /// same identity before is replaced.
    pub fn install(&mut self, id: TypeId, provider: Rc<V>)
        ensures
            final(self)@ == old(self)@.insert(value_key(id), Installed::Instance(*provider)),
    {
        self.put(TypeKey::value(id), Provision::Shared(provider));
    }

    /// Installs a factory as the value provider for the type with identity `id`: resolving
    /// that type then invokes `factory` with the container. A value provider installed for
    /// the same identity before is replaced.
    pub fn install_factory(&mut self, id: TypeId, factory: F)
        ensures
            final(self)@ == old(self)@.insert(value_key(id), Installed::Factory(factory)),
    {
        self.put(TypeKey::value(id), Provision::Made(Rc::new(factory)));
    }

    /// Installs a reference provider for the type with identity `id`: resolving a reference
    /// to that type then lends `provider`'s value. A reference provider installed for the
    /// same identity before is replaced.
    pub fn install_ref(&mut self, id: TypeId, provider: Rc<V>)
        ensures
            final(self)@ == old(self)@.insert(reference_key(id), Installed::Instance(*provider)),
    {
        self.put(TypeKey::reference(id), Provision::Lent(provider));
    }

    /// Resolves a reference to a value of the type with identity `id` from its installed
    /// reference provider. The borrow lives as long as the container's.
    pub fn get_ref(&self, id: &TypeId) -> (r: Result<&V, InjectError>)
        ensures
            lent(r) == lending(self@, reference_key(*id)),
    {
        proof {
            use_type_invariant(self);
        }
        let key = TypeKey::reference(*id);
        match self.position(&key) {
            None => Err(InjectError::MissingProvider),
            Some(i) => match &self.entries[i].1 {
                Provision::Lent(v) => Ok(&**v),
                Provision::Shared(_) => Err(InjectError::FailedCast),
                Provision::Made(_) => Err(InjectError::FailedCast),
            },
        }
    }

    /// A new container with the providers installed here now. Later installs into either
    /// one do not reach the other.
    pub fn create_child(&self) -> (c: Registry<V, F>)
        ensures
            c@ == self@,
    {
        let mut entries: Vec<(TypeKey, Provision<V, F>)> = Vec::new();
        let mut i: usize = 0;
        while i < self.entries.len()
            invariant
                i <= self.entries@.len(),
                entries@.len() == i,
                forall|j: int|
                    0 <= j < i ==> (#[trigger] entries@[j]).0 == self.entries@[j].0
                        && entries@[j].1.path() == self.entries@[j].1.path()
                        && entries@[j].1.held() == self.entries@[j].1.held(),
            decreases self.entries@.len() - i,
        {
            let k = self.entries[i].0;
            let p = self.entries[i].1.duplicate();
            entries.push((k, p));
            i = i + 1;
        }
        proof {
            use_type_invariant(self);
        }
        assert forall|k: TypeKey| #[trigger] self.model@.contains_key(k) implies exists|i: int|
            0 <= i < entries@.len() && (#[trigger] entries@[i]).0 == k by {
            let i = choose|i: int|
                0 <= i < self.entries@.len() && (#[trigger] self.entries@[i]).0 == k;
            assert(entries@[i].0 == k);
        }
        Registry { entries, model: Ghost(self.model@) }
    }
}

impl<V, F: Factory<V>> Registry<V, F> {
    /// Resolves a value of the type with identity `id` from its installed value provider: a
    /// shared handle is duplicated; a factory is invoked with this container and its result
    /// returned as it is.
    pub fn get(&self, id: &TypeId) -> (r: Result<Rc<V>, InjectError>)
        ensures
            resolves(self, value_key(*id), r),
            !self@.contains_key(value_key(*id)) ==> r == Err::<Rc<V>, InjectError>(
                InjectError::MissingProvider,
            ),
    {
        proof {
            use_type_invariant(self);
        }
        let key = TypeKey::value(*id);
        match self.position(&key) {
            None => Err(InjectError::MissingProvider),
            Some(i) => match &self.entries[i].1 {
                Provision::Shared(v) => Ok(Rc::clone(v)),
                Provision::Made(f) => f.provide(self),
                Provision::Lent(_) => Err(InjectError::FailedCast),
            },
        }
    }

    /// Resolves a value of the type with identity `id`. When that fails (no value provider
    /// is installed, or its factory fails) and `create` holds, the type constructs itself
    /// with `construct`, which may resolve its own dependencies from this container.
    pub fn resolve<C>(&self, id: &TypeId, create: bool, construct: C) -> (r: Result<
        Rc<V>,
        InjectError,
    >) where C: FnOnce(&Registry<V, F>) -> Result<Rc<V>, InjectError>
        requires
            create ==> construct.requires((self,)),
        ensures
            exists|b: Result<Rc<V>, InjectError>|
                resolves(self, value_key(*id), b) && (b is Ok ==> r == b) && (b is Err && !create
                    ==> r == b) && (b is Err && create ==> construct.ensures((self,), r)),
            !self@.contains_key(value_key(*id)) && !create ==> r == Err::<Rc<V>, InjectError>(
                InjectError::MissingProvider,
            ),
            !self@.contains_key(value_key(*id)) && create ==> construct.ensures((self,), r),
    {
        let b = self.get(id);
        match b {
            Ok(v) => Ok(v),
            Err(e) => {
                if create {
                    construct(self)
                } else {
                    Err(e)
                }
            },
        }
    }

    /// Resolves a value of the type with identity `id`; when that fails and `create` holds,
    /// the value is constructed by default.
    pub fn get_or_default(&self, id: &TypeId, create: bool) -> (r: Result<Rc<V>, InjectError>) where
        V: Default
        ensures
            exists|b: Result<Rc<V>, InjectError>|
                resolves(self, value_key(*id), b) && (b is Ok ==> r == b) && (b is Err && !create
                    ==> r == b) && (b is Err && create ==> (r matches Ok(v) && call_ensures(
                    V::default,
                    (),
                    *v,
                ))),
            !self@.contains_key(value_key(*id)) && !create ==> r == Err::<Rc<V>, InjectError>(
                InjectError::MissingProvider,
            ),
            !self@.contains_key(value_key(*id)) && create ==> (r matches Ok(v) && call_ensures(
                V::default,
                (),
                *v,
            )),
    {
        let construct = |c: &Registry<V, F>| -> (r: Result<Rc<V>, InjectError>)
            ensures
                r matches Ok(v) && call_ensures(V::default, (), *v),
            {
                Ok(Rc::new(V::default()))
            };
        self.resolve(id, create, construct)
    }

    /// Resolves one planned parameter of the type with identity `id`: from its value
    /// provider; else, when `create` holds, by self-construction; and when that fails too,
    /// from `fallback` if there is one. Without a fallback the failure is returned as it is.
    pub fn resolve_param<C>(
        &self,
        id: &TypeId,
        create: bool,
        construct: C,
        fallback: Option<Rc<V>>,
    ) -> (r: Result<Rc<V>, InjectError>) where C: FnOnce(&Registry<V, F>) -> Result<Rc<V>, InjectError>
        requires
            create ==> construct.requires((self,)),
        ensures
            exists|b: Result<Rc<V>, InjectError>, c: Result<Rc<V>, InjectError>|
                resolves(self, value_key(*id), b) && (b is Ok ==> c == b) && (b is Err && !create
                    ==> c == b) && (b is Err && create ==> construct.ensures((self,), c)) && r == (
                match c {
                    Ok(v) => Ok(v),
                    Err(e) => match fallback {
                        Some(f) => Ok(f),
                        None => Err(e),
                    },
                }),
            !self@.contains_key(value_key(*id)) && !create ==> provided(r) == (match fallback {
                Some(f) => Ok(*f),
                None => Err(InjectError::MissingProvider),
            }),
    {
        let ghost g = construct;
        let c = self.resolve(id, create, construct);
        let ghost b = choose|b: Result<Rc<V>, InjectError>|
            resolves(self, value_key(*id), b) && (b is Ok ==> c == b) && (b is Err && !create ==> c
                == b) && (b is Err && create ==> g.ensures((self,), c));
        match c {
            Ok(v) => Ok(v),
            Err(e) => match fallback {
                Some(f) => Ok(f),
                None => Err(e),
            },
        }
    }
}

/// Installing a second provider for one key makes resolution reflect only the second.
pub proof fn last_install_wins<V>(m: Map<TypeKey, V>, k: TypeKey, first: V, second: V)
    ensures
        lookup(m.insert(k, first).insert(k, second), k) == Ok::<V, InjectError>(second),
        m.insert(k, first).insert(k, second) == m.insert(k, second),
{
    assert(m.insert(k, first).insert(k, second) =~= m.insert(k, second));
}

/// Value and reference resolution of one type are independent: installing a provider on one
/// path makes that path resolve and leaves the other path as it was.
pub proof fn paths_are_independent<V>(m: Map<TypeKey, V>, id: TypeId, v: V)
    ensures
        lookup(m.insert(reference_key(id), v), reference_key(id)) == Ok::<V, InjectError>(v),
        lookup(m.insert(reference_key(id), v), value_key(id)) == lookup(m, value_key(id)),
        lookup(m.insert(value_key(id), v), value_key(id)) == Ok::<V, InjectError>(v),
        lookup(m.insert(value_key(id), v), reference_key(id)) == lookup(m, reference_key(id)),
{
    assert(reference_key(id) != value_key(id));
}

/// A child resolves every key as its parent did when it was made. An install into the child
/// changes the child's resolution of that key alone, and no resolution of the parent (and
/// the same holds the other way round).
pub proof fn child_is_independent<V>(parent: Map<TypeKey, V>, child: Map<TypeKey, V>, k: TypeKey, v: V)
    requires
        child == parent,
    ensures
        forall|q: TypeKey| lookup(child, q) == lookup(parent, q),
        forall|q: TypeKey| q != k ==> lookup(child.insert(k, v), q) == lookup(parent, q),
        lookup(child.insert(k, v), k) == Ok::<V, InjectError>(v),
        forall|q: TypeKey| q != k ==> lookup(parent.insert(k, v), q) == lookup(child, q),
{
}


} // verus!

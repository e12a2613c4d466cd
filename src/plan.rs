//! Planning how each parameter of an annotated signature is resolved.
use vstd::prelude::*;

use crate::arguments::{defaults_of, excluded_of, InjectArgs};
use crate::error::{expand_message, quoted_list, ExpandError};
use crate::text::views;

verus! {

/// One parameter of a signature.
#[derive(Debug)]
pub enum FnInput {
    /// A method receiver (`self`, `&self`, ...).
    Receiver,
    /// A parameter `name: ty`.
    Typed { name: String, ty: String },
}

/// How one parameter is resolved: from the container as `ty`, with self-construction
/// allowed when `create` holds, and falling back to the expression `fallback` (if any)
/// when resolution fails.
#[derive(Debug)]
pub struct Resolution {
    pub ty: String,
    pub create: bool,
    pub fallback: Option<String>,
}

impl View for Resolution {
    type V = (Seq<char>, bool, Option<Seq<char>>);

    open spec fn view(&self) -> (Seq<char>, bool, Option<Seq<char>>) {
        (
            self.ty@,
            self.create,
            match self.fallback {
                Some(e) => Some(e@),
                None => None,
            },
        )
    }
}

/// Whether the signature takes a receiver.
pub open spec fn has_receiver(inputs: Seq<FnInput>) -> bool {
    exists|k: int| 0 <= k < inputs.len() && inputs[k] is Receiver
}

/// The name of a parameter (empty for a receiver).
pub open spec fn input_name(i: FnInput) -> Seq<char> {
    match i {
        FnInput::Typed { name, .. } => name@,
        FnInput::Receiver => Seq::empty(),
    }
}

/// The type of a parameter (empty for a receiver).
pub open spec fn input_type(i: FnInput) -> Seq<char> {
    match i {
        FnInput::Typed { ty, .. } => ty@,
        FnInput::Receiver => Seq::empty(),
    }
}

/// The names of the parameters, in order.
pub open spec fn input_names(inputs: Seq<FnInput>) -> Seq<Seq<char>> {
    inputs.map_values(|i: FnInput| input_name(i))
}

/// The expression given for `n` among the default arguments `d` (the first, if several).
pub open spec fn assoc(d: Seq<(Seq<char>, Seq<char>)>, n: Seq<char>) -> Option<Seq<char>>
    decreases d.len(),
{
    if d.len() == 0 {
        None
    } else if d[0].0 == n {
        Some(d[0].1)
    } else {
        assoc(d.drop_first(), n)
    }
}

/// How the parameter `n: ty` is resolved under the annotation `a`.
pub open spec fn resolution_of(a: InjectArgs, n: Seq<char>, ty: Seq<char>) -> (
    Seq<char>,
    bool,
    Option<Seq<char>>,
) {
    (ty, !excluded_of(a).contains(n), assoc(defaults_of(a), n))
}

/// The plan of every parameter of `inputs` under the annotation `a`, in order.
pub open spec fn planned(a: InjectArgs, inputs: Seq<FnInput>) -> Seq<(Seq<char>, bool, Option<Seq<char>>)> {
    Seq::new(inputs.len(), |k: int| resolution_of(a, input_name(inputs[k]), input_type(inputs[k])))
}

/// The views of planned resolutions.
pub open spec fn plan_views(v: Seq<Resolution>) -> Seq<(Seq<char>, bool, Option<Seq<char>>)> {
    v.map_values(|r: Resolution| r@)
}

/// Whether the name `n` given in the annotation `a` names no parameter.
pub open spec fn is_unknown(a: InjectArgs, inputs: Seq<FnInput>, n: Seq<char>) -> bool {
    (excluded_of(a).contains(n) || exists|k: int|
        0 <= k < defaults_of(a).len() && defaults_of(a)[k].0 == n) && !input_names(
        inputs,
    ).contains(n)
}

/// Whether every name given in the annotation `a` names a parameter.
pub open spec fn all_known(a: InjectArgs, inputs: Seq<FnInput>) -> bool {
    &&& forall|k: int|
        0 <= k < defaults_of(a).len() ==> input_names(inputs).contains(
            (#[trigger] defaults_of(a)[k]).0,
        )
    &&& forall|k: int|
        0 <= k < excluded_of(a).len() ==> input_names(inputs).contains(
            #[trigger] excluded_of(a)[k],
        )
}

/// The expression for `n` among the default arguments.
fn lookup_default(d: &Vec<crate::arguments::DefaultArg>, n: &String) -> (r: Option<String>)
    ensures
        match r {
            Some(e) => assoc(d@.map_values(|a: crate::arguments::DefaultArg| (a.name@, a.value@)), n@)
                == Some(e@),
            None => assoc(d@.map_values(|a: crate::arguments::DefaultArg| (a.name@, a.value@)), n@)
                is None,
        },
{
    let ghost s = d@.map_values(|a: crate::arguments::DefaultArg| (a.name@, a.value@));
    let mut i: usize = 0;
    assert(s.subrange(0, s.len() as int) =~= s);
    while i < d.len()
        invariant
            s == d@.map_values(|a: crate::arguments::DefaultArg| (a.name@, a.value@)),
            i <= d@.len(),
            assoc(s, n@) == assoc(s.subrange(i as int, s.len() as int), n@),
        decreases d@.len() - i,
    {
        assert(s.subrange(i as int, s.len() as int).drop_first() =~= s.subrange(
            i as int + 1,
            s.len() as int,
        ));
        if d[i].name == *n {
            return Some(d[i].value.clone());
        }
        i = i + 1;
    }
    None
}

/// Whether `n` is among `names`.
fn contains_name(names: &Vec<String>, n: &String) -> (r: bool)
    ensures
        r == views(names@).contains(n@),
{
    match crate::names::index_of(names, n) {
        Some(i) => {
            assert(views(names@)[i as int] == n@);
            true
        },
        None => {
            assert(!views(names@).contains(n@));
            false
        },
    }
}

impl InjectArgs {
    /// The default expression given for `n`, if any.
    pub fn get_default(&self, n: &String) -> (r: Option<String>)
        ensures
            match r {
                Some(e) => assoc(defaults_of(*self), n@) == Some(e@),
                None => assoc(defaults_of(*self), n@) is None,
            },
    {
        match &self.default_args {
            Some(d) => lookup_default(&d.fields, n),
            None => None,
        }
    }

    /// Whether `n` is excluded from self-construction.
    pub fn is_no_inject(&self, n: &String) -> (r: bool)
        ensures
            r == excluded_of(*self).contains(n@),
    {
        match &self.no_inject_args {
            Some(x) => contains_name(&x.fields, n),
            None => false,
        }
    }

    /// Plans the resolution of each parameter of a signature, in order.
    ///
    /// A receiver is an error; so is an annotation argument that names no parameter, which
    /// is reported with the names of all parameters.
    pub fn expand_signature(&self, inputs: &Vec<FnInput>) -> (r: Result<
        Vec<Resolution>,
        ExpandError,
    >)
        ensures
            has_receiver(inputs@) ==> r matches Err(ExpandError::SelfReceiver),
            !has_receiver(inputs@) && all_known(*self, inputs@) ==> (r matches Ok(v) && plan_views(v@)
                == planned(*self, inputs@)),
            !has_receiver(inputs@) && !all_known(*self, inputs@) ==> (r matches Err(
                ExpandError::Unknown { name, expected },
            ) && is_unknown(*self, inputs@, name@) && views(expected@) == input_names(inputs@)),
            !has_receiver(inputs@) && !all_known(*self, inputs@) ==> (r matches Err(e)
                && expand_message(e) == "unknown identifier, expected "@ + quoted_list(
                input_names(inputs@),
            )),
    {
        let mut i: usize = 0;
        while i < inputs.len()
            invariant
                i <= inputs@.len(),
                forall|k: int| 0 <= k < i ==> !(#[trigger] inputs@[k] is Receiver),
            decreases inputs@.len() - i,
        {
            if let FnInput::Receiver = &inputs[i] {
                return Err(ExpandError::SelfReceiver);
            }
            i = i + 1;
        }
        let mut plan: Vec<Resolution> = Vec::new();
        let mut names: Vec<String> = Vec::new();
        let mut i: usize = 0;
        while i < inputs.len()
            invariant
                !has_receiver(inputs@),
                i <= inputs@.len(),
                plan@.len() == i,
                names@.len() == i,
                forall|k: int| 0 <= k < i ==> (#[trigger] names@[k])@ == input_name(inputs@[k]),
                forall|k: int|
                    0 <= k < i ==> (#[trigger] plan@[k])@ == resolution_of(
                        *self,
                        input_name(inputs@[k]),
                        input_type(inputs@[k]),
                    ),
            decreases inputs@.len() - i,
        {
            match &inputs[i] {
                FnInput::Typed { name, ty } => {
                    let fallback = self.get_default(name);
                    let create = !self.is_no_inject(name);
                    plan.push(Resolution { ty: ty.clone(), create, fallback });
                    names.push(name.clone());
                },
                FnInput::Receiver => {
                    assert(has_receiver(inputs@));
                },
            }
            i = i + 1;
        }
        assert(views(names@) =~= input_names(inputs@));
        assert(plan_views(plan@) =~= planned(*self, inputs@));
        if let Some(d) = &self.default_args {
            let mut k: usize = 0;
            while k < d.fields.len()
                invariant
                    self.default_args == Some(*d),
                    !has_receiver(inputs@),
                    views(names@) == input_names(inputs@),
                    k <= d.fields@.len(),
                    forall|j: int|
                        0 <= j < k ==> input_names(inputs@).contains(
                            (#[trigger] defaults_of(*self)[j]).0,
                        ),
                decreases d.fields@.len() - k,
            {
                if !contains_name(&names, &d.fields[k].name) {
                    assert(defaults_of(*self)[k as int].0 == d.fields[k as int].name@);
                    return Err(ExpandError::Unknown { name: d.fields[k].name.clone(), expected: names });
                }
                k = k + 1;
            }
        }
        if let Some(x) = &self.no_inject_args {
            let mut k: usize = 0;
            while k < x.fields.len()
                invariant
                    self.no_inject_args == Some(*x),
                    !has_receiver(inputs@),
                    views(names@) == input_names(inputs@),
                    k <= x.fields@.len(),
                    forall|j: int|
                        0 <= j < k ==> input_names(inputs@).contains(
                            #[trigger] excluded_of(*self)[j],
                        ),
                decreases x.fields@.len() - k,
            {
                if !contains_name(&names, &x.fields[k]) {
                    assert(excluded_of(*self)[k as int] == x.fields[k as int]@);
                    assert(excluded_of(*self).contains(x.fields[k as int]@));
                    return Err(ExpandError::Unknown { name: x.fields[k].clone(), expected: names });
                }
                k = k + 1;
            }
        }
        Ok(plan)
    }
}

/// A parameter that has a default expression and is excluded from self-construction is
/// planned to be resolved from the container alone, falling back to that expression.
pub proof fn default_and_exclusion_plan(a: InjectArgs, inputs: Seq<FnInput>, k: int, e: Seq<char>)
    requires
        0 <= k < inputs.len(),
        excluded_of(a).contains(input_name(inputs[k])),
        assoc(defaults_of(a), input_name(inputs[k])) == Some(e),
    ensures
        resolution_of(a, input_name(inputs[k]), input_type(inputs[k])) == (
            input_type(inputs[k]),
            false,
            Some(e),
        ),
{
}

/// An annotation argument naming no parameter of the signature makes planning fail.
pub proof fn unknown_name_fails(a: InjectArgs, inputs: Seq<FnInput>, n: Seq<char>)
    requires
        is_unknown(a, inputs, n),
    ensures
        !all_known(a, inputs),
{
    if excluded_of(a).contains(n) {
        let k = choose|k: int| 0 <= k < excluded_of(a).len() && excluded_of(a)[k] == n;
        assert(!input_names(inputs).contains(excluded_of(a)[k]));
    } else {
        let k = choose|k: int| 0 <= k < defaults_of(a).len() && defaults_of(a)[k].0 == n;
        assert(!input_names(inputs).contains(defaults_of(a)[k].0));
    }
}

} // verus!

//! Generating the code of an annotated constructor or free function.
use vstd::prelude::*;

use crate::plan::{plan_views, Resolution};

verus! {

/// The text of a truth value.
pub open spec fn bool_text(b: bool) -> Seq<char> {
    if b {
        "true"@
    } else {
        "false"@
    }
}

/// The code that resolves one planned parameter from `container`, ending in `?`.
pub open spec fn resolution_code(r: (Seq<char>, bool, Option<Seq<char>>)) -> Seq<char> {
    "::inject::get!(container, "@ + r.0 + ", create: "@ + bool_text(r.1) + ")"@ + match r.2 {
        Some(e) => ".or_else(|_| Ok("@ + e + "))"@,
        None => Seq::empty(),
    } + "?"@
}

/// The texts `f(0), f(1), ..., f(n - 1)` one after another.
pub open spec fn concat_each(n: int, f: spec_fn(int) -> Seq<char>) -> Seq<char>
    decreases n,
{
    if n <= 0 {
        Seq::empty()
    } else {
        concat_each(n - 1, f) + f(n - 1)
    }
}

/// The arguments of a call: each resolution's code followed by `, `.
pub open spec fn argument_list(plan: Seq<(Seq<char>, bool, Option<Seq<char>>)>) -> Seq<char> {
    concat_each(plan.len() as int, |k: int| resolution_code(plan[k]) + ", "@)
}

/// The self-construction function generated for the constructor `name`.
pub open spec fn constructor_code(name: Seq<char>, plan: Seq<(Seq<char>, bool, Option<Seq<char>>)>) -> Seq<char> {
    "pub fn inject(container: &::inject::Container) -> Result<Self, ::inject::InjectError> { Ok(Self::"@
        + name + "("@ + argument_list(plan) + ")) }"@
}

/// The rules of the argument-selector macro of function `name` for one parameter `p`
/// resolved by `code`. The keyword arguments follow `;` in any order: when the first one is
/// `p`, its expression is used; when it is another, the rest are searched; when none is
/// left, the parameter is resolved.
pub open spec fn selector_rules(name: Seq<char>, p: Seq<char>, code: Seq<char>) -> Seq<char> {
    "( $container:expr, "@ + p + " ; "@ + p
        + " : $arg:expr $(, $rk:ident : $rv:expr)* ) => { $arg }; ( $container:expr, "@ + p
        + " ; $other:ident : $oarg:expr $(, $rk:ident : $rv:expr)* ) => { __inject_"@ + name
        + "_expand!($container, "@ + p + " ; $( $rk : $rv ),* ) }; ( $container:expr, "@ + p
        + " ; ) => { { let container = $container; "@ + code + " } }; "@
}

/// The selection of parameter `p`'s argument inside the call-wrapper macro, handing on all
/// keyword arguments.
pub open spec fn selection(name: Seq<char>, p: Seq<char>) -> Seq<char> {
    "__inject_"@ + name + "_expand!($container, "@ + p + " ; $( $k : $v ),* ), "@
}

/// The two macros generated for the free function `name` with parameters `params`: the
/// argument selector `__inject_<name>_expand` and the call wrapper `__inject_<name>`, which
/// takes the container and keyword arguments `name: expr` in any order.
pub open spec fn free_function_code(
    name: Seq<char>,
    params: Seq<Seq<char>>,
    plan: Seq<(Seq<char>, bool, Option<Seq<char>>)>,
) -> Seq<char> {
    "#[doc(hidden)] #[macro_export] macro_rules! __inject_"@ + name + "_expand { ( ) => { }; "@
        + concat_each(
        params.len() as int,
        |k: int| selector_rules(name, params[k], resolution_code(plan[k])),
    ) + "} #[doc(hidden)] #[macro_export] macro_rules! __inject_"@ + name
        + " { ($container:expr $(, $k:ident : $v:expr)* $(,)?) => { { let __helper = |container: &::inject::Container| { Ok("@
        + name + "("@ + concat_each(params.len() as int, |k: int| selection(name, params[k]))
        + ")) }; let result: Result<_, ::inject::InjectError> = __helper($container); result } }; }"@
}

impl Resolution {
    /// The code that resolves this parameter from `container`.
    pub fn to_code(&self) -> (r: String)
        ensures
            r@ == resolution_code(self@),
    {
        proof {
            reveal_strlit("::inject::get!(container, ");
            reveal_strlit(", create: ");
            reveal_strlit(")");
            reveal_strlit(".or_else(|_| Ok(");
            reveal_strlit("))");
            reveal_strlit("?");
            reveal_strlit("true");
            reveal_strlit("false");
        }
        let mut r = String::from_str("::inject::get!(container, ");
        r.append(self.ty.as_str());
        r.append(", create: ");
        r.append(if self.create { "true" } else { "false" });
        r.append(")");
        if let Some(e) = &self.fallback {
            r.append(".or_else(|_| Ok(");
            r.append(e.as_str());
            r.append("))");
        }
        r.append("?");
        r
    }
}

/// Generates the self-construction function of the constructor `name`, which calls it with
/// each parameter resolved as planned.
pub fn expand_constructor(name: &str, plan: &Vec<Resolution>) -> (r: String)
    ensures
        r@ == constructor_code(name@, plan_views(plan@)),
{
    let mut r = String::from_str(
        "pub fn inject(container: &::inject::Container) -> Result<Self, ::inject::InjectError> { Ok(Self::",
    );
    r.append(name);
    r.append("(");
    let ghost head = r@;
    let mut i: usize = 0;
    while i < plan.len()
        invariant
            i <= plan@.len(),
            r@ == head + concat_each(i as int, |k: int| resolution_code(plan_views(plan@)[k]) + ", "@),
        decreases plan@.len() - i,
    {
        let code = plan[i].to_code();
        r.append(code.as_str());
        r.append(", ");
        i = i + 1;
    }
    r.append(")) }");
    r
}

/// Generates the argument-selector and call-wrapper macros of the free function `name`
/// whose parameters `params` are resolved as `plan` says.
pub fn expand_free_function(name: &str, params: &Vec<String>, plan: &Vec<Resolution>) -> (r: String)
    requires
        params@.len() == plan@.len(),
    ensures
        r@ == free_function_code(name@, crate::text::views(params@), plan_views(plan@)),
{
    let ghost ps = crate::text::views(params@);
    let mut r = String::from_str("#[doc(hidden)] #[macro_export] macro_rules! __inject_");
    r.append(name);
    r.append("_expand { ( ) => { }; ");
    let ghost head = r@;
    let mut i: usize = 0;
    while i < params.len()
        invariant
            ps == crate::text::views(params@),
            params@.len() == plan@.len(),
            i <= params@.len(),
            r@ == head + concat_each(
                i as int,
                |k: int| selector_rules(name@, ps[k], resolution_code(plan_views(plan@)[k])),
            ),
        decreases params@.len() - i,
    {
        let p = params[i].as_str();
        let code = plan[i].to_code();
        r.append("( $container:expr, ");
        r.append(p);
        r.append(" ; ");
        r.append(p);
        r.append(" : $arg:expr $(, $rk:ident : $rv:expr)* ) => { $arg }; ( $container:expr, ");
        r.append(p);
        r.append(" ; $other:ident : $oarg:expr $(, $rk:ident : $rv:expr)* ) => { __inject_");
        r.append(name);
        r.append("_expand!($container, ");
        r.append(p);
        r.append(" ; $( $rk : $rv ),* ) }; ( $container:expr, ");
        r.append(p);
        r.append(" ; ) => { { let container = $container; ");
        r.append(code.as_str());
        r.append(" } }; ");
        i = i + 1;
    }
    r.append("} #[doc(hidden)] #[macro_export] macro_rules! __inject_");
    r.append(name);
    r.append(
        " { ($container:expr $(, $k:ident : $v:expr)* $(,)?) => { { let __helper = |container: &::inject::Container| { Ok(",
    );
    r.append(name);
    r.append("(");
    let ghost head = r@;
    let mut i: usize = 0;
    while i < params.len()
        invariant
            ps == crate::text::views(params@),
            i <= params@.len(),
            r@ == head + concat_each(i as int, |k: int| selection(name@, ps[k])),
        decreases params@.len() - i,
    {
        let p = params[i].as_str();
        r.append("__inject_");
        r.append(name);
        r.append("_expand!($container, ");
        r.append(p);
        r.append(" ; $( $k : $v ),* ), ");
        i = i + 1;
    }
    r.append(")) }; let result: Result<_, ::inject::InjectError> = __helper($container); result } }; }");
    r
}

} // verus!

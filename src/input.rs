//! The item an annotation is attached to: a constructor (returning `Self`) or a free
//! function, and the expansion of the annotation as a whole.
use quote::ToTokens;
use syn::{parse_str, FnArg, ItemFn, Pat, ReturnType, Type};
use vstd::prelude::*;

use crate::arguments::{
    clause_defaults, clause_excluded, defaults_of, excluded_of, find_char, find_from, find_from_bounds, list_items,
    InjectArgs,
};
use crate::error::ExpandError;
use crate::expand::{constructor_code, expand_constructor, expand_free_function, free_function_code};
use crate::plan::{all_known, has_receiver, input_names, planned, FnInput};
use crate::syntax::{is_identifier, parses_as_identifier};
use crate::text::{trim, trimmed, views};

verus! {

/// The parts of a function item as parsed: its name; its parameters, each `None` for a
/// receiver, else `Some` of the pattern's identifier (`None` if the pattern is not one); and
/// its return type: `None` if it has none, else `Some` of the identifiers of the segments of
/// its path (`None` if it is not a path). `None` if the text is not a function item.
pub uninterp spec fn signature_of(item: Seq<char>) -> Option<
    (Seq<char>, Seq<Option<Option<Seq<char>>>>, Option<Option<Seq<Seq<char>>>>),
>;

/// A parameter as parsed: `None` for a receiver, else the pattern's identifier (if it is
/// one) with the token text of its type.
pub type ParsedInput = Option<(Option<String>, String)>;

/// A function item as parsed: its name, its parameters and the identifiers of its return
/// type's path segments (see `signature_of`).
pub type ParsedSignature = (String, Vec<ParsedInput>, Option<Option<Vec<String>>>);

/// A parameter as `signature_of` describes it.
pub open spec fn parsed_input_model(i: ParsedInput) -> Option<Option<Seq<char>>> {
    match i {
        None => None,
        Some((name, _)) => Some(
            match name {
                Some(n) => Some(n@),
                None => None,
            },
        ),
    }
}

/// A parsed signature as `signature_of` describes it: everything but the type texts.
pub open spec fn parsed_model(s: ParsedSignature) -> (
    Seq<char>,
    Seq<Option<Option<Seq<char>>>>,
    Option<Option<Seq<Seq<char>>>>,
) {
    (
        s.0@,
        s.1@.map_values(|i: ParsedInput| parsed_input_model(i)),
        match s.2 {
            Some(Some(v)) => Some(Some(views(v@))),
            Some(None) => Some(None),
            None => None,
        },
    )
}

/// Relies on `syn::parse_str::<syn::ItemFn>`: the name, the parameters' identifiers and the
/// return type's path segments of a function item. The type texts are `quote`'s token text,
/// of which nothing is claimed.
#[verifier::external_body]
fn parse_fn_item(item: &str) -> (r: Option<ParsedSignature>)
    ensures
        match r {
            Some(s) => signature_of(item@) == Some(parsed_model(s)),
            None => signature_of(item@) is None,
        },
{
    let f = parse_str::<ItemFn>(item).ok()?.sig;
    let inputs = f.inputs.iter().map(|a| match a {
        FnArg::Typed(t) => Some((if let Pat::Ident(p) = &*t.pat { Some(p.ident.to_string()) }
            else { None }, t.ty.to_token_stream().to_string())),
        _ => None,
    }).collect();
    let output = match &f.output {
        ReturnType::Type(_, t) => Some(if let Type::Path(p) = &**t {
            Some(p.path.segments.iter().map(|s| s.ident.to_string()).collect()) } else { None }),
        _ => None,
    };
    Some((f.ident.to_string(), inputs, output))
}

/// The signature of an annotated item: its name and its parameters.
#[derive(Debug)]
pub struct Signature {
    pub name: String,
    pub inputs: Vec<FnInput>,
}

/// The index just after the last `c` in `s`, or 0 if there is none.
pub open spec fn after_last(s: Seq<char>, c: char) -> int
    decreases s.len(),
{
    if s.len() == 0 {
        0
    } else if s.last() == c {
        s.len() as int
    } else {
        after_last(s.drop_last(), c)
    }
}

/// The last segment of a path, without its generic arguments: `Arc` for `std::sync::Arc<T>`.
pub open spec fn last_segment(path: Seq<char>) -> Seq<char> {
    let t = trimmed(path);
    let head = t.subrange(0, find_from(t, '<', 0));
    trimmed(head.subrange(after_last(head, ':'), head.len() as int))
}

/// The last segment of `path`, without its generic arguments.
pub fn last_segment_of(path: &str) -> (r: String)
    ensures
        r@ == last_segment(path@),
{
    let t = trim(path);
    let a = find_char(t.as_str(), '<');
    proof {
        find_from_bounds(t@, '<', 0);
    }
    let head = t.as_str().substring_char(0, a);
    let mut i: usize = a;
    assert(head@.subrange(0, i as int) =~= head@);
    while i > 0 && head.get_char(i - 1) != ':'
        invariant
            i <= head@.len(),
            after_last(head@, ':') == after_last(head@.subrange(0, i as int), ':'),
        decreases i,
    {
        assert(head@.subrange(0, i as int - 1) =~= head@.subrange(0, i as int).drop_last());
        i = i - 1;
    }
    trim(head.substring_char(i, a))
}

/// Whether every typed parameter is named by an identifier.
pub open spec fn named_inputs(inputs: Seq<FnInput>) -> bool {
    forall|k: int|
        0 <= k < inputs.len() ==> (#[trigger] inputs[k] matches FnInput::Typed { name, .. }
            ==> is_identifier(name@))
}

/// Whether every parameter of a parsed signature that is not a receiver is named by an
/// identifier.
pub open spec fn named_model(inputs: Seq<Option<Option<Seq<char>>>>) -> bool {
    forall|k: int|
        0 <= k < inputs.len() ==> (#[trigger] inputs[k] matches Some(p) ==> (p matches Some(n)
            && is_identifier(n)))
}

/// Whether the parameter `i` is the one that `signature_of` describes as `m`.
pub open spec fn input_fits(i: FnInput, m: Option<Option<Seq<char>>>) -> bool {
    match i {
        FnInput::Receiver => m is None,
        FnInput::Typed { name, .. } => m == Some(Some(name@)),
    }
}

/// Whether `s` is the signature that `signature_of` describes as `m`: the same name, and
/// the same receivers and parameter identifiers in the same places.
pub open spec fn signature_fits(
    s: Signature,
    m: (Seq<char>, Seq<Option<Option<Seq<char>>>>, Option<Option<Seq<Seq<char>>>>),
) -> bool {
    &&& s.name@ == m.0
    &&& s.inputs@.len() == m.1.len()
    &&& forall|k: int| 0 <= k < m.1.len() ==> input_fits(#[trigger] s.inputs@[k], m.1[k])
}

/// Whether a return type, as `signature_of` describes it, is exactly `Self`.
pub open spec fn returns_self(o: Option<Option<Seq<Seq<char>>>>) -> bool {
    o matches Some(Some(segs)) && segs == seq!["Self"@]
}

/// Whether a return type, as `signature_of` describes it, is a path ending in `Self`.
pub open spec fn ends_in_self(o: Option<Option<Seq<Seq<char>>>>) -> bool {
    o matches Some(Some(segs)) && segs.len() > 0 && segs.last() == "Self"@
}

/// The item an annotation is attached to.
#[derive(Debug)]
pub enum InjectInput {
    /// A function returning `Self`: it gains a self-construction function.
    Constructor(Signature),
    /// Any other function: it gains the macros behind the call form.
    FreeFunction(Signature),
}

/// The signature of an annotated item.
pub open spec fn signature_of_input(m: InjectInput) -> Signature {
    match m {
        InjectInput::Constructor(s) => s,
        InjectInput::FreeFunction(s) => s,
    }
}

/// How the item `item` is classified: `Some(true)` for a constructor, `Some(false)` for a
/// free function, `None` if it is no function or a free function returning `Self`.
pub open spec fn classify(item: Seq<char>) -> Option<bool> {
    match signature_of(item) {
        None => None,
        Some((_, _, output)) => if returns_self(output) {
            Some(true)
        } else if ends_in_self(output) {
            None
        } else {
            Some(false)
        },
    }
}

/// Whether the identifiers `segs` are the single segment `Self`, and whether the last is.
fn self_segments(segs: &Vec<String>) -> (r: (bool, bool))
    ensures
        r.0 == (views(segs@) == seq!["Self"@]),
        r.1 == (segs@.len() > 0 && views(segs@).last() == "Self"@),
{
    let s = String::from_str("Self");
    let n = segs.len();
    if n == 0 {
        return (false, false);
    }
    let last = segs[n - 1].eq(&s);
    assert(views(segs@).last() == segs@[n - 1]@);
    if n == 1 {
        assert(last ==> views(segs@) =~= seq!["Self"@]);
        (last, last)
    } else {
        (false, last)
    }
}

impl InjectInput {
    /// The signature of the item.
    pub fn signature(&self) -> (r: &Signature)
        ensures
            *r == signature_of_input(*self),
    {
        match self {
            InjectInput::Constructor(s) => s,
            InjectInput::FreeFunction(s) => s,
        }
    }

    /// The name of the item.
    pub fn name(&self) -> (r: &String)
        ensures
            *r == signature_of_input(*self).name,
    {
        &self.signature().name
    }

    /// The names of the item's parameters, in order.
    pub fn inputs(&self) -> (r: Vec<String>)
        ensures
            views(r@) == input_names(signature_of_input(*self).inputs@),
    {
        let inputs = &self.signature().inputs;
        let mut r: Vec<String> = Vec::new();
        let mut i: usize = 0;
        while i < inputs.len()
            invariant
                inputs == &signature_of_input(*self).inputs,
                i <= inputs@.len(),
                r@.len() == i,
                forall|k: int|
                    0 <= k < i ==> (#[trigger] r@[k])@ == crate::plan::input_name(inputs@[k]),
            decreases inputs@.len() - i,
        {
            match &inputs[i] {
                FnInput::Typed { name, .. } => r.push(name.clone()),
                FnInput::Receiver => r.push(String::new()),
            }
            i = i + 1;
        }
        assert(views(r@) =~= input_names(inputs@));
        r
    }

    /// Parses an annotated item. A function returning `Self` is a constructor; a function
    /// whose return type otherwise ends in `Self` is refused; any other is a free function.
    /// Each parameter other than a receiver must be named by an identifier.
    pub fn parse(item: &str) -> (r: Result<InjectInput, ExpandError>)
        ensures
            match signature_of(item@) {
                None => r matches Err(ExpandError::Malformed(_)),
                Some(sig) => if classify(item@) is None {
                    r matches Err(ExpandError::SelfInFreeFunction)
                } else if !named_model(sig.1) {
                    r matches Err(ExpandError::Malformed(_))
                } else {
                    r matches Ok(m) && classify(item@) == Some(m is Constructor) && signature_fits(
                        signature_of_input(m),
                        sig,
                    ) && named_inputs(signature_of_input(m).inputs@)
                },
            },
    {
        proof {
            reveal_strlit("Self");
        }
        let parsed = match parse_fn_item(item) {
            Some(s) => s,
            None => {
                return Err(ExpandError::Malformed(String::from_str("expected a function")));
            },
        };
        let ghost model = parsed_model(parsed);
        let constructor = match &parsed.2 {
            Some(Some(segs)) => {
                let (exactly, ends) = self_segments(segs);
                if !exactly && ends {
                    return Err(ExpandError::SelfInFreeFunction);
                }
                exactly
            },
            _ => false,
        };
        let (name, parsed_inputs, _) = parsed;
        let mut inputs: Vec<FnInput> = Vec::new();
        let mut i: usize = 0;
        while i < parsed_inputs.len()
            invariant
                signature_of(item@) == Some(model),
                classify(item@) == Some(constructor),
                model.1 == parsed_inputs@.map_values(|p: ParsedInput| parsed_input_model(p)),
                i <= parsed_inputs@.len(),
                inputs@.len() == i,
                forall|k: int| 0 <= k < i ==> input_fits(#[trigger] inputs@[k], model.1[k]),
                forall|k: int| 0 <= k < i ==> (#[trigger] model.1[k] matches Some(p) ==> (p matches Some(n)
                    && is_identifier(n))),
            decreases parsed_inputs@.len() - i,
        {
            match &parsed_inputs[i] {
                None => inputs.push(FnInput::Receiver),
                Some((Some(n), ty)) => {
                    assert(model.1[i as int] == parsed_input_model(parsed_inputs@[i as int]));
                    if !parses_as_identifier(n.as_str()) {
                        assert(!named_model(model.1));
                        return Err(
                            ExpandError::Malformed(String::from_str("expected an identifier pattern")),
                        );
                    }
                    inputs.push(FnInput::Typed { name: n.clone(), ty: ty.clone() });
                },
                Some((None, _)) => {
                    assert(model.1[i as int] == parsed_input_model(parsed_inputs@[i as int]));
                    assert(!named_model(model.1));
                    return Err(
                        ExpandError::Malformed(String::from_str("expected an identifier pattern")),
                    );
                },
            }
            i = i + 1;
        }
        let sig = Signature { name, inputs };
        if constructor {
            Ok(InjectInput::Constructor(sig))
        } else {
            Ok(InjectInput::FreeFunction(sig))
        }
    }
}

/// Whether an item can be annotated.
pub open spec fn item_ok(item: Seq<char>) -> bool {
    signature_of(item) matches Some(sig) && named_model(sig.1) && classify(item) is Some
}

/// Whether annotation arguments are well formed, with no name twice among one kind.
pub open spec fn arguments_ok(s: Seq<char>) -> bool {
    crate::arguments::all_clauses(list_items(s)) && crate::names::distinct(
        crate::arguments::default_names(clause_defaults(list_items(s))),
    ) && crate::names::distinct(clause_excluded(list_items(s)))
}

/// The code generated for an annotation `args` on an item with signature `sig`.
pub open spec fn generated_code(args: InjectArgs, constructor: bool, sig: Signature) -> Seq<char> {
    if constructor {
        constructor_code(sig.name@, planned(args, sig.inputs@))
    } else {
        free_function_code(sig.name@, input_names(sig.inputs@), planned(args, sig.inputs@))
    }
}

/// An annotation together with the item it is attached to.
#[derive(Debug)]
pub struct Inject {
    /// The text of the annotated item, which the expansion keeps.
    pub origin: String,
    pub args: InjectArgs,
    pub method: InjectInput,
}

impl Inject {
    /// Parses the annotated item and then the annotation's arguments.
    pub fn try_parse(arguments: &str, method: &str) -> (r: Result<Inject, ExpandError>)
        ensures
            r is Ok <==> item_ok(method@) && arguments_ok(arguments@),
            r matches Ok(i) ==> {
                &&& i.origin@ == method@
                &&& classify(method@) == Some(i.method is Constructor)
                &&& signature_fits(signature_of_input(i.method), signature_of(method@)->0)
                &&& named_inputs(signature_of_input(i.method).inputs@)
                &&& defaults_of(i.args) == clause_defaults(list_items(arguments@))
                &&& excluded_of(i.args) == clause_excluded(list_items(arguments@))
            },
    {
        let m = match InjectInput::parse(method) {
            Ok(m) => m,
            Err(e) => {
                return Err(e);
            },
        };
        let args = match InjectArgs::parse(arguments) {
            Ok(a) => a,
            Err(e) => {
                return Err(e);
            },
        };
        Ok(Inject { origin: String::from_str(method), args, method: m })
    }

    /// The code the annotation adds after the item: the self-construction function of a
    /// constructor, or the two macros of a free function. A receiver among the parameters, or
    /// an argument naming no parameter, is an error.
    pub fn generated(&self) -> (r: Result<String, ExpandError>)
        ensures
            has_receiver(signature_of_input(self.method).inputs@) ==> r matches Err(
                ExpandError::SelfReceiver,
            ),
            !has_receiver(signature_of_input(self.method).inputs@) && !all_known(
                self.args,
                signature_of_input(self.method).inputs@,
            ) ==> r matches Err(ExpandError::Unknown { .. }),
            !has_receiver(signature_of_input(self.method).inputs@) && all_known(
                self.args,
                signature_of_input(self.method).inputs@,
            ) ==> (r matches Ok(t) && t@ == generated_code(
                self.args,
                self.method is Constructor,
                signature_of_input(self.method),
            )),
    {
        let sig = self.method.signature();
        let plan = match self.args.expand_signature(&sig.inputs) {
            Ok(p) => p,
            Err(e) => {
                return Err(e);
            },
        };
        let code = match &self.method {
            InjectInput::Constructor(_) => expand_constructor(sig.name.as_str(), &plan),
            InjectInput::FreeFunction(_) => {
                let names = self.method.inputs();
                assert(views(names@).len() == names@.len());
                assert(crate::plan::plan_views(plan@).len() == plan@.len());
                expand_free_function(sig.name.as_str(), &names, &plan)
            },
        };
        Ok(code)
    }

    /// Expands the annotation: the item itself, followed by the code the annotation adds.
    pub fn expand(&self) -> (r: Result<String, ExpandError>)
        ensures
            has_receiver(signature_of_input(self.method).inputs@) ==> r matches Err(
                ExpandError::SelfReceiver,
            ),
            !has_receiver(signature_of_input(self.method).inputs@) && !all_known(
                self.args,
                signature_of_input(self.method).inputs@,
            ) ==> r matches Err(ExpandError::Unknown { .. }),
            !has_receiver(signature_of_input(self.method).inputs@) && all_known(
                self.args,
                signature_of_input(self.method).inputs@,
            ) ==> (r matches Ok(t) && t@ == self.origin@ + " "@ + generated_code(
                self.args,
                self.method is Constructor,
                signature_of_input(self.method),
            )),
    {
        let code = match self.generated() {
            Ok(c) => c,
            Err(e) => {
                return Err(e);
            },
        };
        let mut t = self.origin.clone();
        t.append(" ");
        t.append(code.as_str());
        Ok(t)
    }
}

} // verus!

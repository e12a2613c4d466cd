use quote::ToTokens;

use inject::arguments::{DefaultArgs, InjectArgs, NoInjectArgs};
use inject::expand::{expand_constructor, expand_free_function};
use inject::forms::call::{Call, Kwargs};
use inject::forms::container::Container as ContainerForm;
use inject::forms::get::Get;
use inject::input::{last_segment_of, Inject, InjectInput};
use inject::plan::{FnInput, Resolution};
use inject::text::{split_top_level, trim};
use inject::ExpandError;

/// The token text of `s`, as a token stream prints it.
fn tokens(s: &str) -> String {
    s.parse::<proc_macro2::TokenStream>().unwrap().to_string()
}

/// The token text of the expression `s`, as syn prints it back.
fn expression_tokens(s: &str) -> String {
    syn::parse_str::<syn::Expr>(s).unwrap().to_token_stream().to_string()
}

fn typed(name: &str, ty: &str) -> FnInput {
    FnInput::Typed { name: name.to_string(), ty: ty.to_string() }
}

#[test]
fn kwargs_test_parsing_args() {
    let kwargs = Kwargs::parse("kwargs = { a: \"Hi\", b: A::new(), c: P }").unwrap();
    let members = vec!["a", "b", "c"];

    assert_eq!(kwargs.fields.len(), members.len());

    for kwarg in kwargs.fields {
        assert!(members.contains(&kwarg.member.as_str()));
    }
}

#[test]
fn test_to_tokens_for_kwarg() {
    let kwargs = Kwargs::parse("kwargs = { a: \"Hi\" }").unwrap();
    let expected = tokens("a: \"Hi\"");

    assert_eq!(expected, tokens(&kwargs.fields[0].to_code()))
}

#[test]
fn mod_test_parsing_args() {
    let call = Call::parse("&container, a_func").unwrap();

    assert!(call.func == "a_func");
}

#[test]
fn test_parsing_args_with_kwargs() {
    let call = Call::parse("&container, a_func, kwargs = { a: 1 }").unwrap();

    assert!(call.func == "a_func");
}

#[test]
fn mod_test_expansion() {
    let call = Call::parse("&container, a_func").unwrap().expand();

    let expected = tokens("__inject_a_func!(&container)");

    assert_eq!(tokens(&call), expected)
}

#[test]
fn test_expansion_with_kwargs() {
    let call = Call::parse("&container, a_func, kwargs = { a: 1 }").unwrap().expand();

    let expected = tokens("__inject_a_func!(&container, a: 1)");

    assert_eq!(tokens(&call), expected)
}

#[test]
fn get_test_parsing_args() {
    let get = Get::parse("&container, A<isize>").unwrap();

    assert_eq!(tokens(&get.ident), "A < isize >");
    assert_eq!(tokens(&get.expr), "& container");
}

#[test]
fn get_test_expansion() {
    let get = Get::parse("&container, A<isize>").unwrap().expand();

    let expected = expression_tokens(
        "{ use ::inject::{Inject, InjectExt}; (&container).get::<A<isize > >().or_else(|_| < A < isize > >::inject(& container ) ) }",
    );

    assert_eq!(expression_tokens(&get), expected)
}

#[test]
fn test_arc_expansion() {
    let get = Get::parse("&container, Arc<A<isize>>").unwrap().expand();

    let expected = expression_tokens("{ use ::inject::{Inject, InjectExt}; (&container).get::<Arc<A<isize > > >() }");

    assert_eq!(expression_tokens(&get), expected)
}

#[test]
fn get_reference_and_create_flag() {
    let get = Get::parse("&container, &Data").unwrap();
    assert!(get.reference);
    assert_eq!(get.ident, "Data");
    assert_eq!(
        expression_tokens(&get.expand()),
        expression_tokens("{ use ::inject::{Inject, InjectExt}; (&container).get_ref::<Data>() }")
    );

    let get = Get::parse("&container, Data, create: false").unwrap();
    assert_eq!(get.create, Some(false));
    assert!(!get.can_fallback());
    assert_eq!(
        expression_tokens(&get.expand()),
        expression_tokens("{ use ::inject::{Inject, InjectExt}; (&container).get::<Data>() }")
    );

    assert!(Get::parse("&container, Data, create: maybe").is_err());
    assert!(Get::parse("&container").is_err());
}

#[test]
fn last_segment_ignores_generics_and_module_path() {
    assert_eq!(last_segment_of("std::sync::Arc<Data>"), "Arc");
    assert_eq!(last_segment_of("std :: sync :: Arc < Data >"), "Arc");
    assert_eq!(last_segment_of("Data"), "Data");
}

#[test]
fn split_respects_brackets_and_strings() {
    let p = split_top_level("a, (b, c), \"d,e\", [f, g]", ',', false);
    assert_eq!(p, vec!["a", " (b, c)", " \"d,e\"", " [f, g]"]);
    let p = split_top_level("a: HashMap<K, V>, b: Box<dyn Fn(A) -> B>", ',', true);
    assert_eq!(p, vec!["a: HashMap<K, V>", " b: Box<dyn Fn(A) -> B>"]);
    assert_eq!(trim("  x y \n"), "x y");
}

#[test]
fn annotation_arguments_parse_and_merge() {
    let args = InjectArgs::parse("default(a = 1), no_inject(a)").unwrap();
    let d = args.default_args.unwrap();
    assert_eq!(d.fields.len(), 1);
    assert_eq!(d.fields[0].name, "a");
    assert_eq!(d.fields[0].value, "1");
    assert_eq!(args.no_inject_args.unwrap().fields, vec!["a"]);

    let args = InjectArgs::parse("default(a), default(b = Data { a: 2 },)").unwrap();
    let d = args.default_args.unwrap();
    assert_eq!(d.fields[0].value, "Default::default()");
    assert_eq!(d.fields[1].value, "Data { a: 2 }");
    assert!(args.no_inject_args.is_none());

    let args = InjectArgs::parse("").unwrap();
    assert!(args.default_args.is_none() && args.no_inject_args.is_none());
}

#[test]
fn duplicate_names_are_rejected() {
    assert!(matches!(InjectArgs::parse("default(a), default(a = 2)"), Err(ExpandError::Duplicate(n)) if n == "a"));
    assert!(matches!(InjectArgs::parse("no_inject(a, a)"), Err(ExpandError::Duplicate(n)) if n == "a"));
    assert!(matches!(InjectArgs::parse("default(b = 1, b)"), Err(ExpandError::Duplicate(n)) if n == "b"));
    let a = DefaultArgs::parse("x").unwrap();
    let b = DefaultArgs::parse("x = 3").unwrap();
    assert!(matches!(a.merge(b), Err(ExpandError::Duplicate(n)) if n == "x"));
    let a = NoInjectArgs::parse("x").unwrap();
    let b = NoInjectArgs::parse("y").unwrap();
    assert_eq!(a.merge(b).unwrap().fields, vec!["x", "y"]);
    assert_eq!(ExpandError::Duplicate("a".to_string()).message(), "duplicate identifier 'a'");
}

#[test]
fn malformed_annotation_arguments_are_rejected() {
    assert!(matches!(InjectArgs::parse("defaults(a)"), Err(ExpandError::Malformed(_))));
    assert!(matches!(InjectArgs::parse("default(1 = a)"), Err(ExpandError::Malformed(_))));
    assert!(matches!(InjectArgs::parse("no_inject(a b)"), Err(ExpandError::Malformed(_))));
}

#[test]
fn plan_uses_literal_fallback_for_excluded_parameter() {
    let args = InjectArgs::parse("default(a = 1), no_inject(a)").unwrap();
    let plan = args.expand_signature(&vec![typed("a", "isize")]).unwrap();
    assert_eq!(plan.len(), 1);
    assert_eq!(plan[0].ty, "isize");
    assert!(!plan[0].create);
    assert_eq!(plan[0].fallback.as_deref(), Some("1"));
    assert_eq!(plan[0].to_code(), "::inject::get!(container, isize, create: false).or_else(|_| Ok(1))?");
}

#[test]
fn plan_without_annotation_resolves_with_creation() {
    let args = InjectArgs::parse("").unwrap();
    let plan = args.expand_signature(&vec![typed("data", "Data"), typed("b", "isize")]).unwrap();
    assert_eq!(plan.len(), 2);
    assert!(plan[0].create && plan[1].create);
    assert!(plan[0].fallback.is_none());
    assert_eq!(plan[1].to_code(), "::inject::get!(container, isize, create: true)?");
}

#[test]
fn unknown_parameter_is_rejected_with_valid_names() {
    let args = InjectArgs::parse("default(c = 1)").unwrap();
    let err = args.expand_signature(&vec![typed("a", "isize"), typed("b", "isize")]).unwrap_err();
    assert!(matches!(&err, ExpandError::Unknown { name, .. } if name == "c"));
    assert_eq!(err.message(), "unknown identifier, expected 'a', 'b'");

    let args = InjectArgs::parse("no_inject(z)").unwrap();
    assert!(matches!(args.expand_signature(&vec![typed("a", "isize")]), Err(ExpandError::Unknown { .. })));
}

#[test]
fn receiver_is_rejected() {
    let args = InjectArgs::parse("").unwrap();
    let err = args.expand_signature(&vec![FnInput::Receiver, typed("a", "isize")]).unwrap_err();
    assert!(matches!(err, ExpandError::SelfReceiver));
    assert_eq!(err.message(), "not allowed to reference 'self'");

    let inject = Inject::try_parse("", "fn m(&self) -> isize { 1 }").unwrap();
    assert!(matches!(inject.expand(), Err(ExpandError::SelfReceiver)));
}

#[test]
fn constructor_gains_self_construction() {
    let inject = Inject::try_parse("default(a = 1), no_inject(a)", "pub fn new(a: isize) -> Self { Data { a } }").unwrap();
    assert!(matches!(inject.method, InjectInput::Constructor(_)));
    assert_eq!(inject.method.name(), "new");
    assert_eq!(inject.method.inputs(), vec!["a"]);
    let code = inject.expand().unwrap();
    assert_eq!(
        code,
        "pub fn new(a: isize) -> Self { Data { a } } pub fn inject(container: &::inject::Container) -> Result<Self, ::inject::InjectError> { Ok(Self::new(::inject::get!(container, isize, create: false).or_else(|_| Ok(1))?, )) }"
    );
    assert!(tokens(&code).len() > 0);
}

#[test]
fn free_function_gains_call_macros() {
    let inject = Inject::try_parse("", "fn f(a: isize) -> isize { a + 1 }").unwrap();
    assert!(matches!(inject.method, InjectInput::FreeFunction(_)));
    let code = inject.expand().unwrap();
    let expected = "fn f(a: isize) -> isize { a + 1 } \
        #[doc(hidden)] #[macro_export] macro_rules! __inject_f_expand { ( ) => { }; \
        ( $container:expr, a ; a : $arg:expr $(, $rk:ident : $rv:expr)* ) => { $arg }; \
        ( $container:expr, a ; $other:ident : $oarg:expr $(, $rk:ident : $rv:expr)* ) => { __inject_f_expand!($container, a ; $( $rk : $rv ),* ) }; \
        ( $container:expr, a ; ) => { { let container = $container; ::inject::get!(container, isize, create: true)? } }; } \
        #[doc(hidden)] #[macro_export] macro_rules! __inject_f { ($container:expr $(, $k:ident : $v:expr)* $(,)?) => { { \
        let __helper = |container: &::inject::Container| { Ok(f(__inject_f_expand!($container, a ; $( $k : $v ),* ), )) }; \
        let result: Result<_, ::inject::InjectError> = __helper($container); result } }; }";
    assert_eq!(tokens(&code), tokens(expected));
}

#[test]
fn generated_code_for_planned_parameters() {
    let plan = vec![Resolution { ty: "Data".to_string(), create: true, fallback: None }];
    assert_eq!(
        expand_constructor("new", &plan),
        "pub fn inject(container: &::inject::Container) -> Result<Self, ::inject::InjectError> { Ok(Self::new(::inject::get!(container, Data, create: true)?, )) }"
    );
    let code = expand_free_function("g", &vec!["d".to_string()], &plan);
    assert!(code.contains("( $container:expr, d ; d : $arg:expr $(, $rk:ident : $rv:expr)* ) => { $arg };"));
    assert!(code.contains("macro_rules! __inject_g {"));
}

#[test]
fn self_return_makes_a_constructor() {
    assert!(matches!(InjectInput::parse("fn new() -> Self { Self }"), Ok(InjectInput::Constructor(_))));
    assert!(matches!(InjectInput::parse("fn run() { }"), Ok(InjectInput::FreeFunction(_))));
    assert!(matches!(InjectInput::parse("struct S;"), Err(ExpandError::Malformed(_))));
    assert!(matches!(InjectInput::parse("fn pair((a, b): (u8, u8)) { }"), Err(ExpandError::Malformed(_))));
}

#[test]
fn container_form_installs_each_provider() {
    let form = ContainerForm::parse("|container: &Container| Ok(2usize), ref reference_provider,").unwrap();
    assert_eq!(form.providers.len(), 2);
    assert!(!form.providers[0].ref_token);
    assert!(form.providers[1].ref_token);
    assert_eq!(form.providers[1].provider, "reference_provider");
    assert_eq!(
        tokens(&form.expand()),
        tokens("{ let mut container = ::inject::Container::new(); container.install(|container: &Container| Ok(2usize)); container.install_ref(reference_provider); container }")
    );
    let empty = ContainerForm::parse("").unwrap();
    assert_eq!(empty.providers.len(), 0);
    assert!(ContainerForm::parse("ref").is_err());
}

#[test]
fn leaf_syntax_is_checked() {
    assert!(matches!(Get::parse("&container, 3"), Err(ExpandError::Malformed(_))));
    assert!(matches!(Get::parse("let, Data"), Err(ExpandError::Malformed(_))));
    assert!(matches!(Call::parse("&container, fn"), Err(ExpandError::Malformed(_))));
    assert!(Kwargs::parse("kwargs = { a: }").is_none());
    assert!(Kwargs::parse("kwargs = { a: 1, b: 2, }").unwrap().fields.len() == 2);
    assert!(matches!(DefaultArgs::parse("a = +"), Err(ExpandError::Malformed(_))));
    assert!(matches!(NoInjectArgs::parse("self"), Err(ExpandError::Malformed(_))));
}

#[test]
fn get_form_expression_may_compare() {
    let get = Get::parse("if a < b { &x } else { &y }, HashMap<K, V>, create: false").unwrap();
    assert_eq!(get.expr, "if a < b { &x } else { &y }");
    assert_eq!(get.ident, "HashMap<K, V>");
    assert_eq!(get.create, Some(false));
    assert!(Get::parse("&container, Data, create: true, x").is_err());
}

#[test]
fn character_literals_do_not_split() {
    let p = split_top_level("a(','), ',', '\\'', &'a str", ',', false);
    assert_eq!(p, vec!["a(',')", " ','", " '\\''", " &'a str"]);
}

#[test]
fn generic_commas_inside_expressions_do_not_split() {
    let args = InjectArgs::parse("default(a = HashMap::<K, V>::new(), b)").unwrap();
    let d = args.default_args.unwrap();
    assert_eq!(d.fields.len(), 2);
    assert_eq!(d.fields[0].value, "HashMap::<K, V>::new()");
    assert_eq!(d.fields[1].name, "b");

    let kwargs = Kwargs::parse("kwargs = { b: f::<A, B>(), c: 1 }").unwrap();
    assert_eq!(kwargs.fields.len(), 2);
    assert_eq!(kwargs.fields[0].expr, "f::<A, B>()");

    let form = ContainerForm::parse("Pair::<A, B>::default(), ref x").unwrap();
    assert_eq!(form.providers.len(), 2);
    assert_eq!(form.providers[0].provider, "Pair::<A, B>::default()");

    let get = Get::parse("make::<A, B>(), Data").unwrap();
    assert_eq!(get.expr, "make::<A, B>()");
    assert_eq!(get.ident, "Data");

    let call = Call::parse("make::<A, B>(), f, kwargs = { a: 1 }").unwrap();
    assert_eq!(call.ident, "make::<A, B>()");
    assert_eq!(call.func, "f");

    assert!(InjectArgs::parse("default(a = f::<A)").is_err());
}

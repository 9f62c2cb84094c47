use enum_from_functions::diag::DiagKind;
use enum_from_functions::enum_from_functions;
use enum_from_functions::model::{Arg, ArgToken, ImplBlock, Member, Pattern, Ret, Signature};

fn sig(name: &str, inputs: Vec<Arg>, output: Ret) -> Signature {
    Signature {
        name: name.to_string(),
        inputs,
        output,
        output_span: 0,
        asyncness: None,
        constness: None,
        unsafety: None,
    }
}

fn named(pat: &str, ty: &str) -> Arg {
    Arg::Typed {
        pat: Pattern::Named(pat.to_string()),
        ty: ty.to_string(),
        span: 0,
    }
}

fn block(name: &str, items: Vec<Member>) -> ImplBlock {
    ImplBlock {
        attrs: Vec::new(),
        self_ty: name.to_string(),
        items,
    }
}

fn tok(text: &str, span: u64) -> ArgToken {
    ArgToken {
        text: text.to_string(),
        span,
    }
}

#[test]
fn scenario_foo_bar() {
    // foo() -> &'static str and bar(baz: i32) -> &'static str.
    let input = block(
        "Enum",
        vec![
            Member::Function(sig("foo", vec![], Ret::Ty("&'static str".to_string()))),
            Member::Function(sig(
                "bar",
                vec![named("baz", "i32")],
                Ret::Ty("&'static str".to_string()),
            )),
        ],
    );
    let out = enum_from_functions(&vec![], &input).unwrap();
    assert!(out.diagnostics.is_empty());

    assert_eq!(out.enum_decl.name, "Enum");
    assert_eq!(out.enum_decl.vis, None);
    assert_eq!(out.enum_decl.variants.len(), 2);
    assert_eq!(out.enum_decl.variants[0].ident, "Foo");
    assert!(out.enum_decl.variants[0].fields.is_none());
    assert_eq!(out.enum_decl.variants[1].ident, "Bar");
    let bar_fields = out.enum_decl.variants[1].fields.as_ref().unwrap();
    assert_eq!(bar_fields.len(), 1);
    assert_eq!(bar_fields[0].name, "baz");
    assert_eq!(bar_fields[0].ty, "i32");

    // Dispatching `Bar { baz }` forwards exactly `baz` to `bar`.
    assert_eq!(out.dispatch_fn.arms.len(), 2);
    let foo_arm = &out.dispatch_fn.arms[0];
    assert_eq!(foo_arm.variant_ident, "Foo");
    assert!(foo_arm.fields.is_none());
    assert_eq!(foo_arm.call.func, "foo");
    assert!(foo_arm.call.args.is_empty());
    assert!(foo_arm.call.receiver.is_none());
    assert!(!foo_arm.call.awaited);
    let bar_arm = &out.dispatch_fn.arms[1];
    assert_eq!(bar_arm.variant_ident, "Bar");
    assert_eq!(bar_arm.fields.as_ref().unwrap(), &vec!["baz".to_string()]);
    assert_eq!(bar_arm.call.func, "bar");
    assert_eq!(bar_arm.call.args, vec!["baz".to_string()]);

    match &out.dispatch_fn.output {
        Ret::Ty(t) => assert_eq!(t, "&'static str"),
        Ret::Default => panic!("expected a unified return type"),
    }
}

#[test]
fn empty_impl_block() {
    let input = block("EmptyEnum", vec![]);
    let out = enum_from_functions(&vec![], &input).unwrap();
    assert!(out.diagnostics.is_empty());
    assert!(out.enum_decl.variants.is_empty());
    assert!(out.dispatch_fn.arms.is_empty());
    assert!(matches!(out.dispatch_fn.output, Ret::Default));
    assert_eq!(out.dispatch_fn.asyncness, None);
    assert_eq!(out.dispatch_fn.constness, None);
    assert_eq!(out.dispatch_fn.unsafety, None);
}

#[test]
fn discarded_argument_contributes_no_field() {
    // f(x: T, _: U) has exactly one field, x of type T.
    let discard = Arg::Typed {
        pat: Pattern::Discard,
        ty: "U".to_string(),
        span: 0,
    };
    let input = block(
        "Enum",
        vec![Member::Function(sig(
            "f",
            vec![named("x", "T"), discard],
            Ret::Default,
        ))],
    );
    let out = enum_from_functions(&vec![], &input).unwrap();
    let fields = out.enum_decl.variants[0].fields.as_ref().unwrap();
    assert_eq!(fields.len(), 1);
    assert_eq!(fields[0].name, "x");
    assert_eq!(fields[0].ty, "T");
    // The arm pattern binds x alone, and the call forwards x alone.
    assert_eq!(
        out.dispatch_fn.arms[0].fields.as_ref().unwrap(),
        &vec!["x".to_string()]
    );
    assert_eq!(out.dispatch_fn.arms[0].call.args, vec!["x".to_string()]);
}

#[test]
fn snake_case_name_becomes_pascal_variant() {
    let input = block(
        "Enum",
        vec![Member::Function(sig("foo_bar_baz", vec![], Ret::Default))],
    );
    let out = enum_from_functions(&vec![], &input).unwrap();
    assert_eq!(out.enum_decl.variants[0].ident, "FooBarBaz");
}

#[test]
fn async_and_const_mix_is_fatal() {
    let mut foo = sig("foo", vec![], Ret::Default);
    foo.asyncness = Some(11);
    let mut bar = sig("bar", vec![], Ret::Default);
    bar.constness = Some(22);
    let input = block("Enum", vec![Member::Function(foo), Member::Function(bar)]);
    let err = enum_from_functions(&vec![], &input).unwrap_err();
    assert_eq!(err.len(), 2);
    assert_eq!(err[0].kind, DiagKind::EffectQualifierConflict);
    assert_eq!(err[0].span, 11);
    assert_eq!(err[1].kind, DiagKind::EffectQualifierConflict);
    assert_eq!(err[1].span, 22);
}

#[test]
fn return_type_mismatch_is_reported_not_fatal() {
    let mut foo = sig("foo", vec![], Ret::Ty("&'static str".to_string()));
    foo.output_span = 1;
    let mut bar = sig("bar", vec![], Ret::Ty("String".to_string()));
    bar.output_span = 2;
    let input = block("Enum", vec![Member::Function(foo), Member::Function(bar)]);
    let out = enum_from_functions(&vec![], &input).unwrap();
    // Both ends of the mismatch are reported, and the first-seen type wins.
    assert_eq!(out.diagnostics.len(), 2);
    assert_eq!(out.diagnostics[0].kind, DiagKind::ReturnTypeMismatch);
    assert_eq!(out.diagnostics[0].span, 1);
    assert_eq!(out.diagnostics[1].kind, DiagKind::ReturnTypeMismatch);
    assert_eq!(out.diagnostics[1].span, 2);
    match &out.dispatch_fn.output {
        Ret::Ty(t) => assert_eq!(t, "&'static str"),
        Ret::Default => panic!("expected the first-seen return type"),
    }
}

#[test]
fn invalid_invocation_argument_is_fatal() {
    let input = block("Enum", vec![]);
    let err = enum_from_functions(&vec![tok("priv", 7)], &input).unwrap_err();
    assert_eq!(err.len(), 1);
    assert_eq!(err[0].kind, DiagKind::InvalidInvocationArgument);
    assert_eq!(err[0].span, 7);
}

#[test]
fn extra_invocation_argument_is_fatal() {
    let input = block("Enum", vec![]);
    let err = enum_from_functions(&vec![tok("pub", 1), tok("pub", 2)], &input).unwrap_err();
    assert_eq!(err.len(), 1);
    assert_eq!(err[0].kind, DiagKind::InvalidInvocationArgument);
    assert_eq!(err[0].span, 2);
}

#[test]
fn visibility_marker_is_carried() {
    let input = block(
        "Visible",
        vec![Member::Function(sig("example", vec![], Ret::Ty("bool".to_string())))],
    );
    let out = enum_from_functions(&vec![tok("pub", 5)], &input).unwrap();
    assert_eq!(out.enum_decl.vis, Some(5));
    assert_eq!(out.dispatch_fn.vis, Some(5));
}

#[test]
fn no_argument_yields_private_enum() {
    let input = block(
        "NotVisible",
        vec![Member::Function(sig("example", vec![], Ret::Ty("bool".to_string())))],
    );
    let out = enum_from_functions(&vec![], &input).unwrap();
    assert_eq!(out.enum_decl.vis, None);
    assert_eq!(out.dispatch_fn.vis, None);
}

#[test]
fn destructuring_pattern_is_fatal() {
    let odd = Arg::Typed {
        pat: Pattern::Other("(a, b)".to_string()),
        ty: "(i32, i32)".to_string(),
        span: 9,
    };
    let input = block("Enum", vec![Member::Function(sig("f", vec![odd], Ret::Default))]);
    let err = enum_from_functions(&vec![], &input).unwrap_err();
    assert_eq!(err.len(), 1);
    assert_eq!(err[0].kind, DiagKind::UnsupportedBindingPattern);
    assert_eq!(err[0].span, 9);
}

#[test]
fn async_function_makes_dispatch_async_and_arm_awaited() {
    let mut foo = sig("foo", vec![], Ret::Ty("&'static str".to_string()));
    foo.asyncness = Some(3);
    let bar = sig("bar", vec![], Ret::Ty("&'static str".to_string()));
    let input = block("Enum", vec![Member::Function(foo), Member::Function(bar)]);
    let out = enum_from_functions(&vec![], &input).unwrap();
    assert_eq!(out.dispatch_fn.asyncness, Some(3));
    assert!(out.dispatch_fn.arms[0].call.awaited);
    assert!(!out.dispatch_fn.arms[1].call.awaited);
}

#[test]
fn unsafe_and_const_are_propagated() {
    let mut foo = sig("foo", vec![], Ret::Default);
    foo.unsafety = Some(4);
    foo.constness = Some(6);
    let input = block("Enum", vec![Member::Function(foo)]);
    let out = enum_from_functions(&vec![], &input).unwrap();
    assert_eq!(out.dispatch_fn.unsafety, Some(4));
    assert_eq!(out.dispatch_fn.constness, Some(6));
    assert_eq!(out.dispatch_fn.asyncness, None);
    assert!(!out.dispatch_fn.arms[0].call.awaited);
}

#[test]
fn later_qualifier_keyword_wins_the_span() {
    let mut foo = sig("foo", vec![], Ret::Default);
    foo.asyncness = Some(1);
    let mut bar = sig("bar", vec![], Ret::Default);
    bar.asyncness = Some(2);
    let input = block("Enum", vec![Member::Function(foo), Member::Function(bar)]);
    let out = enum_from_functions(&vec![], &input).unwrap();
    assert_eq!(out.dispatch_fn.asyncness, Some(2));
}

#[test]
fn receiver_is_forwarded_first_and_contributes_no_field() {
    let recv = Arg::Receiver("&self".to_string());
    let input = block(
        "Enum",
        vec![Member::Function(sig(
            "method",
            vec![recv, named("x", "i32")],
            Ret::Default,
        ))],
    );
    let out = enum_from_functions(&vec![], &input).unwrap();
    let fields = out.enum_decl.variants[0].fields.as_ref().unwrap();
    assert_eq!(fields.len(), 1);
    assert_eq!(fields[0].name, "x");
    let arm = &out.dispatch_fn.arms[0];
    assert_eq!(arm.call.receiver.as_ref().unwrap(), "&self");
    assert_eq!(arm.call.args, vec!["x".to_string()]);
}

#[test]
fn attributes_move_from_block_to_enum() {
    let mut input = block(
        "Enum",
        vec![
            Member::Other("const FOO: &'static str = \"Foo\";".to_string()),
            Member::Function(sig("foo", vec![], Ret::Ty("&'static str".to_string()))),
        ],
    );
    input.attrs.push("#[derive(Debug)]".to_string());
    let out = enum_from_functions(&vec![], &input).unwrap();
    assert_eq!(out.enum_decl.attrs, vec!["#[derive(Debug)]".to_string()]);
    assert!(out.impl_block.attrs.is_empty());
    // Non-function members pass through untouched, in place.
    assert_eq!(out.impl_block.items.len(), 2);
    match &out.impl_block.items[0] {
        Member::Other(text) => assert_eq!(text, "const FOO: &'static str = \"Foo\";"),
        Member::Function(_) => panic!("expected the constant to pass through first"),
    }
    match &out.impl_block.items[1] {
        Member::Function(s) => assert_eq!(s.name, "foo"),
        Member::Other(_) => panic!("expected the function to pass through second"),
    }
    // Only the function contributes a variant.
    assert_eq!(out.enum_decl.variants.len(), 1);
    assert_eq!(out.enum_decl.variants[0].ident, "Foo");
}

#[test]
fn mismatches_collected_before_fatal_conflict() {
    let mut a = sig("a", vec![], Ret::Ty("X".to_string()));
    a.output_span = 1;
    let mut b = sig("b", vec![], Ret::Ty("Y".to_string()));
    b.output_span = 2;
    b.asyncness = Some(3);
    let mut c = sig("c", vec![], Ret::Ty("X".to_string()));
    c.constness = Some(4);
    let input = block(
        "Enum",
        vec![Member::Function(a), Member::Function(b), Member::Function(c)],
    );
    let err = enum_from_functions(&vec![], &input).unwrap_err();
    // The return-type pair for b, then the conflict pair at c.
    assert_eq!(err.len(), 4);
    assert_eq!(err[0].kind, DiagKind::ReturnTypeMismatch);
    assert_eq!(err[0].span, 1);
    assert_eq!(err[1].kind, DiagKind::ReturnTypeMismatch);
    assert_eq!(err[1].span, 2);
    assert_eq!(err[2].kind, DiagKind::EffectQualifierConflict);
    assert_eq!(err[2].span, 3);
    assert_eq!(err[3].kind, DiagKind::EffectQualifierConflict);
    assert_eq!(err[3].span, 4);
}

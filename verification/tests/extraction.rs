use enum_from_functions::diag::{is_fatal, DiagKind};
use enum_from_functions::extract::{pub_token, Functions};
use enum_from_functions::generate::{forwarding_calls, CallExpr, FieldDef, Variants, WithoutTypes};
use enum_from_functions::model::{Arg, ArgToken, ImplBlock, Member, Pattern, Ret, Signature};

fn sig(name: &str, inputs: Vec<Arg>, output: Ret) -> Signature {
    Signature {
        name: name.to_string(),
        inputs,
        output,
        output_span: 0,
        asyncness: None,
        constness: None,
        unsafety: None,
    }
}

fn named(pat: &str, ty: &str) -> Arg {
    Arg::Typed {
        pat: Pattern::Named(pat.to_string()),
        ty: ty.to_string(),
        span: 0,
    }
}

fn tok(text: &str, span: u64) -> ArgToken {
    ArgToken {
        text: text.to_string(),
        span,
    }
}

#[test]
fn pub_token_accepts_nothing_and_pub() {
    assert_eq!(pub_token(&vec![]).unwrap(), None);
    assert_eq!(pub_token(&vec![tok("pub", 4)]).unwrap(), Some(4));
    let err = pub_token(&vec![tok("crate", 6)]).unwrap_err();
    assert_eq!(err.kind, DiagKind::InvalidInvocationArgument);
    assert_eq!(err.span, 6);
    let err = pub_token(&vec![tok("pub", 1), tok("extra", 2)]).unwrap_err();
    assert_eq!(err.span, 2);
}

#[test]
fn extraction_keeps_functions_in_order() {
    let input = ImplBlock {
        attrs: Vec::new(),
        self_ty: "Enum".to_string(),
        items: vec![
            Member::Other("type A = i32;".to_string()),
            Member::Function(sig("first", vec![], Ret::Default)),
            Member::Other("const N: i32 = 1;".to_string()),
            Member::Function(sig("second", vec![], Ret::Default)),
        ],
    };
    let ex = Functions::try_from(&input).unwrap();
    assert!(ex.diagnostics.is_empty());
    assert_eq!(ex.functions.signatures.len(), 2);
    assert_eq!(ex.functions.signatures[0].name, "first");
    assert_eq!(ex.functions.signatures[1].name, "second");
    assert!(matches!(ex.functions.return_type, Ret::Default));
}

#[test]
fn extraction_aggregates_qualifiers() {
    let mut a = sig("a", vec![], Ret::Default);
    a.asyncness = Some(1);
    let mut b = sig("b", vec![], Ret::Default);
    b.unsafety = Some(2);
    let input = ImplBlock {
        attrs: Vec::new(),
        self_ty: "Enum".to_string(),
        items: vec![Member::Function(a), Member::Function(b)],
    };
    let ex = Functions::try_from(&input).unwrap();
    assert_eq!(ex.functions.asyncness, Some(1));
    assert_eq!(ex.functions.unsafety, Some(2));
    assert_eq!(ex.functions.constness, None);
}

#[test]
fn fatality_by_kind() {
    assert!(!is_fatal(DiagKind::ReturnTypeMismatch));
    assert!(is_fatal(DiagKind::EffectQualifierConflict));
    assert!(is_fatal(DiagKind::UnsupportedBindingPattern));
    assert!(is_fatal(DiagKind::InvalidInvocationArgument));
}

#[test]
fn args_without_types_keep_names_only() {
    let args = vec![
        Arg::Receiver("&mut self".to_string()),
        named("x", "i32"),
        Arg::Typed {
            pat: Pattern::Discard,
            ty: "u8".to_string(),
            span: 0,
        },
        named("y", "String"),
    ];
    assert_eq!(
        Arg::without_types(&args),
        vec!["x".to_string(), "y".to_string()]
    );
}

#[test]
fn fields_without_types_keep_every_name() {
    let fields = vec![
        FieldDef {
            name: "x".to_string(),
            ty: "i32".to_string(),
        },
        FieldDef {
            name: "y".to_string(),
            ty: "u8".to_string(),
        },
    ];
    assert_eq!(
        FieldDef::without_types(&fields),
        vec!["x".to_string(), "y".to_string()]
    );
}

#[test]
fn convert_single_derives_variant_shape() {
    let s = sig("do_thing", vec![named("n", "usize")], Ret::Default);
    let v = Variants::convert_single(&s).unwrap();
    assert_eq!(v.ident, "DoThing");
    let fields = v.fields.as_ref().unwrap();
    assert_eq!(fields.len(), 1);
    assert_eq!(fields[0].name, "n");
    assert_eq!(fields[0].ty, "usize");
}

#[test]
fn receiver_only_function_gets_empty_braced_fields() {
    // With a receiver but no other argument, the field list exists and is
    // empty, unlike the plain unit variant of an argument-free function.
    let s = sig("ping", vec![Arg::Receiver("&self".to_string())], Ret::Default);
    let v = Variants::convert_single(&s).unwrap();
    assert_eq!(v.ident, "Ping");
    assert!(v.fields.as_ref().unwrap().is_empty());
    let unit = Variants::convert_single(&sig("pong", vec![], Ret::Default)).unwrap();
    assert!(unit.fields.is_none());
}

#[test]
fn call_for_async_method_is_awaited() {
    let mut s = sig(
        "fetch",
        vec![Arg::Receiver("self".to_string()), named("url", "String")],
        Ret::Default,
    );
    s.asyncness = Some(8);
    let c = CallExpr::from_signature(&s);
    assert_eq!(c.func, "fetch");
    assert_eq!(c.receiver.as_ref().unwrap(), "self");
    assert_eq!(c.args, vec!["url".to_string()]);
    assert!(c.awaited);
}

#[test]
fn forwarding_calls_align_with_signatures() {
    let mut a = sig("first_one", vec![named("x", "i32")], Ret::Default);
    a.asyncness = Some(1);
    let b = sig("second_one", vec![], Ret::Default);
    let input = ImplBlock {
        attrs: Vec::new(),
        self_ty: "Enum".to_string(),
        items: vec![Member::Function(a), Member::Function(b)],
    };
    let ex = Functions::try_from(&input).unwrap();
    let calls = forwarding_calls(&ex.functions);
    let variants = Variants::from(&ex.functions).unwrap();
    assert_eq!(calls.len(), variants.0.len());
    assert_eq!(calls[0].func, "first_one");
    assert!(calls[0].awaited);
    assert_eq!(calls[0].args, vec!["x".to_string()]);
    assert_eq!(calls[1].func, "second_one");
    assert!(!calls[1].awaited);
}

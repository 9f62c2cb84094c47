use vstd::prelude::*;

use crate::casing::{pascal_of, to_pascal_case};
use crate::diag::{DiagKind, Diagnostic};
use crate::extract::Functions;
use crate::model::{Arg, Pattern, Signature, SpecArg, SpecPattern, SpecSig};

verus! {

// ---------------------------------------------------------------------------
// What the synthesizer derives, stated mathematically
// ---------------------------------------------------------------------------

/// One named field of a variant: the argument's binding name and its type.
pub ghost struct SpecField {
    pub name: Seq<char>,
    pub ty: Seq<char>,
}

/// One variant of the generated enum. `fields` is `None` for a function
/// without arguments (a plain unit variant) and `Some` of the field list —
/// possibly empty — as soon as the function declares any argument at all.
pub ghost struct SpecVariant {
    pub ident: Seq<char>,
    pub fields: Option<Seq<SpecField>>,
}

/// The forwarding call for one function: the callee's name, the receiver
/// token text passed first when the function has one, then the forwarded
/// argument names in order, wrapped in an await exactly when the function is
/// asynchronous.
pub ghost struct SpecCall {
    pub func: Seq<char>,
    pub receiver: Option<Seq<char>>,
    pub args: Seq<Seq<char>>,
    pub awaited: bool,
}

/// The first index of `s` satisfying `p`, if any.
pub open spec fn spec_first_where<T>(s: Seq<T>, p: spec_fn(T) -> bool) -> Option<int>
    decreases s.len(),
{
    if s.len() == 0 {
        Option::None
    } else {
        match spec_first_where(s.drop_last(), p) {
            Option::Some(i) => Option::Some(i),
            Option::None => if p(s.last()) {
                Option::Some(s.len() - 1)
            } else {
                Option::None
            },
        }
    }
}

/// `spec_first_where` returns exactly the least index satisfying `p`.
pub proof fn lemma_first_where_characterization<T>(s: Seq<T>, p: spec_fn(T) -> bool)
    ensures
        match spec_first_where(s, p) {
            Option::Some(k) => 0 <= k < s.len() && p(s[k])
                && forall|i: int| 0 <= i < k ==> !p(#[trigger] s[i]),
            Option::None => forall|i: int| 0 <= i < s.len() ==> !p(#[trigger] s[i]),
        },
    decreases s.len(),
{
    if s.len() > 0 {
        lemma_first_where_characterization(s.drop_last(), p);
        assert forall|i: int| 0 <= i < s.len() - 1 implies p(#[trigger] s[i])
            == p(s.drop_last()[i]) by {
            assert(s.drop_last()[i] == s[i]);
        }
    }
}

/// A binding pattern the transformation cannot turn into a field: neither a
/// simple name nor a discard.
pub open spec fn spec_arg_unsupported(a: SpecArg) -> bool {
    a matches SpecArg::Typed { pat: SpecPattern::Other(_), ty: _, span: _ }
}

/// The first argument with an unsupported binding pattern, if any.
pub open spec fn spec_first_unsupported(inputs: Seq<SpecArg>) -> Option<int> {
    spec_first_where(inputs, |a: SpecArg| spec_arg_unsupported(a))
}

/// The span of a typed argument.
pub open spec fn spec_arg_span(a: SpecArg) -> u64
    recommends
        a is Typed,
{
    match a {
        SpecArg::Receiver(_) => 0,
        SpecArg::Typed { pat: _, ty: _, span } => span,
    }
}

/// Whether a signature holds an argument the synthesizer must reject.
pub open spec fn spec_sig_unsupported(s: SpecSig) -> bool {
    spec_first_unsupported(s.inputs) is Some
}

/// The fatal diagnostic for a signature's first unsupported argument.
pub open spec fn spec_unsupported_diag(s: SpecSig) -> Diagnostic
    recommends
        spec_sig_unsupported(s),
{
    Diagnostic {
        kind: DiagKind::UnsupportedBindingPattern,
        span: spec_arg_span(s.inputs[spec_first_unsupported(s.inputs)->0]),
    }
}

/// The first signature of the set the synthesizer must reject, if any.
pub open spec fn spec_first_unsupported_sig(fs: Seq<SpecSig>) -> Option<int> {
    spec_first_where(fs, |s: SpecSig| spec_sig_unsupported(s))
}

/// The names bound by the simple-name arguments, in order: receivers and
/// discards contribute nothing.
pub open spec fn spec_named_args(inputs: Seq<SpecArg>) -> Seq<Seq<char>>
    decreases inputs.len(),
{
    if inputs.len() == 0 {
        Seq::empty()
    } else {
        let rest = spec_named_args(inputs.drop_last());
        match inputs.last() {
            SpecArg::Typed { pat: SpecPattern::Named(n), ty: _, span: _ } => rest.push(n),
            _ => rest,
        }
    }
}

/// The variant fields derived from an argument list: one per simple-name
/// argument, in order, carrying the argument's name and type.
pub open spec fn spec_variant_fields(inputs: Seq<SpecArg>) -> Seq<SpecField>
    decreases inputs.len(),
{
    if inputs.len() == 0 {
        Seq::empty()
    } else {
        let rest = spec_variant_fields(inputs.drop_last());
        match inputs.last() {
            SpecArg::Typed { pat: SpecPattern::Named(n), ty, span: _ } => rest.push(
                SpecField { name: n, ty },
            ),
            _ => rest,
        }
    }
}

/// The names of a field list, in order.
pub open spec fn spec_field_names(fields: Seq<SpecField>) -> Seq<Seq<char>> {
    fields.map_values(|f: SpecField| f.name)
}

/// The variant derived from one function: its name converted to Pascal case,
/// and its argument list turned into named fields.
pub open spec fn spec_variant_of(s: SpecSig) -> SpecVariant {
    SpecVariant {
        ident: pascal_of(s.name),
        fields: if s.inputs.len() == 0 {
            Option::None
        } else {
            Option::Some(spec_variant_fields(s.inputs))
        },
    }
}

/// The receiver token text a forwarding call passes first, when the function
/// declares one.
pub open spec fn spec_receiver_of(inputs: Seq<SpecArg>) -> Option<Seq<char>> {
    if inputs.len() > 0 {
        match inputs[0] {
            SpecArg::Receiver(tokens) => Option::Some(tokens),
            _ => Option::None,
        }
    } else {
        Option::None
    }
}

/// The forwarding call derived from one function.
pub open spec fn spec_call_of(s: SpecSig) -> SpecCall {
    SpecCall {
        func: s.name,
        receiver: spec_receiver_of(s.inputs),
        args: spec_named_args(s.inputs),
        awaited: s.asyncness is Some,
    }
}

// ---------------------------------------------------------------------------
// Executable synthesis
// ---------------------------------------------------------------------------

/// One named field of a variant. See [`SpecField`].
#[derive(Debug)]
pub struct FieldDef {
    pub name: String,
    pub ty: String,
}

impl View for FieldDef {
    type V = SpecField;

    open spec fn view(&self) -> SpecField {
        SpecField { name: self.name@, ty: self.ty@ }
    }
}

impl DeepView for FieldDef {
    type V = SpecField;

    open spec fn deep_view(&self) -> SpecField {
        self@
    }
}

/// One variant of the generated enum. See [`SpecVariant`].
#[derive(Debug)]
pub struct Variant {
    pub ident: String,
    pub fields: Option<Vec<FieldDef>>,
}

impl View for Variant {
    type V = SpecVariant;

    open spec fn view(&self) -> SpecVariant {
        SpecVariant { ident: self.ident@, fields: self.fields.deep_view() }
    }
}

impl DeepView for Variant {
    type V = SpecVariant;

    open spec fn deep_view(&self) -> SpecVariant {
        self@
    }
}

/// One forwarding call. See [`SpecCall`].
#[derive(Debug)]
pub struct CallExpr {
    pub func: String,
    pub receiver: Option<String>,
    pub args: Vec<String>,
    pub awaited: bool,
}

impl View for CallExpr {
    type V = SpecCall;

    open spec fn view(&self) -> SpecCall {
        SpecCall {
            func: self.func@,
            receiver: self.receiver.deep_view(),
            args: self.args.deep_view(),
            awaited: self.awaited,
        }
    }
}

impl DeepView for CallExpr {
    type V = SpecCall;

    open spec fn deep_view(&self) -> SpecCall {
        self@
    }
}

/// Strips a list down to the names it binds.
pub trait WithoutTypes: Sized {
    /// The names the strip keeps, in order.
    spec fn without_types_spec(from: Seq<Self>) -> Seq<Seq<char>>;

    /// Drops everything but the bound names: for arguments, the receiver and
    /// the discards contribute nothing; for fields, every name is kept.
    fn without_types(from: &Vec<Self>) -> (r: Vec<String>)
        ensures
            r.deep_view() == Self::without_types_spec(from@),
    ;
}

impl WithoutTypes for Arg {
    open spec fn without_types_spec(from: Seq<Arg>) -> Seq<Seq<char>> {
        spec_named_args(from.map_values(|a: Arg| a@))
    }

    fn without_types(from: &Vec<Arg>) -> (r: Vec<String>) {
        let ghost inp = from@.map_values(|a: Arg| a@);
        let mut r: Vec<String> = Vec::new();
        let mut i: usize = 0;
        while i < from.len()
            invariant
                i <= from.len(),
                inp == from@.map_values(|a: Arg| a@),
                r.deep_view() == spec_named_args(inp.take(i as int)),
            decreases from.len() - i,
        {
            proof {
                assert(inp.take(i + 1).drop_last() =~= inp.take(i as int));
                assert(inp.take(i + 1).last() == inp[i as int]);
            }
            match &from[i] {
                Arg::Typed { pat: Pattern::Named(n), ty: _, span: _ } => {
                    r.push(n.clone());
                },
                _ => {},
            }
            proof {
                assert(r.deep_view() =~= spec_named_args(inp.take(i + 1)));
            }
            i += 1;
        }
        proof {
            assert(inp.take(from@.len() as int) =~= inp);
        }
        r
    }
}

impl WithoutTypes for FieldDef {
    open spec fn without_types_spec(from: Seq<FieldDef>) -> Seq<Seq<char>> {
        spec_field_names(from.map_values(|f: FieldDef| f@))
    }

    fn without_types(from: &Vec<FieldDef>) -> (r: Vec<String>) {
        let mut r: Vec<String> = Vec::new();
        let mut i: usize = 0;
        while i < from.len()
            invariant
                i <= from.len(),
                r@.len() == i,
                forall|k: int| 0 <= k < i ==> (#[trigger] r@[k])@ == from@[k].name@,
            decreases from.len() - i,
        {
            r.push(from[i].name.clone());
            i += 1;
        }
        proof {
            assert(r.deep_view() =~= spec_field_names(from@.map_values(|f: FieldDef| f@)));
        }
        r
    }
}

/// The variant list derived from a function set, index-aligned with it.
pub struct Variants(pub Vec<Variant>);

impl Variants {
    /// Derives the variant for one function: the Pascal-case identifier, and
    /// one named field per simple-name argument — a discarded argument
    /// contributes no field, any other pattern shape is a fatal diagnostic at
    /// the argument's span.
    pub fn convert_single(signature: &Signature) -> (r: Result<Variant, Diagnostic>)
        ensures
            match r {
                Result::Ok(v) => {
                    &&& !spec_sig_unsupported(signature@)
                    &&& v@ == spec_variant_of(signature@)
                },
                Result::Err(d) => {
                    &&& spec_sig_unsupported(signature@)
                    &&& d == spec_unsupported_diag(signature@)
                },
            },
    {
        let ghost inp = signature@.inputs;
        let ident = to_pascal_case(signature.name.as_str());
        let mut fields: Vec<FieldDef> = Vec::new();
        let mut i: usize = 0;
        while i < signature.inputs.len()
            invariant
                i <= signature.inputs.len(),
                inp == signature@.inputs,
                inp == signature.inputs.deep_view(),
                fields.deep_view() == spec_variant_fields(inp.take(i as int)),
                forall|k: int| 0 <= k < i ==> !spec_arg_unsupported(#[trigger] inp[k]),
            decreases signature.inputs.len() - i,
        {
            proof {
                assert(inp.take(i + 1).drop_last() =~= inp.take(i as int));
                assert(inp.take(i + 1).last() == inp[i as int]);
            }
            match &signature.inputs[i] {
                Arg::Receiver(_) => {},
                Arg::Typed { pat: Pattern::Named(n), ty, span: _ } => {
                    fields.push(FieldDef { name: n.clone(), ty: ty.clone() });
                },
                Arg::Typed { pat: Pattern::Discard, ty: _, span: _ } => {},
                Arg::Typed { pat: Pattern::Other(_), ty: _, span } => {
                    proof {
                        lemma_first_where_characterization(inp,
                            |a: SpecArg| spec_arg_unsupported(a));
                        assert(spec_arg_unsupported(inp[i as int]));
                        assert(spec_first_unsupported(inp) == Option::Some(i as int));
                    }
                    return Result::Err(Diagnostic {
                        kind: DiagKind::UnsupportedBindingPattern,
                        span: *span,
                    });
                },
            }
            proof {
                assert(fields.deep_view() =~= spec_variant_fields(inp.take(i + 1)));
            }
            i += 1;
        }
        proof {
            assert(inp.take(signature.inputs@.len() as int) =~= inp);
            lemma_first_where_characterization(inp, |a: SpecArg| spec_arg_unsupported(a));
            if spec_first_unsupported(inp) is Some {
                assert(spec_arg_unsupported(inp[spec_first_unsupported(inp)->0]));
            }
        }
        let fields_opt: Option<Vec<FieldDef>> = if signature.inputs.len() == 0 {
            Option::None
        } else {
            Option::Some(fields)
        };
        Result::Ok(Variant { ident, fields: fields_opt })
    }

    /// Derives the whole variant list of a function set, stopping at the
    /// first function with an argument the synthesizer cannot accept.
    pub fn from(input: &Functions) -> (r: Result<Variants, Diagnostic>)
        ensures
            ({
                let fs = input.signatures.deep_view();
                match r {
                    Result::Ok(vs) => {
                        &&& spec_first_unsupported_sig(fs) is None
                        &&& vs.0.deep_view() == fs.map_values(|s: SpecSig| spec_variant_of(s))
                    },
                    Result::Err(d) => {
                        &&& spec_first_unsupported_sig(fs) is Some
                        &&& d == spec_unsupported_diag(fs[spec_first_unsupported_sig(fs)->0])
                    },
                }
            }),
    {
        let ghost fs = input.signatures.deep_view();
        let mut r: Vec<Variant> = Vec::new();
        let mut i: usize = 0;
        while i < input.signatures.len()
            invariant
                i <= input.signatures.len(),
                fs == input.signatures.deep_view(),
                r@.len() == i,
                forall|k: int| 0 <= k < i ==> (#[trigger] r@[k])@ == spec_variant_of(fs[k]),
                forall|k: int| 0 <= k < i ==> !spec_sig_unsupported(#[trigger] fs[k]),
            decreases input.signatures.len() - i,
        {
            match Self::convert_single(&input.signatures[i]) {
                Result::Ok(v) => {
                    r.push(v);
                },
                Result::Err(d) => {
                    proof {
                        lemma_first_where_characterization(fs,
                            |s: SpecSig| spec_sig_unsupported(s));
                        assert(spec_sig_unsupported(fs[i as int]));
                        assert(spec_first_unsupported_sig(fs) == Option::Some(i as int));
                    }
                    return Result::Err(d);
                },
            }
            i += 1;
        }
        proof {
            lemma_first_where_characterization(fs, |s: SpecSig| spec_sig_unsupported(s));
            if spec_first_unsupported_sig(fs) is Some {
                assert(spec_sig_unsupported(fs[spec_first_unsupported_sig(fs)->0]));
            }
            assert(r.deep_view() =~= fs.map_values(|s: SpecSig| spec_variant_of(s)));
        }
        Result::Ok(Variants(r))
    }
}

impl CallExpr {
    /// Builds the forwarding call for one function: the receiver first when
    /// there is one, then the named arguments in order, awaited exactly when
    /// the function is asynchronous.
    pub fn from_signature(signature: &Signature) -> (c: CallExpr)
        ensures
            c@ == spec_call_of(signature@),
    {
        let receiver: Option<String> = if signature.inputs.len() > 0 {
            match &signature.inputs[0] {
                Arg::Receiver(tokens) => Option::Some(tokens.clone()),
                _ => Option::None,
            }
        } else {
            Option::None
        };
        let args = Arg::without_types(&signature.inputs);
        proof {
            assert(signature.inputs@.map_values(|a: Arg| a@)
                =~= signature.inputs.deep_view());
        }
        CallExpr {
            func: signature.name.clone(),
            receiver,
            args,
            awaited: signature.asyncness.is_some(),
        }
    }
}

/// Builds the forwarding calls of a whole function set, index-aligned with
/// its signatures.
pub fn forwarding_calls(input: &Functions) -> (r: Vec<CallExpr>)
    ensures
        r.deep_view() == input.signatures.deep_view().map_values(|s: SpecSig| spec_call_of(s)),
{
    let ghost fs = input.signatures.deep_view();
    let mut r: Vec<CallExpr> = Vec::new();
    let mut i: usize = 0;
    while i < input.signatures.len()
        invariant
            i <= input.signatures.len(),
            fs == input.signatures.deep_view(),
            r@.len() == i,
            forall|k: int| 0 <= k < i ==> (#[trigger] r@[k])@ == spec_call_of(fs[k]),
        decreases input.signatures.len() - i,
    {
        let c = CallExpr::from_signature(&input.signatures[i]);
        r.push(c);
        i += 1;
    }
    proof {
        assert(r.deep_view() =~= fs.map_values(|s: SpecSig| spec_call_of(s)));
    }
    r
}

// ---------------------------------------------------------------------------
// Laws of the synthesis
// ---------------------------------------------------------------------------

/// Field correspondence, the dropping half: an argument that binds no simple
/// name — a receiver or a discard — contributes no field, so removing it
/// leaves the variant's field list unchanged.
pub proof fn lemma_non_named_no_field(inputs: Seq<SpecArg>, i: int)
    requires
        0 <= i < inputs.len(),
        !(inputs[i] matches SpecArg::Typed { pat: SpecPattern::Named(_), ty: _, span: _ }),
    ensures
        spec_variant_fields(inputs) == spec_variant_fields(inputs.remove(i)),
    decreases inputs.len(),
{
    if i == inputs.len() - 1 {
        assert(inputs.remove(i) =~= inputs.drop_last());
    } else {
        lemma_non_named_no_field(inputs.drop_last(), i);
        assert(inputs.remove(i).drop_last() =~= inputs.drop_last().remove(i));
        assert(inputs.remove(i).last() == inputs.last());
    }
}

/// Field correspondence, the keeping half: when every argument binds a simple
/// name, the variant has exactly one field per argument, in order, with the
/// argument's name and type.
pub proof fn lemma_named_args_fields(inputs: Seq<SpecArg>)
    requires
        forall|i: int| 0 <= i < inputs.len() ==> (#[trigger] inputs[i]) matches SpecArg::Typed {
            pat: SpecPattern::Named(_),
            ty: _,
            span: _,
        },
    ensures
        spec_variant_fields(inputs).len() == inputs.len(),
        forall|i: int| 0 <= i < inputs.len() ==> ((#[trigger] inputs[i]) matches SpecArg::Typed {
            pat: SpecPattern::Named(n),
            ty,
            span: _,
        } ==> spec_variant_fields(inputs)[i] == SpecField { name: n, ty }),
    decreases inputs.len(),
{
    if inputs.len() > 0 {
        assert(forall|i: int| 0 <= i < inputs.drop_last().len()
            ==> inputs.drop_last()[i] == inputs[i]);
        lemma_named_args_fields(inputs.drop_last());
    }
}

/// Round-trip dispatch, stated over the shapes the emitter assembles: the
/// forwarding call of a function targets that function by name, awaits it
/// exactly when it is asynchronous, passes its receiver first exactly when it
/// declares one, and forwards exactly the names of the variant's fields, in
/// the variant's field order. Together with the match arm binding exactly
/// those field names, dispatching a value built as the variant with given
/// field values hands precisely those values, in order, to the function.
pub proof fn lemma_round_trip_dispatch(s: SpecSig)
    ensures
        spec_call_of(s).func == s.name,
        spec_call_of(s).awaited == (s.asyncness is Some),
        spec_call_of(s).receiver == spec_receiver_of(s.inputs),
        spec_call_of(s).args == spec_field_names(spec_variant_fields(s.inputs)),
{
    lemma_named_args_are_field_names(s.inputs);
}

/// The names forwarded by a call are exactly the names of the fields the
/// variant declares, in the same order.
pub proof fn lemma_named_args_are_field_names(inputs: Seq<SpecArg>)
    ensures
        spec_named_args(inputs) == spec_field_names(spec_variant_fields(inputs)),
    decreases inputs.len(),
{
    if inputs.len() > 0 {
        lemma_named_args_are_field_names(inputs.drop_last());
        assert(spec_named_args(inputs) =~= spec_field_names(spec_variant_fields(inputs)));
    }
}

} // verus!

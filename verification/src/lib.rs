//! Analysis and synthesis behind an attribute that turns an `impl` block of
//! functions into an enum with one variant per function, plus a dispatch
//! function (`map`) routing each variant back to its function.
//!
//! The host toolchain parses the annotated block and prints the result; this
//! crate performs the transformation itself on a plain model of the input:
//! extracting and validating the function signatures, deriving the variants
//! and forwarding calls, and assembling the generated declarations.

use vstd::prelude::*;

pub mod casing;
pub mod diag;
pub mod extract;
pub mod generate;
pub mod model;

use crate::diag::Diagnostic;
use crate::extract::{pub_token, spec_async_flag, spec_conflict_diags, spec_const_flag,
    spec_first_conflict, spec_functions_of, spec_mismatch_diags, spec_pub_token,
    spec_unified_ret, spec_unsafe_flag, Functions};
use crate::extract::lemma_async_flag_iff_has;
use crate::generate::{spec_call_of, spec_field_names, spec_first_unsupported_sig,
    spec_unsupported_diag, spec_variant_of, FieldDef, SpecCall, SpecVariant, Variant, Variants,
    WithoutTypes};
use crate::generate::{lemma_round_trip_dispatch, CallExpr};
use crate::model::{clone_members, clone_strings, ArgToken, ImplBlock, SpecImplBlock, SpecRet,
    SpecSig};
use crate::model::Ret;

verus! {

// ---------------------------------------------------------------------------
// The generated artifacts, stated mathematically
// ---------------------------------------------------------------------------

/// The generated enum declaration: the `impl` block's attributes relocated
/// onto it, the optional visibility marker, the block's self type as its
/// name, and one variant per function in original order.
pub ghost struct SpecEnumDecl {
    pub attrs: Seq<Seq<char>>,
    pub vis: Option<u64>,
    pub name: Seq<char>,
    pub variants: Seq<SpecVariant>,
}

/// One arm of the dispatch function's match: the variant's identifier, the
/// names its pattern binds (`None` for a unit variant), and the forwarding
/// call the arm evaluates to.
pub ghost struct SpecDispatchArm {
    pub variant_ident: Seq<char>,
    pub fields: Option<Seq<Seq<char>>>,
    pub call: SpecCall,
}

/// The generated dispatch function: the enum's visibility, the aggregated
/// effect qualifiers, the unified return type, and one match arm per
/// variant. It consumes the enum value by ownership.
pub ghost struct SpecDispatchFn {
    pub vis: Option<u64>,
    pub asyncness: Option<u64>,
    pub constness: Option<u64>,
    pub unsafety: Option<u64>,
    pub output: SpecRet,
    pub arms: Seq<SpecDispatchArm>,
}

/// Everything the transformation emits: the enum, the original block with
/// its attributes stripped, the dispatch function appended to it, and the
/// non-fatal diagnostics found along the way.
pub ghost struct SpecOutput {
    pub enum_decl: SpecEnumDecl,
    pub impl_block: SpecImplBlock,
    pub dispatch_fn: SpecDispatchFn,
    pub diagnostics: Seq<Diagnostic>,
}

/// The dispatch arm derived from one function: the arm binds exactly the
/// variant's field names and evaluates to the function's forwarding call.
pub open spec fn spec_dispatch_arm(s: SpecSig) -> SpecDispatchArm {
    let v = spec_variant_of(s);
    SpecDispatchArm {
        variant_ident: v.ident,
        fields: match v.fields {
            Option::None => Option::None,
            Option::Some(fl) => Option::Some(spec_field_names(fl)),
        },
        call: spec_call_of(s),
    }
}

/// The enum declaration derived from an `impl` block and a visibility.
pub open spec fn spec_enum_decl(input: SpecImplBlock, vis: Option<u64>) -> SpecEnumDecl {
    SpecEnumDecl {
        attrs: input.attrs,
        vis,
        name: input.self_ty,
        variants: spec_functions_of(input.items).map_values(|s: SpecSig| spec_variant_of(s)),
    }
}

/// The dispatch function derived from an `impl` block and a visibility.
pub open spec fn spec_dispatch_fn(input: SpecImplBlock, vis: Option<u64>) -> SpecDispatchFn {
    let fs = spec_functions_of(input.items);
    SpecDispatchFn {
        vis,
        asyncness: spec_async_flag(fs),
        constness: spec_const_flag(fs),
        unsafety: spec_unsafe_flag(fs),
        output: spec_unified_ret(fs),
        arms: fs.map_values(|s: SpecSig| spec_dispatch_arm(s)),
    }
}

/// The re-emitted `impl` block: unchanged but for its attributes, which move
/// onto the enum.
pub open spec fn spec_output_impl(input: SpecImplBlock) -> SpecImplBlock {
    SpecImplBlock { attrs: Seq::empty(), self_ty: input.self_ty, items: input.items }
}

/// The whole successful transformation of an `impl` block.
pub open spec fn spec_transformed(input: SpecImplBlock, vis: Option<u64>) -> SpecOutput {
    SpecOutput {
        enum_decl: spec_enum_decl(input, vis),
        impl_block: spec_output_impl(input),
        dispatch_fn: spec_dispatch_fn(input, vis),
        diagnostics: spec_mismatch_diags(
            spec_functions_of(input.items),
            spec_functions_of(input.items).len() as int,
        ),
    }
}

// ---------------------------------------------------------------------------
// The generated artifacts, as values
// ---------------------------------------------------------------------------

/// The generated enum declaration. See [`SpecEnumDecl`].
#[derive(Debug)]
pub struct EnumDecl {
    pub attrs: Vec<String>,
    pub vis: Option<u64>,
    pub name: String,
    pub variants: Vec<Variant>,
}

impl View for EnumDecl {
    type V = SpecEnumDecl;

    open spec fn view(&self) -> SpecEnumDecl {
        SpecEnumDecl {
            attrs: self.attrs.deep_view(),
            vis: self.vis,
            name: self.name@,
            variants: self.variants.deep_view(),
        }
    }
}

/// One arm of the dispatch function's match. See [`SpecDispatchArm`].
#[derive(Debug)]
pub struct DispatchArm {
    pub variant_ident: String,
    pub fields: Option<Vec<String>>,
    pub call: CallExpr,
}

impl View for DispatchArm {
    type V = SpecDispatchArm;

    open spec fn view(&self) -> SpecDispatchArm {
        SpecDispatchArm {
            variant_ident: self.variant_ident@,
            fields: self.fields.deep_view(),
            call: self.call@,
        }
    }
}

impl DeepView for DispatchArm {
    type V = SpecDispatchArm;

    open spec fn deep_view(&self) -> SpecDispatchArm {
        self@
    }
}

/// The generated dispatch function. See [`SpecDispatchFn`].
#[derive(Debug)]
pub struct DispatchFn {
    pub vis: Option<u64>,
    pub asyncness: Option<u64>,
    pub constness: Option<u64>,
    pub unsafety: Option<u64>,
    pub output: Ret,
    pub arms: Vec<DispatchArm>,
}

impl View for DispatchFn {
    type V = SpecDispatchFn;

    open spec fn view(&self) -> SpecDispatchFn {
        SpecDispatchFn {
            vis: self.vis,
            asyncness: self.asyncness,
            constness: self.constness,
            unsafety: self.unsafety,
            output: self.output@,
            arms: self.arms.deep_view(),
        }
    }
}

/// Everything the transformation emits. See [`SpecOutput`].
#[derive(Debug)]
pub struct MacroOutput {
    pub enum_decl: EnumDecl,
    pub impl_block: ImplBlock,
    pub dispatch_fn: DispatchFn,
    pub diagnostics: Vec<Diagnostic>,
}

impl View for MacroOutput {
    type V = SpecOutput;

    open spec fn view(&self) -> SpecOutput {
        SpecOutput {
            enum_decl: self.enum_decl@,
            impl_block: self.impl_block@,
            dispatch_fn: self.dispatch_fn@,
            diagnostics: self.diagnostics@,
        }
    }
}

// ---------------------------------------------------------------------------
// The transformation
// ---------------------------------------------------------------------------

/// Runs the whole transformation on one annotated `impl` block.
///
/// The invocation arguments must be empty or the single marker `pub`; the
/// block's function members must agree on their return type (a disagreement
/// is reported, at both ends, and the first-seen type wins) and must not mix
/// `async` and `const`; every argument must bind a simple name or `_`. A
/// fatal finding aborts with the diagnostics collected so far, the fatal one
/// last; otherwise the generated enum, the stripped block and the dispatch
/// function come back along with the non-fatal diagnostics.
pub fn enum_from_functions(args: &Vec<ArgToken>, input: &ImplBlock) -> (r: Result<
    MacroOutput,
    Vec<Diagnostic>,
>)
    ensures
        ({
            let fs = spec_functions_of(input@.items);
            let vis = spec_pub_token(args.deep_view());
            &&& (vis matches Result::Err(d) ==> ({
                &&& r matches Result::Err(ds)
                &&& ds@ == seq![d]
            }))
            &&& (vis is Ok && spec_first_conflict(fs) is Some ==> ({
                &&& r matches Result::Err(ds)
                &&& ds@ == spec_mismatch_diags(fs, (spec_first_conflict(fs)->0) + 1)
                    + spec_conflict_diags(fs, spec_first_conflict(fs)->0)
            }))
            &&& (vis is Ok && spec_first_conflict(fs) is None
                && spec_first_unsupported_sig(fs) is Some ==> ({
                &&& r matches Result::Err(ds)
                &&& ds@ == spec_mismatch_diags(fs, fs.len() as int).push(
                    spec_unsupported_diag(fs[spec_first_unsupported_sig(fs)->0]))
            }))
            &&& (vis is Ok && spec_first_conflict(fs) is None
                && spec_first_unsupported_sig(fs) is None ==> ({
                &&& r matches Result::Ok(out)
                &&& out@ == spec_transformed(input@, vis->Ok_0)
            }))
        }),
{
    let ghost fs = spec_functions_of(input@.items);

    // The invocation arguments: nothing, or the `pub` marker.
    let vis: Option<u64> = match pub_token(args) {
        Result::Ok(v) => v,
        Result::Err(d) => {
            let mut ds: Vec<Diagnostic> = Vec::new();
            ds.push(d);
            proof {
                assert(ds@ =~= seq![d]);
            }
            return Result::Err(ds);
        },
    };

    // Extract and validate the function set.
    let ex = match Functions::try_from(input) {
        Result::Ok(ex) => ex,
        Result::Err(ds) => {
            return Result::Err(ds);
        },
    };

    // Derive the variants; the first unsupported binding pattern is fatal.
    let variants = match Variants::from(&ex.functions) {
        Result::Ok(vs) => vs,
        Result::Err(d) => {
            let mut ds = ex.diagnostics;
            ds.push(d);
            return Result::Err(ds);
        },
    };

    proof {
        assert(variants.0.deep_view() =~= fs.map_values(|s: SpecSig| spec_variant_of(s)));
        assert(variants.0@.len() == variants.0.deep_view().len());
        assert(ex.functions.signatures@.len() == ex.functions.signatures.deep_view().len());
    }

    // Assemble the dispatch arms: each variant's pattern binds its field
    // names and hands them to the function's forwarding call.
    let mut arms: Vec<DispatchArm> = Vec::new();
    let mut i: usize = 0;
    while i < variants.0.len()
        invariant
            i <= variants.0.len(),
            fs == spec_functions_of(input@.items),
            ex.functions.signatures.deep_view() == fs,
            variants.0.deep_view() == fs.map_values(|s: SpecSig| spec_variant_of(s)),
            variants.0@.len() == ex.functions.signatures@.len(),
            arms@.len() == i,
            forall|k: int| 0 <= k < i ==> (#[trigger] arms@[k])@ == spec_dispatch_arm(fs[k]),
        decreases variants.0.len() - i,
    {
        proof {
            assert(variants.0.deep_view()[i as int] == variants.0@[i as int].deep_view());
            assert(fs.map_values(|s: SpecSig| spec_variant_of(s))[i as int]
                == spec_variant_of(fs[i as int]));
            assert(variants.0@[i as int]@ == spec_variant_of(fs[i as int]));
        }
        let v = &variants.0[i];
        let fields: Option<Vec<String>> = match &v.fields {
            Option::None => Option::None,
            Option::Some(fl) => {
                let names = FieldDef::without_types(fl);
                proof {
                    assert(fl@.map_values(|f: FieldDef| f@) =~= fl.deep_view());
                }
                Option::Some(names)
            },
        };
        let call = CallExpr::from_signature(&ex.functions.signatures[i]);
        let arm = DispatchArm { variant_ident: v.ident.clone(), fields, call };
        proof {
            assert(arm@ == spec_dispatch_arm(fs[i as int]));
        }
        arms.push(arm);
        i += 1;
    }

    // Assemble the artifacts: attributes move from the block to the enum,
    // the block's members pass through untouched, the dispatch function
    // carries the aggregated qualifiers and the unified return type.
    let enum_decl = EnumDecl {
        attrs: clone_strings(&input.attrs),
        vis,
        name: input.self_ty.clone(),
        variants: variants.0,
    };
    let impl_block = ImplBlock {
        attrs: Vec::new(),
        self_ty: input.self_ty.clone(),
        items: clone_members(&input.items),
    };
    let dispatch_fn = DispatchFn {
        vis,
        asyncness: ex.functions.asyncness,
        constness: ex.functions.constness,
        unsafety: ex.functions.unsafety,
        output: ex.functions.return_type,
        arms,
    };
    let out = MacroOutput { enum_decl, impl_block, dispatch_fn, diagnostics: ex.diagnostics };
    proof {
        let target = spec_transformed(input@, vis);
        assert(out.impl_block.attrs.deep_view() =~= Seq::<Seq<char>>::empty());
        assert(out.impl_block@ == target.impl_block);
        assert(out.enum_decl@ == target.enum_decl);
        assert(out.dispatch_fn@.arms =~= target.dispatch_fn.arms);
        assert(out.dispatch_fn@ == target.dispatch_fn);
        assert(out@ == target);
    }
    Result::Ok(out)
}

// ---------------------------------------------------------------------------
// Laws of the whole transformation
// ---------------------------------------------------------------------------

/// Variant count: the generated enum has exactly one variant per function
/// member, in original member order, each derived from its function.
pub proof fn lemma_variant_count(input: SpecImplBlock, vis: Option<u64>)
    ensures
        spec_enum_decl(input, vis).variants.len() == spec_functions_of(input.items).len(),
        forall|i: int| 0 <= i < spec_functions_of(input.items).len()
            ==> spec_enum_decl(input, vis).variants[i] == spec_variant_of(
            #[trigger] spec_functions_of(input.items)[i],
        ),
{
}

/// Qualifier propagation: as soon as one function member is asynchronous,
/// the dispatch function is asynchronous, and its arm for that member awaits
/// the forwarding call.
pub proof fn lemma_qualifier_propagation(input: SpecImplBlock, vis: Option<u64>, i: int)
    requires
        0 <= i < spec_functions_of(input.items).len(),
        spec_functions_of(input.items)[i].asyncness is Some,
    ensures
        spec_dispatch_fn(input, vis).asyncness is Some,
        spec_dispatch_fn(input, vis).arms[i].call.awaited,
{
    let fs = spec_functions_of(input.items);
    assert(crate::extract::spec_has_async(fs));
    lemma_async_flag_iff_has(fs);
}

/// Round-trip dispatch, at the emitted shape: the arm generated for a
/// function evaluates to that function's forwarding call, and the names its
/// pattern binds are exactly the names the call forwards, in order — so
/// dispatching a value built as the variant with given field values hands
/// precisely those values to the function, awaiting it when asynchronous.
pub proof fn lemma_arm_binds_call_arguments(s: SpecSig)
    ensures
        spec_dispatch_arm(s).call == spec_call_of(s),
        spec_dispatch_arm(s).fields matches Option::Some(names)
            ==> names == spec_call_of(s).args,
        spec_dispatch_arm(s).fields is None ==> spec_call_of(s).args.len() == 0,
{
    lemma_round_trip_dispatch(s);
}

/// Empty set: an `impl` block without function members yields an enum with
/// no variants and a dispatch function whose match has no arms.
pub proof fn lemma_empty_set(input: SpecImplBlock, vis: Option<u64>)
    requires
        spec_functions_of(input.items).len() == 0,
    ensures
        spec_enum_decl(input, vis).variants.len() == 0,
        spec_dispatch_fn(input, vis).arms.len() == 0,
{
}

/// Visibility propagation: no invocation argument leaves the generated enum
/// module-private; the `pub` marker is carried, with its span, onto the enum
/// and the dispatch function exactly as given.
pub proof fn lemma_visibility_propagation(args: Seq<crate::model::SpecArgToken>,
    input: SpecImplBlock)
    ensures
        args.len() == 0 ==> spec_pub_token(args) == Result::<Option<u64>, Diagnostic>::Ok(
            Option::<u64>::None,
        ),
        args.len() == 1 && args[0].text == "pub"@ ==> spec_pub_token(args) == Result::<
            Option<u64>,
            Diagnostic,
        >::Ok(Option::Some(args[0].span)),
        forall|vis: Option<u64>| (#[trigger] spec_enum_decl(input, vis)).vis == vis
            && spec_dispatch_fn(input, vis).vis == vis
            && spec_transformed(input, vis).enum_decl.vis == vis,
{
}

} // verus!

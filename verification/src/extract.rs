use vstd::prelude::*;

use crate::diag::{DiagKind, Diagnostic};
use crate::model::{ArgToken, ImplBlock, Member, Ret, Signature, SpecArgToken, SpecMember,
    SpecRet, SpecSig};

verus! {

// ---------------------------------------------------------------------------
// What the extractor computes, stated mathematically
// ---------------------------------------------------------------------------

/// The function members of an `impl` block's member list, in order; every
/// other member is ignored here (and passed through untouched later).
pub open spec fn spec_functions_of(items: Seq<SpecMember>) -> Seq<SpecSig>
    decreases items.len(),
{
    if items.len() == 0 {
        Seq::empty()
    } else {
        let rest = spec_functions_of(items.drop_last());
        match items.last() {
            SpecMember::Function(s) => rest.push(s),
            SpecMember::Other(_) => rest,
        }
    }
}

/// The unified return type of a function set: the first function's declared
/// return type, or the absent return type when there is no function.
pub open spec fn spec_unified_ret(fs: Seq<SpecSig>) -> SpecRet {
    if fs.len() == 0 {
        SpecRet::Default
    } else {
        fs[0].output
    }
}

pub open spec fn spec_has_async(fs: Seq<SpecSig>) -> bool {
    exists|i: int| 0 <= i < fs.len() && (#[trigger] fs[i]).asyncness is Some
}

pub open spec fn spec_has_const(fs: Seq<SpecSig>) -> bool {
    exists|i: int| 0 <= i < fs.len() && (#[trigger] fs[i]).constness is Some
}

/// The accumulated qualifier spans: each qualifier of the function set points
/// at the keyword of the last function that carries it.
pub open spec fn spec_last_flag(fs: Seq<SpecSig>, flag: spec_fn(SpecSig) -> Option<u64>)
    -> Option<u64>
    decreases fs.len(),
{
    if fs.len() == 0 {
        Option::None
    } else if flag(fs.last()) is Some {
        flag(fs.last())
    } else {
        spec_last_flag(fs.drop_last(), flag)
    }
}

pub open spec fn spec_async_flag(fs: Seq<SpecSig>) -> Option<u64> {
    spec_last_flag(fs, |s: SpecSig| s.asyncness)
}

pub open spec fn spec_const_flag(fs: Seq<SpecSig>) -> Option<u64> {
    spec_last_flag(fs, |s: SpecSig| s.constness)
}

pub open spec fn spec_unsafe_flag(fs: Seq<SpecSig>) -> Option<u64> {
    spec_last_flag(fs, |s: SpecSig| s.unsafety)
}

/// The dispatch function cannot be `async` and `const` at once, so the
/// extractor aborts at the first function that is asynchronous while an
/// earlier one was constant-evaluable, or the other way around.
pub open spec fn spec_conflict_at(fs: Seq<SpecSig>, k: int) -> bool {
    ||| (fs[k].asyncness is Some && spec_has_const(fs.take(k)))
    ||| (fs[k].constness is Some && spec_has_async(fs.take(k)))
}

/// The index of the first function at which the qualifier conflict appears,
/// if any.
pub open spec fn spec_first_conflict(fs: Seq<SpecSig>) -> Option<int>
    decreases fs.len(),
{
    if fs.len() == 0 {
        Option::None
    } else {
        match spec_first_conflict(fs.drop_last()) {
            Option::Some(k) => Option::Some(k),
            Option::None => if spec_conflict_at(fs, fs.len() - 1) {
                Option::Some(fs.len() - 1)
            } else {
                Option::None
            },
        }
    }
}

/// The two diagnostics reported for a return-type mismatch at function `j`:
/// one at the unifying type (the first function's), one at the offender's.
pub open spec fn spec_mismatch_pair(fs: Seq<SpecSig>, j: int) -> Seq<Diagnostic> {
    seq![
        Diagnostic { kind: DiagKind::ReturnTypeMismatch, span: fs[0].output_span },
        Diagnostic { kind: DiagKind::ReturnTypeMismatch, span: fs[j].output_span },
    ]
}

/// All return-type diagnostics for the first `upto` functions, in discovery
/// order: a pair for every function whose declared return type differs from
/// the first function's. Extraction goes on past them (collect-all-errors).
pub open spec fn spec_mismatch_diags(fs: Seq<SpecSig>, upto: int) -> Seq<Diagnostic>
    decreases upto,
{
    if upto <= 0 {
        Seq::empty()
    } else {
        spec_mismatch_diags(fs, upto - 1) + if fs[upto - 1].output != fs[0].output {
            spec_mismatch_pair(fs, upto - 1)
        } else {
            Seq::empty()
        }
    }
}

/// The two diagnostics reported for the qualifier conflict at function `k`:
/// one at the `async` keyword involved, one at the `const` keyword involved.
pub open spec fn spec_conflict_diags(fs: Seq<SpecSig>, k: int) -> Seq<Diagnostic> {
    let async_span = if fs[k].asyncness is Some {
        fs[k].asyncness->0
    } else {
        spec_async_flag(fs.take(k))->0
    };
    let const_span = if fs[k].constness is Some {
        fs[k].constness->0
    } else {
        spec_const_flag(fs.take(k))->0
    };
    seq![
        Diagnostic { kind: DiagKind::EffectQualifierConflict, span: async_span },
        Diagnostic { kind: DiagKind::EffectQualifierConflict, span: const_span },
    ]
}

// ---------------------------------------------------------------------------
// Facts about the extraction, proved once and used below and by callers
// ---------------------------------------------------------------------------

/// An accumulated qualifier is present exactly when some function carries it.
pub proof fn lemma_async_flag_iff_has(fs: Seq<SpecSig>)
    ensures
        spec_async_flag(fs) is Some <==> spec_has_async(fs),
    decreases fs.len(),
{
    if fs.len() > 0 {
        lemma_async_flag_iff_has(fs.drop_last());
        if spec_has_async(fs.drop_last()) {
            let i = choose|i: int| 0 <= i < fs.drop_last().len()
                && (#[trigger] fs.drop_last()[i]).asyncness is Some;
            assert(fs[i].asyncness is Some);
        }
        if spec_has_async(fs) && fs.last().asyncness is None {
            let i = choose|i: int| 0 <= i < fs.len() && (#[trigger] fs[i]).asyncness is Some;
            assert(fs.drop_last()[i].asyncness is Some);
        }
    }
}

/// See [`lemma_async_flag_iff_has`].
pub proof fn lemma_const_flag_iff_has(fs: Seq<SpecSig>)
    ensures
        spec_const_flag(fs) is Some <==> spec_has_const(fs),
    decreases fs.len(),
{
    if fs.len() > 0 {
        lemma_const_flag_iff_has(fs.drop_last());
        if spec_has_const(fs.drop_last()) {
            let i = choose|i: int| 0 <= i < fs.drop_last().len()
                && (#[trigger] fs.drop_last()[i]).constness is Some;
            assert(fs[i].constness is Some);
        }
        if spec_has_const(fs) && fs.last().constness is None {
            let i = choose|i: int| 0 <= i < fs.len() && (#[trigger] fs[i]).constness is Some;
            assert(fs.drop_last()[i].constness is Some);
        }
    }
}

/// `spec_first_conflict` returns exactly the least conflicting index.
pub proof fn lemma_first_conflict_characterization(fs: Seq<SpecSig>)
    ensures
        match spec_first_conflict(fs) {
            Option::Some(k) => 0 <= k < fs.len() && spec_conflict_at(fs, k)
                && forall|i: int| 0 <= i < k ==> !spec_conflict_at(fs, i),
            Option::None => forall|i: int| 0 <= i < fs.len() ==> !spec_conflict_at(fs, i),
        },
    decreases fs.len(),
{
    if fs.len() > 0 {
        lemma_first_conflict_characterization(fs.drop_last());
        assert forall|i: int| 0 <= i < fs.len() - 1 implies
            spec_conflict_at(fs.drop_last(), i) == spec_conflict_at(fs, i) by {
            assert(fs.drop_last().take(i) =~= fs.take(i));
            assert(fs.drop_last()[i] == fs[i]);
        }
    }
}

// ---------------------------------------------------------------------------
// The extractor
// ---------------------------------------------------------------------------

/// Reads the attribute's invocation arguments: nothing, or the single
/// visibility marker `pub` for the generated enum. Anything else is a fatal
/// diagnostic at the offending token.
pub open spec fn spec_pub_token(args: Seq<SpecArgToken>) -> Result<Option<u64>, Diagnostic> {
    if args.len() == 0 {
        Result::Ok(Option::None)
    } else if args[0].text != "pub"@ {
        Result::Err(Diagnostic { kind: DiagKind::InvalidInvocationArgument, span: args[0].span })
    } else if args.len() > 1 {
        Result::Err(Diagnostic { kind: DiagKind::InvalidInvocationArgument, span: args[1].span })
    } else {
        Result::Ok(Option::Some(args[0].span))
    }
}

/// Validates the attribute's invocation arguments. `Ok(Some(span))` is the
/// span of the accepted `pub` marker.
pub fn pub_token(args: &Vec<ArgToken>) -> (r: Result<Option<u64>, Diagnostic>)
    ensures
        r == spec_pub_token(args.deep_view()),
{
    if args.len() == 0 {
        Result::Ok(Option::None)
    } else {
        let pub_text: String = "pub".to_owned();
        if !(args[0].text == pub_text) {
            Result::Err(Diagnostic {
                kind: DiagKind::InvalidInvocationArgument,
                span: args[0].span,
            })
        } else if args.len() > 1 {
            Result::Err(Diagnostic {
                kind: DiagKind::InvalidInvocationArgument,
                span: args[1].span,
            })
        } else {
            Result::Ok(Option::Some(args[0].span))
        }
    }
}

/// The function set extracted from one `impl` block: its function members in
/// original order, their unified return type, and the aggregated effect
/// qualifiers (each the span of the keyword on the last function set it).
pub struct Functions {
    pub signatures: Vec<Signature>,
    pub return_type: Ret,
    pub asyncness: Option<u64>,
    pub constness: Option<u64>,
    pub unsafety: Option<u64>,
}

/// A successful extraction: the function set, and the non-fatal diagnostics
/// collected along the way (return-type mismatches), in discovery order.
pub struct Extraction {
    pub functions: Functions,
    pub diagnostics: Vec<Diagnostic>,
}

impl Functions {
    /// The empty function set: no members, absent return type, no qualifiers.
    fn new() -> (r: Self)
        ensures
            r.signatures@.len() == 0,
            r.return_type@ == SpecRet::Default,
            r.asyncness is None,
            r.constness is None,
            r.unsafety is None,
    {
        Functions {
            signatures: Vec::new(),
            return_type: Ret::Default,
            asyncness: Option::None,
            constness: Option::None,
            unsafety: Option::None,
        }
    }

    /// Extracts the function set of an `impl` block.
    ///
    /// Non-function members are skipped. Every function's declared return
    /// type is compared against the first function's; a difference yields a
    /// pair of non-fatal diagnostics and extraction goes on. Mixing `async`
    /// and `const` across the set is fatal: extraction stops at the first
    /// function that completes the mix and returns every diagnostic collected
    /// so far, the conflict's two last.
    pub fn try_from(input: &ImplBlock) -> (r: Result<Extraction, Vec<Diagnostic>>)
        ensures
            ({
                let fs = spec_functions_of(input@.items);
                match r {
                    Result::Ok(ex) => {
                        &&& spec_first_conflict(fs) is None
                        &&& ex.functions.signatures.deep_view() == fs
                        &&& ex.functions.return_type@ == spec_unified_ret(fs)
                        &&& ex.functions.asyncness == spec_async_flag(fs)
                        &&& ex.functions.constness == spec_const_flag(fs)
                        &&& ex.functions.unsafety == spec_unsafe_flag(fs)
                        &&& ex.diagnostics@ == spec_mismatch_diags(fs, fs.len() as int)
                    },
                    Result::Err(diags) => {
                        &&& spec_first_conflict(fs) is Some
                        &&& diags@ == spec_mismatch_diags(fs, (spec_first_conflict(fs)->0) + 1)
                            + spec_conflict_diags(fs, spec_first_conflict(fs)->0)
                    },
                }
            }),
    {
        // Collect the function members, in order.
        let mut sigs: Vec<Signature> = Vec::new();
        let mut i: usize = 0;
        while i < input.items.len()
            invariant
                i <= input.items.len(),
                sigs.deep_view() == spec_functions_of(input@.items.take(i as int)),
            decreases input.items.len() - i,
        {
            proof {
                assert(input@.items.take(i + 1).drop_last() =~= input@.items.take(i as int));
                assert(input@.items.take(i + 1).last() == input@.items[i as int]);
            }
            match &input.items[i] {
                Member::Function(sig) => {
                    sigs.push(sig.clone());
                    proof {
                        assert(sigs.deep_view() =~= spec_functions_of(
                            input@.items.take(i + 1)));
                    }
                },
                Member::Other(_) => {
                    proof {
                        assert(sigs.deep_view() =~= spec_functions_of(
                            input@.items.take(i + 1)));
                    }
                },
            }
            i += 1;
        }
        proof {
            assert(input@.items.take(input.items@.len() as int) =~= input@.items);
        }
        let ghost fs = spec_functions_of(input@.items);
        assert(sigs.deep_view() == fs);

        // Validate the set and accumulate diagnostics and qualifiers.
        let mut diags: Vec<Diagnostic> = Vec::new();
        let mut result = Functions::new();
        let mut j: usize = 0;
        while j < sigs.len()
            invariant
                j <= sigs.len(),
                fs == spec_functions_of(input@.items),
                sigs.deep_view() == fs,
                result.return_type@ == SpecRet::Default,
                forall|k: int| 0 <= k < j ==> !spec_conflict_at(fs, k),
                diags@ == spec_mismatch_diags(fs, j as int),
                result.asyncness == spec_async_flag(fs.take(j as int)),
                result.constness == spec_const_flag(fs.take(j as int)),
                result.unsafety == spec_unsafe_flag(fs.take(j as int)),
            decreases sigs.len() - j,
        {
            proof {
                assert(fs.take(j + 1).drop_last() =~= fs.take(j as int));
                assert(fs.take(j + 1).last() == fs[j as int]);
            }

            // Return-type unification: report both ends of a mismatch.
            let same = sigs[0].output.same_as(&sigs[j].output);
            if !same {
                diags.push(Diagnostic {
                    kind: DiagKind::ReturnTypeMismatch,
                    span: sigs[0].output_span,
                });
                diags.push(Diagnostic {
                    kind: DiagKind::ReturnTypeMismatch,
                    span: sigs[j].output_span,
                });
            }
            proof {
                assert(diags@ =~= spec_mismatch_diags(fs, j + 1));
            }

            // The fatal mix of `async` and `const`.
            proof {
                lemma_async_flag_iff_has(fs.take(j as int));
                lemma_const_flag_iff_has(fs.take(j as int));
            }
            let conflict = (sigs[j].asyncness.is_some() && result.constness.is_some())
                || (sigs[j].constness.is_some() && result.asyncness.is_some());
            if conflict {
                assert(spec_conflict_at(fs, j as int));
                let async_span: u64 = match sigs[j].asyncness {
                    Option::Some(sp) => sp,
                    Option::None => result.asyncness.unwrap(),
                };
                let const_span: u64 = match sigs[j].constness {
                    Option::Some(sp) => sp,
                    Option::None => result.constness.unwrap(),
                };
                diags.push(Diagnostic {
                    kind: DiagKind::EffectQualifierConflict,
                    span: async_span,
                });
                diags.push(Diagnostic {
                    kind: DiagKind::EffectQualifierConflict,
                    span: const_span,
                });
                proof {
                    lemma_first_conflict_characterization(fs);
                    if spec_first_conflict(fs) is Some {
                        let k = spec_first_conflict(fs)->0;
                        if k < j as int {
                            assert(!spec_conflict_at(fs, k));
                        }
                        if k > j as int {
                            assert(!spec_conflict_at(fs, j as int));
                        }
                    }
                    assert(spec_first_conflict(fs) == Option::Some(j as int));
                    assert(diags@ =~= spec_mismatch_diags(fs, j + 1)
                        + spec_conflict_diags(fs, j as int));
                }
                return Result::Err(diags);
            }

            // Accumulate the qualifiers: a later keyword wins the span.
            if sigs[j].asyncness.is_some() {
                result.asyncness = sigs[j].asyncness;
            }
            if sigs[j].constness.is_some() {
                result.constness = sigs[j].constness;
            }
            if sigs[j].unsafety.is_some() {
                result.unsafety = sigs[j].unsafety;
            }
            j += 1;
        }
        proof {
            assert(fs.take(sigs@.len() as int) =~= fs);
            lemma_first_conflict_characterization(fs);
            if spec_first_conflict(fs) is Some {
                assert(!spec_conflict_at(fs, spec_first_conflict(fs)->0));
            }
            assert(spec_first_conflict(fs) is None);
        }

        // The unified return type is the first function's, if there is one.
        if sigs.len() > 0 {
            result.return_type = sigs[0].output.clone();
            proof {
                assert(fs[0] == sigs@[0].deep_view());
                assert(fs[0].output == sigs@[0]@.output);
                assert(result.return_type@ == spec_unified_ret(fs));
            }
        }
        result.signatures = sigs;
        Result::Ok(Extraction { functions: result, diagnostics: diags })
    }
}

// ---------------------------------------------------------------------------
// Laws of the extraction
// ---------------------------------------------------------------------------

/// Every function member of a well-formed member list is well-formed.
pub proof fn lemma_functions_of_wf(items: Seq<SpecMember>)
    requires
        forall|i: int| 0 <= i < items.len() ==> (#[trigger] items[i]).wf(),
    ensures
        forall|k: int| 0 <= k < spec_functions_of(items).len()
            ==> (#[trigger] spec_functions_of(items)[k]).wf(),
    decreases items.len(),
{
    if items.len() > 0 {
        assert(forall|i: int| 0 <= i < items.drop_last().len()
            ==> (#[trigger] items.drop_last()[i]).wf());
        lemma_functions_of_wf(items.drop_last());
        let rest = spec_functions_of(items.drop_last());
        let fs = spec_functions_of(items);
        match items.last() {
            SpecMember::Function(s) => {
                assert(items[items.len() - 1].wf());
                assert(fs == rest.push(s));
                assert forall|k: int| 0 <= k < fs.len() implies (#[trigger] fs[k]).wf() by {
                    if k < rest.len() {
                        assert(fs[k] == rest[k]);
                    } else {
                        assert(fs[k] == s);
                    }
                }
            },
            SpecMember::Other(_) => {
                assert(fs == rest);
            },
        }
    }
}

/// Return-type unification, the agreeing half: when every function member
/// declares the same return type, the set unifies on it and no return-type
/// diagnostic is reported.
pub proof fn lemma_return_type_unification(items: Seq<SpecMember>, t: SpecRet)
    requires
        spec_functions_of(items).len() > 0,
        forall|i: int| 0 <= i < spec_functions_of(items).len()
            ==> (#[trigger] spec_functions_of(items)[i]).output == t,
    ensures
        spec_unified_ret(spec_functions_of(items)) == t,
        spec_mismatch_diags(spec_functions_of(items), spec_functions_of(items).len() as int)
            == Seq::<Diagnostic>::empty(),
{
    let fs = spec_functions_of(items);
    lemma_no_mismatch_prefix(fs, fs.len() as int);
}

proof fn lemma_no_mismatch_prefix(fs: Seq<SpecSig>, upto: int)
    requires
        upto <= fs.len(),
        forall|i: int| 0 <= i < fs.len() ==> (#[trigger] fs[i]).output == fs[0].output,
    ensures
        spec_mismatch_diags(fs, upto) == Seq::<Diagnostic>::empty(),
    decreases upto,
{
    if upto > 0 {
        lemma_no_mismatch_prefix(fs, upto - 1);
        assert(spec_mismatch_diags(fs, upto) =~= spec_mismatch_diags(fs, upto - 1));
    }
}

/// Return-type unification, the disagreeing half: a function member whose
/// declared return type differs from the first function's is reported at its
/// own return type's span, and the set still unifies on the first-seen type.
pub proof fn lemma_return_type_mismatch_reported(items: Seq<SpecMember>, i: int)
    requires
        0 <= i < spec_functions_of(items).len(),
        spec_functions_of(items)[i].output != spec_functions_of(items)[0].output,
    ensures
        spec_unified_ret(spec_functions_of(items)) == spec_functions_of(items)[0].output,
        spec_mismatch_diags(spec_functions_of(items), spec_functions_of(items).len() as int)
            .contains(Diagnostic {
            kind: DiagKind::ReturnTypeMismatch,
            span: spec_functions_of(items)[i].output_span,
        }),
{
    let fs = spec_functions_of(items);
    lemma_mismatch_reported_prefix(fs, i, fs.len() as int);
}

proof fn lemma_mismatch_reported_prefix(fs: Seq<SpecSig>, i: int, upto: int)
    requires
        0 <= i < upto <= fs.len(),
        fs[i].output != fs[0].output,
    ensures
        spec_mismatch_diags(fs, upto).contains(Diagnostic {
            kind: DiagKind::ReturnTypeMismatch,
            span: fs[i].output_span,
        }),
    decreases upto,
{
    let d = Diagnostic { kind: DiagKind::ReturnTypeMismatch, span: fs[i].output_span };
    if i == upto - 1 {
        assert(spec_mismatch_diags(fs, upto)[spec_mismatch_diags(fs, upto - 1).len() as int + 1]
            == d);
    } else {
        lemma_mismatch_reported_prefix(fs, i, upto - 1);
        let k = choose|k: int| 0 <= k < spec_mismatch_diags(fs, upto - 1).len()
            && #[trigger] spec_mismatch_diags(fs, upto - 1)[k] == d;
        assert(spec_mismatch_diags(fs, upto)[k] == d);
    }
}

/// Mutual exclusion: a well-formed function set with an asynchronous member
/// and a constant-evaluable member always trips the fatal qualifier conflict,
/// so the transformation aborts and produces no output.
pub proof fn lemma_mutual_exclusion(items: Seq<SpecMember>)
    requires
        forall|i: int| 0 <= i < items.len() ==> (#[trigger] items[i]).wf(),
        spec_has_async(spec_functions_of(items)),
        spec_has_const(spec_functions_of(items)),
    ensures
        spec_first_conflict(spec_functions_of(items)) is Some,
{
    let fs = spec_functions_of(items);
    lemma_functions_of_wf(items);
    let i = choose|i: int| 0 <= i < fs.len() && (#[trigger] fs[i]).asyncness is Some;
    let j = choose|j: int| 0 <= j < fs.len() && (#[trigger] fs[j]).constness is Some;
    if i < j {
        assert(fs.take(j)[i] == fs[i]);
        assert(spec_conflict_at(fs, j));
    } else if j < i {
        assert(fs.take(i)[j] == fs[j]);
        assert(spec_conflict_at(fs, i));
    } else {
        assert(!fs[i].wf());
    }
    lemma_first_conflict_characterization(fs);
}

} // verus!

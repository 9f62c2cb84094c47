use vstd::prelude::*;

verus! {

/// The kinds of problem the transformation can find in its input.
///
/// Every diagnostic points at a source span (an opaque identifier handed in by
/// the host toolchain together with the input) so the host can report it at
/// the offending construct.
#[derive(Clone, Copy, Debug, PartialEq, Eq, Structural)]
pub enum DiagKind {
    /// The attribute's invocation arguments were neither empty nor the single
    /// visibility marker `pub`.
    InvalidInvocationArgument,
    /// A function member's return type differs from the return type of the
    /// first function member.
    ReturnTypeMismatch,
    /// The function members mix `async` and `const`, which the generated
    /// dispatch function cannot be at once.
    EffectQualifierConflict,
    /// An argument's binding pattern is neither a simple name nor `_`.
    UnsupportedBindingPattern,
}

/// One diagnostic: a kind and the span it points at.
#[derive(Clone, Copy, Debug, PartialEq, Eq, Structural)]
pub struct Diagnostic {
    pub kind: DiagKind,
    pub span: u64,
}

/// Whether a diagnostic of this kind aborts the transformation.
///
/// A fatal diagnostic leaves no output at all; a non-fatal one is reported
/// alongside a best-effort output.
pub open spec fn spec_is_fatal(kind: DiagKind) -> bool {
    match kind {
        DiagKind::ReturnTypeMismatch => false,
        _ => true,
    }
}

/// Exec counterpart of [`spec_is_fatal`], for hosts that route diagnostics.
pub fn is_fatal(kind: DiagKind) -> (r: bool)
    ensures
        r == spec_is_fatal(kind),
{
    match kind {
        DiagKind::ReturnTypeMismatch => false,
        _ => true,
    }
}

} // verus!
